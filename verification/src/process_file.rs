//! The decisions of linting one file: check its size, fix it if asked, pull its
//! diagnostics and report them.
//!
//! The work with the workspace (reading and writing the file, running the analyzer,
//! the handlers of files that embed scripts) is done by the caller: `start` and
//! `step` tell it what to do next, and it hands back what came of it.
use vstd::prelude::*;

verus! {

/// What became of a file.
#[derive(Debug, Clone, Copy, PartialEq, Eq, Structural)]
pub enum FileStatus {
    Changed,
    Unchanged,
    Ignored,
}

/// A file format that embeds scripts, whose handler maps between the file and its scripts.
#[derive(Debug, Clone, Copy, PartialEq, Eq, Structural)]
pub enum EmbeddingHost {
    Astro,
    Vue,
    Svelte,
}

/// The severity of a diagnostic.
#[derive(Debug, Clone, Copy, PartialEq, Eq, Structural)]
pub enum Severity {
    Hint,
    Information,
    Warning,
    Error,
    Fatal,
}

/// A diagnostic pulled from the analyzer: its category's name, its severity, and
/// the offset of the script inside the file, if one was set.
#[derive(Debug, Clone, PartialEq, Eq)]
pub struct PulledDiagnostic {
    pub category: Option<String>,
    pub severity: Severity,
    pub offset: Option<u32>,
}

/// How the files are traversed; a lint traversal may select or skip rules.
#[derive(Debug, Clone, PartialEq, Eq)]
pub enum TraversalMode {
    Lint { only: Vec<String>, skip: Vec<String> },
    Other,
}

/// What the execution asks of the file's lint.
#[derive(Debug, Clone, PartialEq, Eq)]
pub struct LintSettings {
    /// Whether fixes are applied.
    pub fix: bool,
    /// Whether diagnostics are suppressed with comments.
    pub suppress: bool,
    /// The reason written into suppression comments.
    pub suppression_reason: Option<String>,
    /// Whether a file with parse errors is skipped.
    pub skip_parse_errors: bool,
    /// Whether diagnostics of assists are raised to errors.
    pub enforce_assist: bool,
    /// The extension of the file.
    pub extension: Option<String>,
}

/// Where the lint of a file stands.
#[derive(Debug, Clone, PartialEq, Eq)]
pub enum Phase {
    CheckingSize,
    ReadingInput,
    Fixing { input: String },
    Embedding { input: String },
    Updating,
    RereadingInput,
    Pulling { input: String, changed: bool },
    Locating { input: String, changed: bool, diagnostics: Vec<PulledDiagnostic>, skipped: u64 },
    Done,
}

/// What came of the last command.
#[derive(Debug, Clone, PartialEq, Eq)]
pub enum Event {
    SizeChecked { too_large: bool },
    InputRead(String),
    Fixed { code: String, skipped_fixes: u32 },
    Embedded(String),
    Updated,
    Pulled { errors: usize, diagnostics: Vec<PulledDiagnostic>, skipped: u64 },
    Located(Option<u32>),
    /// The command failed; its error is the lint's.
    Failed,
}

/// What the caller does next.
#[derive(Debug, Clone, PartialEq, Eq)]
pub enum Command {
    CheckFileSize,
    ReadInput,
    /// Fix the file, writing `suppression_explanation` into suppression comments.
    FixFile { suppression_explanation: String },
    /// Put the fixed scripts `output` back into the file `input`.
    EmbedOutput { host: EmbeddingHost, input: String, output: String },
    UpdateFile(String),
    PullDiagnostics,
    /// Find where the scripts start in the file `input`.
    LocateContent { host: EmbeddingHost, input: String },
    Finish(FileStatus),
    Abort,
}

/// A message for the user.
#[derive(Debug, Clone, PartialEq, Eq)]
pub enum Report {
    FileTooLarge,
    SkippedFixes(u32),
    SkippedDiagnostic,
    Diagnostics { content: String, diagnostics: Vec<PulledDiagnostic>, skipped: u32 },
}

/// A message to push, if any, and the next command.
#[derive(Debug, Clone, PartialEq, Eq)]
pub struct Action {
    pub report: Option<Report>,
    pub command: Command,
}

/// The rule filters of a traversal: those of a lint traversal, none otherwise.
pub fn lint_filters(mode: TraversalMode) -> (r: (Vec<String>, Vec<String>))
    ensures
        match mode {
            TraversalMode::Lint { only, skip } => r.0 == only && r.1 == skip,
            TraversalMode::Other => r.0@.len() == 0 && r.1@.len() == 0,
        },
{
    match mode {
        TraversalMode::Lint { only, skip } => (only, skip),
        TraversalMode::Other => (Vec::new(), Vec::new()),
    }
}

/// The explanation written into suppression comments.
pub open spec fn explanation_text(suppress: bool, suppression_reason: Option<String>) -> Seq<char> {
    if suppress && suppression_reason is None {
        "ignored using `--suppress`"@
    } else {
        match suppression_reason {
            Some(reason) => reason@,
            None => "<explanation>"@,
        }
    }
}

/// The explanation written into suppression comments: the reason given, or a note
/// that `--suppress` was used, or a placeholder.
pub fn suppression_explanation(suppress: bool, suppression_reason: &Option<String>) -> (r: String)
    ensures
        r@ == explanation_text(suppress, *suppression_reason),
{
    if suppress && suppression_reason.is_none() {
        String::from_str("ignored using `--suppress`")
    } else {
        match suppression_reason {
            Some(reason) => reason.clone(),
            None => String::from_str("<explanation>"),
        }
    }
}

/// The host format of a file with the given extension.
pub open spec fn host_of(extension: Option<String>) -> Option<EmbeddingHost> {
    match extension {
        Some(e) => if e@ == "astro"@ {
            Some(EmbeddingHost::Astro)
        } else if e@ == "vue"@ {
            Some(EmbeddingHost::Vue)
        } else if e@ == "svelte"@ {
            Some(EmbeddingHost::Svelte)
        } else {
            None
        },
        None => None,
    }
}

/// The host format of a file with the given extension: `astro`, `vue` or `svelte`.
pub fn embedding_host(extension: &Option<String>) -> (r: Option<EmbeddingHost>)
    ensures
        r == host_of(*extension),
{
    match extension {
        Some(e) => {
            if *e == String::from_str("astro") {
                Some(EmbeddingHost::Astro)
            } else if *e == String::from_str("vue") {
                Some(EmbeddingHost::Vue)
            } else if *e == String::from_str("svelte") {
                Some(EmbeddingHost::Svelte)
            } else {
                None
            }
        },
        None => None,
    }
}

/// Whether `text` starts with `prefix`.
pub fn has_prefix(text: &str, prefix: &str) -> (r: bool)
    ensures
        r == prefix@.is_prefix_of(text@),
{
    let n = prefix.unicode_len();
    let m = text.unicode_len();
    if n > m {
        return false;
    }
    let mut i: usize = 0;
    while i < n
        invariant
            n == prefix@.len(),
            m == text@.len(),
            n <= m,
            i <= n,
            forall|j: int| 0 <= j < i ==> prefix@[j] == text@[j],
        decreases n - i,
    {
        if text.get_char(i) != prefix.get_char(i) {
            return false;
        }
        i = i + 1;
    }
    assert(prefix@ =~= text@.subrange(0, prefix@.len() as int));
    true
}

/// Whether a diagnostic is raised to an error: its category is an assist's and
/// assists are enforced.
pub open spec fn raised_to_error(diagnostic: PulledDiagnostic, enforce_assist: bool) -> bool {
    diagnostic.category matches Some(c) && "assist/"@.is_prefix_of(c@) && enforce_assist
}

/// A pulled diagnostic as it is reported: moved by the offset of the scripts, if
/// known, and raised to an error where assists are enforced.
pub open spec fn reported(diagnostic: PulledDiagnostic, offset: Option<u32>, enforce_assist: bool) -> PulledDiagnostic {
    PulledDiagnostic {
        category: diagnostic.category,
        severity: if raised_to_error(diagnostic, enforce_assist) {
            Severity::Error
        } else {
            diagnostic.severity
        },
        offset: match offset {
            Some(o) => Some(o),
            None => diagnostic.offset,
        },
    }
}

/// Whether `reported_diagnostics` are `pulled` as reported, one for one.
pub open spec fn all_reported(
    pulled: Seq<PulledDiagnostic>,
    reported_diagnostics: Seq<PulledDiagnostic>,
    offset: Option<u32>,
    enforce_assist: bool,
) -> bool {
    &&& reported_diagnostics.len() == pulled.len()
    &&& forall|i: int|
        0 <= i < pulled.len() ==> #[trigger] reported_diagnostics[i] == reported(pulled[i], offset, enforce_assist)
}

/// The diagnostics as they are reported.
pub fn report_diagnostics(
    diagnostics: Vec<PulledDiagnostic>,
    offset: Option<u32>,
    enforce_assist: bool,
) -> (r: Vec<PulledDiagnostic>)
    ensures
        all_reported(diagnostics@, r@, offset, enforce_assist),
{
    let ghost all = diagnostics@;
    let n = diagnostics.len();
    let mut diagnostics = diagnostics;
    let mut result: Vec<PulledDiagnostic> = Vec::new();
    let mut k: usize = 0;
    while diagnostics.len() > 0
        invariant
            k + diagnostics@.len() == all.len(),
            all.len() == n,
            diagnostics@ == all.subrange(k as int, all.len() as int),
            result@.len() == k,
            forall|i: int| 0 <= i < k ==> #[trigger] result@[i] == reported(all[i], offset, enforce_assist),
        decreases diagnostics@.len(),
    {
        let d = diagnostics.remove(0);
        assert(d == all[k as int]);
        let raise = match &d.category {
            Some(c) => has_prefix(c.as_str(), "assist/") && enforce_assist,
            None => false,
        };
        let severity = if raise {
            Severity::Error
        } else {
            d.severity
        };
        let new_offset = match offset {
            Some(o) => Some(o),
            None => d.offset,
        };
        result.push(PulledDiagnostic { category: d.category, severity, offset: new_offset });
        k = k + 1;
        assert(diagnostics@ =~= all.subrange(k as int, all.len() as int));
    }
    result
}

/// The status of a linted file that was not ignored.
pub open spec fn status_of(changed: bool) -> FileStatus {
    if changed {
        FileStatus::Changed
    } else {
        FileStatus::Unchanged
    }
}

/// The first command: check the file's size.
pub fn start() -> (r: (Phase, Action))
    ensures
        r.0 == Phase::CheckingSize,
        r.1 == (Action { report: None, command: Command::CheckFileSize }),
{
    (Phase::CheckingSize, Action { report: None, command: Command::CheckFileSize })
}

/// What follows the (fixed, embedded) `output` of the file `input`: when it differs,
/// write it; otherwise pull the diagnostics of the unchanged file.
pub open spec fn after_output(input: String, output: String, next: Phase, action: Action, report: Option<Report>) -> bool {
    if output@ != input@ {
        next == Phase::Updating && action == (Action { report, command: Command::UpdateFile(output) })
    } else {
        next == (Phase::Pulling { input, changed: false }) && action == (Action {
            report,
            command: Command::PullDiagnostics,
        })
    }
}

/// What follows the pulled diagnostics of the file `input`, when the scripts' offset
/// in the file is `offset`: report them, unless there are none, and finish.
pub open spec fn after_location(
    settings: LintSettings,
    input: String,
    changed: bool,
    diagnostics: Seq<PulledDiagnostic>,
    skipped: u64,
    offset: Option<u32>,
    next: Phase,
    action: Action,
) -> bool {
    &&& next == Phase::Done
    &&& action.command == Command::Finish(status_of(changed))
    &&& action.report matches Some(Report::Diagnostics { content, diagnostics: reported_diagnostics, skipped: s })
    &&& content == input
    &&& s == skipped as u32
    &&& all_reported(diagnostics, reported_diagnostics@, offset, settings.enforce_assist)
}

/// One step of the lint of a file: from where it stands and what came of the last
/// command, where it stands next and what the caller does.
pub open spec fn step_spec(settings: LintSettings, phase: Phase, event: Event, next: Phase, action: Action) -> bool {
    let abort = next == Phase::Done && action == (Action { report: None, command: Command::Abort });
    match (phase, event) {
        (Phase::CheckingSize, Event::SizeChecked { too_large }) => if too_large {
            next == Phase::Done && action == (Action {
                report: Some(Report::FileTooLarge),
                command: Command::Finish(FileStatus::Ignored),
            })
        } else {
            next == Phase::ReadingInput && action == (Action { report: None, command: Command::ReadInput })
        },
        (Phase::ReadingInput, Event::InputRead(input)) => if settings.fix {
            &&& next == (Phase::Fixing { input })
            &&& action.report is None
            &&& action.command matches Command::FixFile { suppression_explanation: e }
            &&& e@ == explanation_text(settings.suppress, settings.suppression_reason)
        } else {
            next == (Phase::Pulling { input, changed: false }) && action == (Action {
                report: None,
                command: Command::PullDiagnostics,
            })
        },
        (Phase::Fixing { input }, Event::Fixed { code, skipped_fixes }) => {
            let report = Some(Report::SkippedFixes(skipped_fixes));
            match host_of(settings.extension) {
                Some(host) => next == (Phase::Embedding { input }) && action == (Action {
                    report,
                    command: Command::EmbedOutput { host, input, output: code },
                }),
                None => after_output(input, code, next, action, report),
            }
        },
        (Phase::Embedding { input }, Event::Embedded(output)) => after_output(input, output, next, action, None),
        (Phase::Updating, Event::Updated) => next == Phase::RereadingInput && action == (Action {
            report: None,
            command: Command::ReadInput,
        }),
        (Phase::RereadingInput, Event::InputRead(input)) => next == (Phase::Pulling {
            input,
            changed: true,
        }) && action == (Action { report: None, command: Command::PullDiagnostics }),
        (Phase::Pulling { input, changed }, Event::Pulled { errors, diagnostics, skipped }) => {
            if errors > 0 && settings.skip_parse_errors {
                next == Phase::Done && action == (Action {
                    report: Some(Report::SkippedDiagnostic),
                    command: Command::Finish(FileStatus::Ignored),
                })
            } else if diagnostics@.len() == 0 && skipped == 0 {
                next == Phase::Done && action == (Action {
                    report: None,
                    command: Command::Finish(status_of(changed)),
                })
            } else {
                match host_of(settings.extension) {
                    Some(host) => next == (Phase::Locating { input, changed, diagnostics, skipped })
                        && action == (Action { report: None, command: Command::LocateContent { host, input } }),
                    None => after_location(settings, input, changed, diagnostics@, skipped, None, next, action),
                }
            }
        },
        (Phase::Locating { input, changed, diagnostics, skipped }, Event::Located(offset)) =>
            after_location(settings, input, changed, diagnostics@, skipped, offset, next, action),
        _ => abort,
    }
}

fn follow_output(input: String, output: String, report: Option<Report>) -> (r: (Phase, Action))
    ensures
        after_output(input, output, r.0, r.1, report),
{
    if output != input {
        (Phase::Updating, Action { report, command: Command::UpdateFile(output) })
    } else {
        (Phase::Pulling { input, changed: false }, Action { report, command: Command::PullDiagnostics })
    }
}

fn finish_with_diagnostics(
    settings: &LintSettings,
    input: String,
    changed: bool,
    diagnostics: Vec<PulledDiagnostic>,
    skipped: u64,
    offset: Option<u32>,
) -> (r: (Phase, Action))
    ensures
        after_location(*settings, input, changed, diagnostics@, skipped, offset, r.0, r.1),
{
    let reported_diagnostics = report_diagnostics(diagnostics, offset, settings.enforce_assist);
    let status = if changed {
        FileStatus::Changed
    } else {
        FileStatus::Unchanged
    };
    (
        Phase::Done,
        Action {
            report: Some(
                Report::Diagnostics {
                    content: input,
                    diagnostics: reported_diagnostics,
                    skipped: skipped as u32,
                },
            ),
            command: Command::Finish(status),
        },
    )
}

/// One step of the lint of a file.
pub fn step(settings: &LintSettings, phase: Phase, event: Event) -> (r: (Phase, Action))
    ensures
        step_spec(*settings, phase, event, r.0, r.1),
{
    match (phase, event) {
        (Phase::CheckingSize, Event::SizeChecked { too_large }) => {
            if too_large {
                (
                    Phase::Done,
                    Action {
                        report: Some(Report::FileTooLarge),
                        command: Command::Finish(FileStatus::Ignored),
                    },
                )
            } else {
                (Phase::ReadingInput, Action { report: None, command: Command::ReadInput })
            }
        },
        (Phase::ReadingInput, Event::InputRead(input)) => {
            if settings.fix {
                let explanation = suppression_explanation(settings.suppress, &settings.suppression_reason);
                (
                    Phase::Fixing { input },
                    Action {
                        report: None,
                        command: Command::FixFile { suppression_explanation: explanation },
                    },
                )
            } else {
                (Phase::Pulling { input, changed: false }, Action { report: None, command: Command::PullDiagnostics })
            }
        },
        (Phase::Fixing { input }, Event::Fixed { code, skipped_fixes }) => {
            let report = Some(Report::SkippedFixes(skipped_fixes));
            match embedding_host(&settings.extension) {
                Some(host) => {
                    let embedded_input = input.clone();
                    (
                        Phase::Embedding { input },
                        Action { report, command: Command::EmbedOutput { host, input: embedded_input, output: code } },
                    )
                },
                None => follow_output(input, code, report),
            }
        },
        (Phase::Embedding { input }, Event::Embedded(output)) => follow_output(input, output, None),
        (Phase::Updating, Event::Updated) => {
            (Phase::RereadingInput, Action { report: None, command: Command::ReadInput })
        },
        (Phase::RereadingInput, Event::InputRead(input)) => {
            (Phase::Pulling { input, changed: true }, Action { report: None, command: Command::PullDiagnostics })
        },
        (Phase::Pulling { input, changed }, Event::Pulled { errors, diagnostics, skipped }) => {
            if errors > 0 && settings.skip_parse_errors {
                (
                    Phase::Done,
                    Action {
                        report: Some(Report::SkippedDiagnostic),
                        command: Command::Finish(FileStatus::Ignored),
                    },
                )
            } else if diagnostics.len() == 0 && skipped == 0 {
                let status = if changed {
                    FileStatus::Changed
                } else {
                    FileStatus::Unchanged
                };
                (Phase::Done, Action { report: None, command: Command::Finish(status) })
            } else {
                match embedding_host(&settings.extension) {
                    Some(host) => {
                        let located_input = input.clone();
                        (
                            Phase::Locating { input, changed, diagnostics, skipped },
                            Action { report: None, command: Command::LocateContent { host, input: located_input } },
                        )
                    },
                    None => finish_with_diagnostics(settings, input, changed, diagnostics, skipped, None),
                }
            }
        },
        (Phase::Locating { input, changed, diagnostics, skipped }, Event::Located(offset)) => {
            finish_with_diagnostics(settings, input, changed, diagnostics, skipped, offset)
        },
        _ => (Phase::Done, Action { report: None, command: Command::Abort }),
    }
}

/// The file is written only with fixed content that differs from what was read.
pub proof fn lemma_written_only_when_changed(
    settings: LintSettings,
    phase: Phase,
    event: Event,
    next: Phase,
    action: Action,
)
    requires
        step_spec(settings, phase, event, next, action),
        action.command is UpdateFile,
    ensures
        match phase {
            Phase::Fixing { input } => action.command->UpdateFile_0@ != input@,
            Phase::Embedding { input } => action.command->UpdateFile_0@ != input@,
            _ => false,
        },
        next == Phase::Updating,
{
}

/// A file is reported changed only after its fixed content was written: finishing
/// as changed comes from a phase that knows of a change, which only re-reading the
/// file after writing it enters, which only follows writing it.
pub proof fn lemma_changed_only_after_update(
    settings: LintSettings,
    phase: Phase,
    event: Event,
    next: Phase,
    action: Action,
)
    requires
        step_spec(settings, phase, event, next, action),
    ensures
        action.command == Command::Finish(FileStatus::Changed) ==> (phase matches Phase::Pulling {
            changed: true,
            ..
        } || phase matches Phase::Locating { changed: true, .. }),
        next matches Phase::Pulling { changed: true, .. } ==> phase == Phase::RereadingInput,
        next matches Phase::Locating { changed: true, .. } ==> phase matches Phase::Pulling {
            changed: true,
            ..
        },
        next == Phase::RereadingInput ==> phase == Phase::Updating,
        next == Phase::Updating ==> action.command is UpdateFile,
{
}

/// A file is ignored only when it is too large, or when it has parse errors that
/// are to be skipped.
pub proof fn lemma_ignored_only_when_too_large_or_unparsable(
    settings: LintSettings,
    phase: Phase,
    event: Event,
    next: Phase,
    action: Action,
)
    requires
        step_spec(settings, phase, event, next, action),
        action.command == Command::Finish(FileStatus::Ignored),
    ensures
        (phase == Phase::CheckingSize && event == Event::SizeChecked { too_large: true }) || (
        phase is Pulling && (event matches Event::Pulled { errors, .. } && errors > 0)
            && settings.skip_parse_errors),
{
}

/// Every reported diagnostic of an assist is an error when assists are enforced,
/// and every other keeps its severity.
pub proof fn lemma_assist_diagnostics_raised(
    pulled: Seq<PulledDiagnostic>,
    reported_diagnostics: Seq<PulledDiagnostic>,
    offset: Option<u32>,
    enforce_assist: bool,
    i: int,
)
    requires
        all_reported(pulled, reported_diagnostics, offset, enforce_assist),
        0 <= i < pulled.len(),
    ensures
        reported_diagnostics[i].category == pulled[i].category,
        raised_to_error(pulled[i], enforce_assist) ==> reported_diagnostics[i].severity == Severity::Error,
        !raised_to_error(pulled[i], enforce_assist) ==> reported_diagnostics[i].severity == pulled[i].severity,
{
    assert(reported_diagnostics[i] == reported(pulled[i], offset, enforce_assist));
}

/// Whether `event` is what `command` gives back when it succeeds.
pub open spec fn answers(command: Command, event: Event) -> bool {
    match (command, event) {
        (Command::CheckFileSize, Event::SizeChecked { .. }) => true,
        (Command::ReadInput, Event::InputRead(_)) => true,
        (Command::FixFile { .. }, Event::Fixed { .. }) => true,
        (Command::EmbedOutput { .. }, Event::Embedded(_)) => true,
        (Command::UpdateFile(_), Event::Updated) => true,
        (Command::PullDiagnostics, Event::Pulled { .. }) => true,
        (Command::LocateContent { .. }, Event::Located(_)) => true,
        _ => false,
    }
}

/// The lint aborts only on a failed or unanswered command: the first command, and
/// every command after a step, answered by what it gives back on success, leads
/// to a step that does not abort.
pub proof fn lemma_answered_commands_never_abort(
    settings: LintSettings,
    phase: Phase,
    event: Event,
    next: Phase,
    action: Action,
    answer: Event,
    after: Phase,
    after_action: Action,
)
    requires
        (phase == Phase::CheckingSize && event == Event::SizeChecked { too_large: false }
            && next == Phase::CheckingSize && action.command == Command::CheckFileSize) || step_spec(
            settings,
            phase,
            event,
            next,
            action,
        ),
        answers(action.command, answer),
        step_spec(settings, next, answer, after, after_action),
    ensures
        after_action.command != Command::Abort,
{
}

/// Whether the lint, standing at `phase`, knows that it wrote the file.
pub open spec fn knows_written(phase: Phase) -> bool {
    match phase {
        Phase::Updating => true,
        Phase::RereadingInput => true,
        Phase::Pulling { changed, .. } => changed,
        Phase::Locating { changed, .. } => changed,
        _ => false,
    }
}

/// Whether some of the first `n` actions writes the file.
pub open spec fn wrote_within(actions: Seq<Action>, n: int) -> bool {
    exists|j: int| 0 <= j < n && (#[trigger] actions[j]).command is UpdateFile
}

/// Whether `phases`, `events` and `actions` are a run of the lint of one file: it
/// starts by checking the size, and each step follows from the one before.
pub open spec fn lint_run(settings: LintSettings, phases: Seq<Phase>, events: Seq<Event>, actions: Seq<Action>) -> bool {
    &&& phases.len() == events.len() + 1
    &&& actions.len() == events.len()
    &&& phases[0] == Phase::CheckingSize
    &&& forall|i: int|
        0 <= i < events.len() ==> #[trigger] step_spec(settings, phases[i], events[i], phases[i + 1], actions[i])
}

proof fn lemma_step_knows_written(settings: LintSettings, phase: Phase, event: Event, next: Phase, action: Action)
    requires
        step_spec(settings, phase, event, next, action),
        next != Phase::Done,
    ensures
        phase != Phase::Done,
        knows_written(next) <==> (knows_written(phase) || action.command is UpdateFile),
{
}

proof fn lemma_run_knows_written(settings: LintSettings, phases: Seq<Phase>, events: Seq<Event>, actions: Seq<Action>, k: int)
    requires
        lint_run(settings, phases, events, actions),
        0 <= k < phases.len(),
        phases[k] != Phase::Done,
    ensures
        knows_written(phases[k]) <==> wrote_within(actions, k),
    decreases k,
{
    if k > 0 {
        let i = k - 1;
        assert(step_spec(settings, phases[i], events[i], phases[i + 1], actions[i]));
        assert(i + 1 == k);
        lemma_step_knows_written(settings, phases[k - 1], events[k - 1], phases[k], actions[k - 1]);
        lemma_run_knows_written(settings, phases, events, actions, k - 1);
        if wrote_within(actions, k) && !wrote_within(actions, k - 1) {
            let j = choose|j: int| 0 <= j < k && (#[trigger] actions[j]).command is UpdateFile;
            assert(j == k - 1);
        }
        if actions[k - 1].command is UpdateFile {
            assert(wrote_within(actions, k));
        }
    }
}

/// A lint that finishes without ignoring the file reports it changed exactly when
/// it wrote the file.
pub proof fn lemma_changed_iff_written(
    settings: LintSettings,
    phases: Seq<Phase>,
    events: Seq<Event>,
    actions: Seq<Action>,
    status: FileStatus,
)
    requires
        lint_run(settings, phases, events, actions),
        actions.len() > 0,
        actions.last().command == Command::Finish(status),
        status != FileStatus::Ignored,
    ensures
        status == FileStatus::Changed <==> wrote_within(actions, actions.len() as int),
{
    let n = actions.len() - 1;
    assert(step_spec(settings, phases[n], events[n], phases[n + 1], actions[n]));
    assert(phases[n] != Phase::Done);
    lemma_run_knows_written(settings, phases, events, actions, n);
    assert(knows_written(phases[n]) <==> status == FileStatus::Changed);
    if wrote_within(actions, n + 1) && !wrote_within(actions, n) {
        let j = choose|j: int| 0 <= j < n + 1 && (#[trigger] actions[j]).command is UpdateFile;
        assert(j == n);
    }
    if wrote_within(actions, n) {
        let j = choose|j: int| 0 <= j < n && (#[trigger] actions[j]).command is UpdateFile;
        assert(0 <= j < n + 1 && actions[j].command is UpdateFile);
    }
}

/// In fix mode every file is fixed once its content is read, whatever its
/// extension; the fix carries the suppression explanation. Outside fix mode, the
/// content read goes straight to pulling diagnostics, unchanged.
pub proof fn lemma_fix_mode_fixes_every_file(settings: LintSettings, input: String, next: Phase, action: Action)
    requires
        step_spec(settings, Phase::ReadingInput, Event::InputRead(input), next, action),
    ensures
        settings.fix ==> next == (Phase::Fixing { input }) && action.report is None
            && (action.command matches Command::FixFile { suppression_explanation: e }
                && e@ == explanation_text(settings.suppress, settings.suppression_reason)),
        !settings.fix ==> next == (Phase::Pulling { input, changed: false })
            && action.command == Command::PullDiagnostics && action.report is None,
{
}

/// Whether the fix happens does not depend on the file's extension: two settings
/// that differ only in the extension take the same step after the content is read.
pub proof fn lemma_fix_independent_of_extension(
    settings: LintSettings,
    other: LintSettings,
    input: String,
    next: Phase,
    action: Action,
)
    requires
        other.fix == settings.fix,
        other.suppress == settings.suppress,
        other.suppression_reason == settings.suppression_reason,
        step_spec(settings, Phase::ReadingInput, Event::InputRead(input), next, action),
    ensures
        step_spec(other, Phase::ReadingInput, Event::InputRead(input), next, action),
{
}

} // verus!
