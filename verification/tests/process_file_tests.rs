use readonly_lint::process_file::{
    embedding_host, has_prefix, lint_filters, report_diagnostics, start, step, suppression_explanation,
    Action, Command, EmbeddingHost, Event, FileStatus, LintSettings, Phase, PulledDiagnostic, Report,
    Severity, TraversalMode,
};

fn settings(fix: bool, extension: Option<&str>) -> LintSettings {
    LintSettings {
        fix,
        suppress: false,
        suppression_reason: None,
        skip_parse_errors: false,
        enforce_assist: false,
        extension: extension.map(|e| e.to_string()),
    }
}

fn diag(category: Option<&str>, severity: Severity) -> PulledDiagnostic {
    PulledDiagnostic { category: category.map(|c| c.to_string()), severity, offset: None }
}

fn command(action: &Action) -> &Command {
    &action.command
}

#[test]
fn too_large_file_is_ignored_unread() {
    let (phase, action) = start();
    assert_eq!(phase, Phase::CheckingSize);
    assert_eq!(action.command, Command::CheckFileSize);
    let (phase, action) = step(&settings(false, None), phase, Event::SizeChecked { too_large: true });
    assert_eq!(phase, Phase::Done);
    assert_eq!(action, Action { report: Some(Report::FileTooLarge), command: Command::Finish(FileStatus::Ignored) });
}

#[test]
fn lint_without_diagnostics_is_unchanged() {
    let s = settings(false, Some("ts"));
    let (phase, action) = step(&s, Phase::CheckingSize, Event::SizeChecked { too_large: false });
    assert_eq!(*command(&action), Command::ReadInput);
    let (phase, action) = step(&s, phase, Event::InputRead("let a = 1;".to_string()));
    assert_eq!(*command(&action), Command::PullDiagnostics);
    let (phase, action) = step(&s, phase, Event::Pulled { errors: 0, diagnostics: vec![], skipped: 0 });
    assert_eq!(phase, Phase::Done);
    assert_eq!(action, Action { report: None, command: Command::Finish(FileStatus::Unchanged) });
}

#[test]
fn fixed_vue_file_is_written_and_changed() {
    let s = settings(true, Some("vue"));
    let (phase, _) = step(&s, Phase::CheckingSize, Event::SizeChecked { too_large: false });
    let (phase, action) = step(&s, phase, Event::InputRead("<script>let a</script>".to_string()));
    assert_eq!(
        *command(&action),
        Command::FixFile { suppression_explanation: "<explanation>".to_string() }
    );
    let (phase, action) = step(&s, phase, Event::Fixed { code: "let b".to_string(), skipped_fixes: 2 });
    assert_eq!(action.report, Some(Report::SkippedFixes(2)));
    assert_eq!(
        action.command,
        Command::EmbedOutput {
            host: EmbeddingHost::Vue,
            input: "<script>let a</script>".to_string(),
            output: "let b".to_string(),
        }
    );
    let (phase, action) = step(&s, phase, Event::Embedded("<script>let b</script>".to_string()));
    assert_eq!(action.command, Command::UpdateFile("<script>let b</script>".to_string()));
    let (phase, action) = step(&s, phase, Event::Updated);
    assert_eq!(action.command, Command::ReadInput);
    let (phase, action) = step(&s, phase, Event::InputRead("<script>let b</script>".to_string()));
    assert_eq!(action.command, Command::PullDiagnostics);
    let (phase, action) = step(
        &s,
        phase,
        Event::Pulled { errors: 0, diagnostics: vec![diag(Some("lint/style/x"), Severity::Warning)], skipped: 0 },
    );
    assert_eq!(
        action.command,
        Command::LocateContent { host: EmbeddingHost::Vue, input: "<script>let b</script>".to_string() }
    );
    let (phase, action) = step(&s, phase, Event::Located(Some(8)));
    assert_eq!(phase, Phase::Done);
    assert_eq!(action.command, Command::Finish(FileStatus::Changed));
    assert_eq!(
        action.report,
        Some(Report::Diagnostics {
            content: "<script>let b</script>".to_string(),
            diagnostics: vec![PulledDiagnostic {
                category: Some("lint/style/x".to_string()),
                severity: Severity::Warning,
                offset: Some(8),
            }],
            skipped: 0,
        })
    );
}

#[test]
fn fix_without_change_is_not_written() {
    let s = settings(true, None);
    let (phase, action) = step(
        &s,
        Phase::Fixing { input: "a".to_string() },
        Event::Fixed { code: "a".to_string(), skipped_fixes: 0 },
    );
    assert_eq!(phase, Phase::Pulling { input: "a".to_string(), changed: false });
    assert_eq!(action, Action { report: Some(Report::SkippedFixes(0)), command: Command::PullDiagnostics });
    let (_, action) = step(
        &s,
        Phase::Fixing { input: "a".to_string() },
        Event::Fixed { code: "b".to_string(), skipped_fixes: 0 },
    );
    assert_eq!(action.command, Command::UpdateFile("b".to_string()));
}

#[test]
fn parse_errors_skip_the_file() {
    let mut s = settings(false, None);
    s.skip_parse_errors = true;
    let (phase, action) = step(
        &s,
        Phase::Pulling { input: "x".to_string(), changed: true },
        Event::Pulled { errors: 1, diagnostics: vec![diag(None, Severity::Error)], skipped: 0 },
    );
    assert_eq!(phase, Phase::Done);
    assert_eq!(action, Action { report: Some(Report::SkippedDiagnostic), command: Command::Finish(FileStatus::Ignored) });
    s.skip_parse_errors = false;
    let (_, action) = step(
        &s,
        Phase::Pulling { input: "x".to_string(), changed: true },
        Event::Pulled { errors: 1, diagnostics: vec![], skipped: 3 },
    );
    assert_eq!(action.command, Command::Finish(FileStatus::Changed));
    assert_eq!(
        action.report,
        Some(Report::Diagnostics { content: "x".to_string(), diagnostics: vec![], skipped: 3 })
    );
}

#[test]
fn skipped_count_is_truncated_to_u32() {
    let s = settings(false, None);
    let (_, action) = step(
        &s,
        Phase::Pulling { input: "x".to_string(), changed: false },
        Event::Pulled { errors: 0, diagnostics: vec![], skipped: (1u64 << 32) + 5 },
    );
    assert_eq!(action.report, Some(Report::Diagnostics { content: "x".to_string(), diagnostics: vec![], skipped: 5 }));
}

#[test]
fn assist_diagnostics_are_raised_when_enforced() {
    let pulled = || {
        vec![
            diag(Some("assist/source/organizeImports"), Severity::Information),
            diag(Some("lint/suspicious/noDebugger"), Severity::Warning),
            diag(None, Severity::Hint),
        ]
    };
    let raised = report_diagnostics(pulled(), None, true);
    assert_eq!(raised[0].severity, Severity::Error);
    assert_eq!(raised[1].severity, Severity::Warning);
    assert_eq!(raised[2].severity, Severity::Hint);
    let kept = report_diagnostics(pulled(), Some(3), false);
    assert_eq!(kept[0].severity, Severity::Information);
    assert!(kept.iter().all(|d| d.offset == Some(3)));
}

#[test]
fn failures_and_unexpected_events_abort() {
    let s = settings(false, None);
    let (phase, action) = step(&s, Phase::ReadingInput, Event::Failed);
    assert_eq!(phase, Phase::Done);
    assert_eq!(action, Action { report: None, command: Command::Abort });
    let (_, action) = step(&s, Phase::Updating, Event::Located(None));
    assert_eq!(action.command, Command::Abort);
    let (_, action) = step(&s, Phase::Done, Event::Updated);
    assert_eq!(action.command, Command::Abort);
}

#[test]
fn suppression_explanations() {
    assert_eq!(suppression_explanation(true, &None), "ignored using `--suppress`");
    assert_eq!(suppression_explanation(true, &Some("legacy".to_string())), "legacy");
    assert_eq!(suppression_explanation(false, &Some("legacy".to_string())), "legacy");
    assert_eq!(suppression_explanation(false, &None), "<explanation>");
}

#[test]
fn hosts_prefixes_and_filters() {
    assert_eq!(embedding_host(&Some("astro".to_string())), Some(EmbeddingHost::Astro));
    assert_eq!(embedding_host(&Some("vue".to_string())), Some(EmbeddingHost::Vue));
    assert_eq!(embedding_host(&Some("svelte".to_string())), Some(EmbeddingHost::Svelte));
    assert_eq!(embedding_host(&Some("ts".to_string())), None);
    assert_eq!(embedding_host(&None), None);
    assert!(has_prefix("assist/x", "assist/"));
    assert!(!has_prefix("assist", "assist/"));
    assert!(!has_prefix("lint/assist/", "assist/"));
    assert!(has_prefix("", ""));
    let (only, skip) = lint_filters(TraversalMode::Lint { only: vec!["lint/a".to_string()], skip: vec![] });
    assert_eq!(only, vec!["lint/a".to_string()]);
    assert!(skip.is_empty());
    let (only, skip) = lint_filters(TraversalMode::Other);
    assert!(only.is_empty() && skip.is_empty());
}
