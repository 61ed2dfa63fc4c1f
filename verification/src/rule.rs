//! The `useReadonlyClassProperties` rule: report the private members of a class
//! that are never modified outside its constructor, and offer to mark them `readonly`.
use vstd::prelude::*;
use crate::eligibility::{eligible_properties, get_eligible_properties};
use crate::fix::fixed_property;
use crate::names::{property_name, property_range};
use crate::options::ReadonlyClassPropertiesOptions;
use crate::syntax::{AnyClassPropertiesLike, ClassDeclaration, ClassMember, SyntaxNode, TextRange};
use crate::walk::{changed_names, find_properties_need_add_readonly, unchanged_properties};

verus! {

/// The rule.
pub struct UseReadonlyClassProperties;

/// A diagnostic of the rule: its category, where, and what it says.
#[derive(Debug, Clone, PartialEq, Eq)]
pub struct RuleDiagnostic {
    pub category: String,
    pub range: Option<TextRange>,
    pub message: String,
}

/// How safely a fix can be applied.
#[derive(Debug, Clone, Copy, PartialEq, Eq, Structural)]
pub enum Applicability {
    /// The fix keeps the program's meaning.
    Always,
    /// The fix may change the program's meaning, and is applied only on request.
    MaybeIncorrect,
}

/// A code action of the rule: the property it fixes is replaced by `replacement`.
#[derive(Debug, Clone, PartialEq, Eq)]
pub struct RuleAction {
    pub applicability: Applicability,
    pub message: String,
    pub replacement: AnyClassPropertiesLike,
}

/// The properties of a class that the rule reports: the checked properties whose
/// name nothing outside the constructor writes to, in order.
pub open spec fn readonly_candidates(
    members: Seq<ClassMember>,
    syntax: SyntaxNode,
    only_private: bool,
) -> Seq<AnyClassPropertiesLike> {
    unchanged_properties(eligible_properties(members, only_private), changed_names(syntax))
}

/// The category of the rule's diagnostics.
pub open spec fn rule_category() -> Seq<char> {
    "lint/nursery/useReadonlyClassProperties"@
}

/// The name shown in a diagnostic: the property's name, or nothing.
pub open spec fn shown_name(property: AnyClassPropertiesLike) -> Seq<char> {
    match property_name(property) {
        Some(name) => name,
        None => Seq::empty(),
    }
}

/// The message of the diagnostic on a property named `name`.
pub open spec fn diagnostic_message(name: Seq<char>) -> Seq<char> {
    "Member '"@ + name + "' is never reassigned; mark it as `readonly`."@
}

impl UseReadonlyClassProperties {
    /// The properties of the class to report. Only private ones are checked unless
    /// the options ask for all.
    pub fn run(
        class_declaration: ClassDeclaration,
        options: &ReadonlyClassPropertiesOptions,
    ) -> (r: Vec<AnyClassPropertiesLike>)
        ensures
            r@ == readonly_candidates(
                class_declaration.members@,
                class_declaration.syntax,
                !options.check_all_properties,
            ),
    {
        let ClassDeclaration { members, syntax } = class_declaration;
        let eligible_properties = get_eligible_properties(members, !options.check_all_properties);
        if eligible_properties.len() == 0 {
            assert(unchanged_properties(eligible_properties@, changed_names(syntax)) =~= Seq::empty());
            Vec::new()
        } else {
            find_properties_need_add_readonly(&syntax, eligible_properties)
        }
    }

    /// The diagnostic on a reported property: in the rule's category, at its name,
    /// saying it is never reassigned.
    pub fn diagnostic(state: &AnyClassPropertiesLike) -> (r: Option<RuleDiagnostic>)
        ensures
            r matches Some(d) && d.category@ == rule_category() && d.range == property_range(*state)
                && d.message@ == diagnostic_message(shown_name(*state)),
    {
        let mut name = String::new();
        if let Some(token) = state.text_trimmed() {
            name = token;
        }
        let mut message = String::from_str("Member '");
        message.append(name.as_str());
        message.append("' is never reassigned; mark it as `readonly`.");
        Some(RuleDiagnostic {
            category: String::from_str("lint/nursery/useReadonlyClassProperties"),
            range: state.range(),
            message,
        })
    }

    /// The code action on a reported property: mark it `readonly`. The fix may change
    /// the program's meaning.
    pub fn action(state: AnyClassPropertiesLike) -> (r: Option<RuleAction>)
        ensures
            r matches Some(a) && a.applicability == Applicability::MaybeIncorrect
                && a.message@ == "Add `readonly` decorator."@
                && fixed_property(state, a.replacement),
    {
        let replacement = state.replace_syntax();
        Some(RuleAction {
            applicability: Applicability::MaybeIncorrect,
            message: String::from_str("Add `readonly` decorator."),
            replacement,
        })
    }
}

} // verus!
