//! The names and ranges by which the rule refers to class properties.
use vstd::prelude::*;
use crate::syntax::{
    AnyClassPropertiesLike, AssignmentTarget, BindingPattern, ClassMemberName, FormalParameter,
    MemberName, PropertyClassMember, PropertyParameter, TextRange,
};

verus! {

/// The characters of an optional string.
pub open spec fn option_text(s: Option<String>) -> Option<Seq<char>> {
    match s {
        Some(s) => Some(s@),
        None => None,
    }
}

/// The name that a class member name spells, without the `#` of a private name:
/// a string literal without its quotes, another literal as written, the identifier
/// after `#`; none for a computed name, a metavariable or a missing token.
pub open spec fn member_name_text(name: ClassMemberName) -> Option<Seq<char>> {
    match name {
        ClassMemberName::Literal { value: Some(t), quoted, .. } => Some(
            if quoted && t.text@.len() >= 2 {
                t.text@.subrange(1, t.text@.len() - 1)
            } else {
                t.text@
            },
        ),
        ClassMemberName::Private { id: Some(t), .. } => Some(t.text@),
        _ => None,
    }
}

/// The name of a property member as the rule reports it: a private name keeps its `#`.
pub open spec fn property_member_name(member: PropertyClassMember) -> Option<Seq<char>> {
    match member.name {
        Some(name) => match member_name_text(name) {
            Some(text) => Some(
                if name is Private {
                    "#"@ + text
                } else {
                    text
                },
            ),
            None => None,
        },
        None => None,
    }
}

/// The name of a parameter property: the identifier it binds, if it binds a plain one.
pub open spec fn property_parameter_name(parameter: PropertyParameter) -> Option<Seq<char>> {
    match parameter.formal_parameter {
        Some(
            FormalParameter::Formal {
                binding: Some(BindingPattern::Identifier { name: Some(t), .. }),
            },
        ) => Some(t.text@),
        _ => None,
    }
}

/// The name of a property of either kind.
pub open spec fn property_name(property: AnyClassPropertiesLike) -> Option<Seq<char>> {
    match property {
        AnyClassPropertiesLike::JsPropertyClassMember(m) => property_member_name(m),
        AnyClassPropertiesLike::TsPropertyParameter(p) => property_parameter_name(p),
    }
}

/// The range of a class member name.
pub open spec fn member_name_range(name: ClassMemberName) -> TextRange {
    match name {
        ClassMemberName::Literal { range, .. } => range,
        ClassMemberName::Private { range, .. } => range,
        ClassMemberName::Computed { range } => range,
        ClassMemberName::Metavariable { range } => range,
    }
}

/// Where a property is reported: the member's name, or the parameter's identifier binding.
pub open spec fn property_range(property: AnyClassPropertiesLike) -> Option<TextRange> {
    match property {
        AnyClassPropertiesLike::JsPropertyClassMember(m) => match m.name {
            Some(name) => Some(member_name_range(name)),
            None => None,
        },
        AnyClassPropertiesLike::TsPropertyParameter(p) => match p.formal_parameter {
            Some(
                FormalParameter::Formal { binding: Some(BindingPattern::Identifier { range, .. }) },
            ) => Some(range),
            _ => None,
        },
    }
}

/// The name that a write (assignment, update, `delete`, destructuring) touches, when its target is a static member:
/// the member's identifier, with a `#` before it for a private name.
pub open spec fn assigned_property_name(target: AssignmentTarget) -> Option<Seq<char>> {
    match target {
        AssignmentTarget::StaticMember {
            member: Some(MemberName { value: Some(t), private }),
        } => Some(
            if private {
                "#"@ + t.text@
            } else {
                t.text@
            },
        ),
        _ => None,
    }
}

/// `"#"` followed by `text`.
fn hash_prefixed(text: &str) -> (r: String)
    ensures
        r@ == "#"@ + text@,
{
    let mut name = String::from_str("#");
    name.append(text);
    name
}

/// The name of a class member name's literal or private identifier, as `member_name_text`.
fn member_name(name: &ClassMemberName) -> (r: Option<String>)
    ensures
        option_text(r) == member_name_text(*name),
{
    match name {
        ClassMemberName::Literal { value: Some(t), quoted, .. } => {
            let text = t.text.as_str();
            let len = text.unicode_len();
            if *quoted && len >= 2 {
                Some(String::from_str(text.substring_char(1, len - 1)))
            } else {
                Some(t.text.clone())
            }
        },
        ClassMemberName::Private { id: Some(t), .. } => Some(t.text.clone()),
        _ => None,
    }
}

/// The name that a write touches, when its target is a static member.
pub fn get_property_name(assignment: &AssignmentTarget) -> (r: Option<String>)
    ensures
        option_text(r) == assigned_property_name(*assignment),
{
    match assignment {
        AssignmentTarget::StaticMember { member: Some(member) } => match &member.value {
            Some(t) => {
                if member.private {
                    Some(hash_prefixed(t.text.as_str()))
                } else {
                    Some(t.text.clone())
                }
            },
            None => None,
        },
        _ => None,
    }
}

impl AnyClassPropertiesLike {
    /// The name of the property, as the rule reports it and matches it against writes.
    pub fn text_trimmed(&self) -> (r: Option<String>)
        ensures
            option_text(r) == property_name(*self),
    {
        match self {
            AnyClassPropertiesLike::JsPropertyClassMember(member) => {
                match &member.name {
                    Some(class_member_name) => match member_name(class_member_name) {
                        Some(text) => {
                            if let ClassMemberName::Private { .. } = class_member_name {
                                Some(hash_prefixed(text.as_str()))
                            } else {
                                Some(text)
                            }
                        },
                        None => None,
                    },
                    None => None,
                }
            },
            AnyClassPropertiesLike::TsPropertyParameter(parameter) => {
                match &parameter.formal_parameter {
                    Some(
                        FormalParameter::Formal {
                            binding: Some(BindingPattern::Identifier { name: Some(t), .. }),
                        },
                    ) => Some(t.text.clone()),
                    _ => None,
                }
            },
        }
    }

    /// Where the property is reported.
    pub fn range(&self) -> (r: Option<TextRange>)
        ensures
            r == property_range(*self),
    {
        match self {
            AnyClassPropertiesLike::JsPropertyClassMember(member) => match &member.name {
                Some(ClassMemberName::Literal { range, .. }) => Some(*range),
                Some(ClassMemberName::Private { range, .. }) => Some(*range),
                Some(ClassMemberName::Computed { range }) => Some(*range),
                Some(ClassMemberName::Metavariable { range }) => Some(*range),
                None => None,
            },
            AnyClassPropertiesLike::TsPropertyParameter(parameter) => {
                match &parameter.formal_parameter {
                    Some(
                        FormalParameter::Formal {
                            binding: Some(BindingPattern::Identifier { range, .. }),
                        },
                    ) => Some(*range),
                    _ => None,
                }
            },
        }
    }
}

} // verus!
