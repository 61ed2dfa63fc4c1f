//! The fix: mark a property `readonly`.
use vstd::prelude::*;
use crate::syntax::{
    AnyClassPropertiesLike, ClassMemberName, ParameterModifier, PropertyClassMember,
    PropertyModifier, PropertyParameter, Token,
};

verus! {

/// Whether `token` is a `readonly ` keyword token: the text `readonly`, one space of
/// trailing trivia, and `leading` as its leading trivia.
pub open spec fn readonly_keyword(token: Token, leading: Seq<char>) -> bool {
    &&& token.leading_trivia@ == leading
    &&& token.text@ == "readonly"@
    &&& token.trailing_trivia@ == " "@
}

/// Whether `stripped` is `token` without its leading trivia.
pub open spec fn token_stripped(token: Token, stripped: Token) -> bool {
    &&& stripped.text == token.text
    &&& stripped.trailing_trivia == token.trailing_trivia
    &&& stripped.leading_trivia@ == Seq::<char>::empty()
}

/// Whether the leading trivia of a member name can be moved off it: its first
/// token, the literal or the `#`, is present.
pub open spec fn name_has_first_token(name: ClassMemberName) -> bool {
    name matches ClassMemberName::Literal { value: Some(_), .. }
        || name matches ClassMemberName::Private { hash: Some(_), .. }
}

/// The leading trivia of a member name's first token.
pub open spec fn name_leading_trivia(name: ClassMemberName) -> Seq<char> {
    match name {
        ClassMemberName::Literal { value: Some(t), .. } => t.leading_trivia@,
        ClassMemberName::Private { hash: Some(t), .. } => t.leading_trivia@,
        _ => Seq::empty(),
    }
}

/// Whether `stripped` is `name` with the leading trivia of its first token removed.
pub open spec fn name_stripped(name: ClassMemberName, stripped: ClassMemberName) -> bool {
    match name {
        ClassMemberName::Literal { value: Some(t), quoted, range } => match stripped {
            ClassMemberName::Literal { value: Some(u), quoted: q, range: r } => q == quoted && r == range
                && token_stripped(t, u),
            _ => false,
        },
        ClassMemberName::Private { hash: Some(t), id, range } => match stripped {
            ClassMemberName::Private { hash: Some(u), id: i, range: r } => i == id && r == range
                && token_stripped(t, u),
            _ => false,
        },
        _ => false,
    }
}

/// Whether `fixed` is the property member `member` marked `readonly`: a `readonly`
/// modifier is added after its modifiers. When it had none, the leading trivia of
/// its name moves onto the new keyword; otherwise the keyword has none.
pub open spec fn member_marked_readonly(member: PropertyClassMember, fixed: PropertyClassMember) -> bool {
    &&& member.name is Some
    &&& fixed.modifiers@.len() == member.modifiers@.len() + 1
    &&& fixed.modifiers@.drop_last() == member.modifiers@
    &&& fixed.property_annotation == member.property_annotation
    &&& fixed.value == member.value
    &&& fixed.semicolon == member.semicolon
    &&& match fixed.modifiers@.last() {
        PropertyModifier::Readonly(keyword) => {
            let name = member.name->0;
            if member.modifiers@.len() == 0 && name_has_first_token(name) {
                &&& readonly_keyword(keyword, name_leading_trivia(name))
                &&& fixed.name matches Some(fixed_name) && name_stripped(name, fixed_name)
            } else {
                &&& readonly_keyword(keyword, Seq::empty())
                &&& fixed.name == member.name
            }
        },
        _ => false,
    }
}

/// Whether `fixed` is the parameter property `parameter` marked `readonly`: a
/// `readonly` modifier is added after its modifiers.
pub open spec fn parameter_marked_readonly(parameter: PropertyParameter, fixed: PropertyParameter) -> bool {
    &&& parameter.formal_parameter is Some
    &&& fixed.decorators == parameter.decorators
    &&& fixed.formal_parameter == parameter.formal_parameter
    &&& fixed.modifiers@.len() == parameter.modifiers@.len() + 1
    &&& fixed.modifiers@.drop_last() == parameter.modifiers@
    &&& fixed.modifiers@.last() matches ParameterModifier::Readonly(keyword)
    &&& readonly_keyword(keyword, Seq::empty())
}

/// Whether `fixed` is what the fix makes of `property`: the property marked
/// `readonly`, or the property itself when its name or formal parameter is missing.
pub open spec fn fixed_property(property: AnyClassPropertiesLike, fixed: AnyClassPropertiesLike) -> bool {
    match property {
        AnyClassPropertiesLike::JsPropertyClassMember(member) => if member.name is Some {
            fixed matches AnyClassPropertiesLike::JsPropertyClassMember(f)
                && member_marked_readonly(member, f)
        } else {
            fixed == property
        },
        AnyClassPropertiesLike::TsPropertyParameter(parameter) => if parameter.formal_parameter is Some {
            fixed matches AnyClassPropertiesLike::TsPropertyParameter(f)
                && parameter_marked_readonly(parameter, f)
        } else {
            fixed == property
        },
    }
}

/// A `readonly ` keyword token with the given leading trivia.
fn readonly_token(leading_trivia: String) -> (r: Token)
    ensures
        readonly_keyword(r, leading_trivia@),
{
    Token {
        leading_trivia,
        text: String::from_str("readonly"),
        trailing_trivia: String::from_str(" "),
    }
}

/// The same token.
fn copy_token(token: &Token) -> (r: Token)
    ensures
        r == *token,
{
    Token {
        leading_trivia: token.leading_trivia.clone(),
        text: token.text.clone(),
        trailing_trivia: token.trailing_trivia.clone(),
    }
}

fn copy_option_token(token: &Option<Token>) -> (r: Option<Token>)
    ensures
        r == *token,
{
    match token {
        Some(t) => Some(copy_token(t)),
        None => None,
    }
}

/// The same member name.
fn copy_member_name(name: &ClassMemberName) -> (r: ClassMemberName)
    ensures
        r == *name,
{
    match name {
        ClassMemberName::Literal { value, quoted, range } => ClassMemberName::Literal {
            value: copy_option_token(value),
            quoted: *quoted,
            range: *range,
        },
        ClassMemberName::Private { hash, id, range } => ClassMemberName::Private {
            hash: copy_option_token(hash),
            id: copy_option_token(id),
            range: *range,
        },
        ClassMemberName::Computed { range } => ClassMemberName::Computed { range: *range },
        ClassMemberName::Metavariable { range } => ClassMemberName::Metavariable { range: *range },
    }
}

/// A member name with the leading trivia of its first token taken off, and that
/// trivia; none for a computed name, a metavariable, or a missing first token.
pub fn get_replace_class_member_name(class_member_name: ClassMemberName) -> (r: Option<(ClassMemberName, String)>)
    ensures
        r is Some <==> name_has_first_token(class_member_name),
        r matches Some((stripped, leading)) ==> name_stripped(class_member_name, stripped)
            && leading@ == name_leading_trivia(class_member_name),
{
    match class_member_name {
        ClassMemberName::Literal { value: Some(value_token), quoted, range } => {
            let Token { leading_trivia, text, trailing_trivia } = value_token;
            let replace_value_token = Token { leading_trivia: String::new(), text, trailing_trivia };
            Some((ClassMemberName::Literal { value: Some(replace_value_token), quoted, range }, leading_trivia))
        },
        ClassMemberName::Private { hash: Some(hash_token), id, range } => {
            let Token { leading_trivia, text, trailing_trivia } = hash_token;
            let replace_hash_token = Token { leading_trivia: String::new(), text, trailing_trivia };
            Some((ClassMemberName::Private { hash: Some(replace_hash_token), id, range }, leading_trivia))
        },
        _ => None,
    }
}

impl AnyClassPropertiesLike {
    /// The property marked `readonly`: a `readonly` modifier after its modifiers,
    /// taking over the leading trivia of a property member's name when the member had
    /// no modifier. A property whose name or formal parameter is missing is returned as is.
    pub fn replace_syntax(self) -> (r: AnyClassPropertiesLike)
        ensures
            fixed_property(self, r),
    {
        match self {
            AnyClassPropertiesLike::JsPropertyClassMember(member) => {
                let ghost unfixed = member;
                let PropertyClassMember { modifiers, name, property_annotation, value, semicolon } = member;
                match name {
                    Some(class_member_name) => {
                        let mut class_member_name = class_member_name;
                        let mut replace_modifiers = modifiers;
                        let mut keyword = readonly_token(String::new());
                        if replace_modifiers.len() == 0 {
                            let replace_items = get_replace_class_member_name(
                                copy_member_name(&class_member_name),
                            );
                            if let Some((replace_class_member_name, replace_leading)) = replace_items {
                                class_member_name = replace_class_member_name;
                                keyword = readonly_token(replace_leading);
                            }
                        }
                        replace_modifiers.push(PropertyModifier::Readonly(keyword));
                        let fixed = PropertyClassMember {
                            modifiers: replace_modifiers,
                            name: Some(class_member_name),
                            property_annotation,
                            value,
                            semicolon,
                        };
                        assert(fixed.modifiers@.drop_last() =~= unfixed.modifiers@);
                        AnyClassPropertiesLike::JsPropertyClassMember(fixed)
                    },
                    None => AnyClassPropertiesLike::JsPropertyClassMember(
                        PropertyClassMember { modifiers, name: None, property_annotation, value, semicolon },
                    ),
                }
            },
            AnyClassPropertiesLike::TsPropertyParameter(parameter) => {
                let ghost unfixed = parameter;
                let PropertyParameter { decorators, modifiers, formal_parameter } = parameter;
                if formal_parameter.is_some() {
                    let mut replace_modifiers = modifiers;
                    replace_modifiers.push(ParameterModifier::Readonly(readonly_token(String::new())));
                    let fixed = PropertyParameter { decorators, modifiers: replace_modifiers, formal_parameter };
                    assert(fixed.modifiers@.drop_last() =~= unfixed.modifiers@);
                    AnyClassPropertiesLike::TsPropertyParameter(fixed)
                } else {
                    AnyClassPropertiesLike::TsPropertyParameter(
                        PropertyParameter { decorators, modifiers, formal_parameter },
                    )
                }
            },
        }
    }
}

} // verus!
