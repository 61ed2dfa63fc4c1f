//! Which properties of a class the rule considers: those that could be `readonly`.
use vstd::prelude::*;
use crate::syntax::{
    Accessibility, AnyClassPropertiesLike, ClassMember, ClassMemberName, ConstructorClassMember,
    ConstructorParameter, ParameterModifier, PropertyClassMember, PropertyModifier,
    PropertyParameter,
};

verus! {

/// Whether some modifier is `accessor` or `readonly`.
pub open spec fn has_accessor_or_readonly(modifiers: Seq<PropertyModifier>) -> bool {
    exists|i: int|
        #![trigger modifiers[i]]
        0 <= i < modifiers.len() && (modifiers[i] is Accessor || modifiers[i] is Readonly)
}

/// The last accessibility modifier, if any.
pub open spec fn last_accessibility(modifiers: Seq<PropertyModifier>) -> Option<Accessibility>
    decreases modifiers.len(),
{
    if modifiers.len() == 0 {
        None
    } else {
        match modifiers.last() {
            PropertyModifier::Accessibility(a) => Some(a),
            _ => last_accessibility(modifiers.drop_last()),
        }
    }
}

/// Whether a property member is declared private: by a `#private` name, or by a
/// last accessibility modifier `private`.
pub open spec fn declared_private_member(member: PropertyClassMember) -> bool {
    ||| member.name matches Some(ClassMemberName::Private { .. })
    ||| last_accessibility(member.modifiers@) == Some(Accessibility::Private)
}

/// Whether a property member is checked: it is not `accessor` or already
/// `readonly`, and it is private unless all properties are checked.
pub open spec fn eligible_property_member(member: PropertyClassMember, only_private: bool) -> bool {
    &&& !has_accessor_or_readonly(member.modifiers@)
    &&& (!only_private || declared_private_member(member))
}

/// Whether some modifier of a parameter property is `readonly`.
pub open spec fn has_readonly_parameter_modifier(modifiers: Seq<ParameterModifier>) -> bool {
    exists|i: int| #![trigger modifiers[i]] 0 <= i < modifiers.len() && modifiers[i] is Readonly
}

/// The last accessibility modifier of a parameter property, if any.
pub open spec fn last_parameter_accessibility(modifiers: Seq<ParameterModifier>) -> Option<Accessibility>
    decreases modifiers.len(),
{
    if modifiers.len() == 0 {
        None
    } else {
        match modifiers.last() {
            ParameterModifier::Accessibility(a) => Some(a),
            _ => last_parameter_accessibility(modifiers.drop_last()),
        }
    }
}

/// Whether the modifiers of a parameter property let it be checked: none is
/// `readonly`, and the last accessibility modifier is `private` unless all
/// properties are checked.
pub open spec fn parameter_modifiers_eligible(modifiers: Seq<ParameterModifier>, only_private: bool) -> bool {
    &&& !has_readonly_parameter_modifier(modifiers)
    &&& (!only_private || last_parameter_accessibility(modifiers) == Some(Accessibility::Private))
}

/// The property members of `members` that are checked, in order.
pub open spec fn eligible_members(members: Seq<ClassMember>, only_private: bool) -> Seq<AnyClassPropertiesLike>
    decreases members.len(),
{
    if members.len() == 0 {
        Seq::empty()
    } else {
        let before = eligible_members(members.drop_last(), only_private);
        match members.last() {
            ClassMember::Property(m) => if eligible_property_member(m, only_private) {
                before.push(AnyClassPropertiesLike::JsPropertyClassMember(m))
            } else {
                before
            },
            _ => before,
        }
    }
}

/// The first constructor among `members`.
pub open spec fn first_constructor(members: Seq<ClassMember>) -> Option<ConstructorClassMember>
    decreases members.len(),
{
    if members.len() == 0 {
        None
    } else {
        match first_constructor(members.drop_last()) {
            Some(c) => Some(c),
            None => match members.last() {
                ClassMember::Constructor(c) => Some(c),
                _ => None,
            },
        }
    }
}

/// The parameter properties among `parameters` that are checked, in order.
pub open spec fn eligible_parameters(parameters: Seq<ConstructorParameter>, only_private: bool) -> Seq<AnyClassPropertiesLike>
    decreases parameters.len(),
{
    if parameters.len() == 0 {
        Seq::empty()
    } else {
        let before = eligible_parameters(parameters.drop_last(), only_private);
        match parameters.last() {
            ConstructorParameter::Property(p) => if parameter_modifiers_eligible(p.modifiers@, only_private) {
                before.push(AnyClassPropertiesLike::TsPropertyParameter(p))
            } else {
                before
            },
            _ => before,
        }
    }
}

/// The checked parameter properties of a constructor, if there is one and its
/// parameter list is present.
pub open spec fn constructor_eligible_parameters(constructor_member: Option<ConstructorClassMember>, only_private: bool) -> Seq<AnyClassPropertiesLike> {
    match constructor_member {
        Some(c) => match c.parameters {
            Some(ps) => eligible_parameters(ps@, only_private),
            None => Seq::empty(),
        },
        None => Seq::empty(),
    }
}

/// The properties of a class that the rule checks: its checked property members in
/// order, then the checked parameter properties of its first constructor.
pub open spec fn eligible_properties(members: Seq<ClassMember>, only_private: bool) -> Seq<AnyClassPropertiesLike> {
    eligible_members(members, only_private) + constructor_eligible_parameters(first_constructor(members), only_private)
}

/// Whether a property member is checked.
pub fn get_eligible_property(property_class_member: &PropertyClassMember, only_private: bool) -> (r: bool)
    ensures
        r == eligible_property_member(*property_class_member, only_private),
{
    let modifiers = &property_class_member.modifiers;
    let mut last: Option<Accessibility> = None;
    let mut i: usize = 0;
    while i < modifiers.len()
        invariant
            i <= modifiers@.len(),
            modifiers@ == property_class_member.modifiers@,
            !has_accessor_or_readonly(modifiers@.take(i as int)),
            last == last_accessibility(modifiers@.take(i as int)),
        decreases modifiers@.len() - i,
    {
        let ghost before = modifiers@.take(i as int);
        assert(modifiers@.take(i + 1).drop_last() =~= before);
        match &modifiers[i] {
            PropertyModifier::Accessor | PropertyModifier::Readonly(_) => {
                assert(modifiers@[i as int] is Accessor || modifiers@[i as int] is Readonly);
                assert(has_accessor_or_readonly(property_class_member.modifiers@));
                return false;
            },
            PropertyModifier::Accessibility(accessibility) => {
                last = Some(*accessibility);
            },
            PropertyModifier::Other => {},
        }
        assert forall|j: int| 0 <= j < i + 1 implies !(#[trigger] modifiers@.take(i + 1)[j] is Accessor
            || modifiers@.take(i + 1)[j] is Readonly) by {
            if j < i {
                assert(modifiers@.take(i + 1)[j] == before[j]);
            }
        }
        i = i + 1;
    }
    assert(modifiers@.take(modifiers@.len() as int) =~= modifiers@);
    if !only_private {
        return true;
    }
    if let Some(ClassMemberName::Private { .. }) = &property_class_member.name {
        return true;
    }
    match last {
        Some(Accessibility::Private) => true,
        _ => false,
    }
}

/// Whether a parameter property is checked.
fn get_eligible_parameter(property_parameter: &PropertyParameter, only_private: bool) -> (r: bool)
    ensures
        r == parameter_modifiers_eligible(property_parameter.modifiers@, only_private),
{
    let modifiers = &property_parameter.modifiers;
    let mut last: Option<Accessibility> = None;
    let mut i: usize = 0;
    while i < modifiers.len()
        invariant
            i <= modifiers@.len(),
            modifiers@ == property_parameter.modifiers@,
            !has_readonly_parameter_modifier(modifiers@.take(i as int)),
            last == last_parameter_accessibility(modifiers@.take(i as int)),
        decreases modifiers@.len() - i,
    {
        let ghost before = modifiers@.take(i as int);
        assert(modifiers@.take(i + 1).drop_last() =~= before);
        match &modifiers[i] {
            ParameterModifier::Readonly(_) => {
                assert(modifiers@[i as int] is Readonly);
                assert(has_readonly_parameter_modifier(property_parameter.modifiers@));
                return false;
            },
            ParameterModifier::Accessibility(accessibility) => {
                last = Some(*accessibility);
            },
            ParameterModifier::Override => {},
        }
        assert forall|j: int| 0 <= j < i + 1 implies !(#[trigger] modifiers@.take(i + 1)[j] is Readonly) by {
            if j < i {
                assert(modifiers@.take(i + 1)[j] == before[j]);
            }
        }
        i = i + 1;
    }
    assert(modifiers@.take(modifiers@.len() as int) =~= modifiers@);
    if !only_private {
        return true;
    }
    match last {
        Some(Accessibility::Private) => true,
        _ => false,
    }
}

/// The checked parameter properties of the class's first constructor, in order.
pub fn get_constructor_eligible_params(
    constructor_member: Option<ConstructorClassMember>,
    only_private: bool,
) -> (r: Vec<AnyClassPropertiesLike>)
    ensures
        r@ == constructor_eligible_parameters(constructor_member, only_private),
{
    if let Some(constructor_member) = constructor_member {
        if let Some(mut parameters) = constructor_member.parameters {
            let ghost all = parameters@;
            let n = parameters.len();
            let mut result: Vec<AnyClassPropertiesLike> = Vec::new();
            let mut k: usize = 0;
            while parameters.len() > 0
                invariant
                    k + parameters@.len() == all.len(),
                    all.len() == n,
                    parameters@ == all.subrange(k as int, all.len() as int),
                    result@ == eligible_parameters(all.take(k as int), only_private),
                decreases parameters@.len(),
            {
                let parameter = parameters.remove(0);
                assert(all.take(k + 1).drop_last() =~= all.take(k as int));
                assert(parameter == all[k as int]);
                match parameter {
                    ConstructorParameter::Property(property_parameter) => {
                        if get_eligible_parameter(&property_parameter, only_private) {
                            result.push(AnyClassPropertiesLike::TsPropertyParameter(property_parameter));
                        }
                    },
                    ConstructorParameter::Other => {},
                }
                k = k + 1;
                assert(parameters@ =~= all.subrange(k as int, all.len() as int));
            }
            assert(all.take(k as int) =~= all);
            return result;
        }
    }
    Vec::new()
}

/// The properties of a class that the rule checks: the checked property members,
/// then the checked parameter properties of the first constructor.
pub fn get_eligible_properties(members: Vec<ClassMember>, only_private: bool) -> (r: Vec<AnyClassPropertiesLike>)
    ensures
        r@ == eligible_properties(members@, only_private),
{
    let ghost all = members@;
    let n = members.len();
    let mut members = members;
    let mut result: Vec<AnyClassPropertiesLike> = Vec::new();
    let mut constructor_member: Option<ConstructorClassMember> = None;
    let mut k: usize = 0;
    while members.len() > 0
        invariant
            k + members@.len() == all.len(),
            all.len() == n,
            members@ == all.subrange(k as int, all.len() as int),
            result@ == eligible_members(all.take(k as int), only_private),
            constructor_member == first_constructor(all.take(k as int)),
        decreases members@.len(),
    {
        let member = members.remove(0);
        assert(all.take(k + 1).drop_last() =~= all.take(k as int));
        assert(member == all[k as int]);
        match member {
            ClassMember::Property(property_class_member) => {
                if get_eligible_property(&property_class_member, only_private) {
                    result.push(AnyClassPropertiesLike::JsPropertyClassMember(property_class_member));
                }
            },
            ClassMember::Constructor(c) => {
                if constructor_member.is_none() {
                    constructor_member = Some(c);
                }
            },
            ClassMember::Other => {},
        }
        k = k + 1;
        assert(members@ =~= all.subrange(k as int, all.len() as int));
    }
    assert(all.take(k as int) =~= all);
    let mut parameters = get_constructor_eligible_params(constructor_member, only_private);
    result.append(&mut parameters);
    result
}

} // verus!
