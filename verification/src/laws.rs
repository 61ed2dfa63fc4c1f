//! What holds of the rule on every class.
use vstd::prelude::*;
use crate::eligibility::{
    constructor_eligible_parameters, declared_private_member, eligible_members,
    eligible_parameters, eligible_properties, eligible_property_member, first_constructor,
    has_accessor_or_readonly, has_readonly_parameter_modifier, last_accessibility,
    last_parameter_accessibility, parameter_modifiers_eligible,
};
use crate::fix::fixed_property;
use crate::names::{property_name, property_range};
use crate::rule::readonly_candidates;
use crate::syntax::{
    Accessibility, AnyClassPropertiesLike, BindingPattern, ClassMember, ClassMemberName,
    ConstructorParameter, FormalParameter, NodeKind, ParameterModifier, PropertyClassMember,
    PropertyModifier, PropertyParameter, SyntaxNode, TextRange, Token,
};
use crate::walk::{
    changed_names, changed_names_in, entered_name, flag_after, leaves_constructor, preorder,
    preorder_all, unchanged_properties, written_name,
};

verus! {

/// Whether the rule checks a property under the given options.
pub open spec fn property_eligible(property: AnyClassPropertiesLike, only_private: bool) -> bool {
    match property {
        AnyClassPropertiesLike::JsPropertyClassMember(m) => eligible_property_member(m, only_private),
        AnyClassPropertiesLike::TsPropertyParameter(p) => parameter_modifiers_eligible(p.modifiers@, only_private),
    }
}

/// Whether no name in `changed` is the property's.
pub open spec fn property_unassigned(property: AnyClassPropertiesLike, changed: Set<Seq<char>>) -> bool {
    match property_name(property) {
        Some(name) => !changed.contains(name),
        None => true,
    }
}

/// Whether a property is declared private: by a `#private` name, or by a last
/// accessibility modifier `private`.
pub open spec fn declared_private(property: AnyClassPropertiesLike) -> bool {
    match property {
        AnyClassPropertiesLike::JsPropertyClassMember(m) => declared_private_member(m),
        AnyClassPropertiesLike::TsPropertyParameter(p) => last_parameter_accessibility(p.modifiers@)
            == Some(Accessibility::Private),
    }
}

/// Whether a property is already `readonly` (or, for a member, an `accessor`).
pub open spec fn already_readonly(property: AnyClassPropertiesLike) -> bool {
    match property {
        AnyClassPropertiesLike::JsPropertyClassMember(m) => has_accessor_or_readonly(m.modifiers@),
        AnyClassPropertiesLike::TsPropertyParameter(p) => has_readonly_parameter_modifier(p.modifiers@),
    }
}

proof fn lemma_push_contains<A>(s: Seq<A>, a: A, x: A)
    ensures
        s.push(a).contains(x) <==> (s.contains(x) || x == a),
{
    if s.push(a).contains(x) {
        let i = choose|i: int| 0 <= i < s.push(a).len() && s.push(a)[i] == x;
        if i < s.len() {
            assert(s[i] == x);
        }
    }
    if s.contains(x) {
        let i = choose|i: int| 0 <= i < s.len() && s[i] == x;
        assert(s.push(a)[i] == x);
    }
    if x == a {
        assert(s.push(a)[s.len() as int] == x);
    }
}

proof fn lemma_concat_contains<A>(a: Seq<A>, b: Seq<A>, x: A)
    ensures
        (a + b).contains(x) <==> (a.contains(x) || b.contains(x)),
{
    if (a + b).contains(x) {
        let i = choose|i: int| 0 <= i < (a + b).len() && (a + b)[i] == x;
        if i < a.len() {
            assert(a[i] == x);
        } else {
            assert(b[i - a.len()] == x);
        }
    }
    if a.contains(x) {
        let i = choose|i: int| 0 <= i < a.len() && a[i] == x;
        assert((a + b)[i] == x);
    }
    if b.contains(x) {
        let i = choose|i: int| 0 <= i < b.len() && b[i] == x;
        assert((a + b)[i + a.len()] == x);
    }
}

/// The properties kept by `unchanged_properties` are exactly those of the list that
/// no changed name names.
proof fn lemma_unchanged_contains(properties: Seq<AnyClassPropertiesLike>, changed: Set<Seq<char>>, x: AnyClassPropertiesLike)
    ensures
        unchanged_properties(properties, changed).contains(x) <==> (properties.contains(x)
            && property_unassigned(x, changed)),
    decreases properties.len(),
{
    if properties.len() > 0 {
        let init = properties.drop_last();
        let last = properties.last();
        lemma_unchanged_contains(init, changed, x);
        lemma_push_contains(init, last, x);
        assert(init.push(last) =~= properties);
        lemma_push_contains(unchanged_properties(init, changed), last, x);
    }
}

proof fn lemma_eligible_members_contains(members: Seq<ClassMember>, only_private: bool, x: AnyClassPropertiesLike)
    requires
        eligible_members(members, only_private).contains(x),
    ensures
        x matches AnyClassPropertiesLike::JsPropertyClassMember(m) && eligible_property_member(m, only_private),
        eligible_members(members, false).contains(x),
    decreases members.len(),
{
    let init = members.drop_last();
    let before = eligible_members(init, only_private);
    let before_all = eligible_members(init, false);
    match members.last() {
        ClassMember::Property(m) => {
            let p = AnyClassPropertiesLike::JsPropertyClassMember(m);
            lemma_push_contains(before, p, x);
            lemma_push_contains(before_all, p, x);
            if before.contains(x) {
                lemma_eligible_members_contains(init, only_private, x);
            } else {
                lemma_member_eligibility_monotone(m);
            }
        },
        _ => {
            lemma_eligible_members_contains(init, only_private, x);
        },
    }
}

proof fn lemma_modifiers_monotone(modifiers: Seq<ParameterModifier>)
    ensures
        parameter_modifiers_eligible(modifiers, true) ==> parameter_modifiers_eligible(modifiers, false),
{
}

proof fn lemma_member_eligibility_monotone(member: PropertyClassMember)
    ensures
        eligible_property_member(member, true) ==> eligible_property_member(member, false),
{
}

proof fn lemma_eligible_parameters_contains(parameters: Seq<ConstructorParameter>, only_private: bool, x: AnyClassPropertiesLike)
    requires
        eligible_parameters(parameters, only_private).contains(x),
    ensures
        x matches AnyClassPropertiesLike::TsPropertyParameter(p) && parameter_modifiers_eligible(p.modifiers@, only_private),
        eligible_parameters(parameters, false).contains(x),
    decreases parameters.len(),
{
    let init = parameters.drop_last();
    let before = eligible_parameters(init, only_private);
    let before_all = eligible_parameters(init, false);
    match parameters.last() {
        ConstructorParameter::Property(q) => {
            let p = AnyClassPropertiesLike::TsPropertyParameter(q);
            lemma_push_contains(before, p, x);
            lemma_push_contains(before_all, p, x);
            if before.contains(x) {
                lemma_eligible_parameters_contains(init, only_private, x);
            } else {
                lemma_modifiers_monotone(q.modifiers@);
            }
        },
        _ => {
            lemma_eligible_parameters_contains(init, only_private, x);
        },
    }
}

proof fn lemma_eligible_contains(members: Seq<ClassMember>, only_private: bool, x: AnyClassPropertiesLike)
    requires
        eligible_properties(members, only_private).contains(x),
    ensures
        property_eligible(x, only_private),
        eligible_properties(members, false).contains(x),
{
    let ms = eligible_members(members, only_private);
    let ps = constructor_eligible_parameters(first_constructor(members), only_private);
    lemma_concat_contains(ms, ps, x);
    lemma_concat_contains(
        eligible_members(members, false),
        constructor_eligible_parameters(first_constructor(members), false),
        x,
    );
    if ms.contains(x) {
        lemma_eligible_members_contains(members, only_private, x);
    } else {
        match first_constructor(members) {
            Some(c) => match c.parameters {
                Some(parameters) => lemma_eligible_parameters_contains(parameters@, only_private, x),
                None => {},
            },
            None => {},
        }
    }
}

/// Every property the rule reports is one it checks under the options given, and no
/// write outside the constructor touches its name.
pub proof fn lemma_reported_are_checked_and_unassigned(
    members: Seq<ClassMember>,
    syntax: SyntaxNode,
    only_private: bool,
    property: AnyClassPropertiesLike,
)
    requires
        readonly_candidates(members, syntax, only_private).contains(property),
    ensures
        eligible_properties(members, only_private).contains(property),
        property_eligible(property, only_private),
        property_unassigned(property, changed_names(syntax)),
{
    lemma_unchanged_contains(eligible_properties(members, only_private), changed_names(syntax), property);
    lemma_eligible_contains(members, only_private, property);
}

/// A checked property whose name nothing outside the constructor writes to
/// is reported.
pub proof fn lemma_unassigned_checked_are_reported(
    members: Seq<ClassMember>,
    syntax: SyntaxNode,
    only_private: bool,
    property: AnyClassPropertiesLike,
)
    requires
        eligible_properties(members, only_private).contains(property),
        property_unassigned(property, changed_names(syntax)),
    ensures
        readonly_candidates(members, syntax, only_private).contains(property),
{
    lemma_unchanged_contains(eligible_properties(members, only_private), changed_names(syntax), property);
}

/// Under the default options, every property the rule reports is declared private.
pub proof fn lemma_default_reports_only_private(
    members: Seq<ClassMember>,
    syntax: SyntaxNode,
    property: AnyClassPropertiesLike,
)
    requires
        readonly_candidates(members, syntax, true).contains(property),
    ensures
        declared_private(property),
{
    lemma_reported_are_checked_and_unassigned(members, syntax, true, property);
    match property {
        AnyClassPropertiesLike::TsPropertyParameter(p) => lemma_modifiers_monotone(p.modifiers@),
        _ => {},
    }
}

/// Every property reported under the default options is also reported when all
/// properties are checked.
pub proof fn lemma_check_all_reports_more(
    members: Seq<ClassMember>,
    syntax: SyntaxNode,
    property: AnyClassPropertiesLike,
)
    requires
        readonly_candidates(members, syntax, true).contains(property),
    ensures
        readonly_candidates(members, syntax, false).contains(property),
{
    lemma_reported_are_checked_and_unassigned(members, syntax, true, property);
    lemma_eligible_contains(members, true, property);
    lemma_unassigned_checked_are_reported(members, syntax, false, property);
}

/// A property that is already `readonly` (or a member that is an `accessor`) is
/// never reported.
pub proof fn lemma_readonly_properties_not_reported(
    members: Seq<ClassMember>,
    syntax: SyntaxNode,
    only_private: bool,
    property: AnyClassPropertiesLike,
)
    requires
        already_readonly(property),
    ensures
        !readonly_candidates(members, syntax, only_private).contains(property),
{
    if readonly_candidates(members, syntax, only_private).contains(property) {
        lemma_reported_are_checked_and_unassigned(members, syntax, only_private, property);
    }
}

/// Once fixed, a property is no longer checked, under either option: the rule does
/// not report what its own fix produced. A property whose name or formal parameter is
/// missing is left as it is by the fix, and stays out of this law.
pub proof fn lemma_fixed_not_checked(
    property: AnyClassPropertiesLike,
    fixed: AnyClassPropertiesLike,
    only_private: bool,
)
    requires
        fixed_property(property, fixed),
        match property {
            AnyClassPropertiesLike::JsPropertyClassMember(m) => m.name is Some,
            AnyClassPropertiesLike::TsPropertyParameter(p) => p.formal_parameter is Some,
        },
    ensures
        !property_eligible(fixed, only_private),
{
    match fixed {
        AnyClassPropertiesLike::JsPropertyClassMember(f) => {
            let i = f.modifiers@.len() - 1;
            assert(f.modifiers@[i] is Readonly);
            assert(has_accessor_or_readonly(f.modifiers@));
        },
        AnyClassPropertiesLike::TsPropertyParameter(f) => {
            let i = f.modifiers@.len() - 1;
            assert(f.modifiers@[i] is Readonly);
            assert(has_readonly_parameter_modifier(f.modifiers@));
        },
    }
}

proof fn lemma_constructor_flag_stays(kinds: Seq<NodeKind>)
    requires
        forall|i: int| 0 <= i < kinds.len() ==> !leaves_constructor(#[trigger] kinds[i]),
    ensures
        flag_after(kinds, true),
        changed_names_in(kinds, true) == Set::<Seq<char>>::empty(),
    decreases kinds.len(),
{
    if kinds.len() > 0 {
        let init = kinds.drop_last();
        assert forall|i: int| 0 <= i < init.len() implies !leaves_constructor(#[trigger] init[i]) by {
            assert(init[i] == kinds[i]);
        }
        lemma_constructor_flag_stays(init);
        assert(!leaves_constructor(kinds[kinds.len() - 1]));
        assert(changed_names_in(kinds, true) =~= Set::<Seq<char>>::empty());
    }
}

/// Writes inside a constructor mark nothing as changed: a constructor whose subtree
/// holds no other class member (of a nested class) records no name, and the walk is
/// still inside a constructor after it.
pub proof fn lemma_constructor_assignments_ignored(node: SyntaxNode, in_constructor: bool)
    requires
        node.kind is ConstructorMember,
        forall|i: int| 0 <= i < preorder(node).len() ==> !leaves_constructor(#[trigger] preorder(node)[i]),
    ensures
        changed_names_in(preorder(node), in_constructor) == Set::<Seq<char>>::empty(),
        flag_after(preorder(node), in_constructor),
{
    let kinds = preorder(node);
    let head = seq![node.kind];
    let rest = kinds.subrange(1, kinds.len() as int);
    assert(kinds =~= head + rest);
    assert forall|i: int| 0 <= i < rest.len() implies !leaves_constructor(#[trigger] rest[i]) by {
        assert(rest[i] == kinds[i + 1]);
    }
    lemma_constructor_flag_stays(rest);
    crate::walk::lemma_walk_concat(head, rest, in_constructor);
    assert(head.drop_last() =~= Seq::<NodeKind>::empty());
    assert(flag_after(head.drop_last(), in_constructor) == in_constructor);
    assert(changed_names_in(head.drop_last(), in_constructor) == Set::<Seq<char>>::empty());
    assert(flag_after(head, in_constructor));
    assert(changed_names_in(head, in_constructor) =~= Set::<Seq<char>>::empty());
    assert(changed_names_in(kinds, in_constructor) =~= Set::<Seq<char>>::empty());
}

/// Whether the `k`-th node entered writes to a static member named `name`, and is
/// met outside a constructor.
pub open spec fn records_at(kinds: Seq<NodeKind>, k: int, in_constructor: bool, name: Seq<char>) -> bool {
    &&& 0 <= k < kinds.len()
    &&& written_name(kinds[k]) == Some(name)
    &&& !flag_after(kinds.take(k), in_constructor)
}

/// A name is recorded by the walk exactly when some node it enters writes to a
/// static member of that name (by assignment, `++`, `--`, `delete` or
/// destructuring) outside a constructor: the last class member entered before it
/// is not a constructor (or there is none, when the walk started outside one).
pub proof fn lemma_changed_names_characterized(kinds: Seq<NodeKind>, in_constructor: bool, name: Seq<char>)
    ensures
        changed_names_in(kinds, in_constructor).contains(name) <==> exists|k: int|
            #[trigger] records_at(kinds, k, in_constructor, name),
    decreases kinds.len(),
{
    if kinds.len() > 0 {
        let init = kinds.drop_last();
        let last = kinds.len() - 1;
        lemma_changed_names_characterized(init, in_constructor, name);
        assert(kinds.take(last) =~= init);
        if changed_names_in(kinds, in_constructor).contains(name) {
            if changed_names_in(init, in_constructor).contains(name) {
                let k = choose|k: int| #[trigger] records_at(init, k, in_constructor, name);
                assert(kinds.take(k) =~= init.take(k));
                assert(records_at(kinds, k, in_constructor, name));
            } else {
                assert(entered_name(kinds.last(), flag_after(init, in_constructor)).contains(name));
                assert(records_at(kinds, last, in_constructor, name));
            }
        }
        if exists|k: int| #[trigger] records_at(kinds, k, in_constructor, name) {
            let k = choose|k: int| #[trigger] records_at(kinds, k, in_constructor, name);
            if k < last {
                assert(kinds.take(k) =~= init.take(k));
                assert(records_at(init, k, in_constructor, name));
            } else {
                assert(entered_name(kinds.last(), flag_after(init, in_constructor)).contains(name));
            }
        }
    }
}

/// A property named as a static member that some write outside a constructor
/// writes to is never reported.
pub proof fn lemma_assigned_properties_not_reported(
    members: Seq<ClassMember>,
    syntax: SyntaxNode,
    only_private: bool,
    property: AnyClassPropertiesLike,
    k: int,
)
    requires
        property_name(property) matches Some(name) && records_at(preorder(syntax), k, false, name),
    ensures
        !readonly_candidates(members, syntax, only_private).contains(property),
{
    let name = property_name(property)->0;
    lemma_changed_names_characterized(preorder(syntax), false, name);
    if readonly_candidates(members, syntax, only_private).contains(property) {
        lemma_reported_are_checked_and_unassigned(members, syntax, only_private, property);
    }
}

proof fn lemma_preorder_all_prefix(nodes: Seq<SyntaxNode>, m: int)
    requires
        0 <= m <= nodes.len(),
    ensures
        preorder_all(nodes.take(m)).len() <= preorder_all(nodes).len(),
        preorder_all(nodes.take(m)) == preorder_all(nodes).take(preorder_all(nodes.take(m)).len() as int),
    decreases nodes.len(),
{
    if m == nodes.len() {
        assert(nodes.take(m) =~= nodes);
        assert(preorder_all(nodes).take(preorder_all(nodes).len() as int) =~= preorder_all(nodes));
    } else {
        let init = nodes.drop_last();
        assert(nodes.take(m) =~= init.take(m));
        lemma_preorder_all_prefix(init, m);
        let p = preorder_all(init.take(m));
        assert(preorder_all(nodes) == preorder_all(init) + preorder(nodes.last()));
        assert(preorder_all(nodes).take(p.len() as int) =~= preorder_all(init).take(p.len() as int));
    }
}

proof fn lemma_member_flag_off(kinds: Seq<NodeKind>, in_constructor: bool)
    requires
        kinds.len() >= 1,
        leaves_constructor(kinds[0]),
        forall|i: int| 0 <= i < kinds.len() ==> !(#[trigger] kinds[i] is ConstructorMember),
    ensures
        !flag_after(kinds, in_constructor),
    decreases kinds.len(),
{
    let init = kinds.drop_last();
    if kinds.len() > 1 {
        assert forall|i: int| 0 <= i < init.len() implies !(#[trigger] init[i] is ConstructorMember) by {
            assert(init[i] == kinds[i]);
        }
        assert(init[0] == kinds[0]);
        lemma_member_flag_off(init, in_constructor);
    } else {
        assert(init =~= Seq::<NodeKind>::empty());
    }
    assert(!(kinds[kinds.len() - 1] is ConstructorMember));
}

/// A write to `this.name` (or to `name` of any object) in a class member other
/// than the constructor records `name`: the class's `j`-th child node is a method,
/// getter, setter, property or other member, and the `k`-th node of its subtree in
/// preorder writes to a static member `name`, with no constructor (of a nested
/// class) entered in between.
pub proof fn lemma_member_writes_recorded(syntax: SyntaxNode, j: int, k: int, name: Seq<char>)
    requires
        0 <= j < syntax.children@.len(),
        leaves_constructor(syntax.children@[j].kind),
        0 <= k < preorder(syntax.children@[j]).len(),
        written_name(preorder(syntax.children@[j])[k]) == Some(name),
        forall|i: int| 0 <= i < k ==> !(#[trigger] preorder(syntax.children@[j])[i] is ConstructorMember),
    ensures
        changed_names(syntax).contains(name),
{
    let children = syntax.children@;
    let member = preorder(children[j]);
    let before = seq![syntax.kind] + preorder_all(children.take(j));
    lemma_preorder_all_prefix(children, j + 1);
    assert(children.take(j + 1).drop_last() =~= children.take(j));
    assert(preorder_all(children.take(j + 1)) == preorder_all(children.take(j)) + member);
    let all = preorder(syntax);
    let idx = before.len() + k;
    let q = preorder_all(children.take(j));
    let p = preorder_all(children);
    let l = (q + member).len() as int;
    assert(all == seq![syntax.kind] + p);
    assert(p.take(l) == q + member);
    assert forall|i: int| 0 <= i < idx implies #[trigger] all.take(idx)[i] == (before + member.take(k))[i] by {
        if i >= 1 {
            assert(all[i] == p[i - 1]);
            assert(p[i - 1] == p.take(l)[i - 1]);
            assert(p.take(l)[i - 1] == (q + member)[i - 1]);
        }
    }
    assert(all.take(idx) =~= before + member.take(k));
    assert(all[idx] == p[idx - 1]);
    assert(p[idx - 1] == p.take(l)[idx - 1]);
    assert(all[idx] == member[k]);
    if k > 0 {
        assert forall|i: int| 0 <= i < member.take(k).len() implies !(#[trigger] member.take(k)[i] is ConstructorMember) by {
            assert(member.take(k)[i] == member[i]);
        }
        assert(member[0] == children[j].kind);
        lemma_member_flag_off(member.take(k), flag_after(before, false));
        crate::walk::lemma_walk_concat(before, member.take(k), false);
    } else {
        assert(member[0] == children[j].kind);
        assert(written_name(children[j].kind) is None);
    }
    assert(records_at(all, idx, false, name));
    lemma_changed_names_characterized(all, false, name);
}

/// A property that a class member other than the constructor writes to is never
/// reported.
pub proof fn lemma_member_writes_not_reported(
    members: Seq<ClassMember>,
    syntax: SyntaxNode,
    only_private: bool,
    property: AnyClassPropertiesLike,
    j: int,
    k: int,
)
    requires
        0 <= j < syntax.children@.len(),
        leaves_constructor(syntax.children@[j].kind),
        0 <= k < preorder(syntax.children@[j]).len(),
        property_name(property) is Some,
        written_name(preorder(syntax.children@[j])[k]) == property_name(property),
        forall|i: int| 0 <= i < k ==> !(#[trigger] preorder(syntax.children@[j])[i] is ConstructorMember),
    ensures
        !readonly_candidates(members, syntax, only_private).contains(property),
{
    lemma_member_writes_recorded(syntax, j, k, property_name(property)->0);
    if readonly_candidates(members, syntax, only_private).contains(property) {
        lemma_reported_are_checked_and_unassigned(members, syntax, only_private, property);
    }
}

/// Whether the `i`-th modifier is the accessibility `a` and no accessibility
/// modifier follows it.
pub open spec fn accessibility_last_at(modifiers: Seq<PropertyModifier>, i: int, a: Accessibility) -> bool {
    &&& 0 <= i < modifiers.len()
    &&& modifiers[i] == PropertyModifier::Accessibility(a)
    &&& forall|j: int| i < j < modifiers.len() ==> !(#[trigger] modifiers[j] is Accessibility)
}

proof fn lemma_last_accessibility_at(modifiers: Seq<PropertyModifier>, a: Accessibility)
    ensures
        last_accessibility(modifiers) == Some(a) <==> exists|i: int| #[trigger] accessibility_last_at(modifiers, i, a),
    decreases modifiers.len(),
{
    if modifiers.len() > 0 {
        let init = modifiers.drop_last();
        let n = modifiers.len() - 1;
        lemma_last_accessibility_at(init, a);
        if modifiers[n] is Accessibility {
            if last_accessibility(modifiers) == Some(a) {
                assert(accessibility_last_at(modifiers, n, a));
            }
            if exists|i: int| #[trigger] accessibility_last_at(modifiers, i, a) {
                let i = choose|i: int| #[trigger] accessibility_last_at(modifiers, i, a);
                assert(i == n);
            }
        } else {
            if last_accessibility(modifiers) == Some(a) {
                let i = choose|i: int| #[trigger] accessibility_last_at(init, i, a);
                assert(modifiers[i] == init[i]);
                assert forall|j: int| i < j < modifiers.len() implies !(#[trigger] modifiers[j] is Accessibility) by {
                    if j < n {
                        assert(modifiers[j] == init[j]);
                    }
                }
                assert(accessibility_last_at(modifiers, i, a));
            }
            if exists|i: int| #[trigger] accessibility_last_at(modifiers, i, a) {
                let i = choose|i: int| #[trigger] accessibility_last_at(modifiers, i, a);
                assert(i < n);
                assert(accessibility_last_at(init, i, a));
            }
        }
    }
}

/// Under the default options, a property member is checked exactly when no modifier
/// is `accessor` or `readonly` and it is private: its name is a `#name`, or some
/// modifier is `private` and no accessibility modifier comes after it. Modifiers such
/// as `static`, `declare`, `override` or decorators play no part.
pub proof fn lemma_member_checked_by_default(member: PropertyClassMember)
    ensures
        eligible_property_member(member, true) <==> {
            &&& forall|i: int| 0 <= i < member.modifiers@.len() ==> !(#[trigger] member.modifiers@[i] is Accessor)
                && !(member.modifiers@[i] is Readonly)
            &&& (member.name matches Some(ClassMemberName::Private { .. }) || exists|i: int|
                #[trigger] accessibility_last_at(member.modifiers@, i, Accessibility::Private))
        },
{
    lemma_last_accessibility_at(member.modifiers@, Accessibility::Private);
}

/// When all properties are checked, a property member is checked exactly when no
/// modifier is `accessor` or `readonly`.
pub proof fn lemma_member_checked_with_all(member: PropertyClassMember)
    ensures
        eligible_property_member(member, false) <==> forall|i: int|
            0 <= i < member.modifiers@.len() ==> !(#[trigger] member.modifiers@[i] is Accessor)
                && !(member.modifiers@[i] is Readonly),
{
}

proof fn lemma_last_accessibility_insert_other(modifiers: Seq<PropertyModifier>, i: int)
    requires
        0 <= i <= modifiers.len(),
    ensures
        last_accessibility(modifiers.insert(i, PropertyModifier::Other)) == last_accessibility(modifiers),
    decreases modifiers.len(),
{
    let with = modifiers.insert(i, PropertyModifier::Other);
    if i == modifiers.len() {
        assert(with.drop_last() =~= modifiers);
    } else {
        let init = modifiers.drop_last();
        lemma_last_accessibility_insert_other(init, i);
        assert(with.drop_last() =~= init.insert(i, PropertyModifier::Other));
        assert(with.last() == modifiers.last());
    }
}

/// Adding a modifier other than an accessibility, `readonly` or `accessor` (such as
/// `static`) anywhere among a member's modifiers does not change whether it is checked.
pub proof fn lemma_other_modifiers_irrelevant(
    member: PropertyClassMember,
    with_other: PropertyClassMember,
    i: int,
    only_private: bool,
)
    requires
        0 <= i <= member.modifiers@.len(),
        with_other.modifiers@ == member.modifiers@.insert(i, PropertyModifier::Other),
        with_other.name == member.name,
    ensures
        eligible_property_member(with_other, only_private) == eligible_property_member(member, only_private),
{
    let m = member.modifiers@;
    let w = with_other.modifiers@;
    lemma_last_accessibility_insert_other(m, i);
    if has_accessor_or_readonly(m) {
        let j = choose|j: int| #![trigger m[j]] 0 <= j < m.len() && (m[j] is Accessor || m[j] is Readonly);
        if j < i {
            assert(w[j] == m[j]);
        } else {
            assert(w[j + 1] == m[j]);
        }
    }
    if has_accessor_or_readonly(w) {
        let j = choose|j: int| #![trigger w[j]] 0 <= j < w.len() && (w[j] is Accessor || w[j] is Readonly);
        if j < i {
            assert(w[j] == m[j]);
        } else if j > i {
            assert(w[j] == m[j - 1]);
        }
    }
}

/// A property member is reported at its name, whatever kind of name it is; a member
/// without a name is reported at no range.
pub proof fn lemma_member_range_is_its_name(member: PropertyClassMember)
    ensures
        match member.name {
            Some(ClassMemberName::Literal { range, .. }) => property_range(
                AnyClassPropertiesLike::JsPropertyClassMember(member),
            ) == Some(range),
            Some(ClassMemberName::Private { range, .. }) => property_range(
                AnyClassPropertiesLike::JsPropertyClassMember(member),
            ) == Some(range),
            Some(ClassMemberName::Computed { range }) => property_range(
                AnyClassPropertiesLike::JsPropertyClassMember(member),
            ) == Some(range),
            Some(ClassMemberName::Metavariable { range }) => property_range(
                AnyClassPropertiesLike::JsPropertyClassMember(member),
            ) == Some(range),
            None => property_range(AnyClassPropertiesLike::JsPropertyClassMember(member)) is None,
        },
{
}

/// A parameter property that binds a plain identifier is named by that identifier
/// and reported at it, whatever its decorators and modifiers.
pub proof fn lemma_parameter_named_by_binding(parameter: PropertyParameter, name: Token, range: TextRange)
    requires
        parameter.formal_parameter == Some(
            FormalParameter::Formal { binding: Some(BindingPattern::Identifier { name: Some(name), range }) },
        ),
    ensures
        property_name(AnyClassPropertiesLike::TsPropertyParameter(parameter)) == Some(name.text@),
        property_range(AnyClassPropertiesLike::TsPropertyParameter(parameter)) == Some(range),
{
}

/// The name and range of a parameter property depend on its formal parameter only:
/// two parameter properties with the same formal parameter, whatever their
/// decorators and modifiers, have the same name and range.
pub proof fn lemma_parameter_name_ignores_decorators(first: PropertyParameter, second: PropertyParameter)
    requires
        first.formal_parameter == second.formal_parameter,
    ensures
        property_name(AnyClassPropertiesLike::TsPropertyParameter(first)) == property_name(
            AnyClassPropertiesLike::TsPropertyParameter(second),
        ),
        property_range(AnyClassPropertiesLike::TsPropertyParameter(first)) == property_range(
            AnyClassPropertiesLike::TsPropertyParameter(second),
        ),
{
}

/// A parameter property that binds `name` is not reported when a class member other
/// than the constructor writes to a static member `name`, such as `this.name = x`
/// in a method, whatever the parameter's decorators and modifiers.
pub proof fn lemma_written_parameter_not_reported(
    members: Seq<ClassMember>,
    syntax: SyntaxNode,
    only_private: bool,
    parameter: PropertyParameter,
    name: Token,
    range: TextRange,
    j: int,
    k: int,
)
    requires
        parameter.formal_parameter == Some(
            FormalParameter::Formal { binding: Some(BindingPattern::Identifier { name: Some(name), range }) },
        ),
        0 <= j < syntax.children@.len(),
        leaves_constructor(syntax.children@[j].kind),
        0 <= k < preorder(syntax.children@[j]).len(),
        written_name(preorder(syntax.children@[j])[k]) == Some(name.text@),
        forall|i: int| 0 <= i < k ==> !(#[trigger] preorder(syntax.children@[j])[i] is ConstructorMember),
    ensures
        !readonly_candidates(members, syntax, only_private).contains(
            AnyClassPropertiesLike::TsPropertyParameter(parameter),
        ),
{
    lemma_member_writes_not_reported(
        members,
        syntax,
        only_private,
        AnyClassPropertiesLike::TsPropertyParameter(parameter),
        j,
        k,
    );
}

/// Marking a member without modifiers `readonly` puts the keyword where the name
/// began: the keyword takes the leading trivia of the name's first token (the
/// literal, or the `#` of a private name), and the name keeps its text and
/// trailing trivia but loses that leading trivia. A member whose name has no such
/// token keeps its name, and the keyword has no leading trivia.
pub proof fn lemma_fix_moves_leading_trivia(member: PropertyClassMember, fixed: AnyClassPropertiesLike)
    requires
        member.modifiers@.len() == 0,
        member.name is Some,
        fixed_property(AnyClassPropertiesLike::JsPropertyClassMember(member), fixed),
    ensures
        match fixed {
            AnyClassPropertiesLike::JsPropertyClassMember(f) => {
                &&& f.modifiers@.len() == 1
                &&& f.property_annotation == member.property_annotation
                &&& f.value == member.value
                &&& f.semicolon == member.semicolon
                &&& match f.modifiers@[0] {
                    PropertyModifier::Readonly(keyword) => {
                        &&& keyword.text@ == "readonly"@
                        &&& keyword.trailing_trivia@ == " "@
                        &&& match (member.name, f.name) {
                            (
                                Some(ClassMemberName::Literal { value: Some(t), quoted, range }),
                                Some(ClassMemberName::Literal { value: Some(u), quoted: q, range: r }),
                            ) => keyword.leading_trivia@ == t.leading_trivia@ && u.leading_trivia@.len() == 0
                                && u.text == t.text && u.trailing_trivia == t.trailing_trivia && q == quoted
                                && r == range,
                            (
                                Some(ClassMemberName::Private { hash: Some(t), id, range }),
                                Some(ClassMemberName::Private { hash: Some(u), id: i, range: r }),
                            ) => keyword.leading_trivia@ == t.leading_trivia@ && u.leading_trivia@.len() == 0
                                && u.text == t.text && u.trailing_trivia == t.trailing_trivia && i == id
                                && r == range,
                            (Some(ClassMemberName::Literal { value: None, .. }), n) => n == member.name
                                && keyword.leading_trivia@.len() == 0,
                            (Some(ClassMemberName::Private { hash: None, .. }), n) => n == member.name
                                && keyword.leading_trivia@.len() == 0,
                            (Some(ClassMemberName::Computed { .. }), n) => n == member.name
                                && keyword.leading_trivia@.len() == 0,
                            (Some(ClassMemberName::Metavariable { .. }), n) => n == member.name
                                && keyword.leading_trivia@.len() == 0,
                            _ => false,
                        }
                    },
                    _ => false,
                }
            },
            _ => false,
        },
{
    match fixed {
        AnyClassPropertiesLike::JsPropertyClassMember(f) => {
            assert(f.modifiers@[0] == f.modifiers@.last());
        },
        _ => {},
    }
}

/// Marking a member that has modifiers `readonly` keeps them, in order, and adds the
/// keyword after them with no leading trivia; the name is unchanged.
pub proof fn lemma_fix_appends_after_modifiers(member: PropertyClassMember, fixed: AnyClassPropertiesLike)
    requires
        member.modifiers@.len() > 0,
        member.name is Some,
        fixed_property(AnyClassPropertiesLike::JsPropertyClassMember(member), fixed),
    ensures
        fixed matches AnyClassPropertiesLike::JsPropertyClassMember(f) && f.name == member.name
            && f.modifiers@.len() == member.modifiers@.len() + 1
            && (forall|i: int| 0 <= i < member.modifiers@.len() ==> #[trigger] f.modifiers@[i] == member.modifiers@[i])
            && (f.modifiers@.last() matches PropertyModifier::Readonly(keyword) && keyword.leading_trivia@.len() == 0
                && keyword.text@ == "readonly"@),
{
    match fixed {
        AnyClassPropertiesLike::JsPropertyClassMember(f) => {
            assert forall|i: int| 0 <= i < member.modifiers@.len() implies #[trigger] f.modifiers@[i] == member.modifiers@[i] by {
                assert(f.modifiers@.drop_last()[i] == f.modifiers@[i]);
            }
        },
        _ => {},
    }
}

/// Whether the `i`-th modifier of a parameter property is the accessibility `a` and
/// no accessibility modifier follows it.
pub open spec fn parameter_accessibility_last_at(modifiers: Seq<ParameterModifier>, i: int, a: Accessibility) -> bool {
    &&& 0 <= i < modifiers.len()
    &&& modifiers[i] == ParameterModifier::Accessibility(a)
    &&& forall|j: int| i < j < modifiers.len() ==> !(#[trigger] modifiers[j] is Accessibility)
}

proof fn lemma_last_parameter_accessibility_at(modifiers: Seq<ParameterModifier>, a: Accessibility)
    ensures
        last_parameter_accessibility(modifiers) == Some(a) <==> exists|i: int|
            #[trigger] parameter_accessibility_last_at(modifiers, i, a),
    decreases modifiers.len(),
{
    if modifiers.len() > 0 {
        let init = modifiers.drop_last();
        let n = modifiers.len() - 1;
        lemma_last_parameter_accessibility_at(init, a);
        if modifiers[n] is Accessibility {
            if last_parameter_accessibility(modifiers) == Some(a) {
                assert(parameter_accessibility_last_at(modifiers, n, a));
            }
            if exists|i: int| #[trigger] parameter_accessibility_last_at(modifiers, i, a) {
                let i = choose|i: int| #[trigger] parameter_accessibility_last_at(modifiers, i, a);
                assert(i == n);
            }
        } else {
            if last_parameter_accessibility(modifiers) == Some(a) {
                let i = choose|i: int| #[trigger] parameter_accessibility_last_at(init, i, a);
                assert(modifiers[i] == init[i]);
                assert forall|j: int| i < j < modifiers.len() implies !(#[trigger] modifiers[j] is Accessibility) by {
                    if j < n {
                        assert(modifiers[j] == init[j]);
                    }
                }
                assert(parameter_accessibility_last_at(modifiers, i, a));
            }
            if exists|i: int| #[trigger] parameter_accessibility_last_at(modifiers, i, a) {
                let i = choose|i: int| #[trigger] parameter_accessibility_last_at(modifiers, i, a);
                assert(i < n);
                assert(parameter_accessibility_last_at(init, i, a));
            }
        }
    }
}

/// A parameter property is checked exactly when none of its modifiers is
/// `readonly` and, under the default options, some modifier is `private` with no
/// accessibility modifier after it; `override` plays no part.
pub proof fn lemma_parameter_checked(modifiers: Seq<ParameterModifier>, only_private: bool)
    ensures
        parameter_modifiers_eligible(modifiers, only_private) <==> {
            &&& forall|i: int| 0 <= i < modifiers.len() ==> !(#[trigger] modifiers[i] is Readonly)
            &&& (!only_private || exists|i: int|
                #[trigger] parameter_accessibility_last_at(modifiers, i, Accessibility::Private))
        },
{
    lemma_last_parameter_accessibility_at(modifiers, Accessibility::Private);
}

} // verus!
