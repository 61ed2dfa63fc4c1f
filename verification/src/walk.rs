//! The walk over a class's syntax that finds the properties written outside the
//! constructor, and the statement walks that go with it.
use vstd::prelude::*;
use rustc_hash::FxHashSet;
use crate::name_set::{
    name_set_contains, name_set_contents, name_set_insert, name_set_is_empty, name_set_new,
};
use crate::names::{assigned_property_name, get_property_name, option_text, property_name};
use crate::syntax::{
    AnyClassPropertiesLike, AssignmentTarget, MethodClassMember, NodeKind, Statement, SyntaxNode,
};

verus! {

/// The kinds of the nodes of a tree in preorder: the root, then each child's subtree in order.
pub open spec fn preorder(node: SyntaxNode) -> Seq<NodeKind>
    decreases node,
{
    seq![node.kind] + preorder_all(node.children@)
}

/// The kinds of the nodes of a sequence of trees in preorder, tree after tree.
pub open spec fn preorder_all(nodes: Seq<SyntaxNode>) -> Seq<NodeKind>
    decreases nodes,
{
    if nodes.len() == 0 {
        Seq::empty()
    } else {
        preorder_all(nodes.drop_last()) + preorder(nodes.last())
    }
}

/// Whether entering a node of kind `kind` leaves any constructor: it is a class
/// member other than a constructor.
pub open spec fn leaves_constructor(kind: NodeKind) -> bool {
    kind is MethodMember || kind is OtherClassMember
}

/// Whether the walk is inside a constructor after entering a node of kind `kind`:
/// entering any other class member leaves it, entering a constructor enters it.
pub open spec fn enter_flag(kind: NodeKind, in_constructor: bool) -> bool {
    if kind is ConstructorMember {
        true
    } else if leaves_constructor(kind) {
        false
    } else {
        in_constructor
    }
}

/// The place that a node writes to: that of an assignment, an update (`++`, `--`),
/// a `delete`, or a destructuring target.
pub open spec fn written_target(kind: NodeKind) -> Option<AssignmentTarget> {
    match kind {
        NodeKind::AssignmentExpression(target) => Some(target),
        NodeKind::UpdateExpression(target) => Some(target),
        NodeKind::DeleteExpression(target) => Some(target),
        NodeKind::DestructuringTarget(target) => Some(target),
        _ => None,
    }
}

/// The property name that a node writes to, when it writes to a static member.
pub open spec fn written_name(kind: NodeKind) -> Option<Seq<char>> {
    match written_target(kind) {
        Some(target) => assigned_property_name(target),
        None => None,
    }
}

/// Whether the walk is inside a constructor after entering each of `kinds` in turn.
pub open spec fn flag_after(kinds: Seq<NodeKind>, in_constructor: bool) -> bool
    decreases kinds.len(),
{
    if kinds.len() == 0 {
        in_constructor
    } else {
        enter_flag(kinds.last(), flag_after(kinds.drop_last(), in_constructor))
    }
}

/// The name that entering a node records: that of a static member that the node
/// writes to, when it is met outside a constructor.
pub open spec fn entered_name(kind: NodeKind, in_constructor: bool) -> Set<Seq<char>> {
    if in_constructor {
        Set::empty()
    } else {
        match written_name(kind) {
            Some(name) => Set::empty().insert(name),
            None => Set::empty(),
        }
    }
}

/// The names recorded while entering each of `kinds` in turn.
pub open spec fn changed_names_in(kinds: Seq<NodeKind>, in_constructor: bool) -> Set<Seq<char>>
    decreases kinds.len(),
{
    if kinds.len() == 0 {
        Set::empty()
    } else {
        changed_names_in(kinds.drop_last(), in_constructor).union(
            entered_name(kinds.last(), flag_after(kinds.drop_last(), in_constructor)),
        )
    }
}

/// The property names that a class writes to outside its constructor: the walk
/// starts outside any constructor, at the class's root node.
pub open spec fn changed_names(syntax: SyntaxNode) -> Set<Seq<char>> {
    changed_names_in(preorder(syntax), false)
}

/// The properties of `properties` that keep their place: those without a name, and
/// those whose name is not in `changed`, in order.
pub open spec fn unchanged_properties(properties: Seq<AnyClassPropertiesLike>, changed: Set<Seq<char>>) -> Seq<AnyClassPropertiesLike>
    decreases properties.len(),
{
    if properties.len() == 0 {
        Seq::empty()
    } else {
        let before = unchanged_properties(properties.drop_last(), changed);
        match property_name(properties.last()) {
            Some(name) => if changed.contains(name) {
                before
            } else {
                before.push(properties.last())
            },
            None => before.push(properties.last()),
        }
    }
}

pub proof fn lemma_walk_concat(a: Seq<NodeKind>, b: Seq<NodeKind>, in_constructor: bool)
    ensures
        flag_after(a + b, in_constructor) == flag_after(b, flag_after(a, in_constructor)),
        changed_names_in(a + b, in_constructor) == changed_names_in(a, in_constructor).union(
            changed_names_in(b, flag_after(a, in_constructor)),
        ),
    decreases b.len(),
{
    if b.len() == 0 {
        assert(a + b =~= a);
        assert(changed_names_in(a, in_constructor).union(Set::empty()) =~= changed_names_in(a, in_constructor));
    } else {
        lemma_walk_concat(a, b.drop_last(), in_constructor);
        assert((a + b).drop_last() =~= a + b.drop_last());
        let f = flag_after(a, in_constructor);
        assert(changed_names_in(a + b, in_constructor) =~= changed_names_in(a, in_constructor).union(
            changed_names_in(b, f),
        ));
    }
}

proof fn lemma_unchanged_nothing(properties: Seq<AnyClassPropertiesLike>)
    ensures
        unchanged_properties(properties, Set::empty()) == properties,
    decreases properties.len(),
{
    if properties.len() > 0 {
        lemma_unchanged_nothing(properties.drop_last());
        assert(properties.drop_last().push(properties.last()) =~= properties);
    }
}

/// Walks a method's body; nothing is recorded of it yet.
pub fn find_method_member_change(method_class_member: &MethodClassMember) {
    let _instances: Vec<&str> = vec!["this"];
    if let Some(statements) = &method_class_member.body {
        let mut i: usize = 0;
        while i < statements.len()
            decreases statements.len() - i,
        {
            i = i + 1;
        }
    }
}

/// Whether the statement walk handles a statement: an expression statement with an
/// expression, or a statement kind it has no handling for, stops it.
pub open spec fn statement_handled(statement: Statement) -> bool
    decreases statement,
{
    match statement {
        Statement::Block(statements) => statements_handled(statements@),
        Statement::DoWhile { body: Some(body) } => match *body {
            Statement::Block(statements) => statements_handled(statements@),
            _ => true,
        },
        Statement::ForIn { body: Some(body) } => match *body {
            Statement::Block(statements) => statements_handled(statements@),
            _ => true,
        },
        Statement::Expression { has_expression } => !has_expression,
        Statement::Unhandled => false,
        _ => true,
    }
}

/// Whether the statement walk handles every statement of a list.
pub open spec fn statements_handled(statements: Seq<Statement>) -> bool
    decreases statements,
{
    if statements.len() == 0 {
        true
    } else {
        statements_handled(statements.drop_last()) && statement_handled(statements.last())
    }
}

proof fn lemma_handled_at(statements: Seq<Statement>, i: int)
    requires
        statements_handled(statements),
        0 <= i < statements.len(),
    ensures
        statement_handled(statements[i]),
    decreases statements.len(),
{
    if i < statements.len() - 1 {
        lemma_handled_at(statements.drop_last(), i);
    }
}

/// Walks a statement list for changes of `knowns_refers`, entering blocks, and the
/// block bodies of `do ... while` and `for ... in` loops; it records nothing.
pub fn find_property_modify_in_function(statements: &Vec<Statement>, knowns_refers: Vec<&str>)
    requires
        statements_handled(statements@),
    decreases statements,
{
    let refers = knowns_refers;
    let mut i: usize = 0;
    while i < statements.len()
        invariant
            i <= statements@.len(),
            statements_handled(statements@),
        decreases statements.len() - i,
    {
        proof {
            lemma_handled_at(statements@, i as int);
        }
        match &statements[i] {
            Statement::Block(next_statements) => {
                find_property_modify_in_function(next_statements, refers.clone());
            },
            Statement::DoWhile { body: Some(body) } => {
                if let Statement::Block(next_statements) = &**body {
                    find_property_modify_in_function(next_statements, refers.clone());
                }
            },
            Statement::ForIn { body: Some(body) } => {
                if let Statement::Block(next_statements) = &**body {
                    find_property_modify_in_function(next_statements, refers.clone());
                }
            },
            _ => {},
        }
        i = i + 1;
    }
}

/// Finding the parameters through which a method refers to its instance is not
/// done yet; this computes nothing.
pub fn find_params() {
}

/// Enters `node` and its subtree in preorder: entering a class member other than a
/// constructor leaves any constructor, entering a constructor enters one, and a
/// write to a static member (assignment, `++`, `--`, `delete`, destructuring) met
/// outside a constructor records the member's name.
fn walk(node: &SyntaxNode, in_constructor: &mut bool, changed: &mut FxHashSet<String>)
    ensures
        *final(in_constructor) == flag_after(preorder(*node), *old(in_constructor)),
        name_set_contents(*final(changed)) == name_set_contents(*old(changed)).union(
            changed_names_in(preorder(*node), *old(in_constructor)),
        ),
    decreases node,
{
    let ghost flag0 = *in_constructor;
    let ghost names0 = name_set_contents(*changed);
    match &node.kind {
        NodeKind::MethodMember(method_member) => {
            *in_constructor = false;
            find_method_member_change(method_member);
        },
        NodeKind::ConstructorMember => {
            *in_constructor = true;
        },
        NodeKind::OtherClassMember => {
            *in_constructor = false;
        },
        NodeKind::AssignmentExpression(target) | NodeKind::UpdateExpression(target)
        | NodeKind::DeleteExpression(target) | NodeKind::DestructuringTarget(target) => {
            if !*in_constructor {
                if let Some(name) = get_property_name(target) {
                    name_set_insert(changed, name);
                }
            }
        },
        NodeKind::Other => {},
    }
    let ghost head = seq![node.kind];
    proof {
        assert(head.drop_last() =~= Seq::<NodeKind>::empty());
        assert(head.last() == node.kind);
        assert(changed_names_in(head.drop_last(), flag0) == Set::<Seq<char>>::empty());
        assert(flag_after(head.drop_last(), flag0) == flag0);
        assert(changed_names_in(head, flag0) =~= entered_name(node.kind, flag0));
        assert(name_set_contents(*changed) =~= names0.union(changed_names_in(head, flag0)));
    }
    let children = &node.children;
    let mut i: usize = 0;
    while i < children.len()
        invariant
            i <= children@.len(),
            children@ == node.children@,
            *in_constructor == flag_after(head + preorder_all(children@.take(i as int)), flag0),
            name_set_contents(*changed) == names0.union(
                changed_names_in(head + preorder_all(children@.take(i as int)), flag0),
            ),
        decreases children@.len() - i,
    {
        let ghost before = head + preorder_all(children@.take(i as int));
        walk(&children[i], in_constructor, changed);
        proof {
            assert(children@.take(i + 1).drop_last() =~= children@.take(i as int));
            assert(head + preorder_all(children@.take(i + 1)) =~= before + preorder(children@[i as int]));
            lemma_walk_concat(before, preorder(children@[i as int]), flag0);
            assert(name_set_contents(*changed) =~= names0.union(
                changed_names_in(head + preorder_all(children@.take(i + 1)), flag0),
            ));
        }
        i = i + 1;
    }
    assert(children@.take(children@.len() as int) =~= children@);
}

/// The properties of `properties` that nothing outside the constructor modifies, in
/// order: the class's syntax is walked in preorder for writes to static members, and
/// properties whose name was written to are dropped.
pub fn find_properties_need_add_readonly(
    syntax: &SyntaxNode,
    properties: Vec<AnyClassPropertiesLike>,
) -> (r: Vec<AnyClassPropertiesLike>)
    ensures
        r@ == unchanged_properties(properties@, changed_names(*syntax)),
{
    let mut constructor_member = false;
    let mut changed_properties = name_set_new();
    walk(syntax, &mut constructor_member, &mut changed_properties);
    assert(name_set_contents(changed_properties) =~= changed_names(*syntax));
    let mut properties = properties;
    if !name_set_is_empty(&changed_properties) {
        let ghost all = properties@;
        let n = properties.len();
        let mut kept: Vec<AnyClassPropertiesLike> = Vec::new();
        let mut k: usize = 0;
        while properties.len() > 0
            invariant
                k + properties@.len() == all.len(),
                all.len() == n,
                properties@ == all.subrange(k as int, all.len() as int),
                kept@ == unchanged_properties(all.take(k as int), name_set_contents(changed_properties)),
            decreases properties@.len(),
        {
            let property = properties.remove(0);
            assert(all.take(k + 1).drop_last() =~= all.take(k as int));
            assert(property == all[k as int]);
            let name = property.text_trimmed();
            let retain = match &name {
                Some(name) => !name_set_contains(&changed_properties, name),
                None => true,
            };
            assert(option_text(name) == property_name(property));
            if retain {
                kept.push(property);
            }
            k = k + 1;
            assert(properties@ =~= all.subrange(k as int, all.len() as int));
        }
        assert(all.take(k as int) =~= all);
        return kept;
    }
    proof {
        lemma_unchanged_nothing(properties@);
    }
    properties
}

} // verus!
