use readonly_lint::fix::get_replace_class_member_name;
use readonly_lint::eligibility::{get_constructor_eligible_params, get_eligible_properties, get_eligible_property};
use readonly_lint::names::get_property_name;
use readonly_lint::options::{is_default, ReadonlyClassPropertiesOptions};
use readonly_lint::rule::{Applicability, UseReadonlyClassProperties};
use readonly_lint::syntax::{
    Accessibility, AnyClassPropertiesLike, AssignmentTarget, BindingPattern, ClassDeclaration,
    ClassMember, ClassMemberName, ConstructorClassMember, ConstructorParameter, FormalParameter,
    MemberName, MethodClassMember, NodeKind, ParameterModifier, PropertyClassMember,
    PropertyModifier, PropertyParameter, Statement, SyntaxNode, TextRange, Token,
};
use readonly_lint::walk::{
    find_method_member_change, find_params, find_properties_need_add_readonly,
    find_property_modify_in_function,
};

fn tok(text: &str) -> Token {
    Token { leading_trivia: String::new(), text: text.to_string(), trailing_trivia: String::new() }
}

fn tok_trivia(leading: &str, text: &str, trailing: &str) -> Token {
    Token { leading_trivia: leading.to_string(), text: text.to_string(), trailing_trivia: trailing.to_string() }
}

fn range(start: u32, end: u32) -> TextRange {
    TextRange { start, end }
}

fn ident(text: &str, start: u32) -> ClassMemberName {
    ClassMemberName::Literal { value: Some(tok(text)), quoted: false, range: range(start, start + text.len() as u32) }
}

fn hash_name(text: &str, start: u32) -> ClassMemberName {
    ClassMemberName::Private {
        hash: Some(tok("#")),
        id: Some(tok(text)),
        range: range(start, start + 1 + text.len() as u32),
    }
}

fn member(modifiers: Vec<PropertyModifier>, name: ClassMemberName) -> PropertyClassMember {
    PropertyClassMember { modifiers, name: Some(name), property_annotation: None, value: None, semicolon: Some(tok(";")) }
}

fn private() -> PropertyModifier {
    PropertyModifier::Accessibility(Accessibility::Private)
}

fn readonly() -> PropertyModifier {
    PropertyModifier::Readonly(tok_trivia("", "readonly", " "))
}

fn param(modifiers: Vec<ParameterModifier>, name: &str, start: u32) -> PropertyParameter {
    PropertyParameter {
        decorators: vec![],
        modifiers,
        formal_parameter: Some(FormalParameter::Formal {
            binding: Some(BindingPattern::Identifier {
                name: Some(tok(name)),
                range: range(start, start + name.len() as u32),
            }),
        }),
    }
}

fn leaf(kind: NodeKind) -> SyntaxNode {
    SyntaxNode { kind, children: vec![] }
}

fn node(kind: NodeKind, children: Vec<SyntaxNode>) -> SyntaxNode {
    SyntaxNode { kind, children }
}

fn assign_this(name: &str, private: bool) -> SyntaxNode {
    leaf(NodeKind::AssignmentExpression(AssignmentTarget::StaticMember {
        member: Some(MemberName { value: Some(tok(name)), private }),
    }))
}

fn names(properties: &[AnyClassPropertiesLike]) -> Vec<String> {
    properties.iter().map(|p| p.text_trimmed().unwrap_or_default()).collect()
}

fn default_options() -> ReadonlyClassPropertiesOptions {
    ReadonlyClassPropertiesOptions::default()
}

fn check_all() -> ReadonlyClassPropertiesOptions {
    ReadonlyClassPropertiesOptions { check_all_properties: true }
}

/// class Container {
///     private neverModifiedMember = true;
///     private onlyModifiedInConstructor: number;
///     #neverModifiedPrivateField = 3;
///     public constructor(onlyModifiedInConstructor: number, private neverModifiedParameter: string) {
///         this.onlyModifiedInConstructor = onlyModifiedInConstructor;
///     }
/// }
fn invalid_example() -> ClassDeclaration {
    let members = vec![
        ClassMember::Property(member(vec![private()], ident("neverModifiedMember", 30))),
        ClassMember::Property(member(vec![private()], ident("onlyModifiedInConstructor", 70))),
        ClassMember::Property(member(vec![], hash_name("neverModifiedPrivateField", 110))),
        ClassMember::Constructor(ConstructorClassMember {
            parameters: Some(vec![
                ConstructorParameter::Other,
                ConstructorParameter::Property(param(
                    vec![ParameterModifier::Accessibility(Accessibility::Private)],
                    "neverModifiedParameter",
                    200,
                )),
            ]),
        }),
    ];
    let syntax = node(NodeKind::Other, vec![
        leaf(NodeKind::OtherClassMember),
        leaf(NodeKind::OtherClassMember),
        leaf(NodeKind::OtherClassMember),
        node(NodeKind::ConstructorMember, vec![
            node(NodeKind::Other, vec![assign_this("onlyModifiedInConstructor", false)]),
        ]),
    ]);
    ClassDeclaration { members, syntax }
}

/// class Container {
///     private readonly neverModifiedMember = true;
///     private readonly onlyModifiedInConstructor: number;
///     #modifiedLaterPrivateField = 'unchanged';
///     public constructor(onlyModifiedInConstructor: number, private readonly neverModifiedParameter: string) {
///         this.onlyModifiedInConstructor = onlyModifiedInConstructor;
///     }
///     public mutatePrivateField() {
///         this.#modifiedLaterPrivateField = 'mutated';
///     }
/// }
fn valid_example() -> ClassDeclaration {
    let members = vec![
        ClassMember::Property(member(vec![private(), readonly()], ident("neverModifiedMember", 30))),
        ClassMember::Property(member(vec![private(), readonly()], ident("onlyModifiedInConstructor", 80))),
        ClassMember::Property(member(vec![], hash_name("modifiedLaterPrivateField", 130))),
        ClassMember::Constructor(ConstructorClassMember {
            parameters: Some(vec![
                ConstructorParameter::Other,
                ConstructorParameter::Property(param(
                    vec![
                        ParameterModifier::Accessibility(Accessibility::Private),
                        ParameterModifier::Readonly(tok_trivia("", "readonly", " ")),
                    ],
                    "neverModifiedParameter",
                    250,
                )),
            ]),
        }),
        ClassMember::Other,
    ];
    let syntax = node(NodeKind::Other, vec![
        leaf(NodeKind::OtherClassMember),
        leaf(NodeKind::OtherClassMember),
        leaf(NodeKind::OtherClassMember),
        node(NodeKind::ConstructorMember, vec![assign_this("onlyModifiedInConstructor", false)]),
        node(NodeKind::MethodMember(MethodClassMember { body: Some(vec![Statement::Expression { has_expression: true }]) }), vec![
            assign_this("modifiedLaterPrivateField", true),
        ]),
    ]);
    ClassDeclaration { members, syntax }
}

#[test]
fn documented_invalid_example_is_reported() {
    let reported = UseReadonlyClassProperties::run(invalid_example(), &default_options());
    assert_eq!(
        names(&reported),
        vec!["neverModifiedMember", "onlyModifiedInConstructor", "#neverModifiedPrivateField", "neverModifiedParameter"]
    );
}

#[test]
fn documented_valid_example_is_not_reported() {
    let reported = UseReadonlyClassProperties::run(valid_example(), &default_options());
    assert!(reported.is_empty());
    let reported = UseReadonlyClassProperties::run(valid_example(), &check_all());
    assert!(reported.is_empty());
}

#[test]
fn public_members_only_with_check_all_properties() {
    let make = || ClassDeclaration {
        members: vec![
            ClassMember::Property(member(vec![PropertyModifier::Accessibility(Accessibility::Public)], ident("a", 10))),
            ClassMember::Property(member(vec![PropertyModifier::Accessibility(Accessibility::Protected)], ident("b", 20))),
            ClassMember::Property(member(vec![], ident("c", 30))),
            ClassMember::Property(member(vec![private()], ident("d", 40))),
        ],
        syntax: leaf(NodeKind::Other),
    };
    assert_eq!(names(&UseReadonlyClassProperties::run(make(), &default_options())), vec!["d"]);
    assert_eq!(names(&UseReadonlyClassProperties::run(make(), &check_all())), vec!["a", "b", "c", "d"]);
}

#[test]
fn modifiers_without_accessibility() {
    // `static s`: public, so checked only when all properties are.
    let static_member = member(vec![PropertyModifier::Other], ident("s", 10));
    assert!(get_eligible_property(&static_member, false));
    assert!(!get_eligible_property(&static_member, true));
    // `static #s`: a private field, checked under the default options.
    let static_private_name = member(vec![PropertyModifier::Other], hash_name("s", 10));
    assert!(get_eligible_property(&static_private_name, true));
    let class = ClassDeclaration {
        members: vec![ClassMember::Property(member(vec![PropertyModifier::Other], hash_name("a", 10)))],
        syntax: node(NodeKind::Other, vec![leaf(NodeKind::OtherClassMember)]),
    };
    assert_eq!(names(&UseReadonlyClassProperties::run(class, &default_options())), vec!["#a"]);
}

#[test]
fn readonly_and_accessor_members_are_never_checked() {
    for blocker in [readonly(), PropertyModifier::Accessor] {
        let m = member(vec![private(), blocker.clone()], ident("x", 10));
        assert!(!get_eligible_property(&m, true));
        assert!(!get_eligible_property(&m, false));
        let m = member(vec![blocker, private()], ident("x", 10));
        assert!(!get_eligible_property(&m, false));
    }
}

#[test]
fn last_accessibility_modifier_decides() {
    let m = member(vec![PropertyModifier::Accessibility(Accessibility::Public), private()], ident("x", 10));
    assert!(get_eligible_property(&m, true));
    let m = member(vec![private(), PropertyModifier::Accessibility(Accessibility::Public)], ident("x", 10));
    assert!(!get_eligible_property(&m, true));
    assert!(get_eligible_property(&m, false));
}

#[test]
fn parameter_modifier_order_decides() {
    let ctor = |mods: Vec<ParameterModifier>| {
        Some(ConstructorClassMember {
            parameters: Some(vec![ConstructorParameter::Property(param(mods, "p", 10))]),
        })
    };
    let readonly_tok = || ParameterModifier::Readonly(tok_trivia("", "readonly", " "));
    let private_p = || ParameterModifier::Accessibility(Accessibility::Private);
    assert_eq!(get_constructor_eligible_params(ctor(vec![private_p(), readonly_tok()]), true).len(), 0);
    // A parameter that is already readonly is never checked, whatever the order.
    assert_eq!(get_constructor_eligible_params(ctor(vec![readonly_tok(), private_p()]), true).len(), 0);
    assert_eq!(get_constructor_eligible_params(ctor(vec![readonly_tok(), private_p()]), false).len(), 0);
    assert_eq!(get_constructor_eligible_params(ctor(vec![readonly_tok()]), false).len(), 0);
    assert_eq!(get_constructor_eligible_params(ctor(vec![private_p(), ParameterModifier::Override]), true).len(), 1);
    assert_eq!(get_constructor_eligible_params(ctor(vec![ParameterModifier::Override]), true).len(), 0);
    assert_eq!(get_constructor_eligible_params(ctor(vec![ParameterModifier::Override]), false).len(), 1);
    assert_eq!(
        get_constructor_eligible_params(ctor(vec![ParameterModifier::Accessibility(Accessibility::Protected)]), false).len(),
        1
    );
    assert_eq!(
        get_constructor_eligible_params(ctor(vec![ParameterModifier::Accessibility(Accessibility::Protected)]), true).len(),
        0
    );
    assert_eq!(get_constructor_eligible_params(None, false).len(), 0);
    assert_eq!(get_constructor_eligible_params(Some(ConstructorClassMember { parameters: None }), false).len(), 0);
}

#[test]
fn only_the_first_constructor_counts() {
    let ctor = |name: &str| {
        ClassMember::Constructor(ConstructorClassMember {
            parameters: Some(vec![ConstructorParameter::Property(param(
                vec![ParameterModifier::Accessibility(Accessibility::Private)],
                name,
                10,
            ))]),
        })
    };
    let members = vec![ctor("first"), ClassMember::Property(member(vec![private()], ident("m", 50))), ctor("second")];
    assert_eq!(names(&get_eligible_properties(members, true)), vec!["m", "first"]);
}

#[test]
fn assignments_in_methods_remove_properties() {
    let class = ClassDeclaration {
        members: vec![
            ClassMember::Property(member(vec![private()], ident("a", 10))),
            ClassMember::Property(member(vec![private()], ident("b", 20))),
        ],
        syntax: node(NodeKind::Other, vec![
            node(NodeKind::MethodMember(MethodClassMember { body: None }), vec![assign_this("a", false)]),
        ]),
    };
    assert_eq!(names(&UseReadonlyClassProperties::run(class, &default_options())), vec!["b"]);
}

#[test]
fn constructor_state_ends_at_the_next_class_member() {
    // A write inside the constructor is ignored; one in any later member counts.
    let syntax = node(NodeKind::Other, vec![
        node(NodeKind::ConstructorMember, vec![assign_this("c", false)]),
        node(NodeKind::OtherClassMember, vec![assign_this("a", false)]),
        node(NodeKind::MethodMember(MethodClassMember { body: Some(vec![]) }), vec![]),
        node(NodeKind::Other, vec![assign_this("b", false)]),
    ]);
    let properties = vec![
        AnyClassPropertiesLike::JsPropertyClassMember(member(vec![private()], ident("a", 10))),
        AnyClassPropertiesLike::JsPropertyClassMember(member(vec![private()], ident("b", 20))),
        AnyClassPropertiesLike::JsPropertyClassMember(member(vec![private()], ident("c", 30))),
    ];
    assert_eq!(names(&find_properties_need_add_readonly(&syntax, properties)), vec!["c"]);
}

/// class C { private a = 1; constructor() {} set v(x: number) { this.a = x; } }
#[test]
fn setter_writes_count() {
    let class = ClassDeclaration {
        members: vec![
            ClassMember::Property(member(vec![private()], ident("a", 18))),
            ClassMember::Constructor(ConstructorClassMember { parameters: Some(vec![]) }),
            ClassMember::Other,
        ],
        syntax: node(NodeKind::Other, vec![
            leaf(NodeKind::OtherClassMember),
            leaf(NodeKind::ConstructorMember),
            node(NodeKind::OtherClassMember, vec![node(NodeKind::Other, vec![assign_this("a", false)])]),
        ]),
    };
    assert!(UseReadonlyClassProperties::run(class, &default_options()).is_empty());
}

fn static_member(name: &str) -> AssignmentTarget {
    AssignmentTarget::StaticMember { member: Some(MemberName { value: Some(tok(name)), private: false }) }
}

/// class C { private a = 0; inc() { this.a++; } }, and the same with `--`,
/// `delete` and destructuring targets.
#[test]
fn updates_deletes_and_destructuring_count() {
    let writes = vec![
        leaf(NodeKind::UpdateExpression(static_member("a"))),
        leaf(NodeKind::DeleteExpression(static_member("a"))),
        node(
            NodeKind::AssignmentExpression(AssignmentTarget::Other),
            vec![leaf(NodeKind::DestructuringTarget(static_member("a")))],
        ),
    ];
    for write in writes {
        let class = ClassDeclaration {
            members: vec![
                ClassMember::Property(member(vec![private()], ident("a", 18))),
                ClassMember::Property(member(vec![private()], ident("b", 30))),
            ],
            syntax: node(NodeKind::Other, vec![
                leaf(NodeKind::OtherClassMember),
                leaf(NodeKind::OtherClassMember),
                node(NodeKind::MethodMember(MethodClassMember { body: None }), vec![write]),
            ]),
        };
        assert_eq!(names(&UseReadonlyClassProperties::run(class, &default_options())), vec!["b"]);
    }
}

#[test]
fn writes_inside_the_constructor_do_not_count() {
    let class = ClassDeclaration {
        members: vec![ClassMember::Property(member(vec![private()], ident("a", 18)))],
        syntax: node(NodeKind::Other, vec![
            leaf(NodeKind::OtherClassMember),
            node(NodeKind::ConstructorMember, vec![
                leaf(NodeKind::UpdateExpression(static_member("a"))),
                leaf(NodeKind::DestructuringTarget(static_member("a"))),
            ]),
        ]),
    };
    assert_eq!(names(&UseReadonlyClassProperties::run(class, &default_options())), vec!["a"]);
}

#[test]
fn assignment_to_any_object_member_counts() {
    let syntax = node(NodeKind::Other, vec![assign_this("x", false), leaf(NodeKind::AssignmentExpression(AssignmentTarget::Other))]);
    let properties = vec![
        AnyClassPropertiesLike::JsPropertyClassMember(member(vec![private()], ident("x", 10))),
        AnyClassPropertiesLike::JsPropertyClassMember(member(vec![private()], hash_name("x", 20))),
        AnyClassPropertiesLike::JsPropertyClassMember(PropertyClassMember {
            modifiers: vec![private()],
            name: Some(ClassMemberName::Computed { range: range(30, 35) }),
            property_annotation: None,
            value: None,
            semicolon: None,
        }),
    ];
    let kept = find_properties_need_add_readonly(&syntax, properties);
    assert_eq!(kept.len(), 2);
    assert_eq!(kept[0].text_trimmed(), Some("#x".to_string()));
    assert_eq!(kept[1].text_trimmed(), None);
}

#[test]
fn private_name_assignment_matches_private_member() {
    let syntax = node(NodeKind::Other, vec![assign_this("x", true)]);
    let properties = vec![
        AnyClassPropertiesLike::JsPropertyClassMember(member(vec![private()], ident("x", 10))),
        AnyClassPropertiesLike::JsPropertyClassMember(member(vec![], hash_name("x", 20))),
    ];
    let kept = find_properties_need_add_readonly(&syntax, properties);
    assert_eq!(names(&kept), vec!["x"]);
}

#[test]
fn property_names() {
    let quoted = ClassMemberName::Literal { value: Some(tok("'foo'")), quoted: true, range: range(0, 5) };
    let p = AnyClassPropertiesLike::JsPropertyClassMember(member(vec![], quoted));
    assert_eq!(p.text_trimmed(), Some("foo".to_string()));
    let p = AnyClassPropertiesLike::JsPropertyClassMember(member(vec![], hash_name("bar", 3)));
    assert_eq!(p.text_trimmed(), Some("#bar".to_string()));
    let p = AnyClassPropertiesLike::JsPropertyClassMember(member(vec![], ident("42", 3)));
    assert_eq!(p.text_trimmed(), Some("42".to_string()));
    let p = AnyClassPropertiesLike::TsPropertyParameter(PropertyParameter {
        decorators: vec![],
        modifiers: vec![],
        formal_parameter: Some(FormalParameter::Formal { binding: Some(BindingPattern::Other) }),
    });
    assert_eq!(p.text_trimmed(), None);
    assert_eq!(p.range(), None);
}

#[test]
fn get_property_name_of_assignments() {
    let private_member = AssignmentTarget::StaticMember { member: Some(MemberName { value: Some(tok("x")), private: true }) };
    assert_eq!(get_property_name(&private_member), Some("#x".to_string()));
    let plain = AssignmentTarget::StaticMember { member: Some(MemberName { value: Some(tok("y")), private: false }) };
    assert_eq!(get_property_name(&plain), Some("y".to_string()));
    let missing = AssignmentTarget::StaticMember { member: Some(MemberName { value: None, private: false }) };
    assert_eq!(get_property_name(&missing), None);
    assert_eq!(get_property_name(&AssignmentTarget::StaticMember { member: None }), None);
    assert_eq!(get_property_name(&AssignmentTarget::Other), None);
}

#[test]
fn diagnostic_message_and_range() {
    let p = AnyClassPropertiesLike::JsPropertyClassMember(member(vec![private()], ident("count", 14)));
    let d = UseReadonlyClassProperties::diagnostic(&p).unwrap();
    assert_eq!(d.category, "lint/nursery/useReadonlyClassProperties");
    assert_eq!(d.message, "Member 'count' is never reassigned; mark it as `readonly`.");
    assert_eq!(d.range, Some(range(14, 19)));
    let unnamed = AnyClassPropertiesLike::JsPropertyClassMember(PropertyClassMember {
        modifiers: vec![private()],
        name: None,
        property_annotation: None,
        value: None,
        semicolon: None,
    });
    let d = UseReadonlyClassProperties::diagnostic(&unnamed).unwrap();
    assert_eq!(d.message, "Member '' is never reassigned; mark it as `readonly`.");
    assert_eq!(d.range, None);
    let p = AnyClassPropertiesLike::TsPropertyParameter(param(vec![], "q", 40));
    assert_eq!(UseReadonlyClassProperties::diagnostic(&p).unwrap().range, Some(range(40, 41)));
}

#[test]
fn action_adds_readonly_after_modifiers() {
    let m = PropertyClassMember {
        modifiers: vec![private()],
        name: Some(ClassMemberName::Literal { value: Some(tok_trivia(" ", "x", " ")), quoted: false, range: range(8, 9) }),
        property_annotation: Some(": number".to_string()),
        value: Some("= 1".to_string()),
        semicolon: Some(tok(";")),
    };
    let a = UseReadonlyClassProperties::action(AnyClassPropertiesLike::JsPropertyClassMember(m.clone())).unwrap();
    assert_eq!(a.applicability, Applicability::MaybeIncorrect);
    assert_eq!(a.message, "Add `readonly` decorator.");
    let mut expected = m;
    expected.modifiers.push(PropertyModifier::Readonly(tok_trivia("", "readonly", " ")));
    assert_eq!(a.replacement, AnyClassPropertiesLike::JsPropertyClassMember(expected));
}

#[test]
fn action_moves_name_trivia_onto_readonly() {
    let m = PropertyClassMember {
        modifiers: vec![],
        name: Some(ClassMemberName::Private {
            hash: Some(tok_trivia("\n    ", "#", "")),
            id: Some(tok("x")),
            range: range(5, 7),
        }),
        property_annotation: None,
        value: Some("= 3".to_string()),
        semicolon: None,
    };
    let fixed = AnyClassPropertiesLike::JsPropertyClassMember(m).replace_syntax();
    let expected = PropertyClassMember {
        modifiers: vec![PropertyModifier::Readonly(tok_trivia("\n    ", "readonly", " "))],
        name: Some(ClassMemberName::Private { hash: Some(tok("#")), id: Some(tok("x")), range: range(5, 7) }),
        property_annotation: None,
        value: Some("= 3".to_string()),
        semicolon: None,
    };
    assert_eq!(fixed, AnyClassPropertiesLike::JsPropertyClassMember(expected));
}

#[test]
fn action_on_parameter_and_on_incomplete_properties() {
    let p = param(vec![ParameterModifier::Accessibility(Accessibility::Private)], "p", 3);
    let fixed = AnyClassPropertiesLike::TsPropertyParameter(p.clone()).replace_syntax();
    let mut expected = p;
    expected.modifiers.push(ParameterModifier::Readonly(tok_trivia("", "readonly", " ")));
    assert_eq!(fixed, AnyClassPropertiesLike::TsPropertyParameter(expected));

    let no_formal = PropertyParameter { decorators: vec!["@D()".to_string()], modifiers: vec![], formal_parameter: None };
    let same = AnyClassPropertiesLike::TsPropertyParameter(no_formal.clone());
    assert_eq!(same.clone().replace_syntax(), same);
    let no_name = AnyClassPropertiesLike::JsPropertyClassMember(PropertyClassMember {
        modifiers: vec![],
        name: None,
        property_annotation: None,
        value: None,
        semicolon: None,
    });
    assert_eq!(no_name.clone().replace_syntax(), no_name);
}

#[test]
fn computed_names_keep_their_trivia() {
    let m = member(vec![], ClassMemberName::Computed { range: range(1, 4) });
    let fixed = AnyClassPropertiesLike::JsPropertyClassMember(m.clone()).replace_syntax();
    let mut expected = m;
    expected.modifiers.push(PropertyModifier::Readonly(tok_trivia("", "readonly", " ")));
    assert_eq!(fixed, AnyClassPropertiesLike::JsPropertyClassMember(expected));
}

#[test]
fn replace_class_member_name_variants() {
    let name = ClassMemberName::Literal { value: Some(tok_trivia("  ", "x", " ")), quoted: false, range: range(2, 3) };
    let (stripped, leading) = get_replace_class_member_name(name).unwrap();
    assert_eq!(leading, "  ");
    assert_eq!(stripped, ClassMemberName::Literal { value: Some(tok_trivia("", "x", " ")), quoted: false, range: range(2, 3) });
    assert_eq!(get_replace_class_member_name(ClassMemberName::Computed { range: range(0, 1) }), None);
    assert_eq!(get_replace_class_member_name(ClassMemberName::Metavariable { range: range(0, 1) }), None);
    assert_eq!(
        get_replace_class_member_name(ClassMemberName::Private { hash: None, id: Some(tok("y")), range: range(0, 2) }),
        None
    );
}

#[test]
fn fixed_properties_are_not_reported_again() {
    let class = invalid_example();
    let reported = UseReadonlyClassProperties::run(class, &check_all());
    assert_eq!(reported.len(), 4);
    let mut members = Vec::new();
    let mut parameters = Vec::new();
    for p in reported {
        match p.replace_syntax() {
            AnyClassPropertiesLike::JsPropertyClassMember(m) => members.push(ClassMember::Property(m)),
            AnyClassPropertiesLike::TsPropertyParameter(q) => parameters.push(ConstructorParameter::Property(q)),
        }
    }
    members.push(ClassMember::Constructor(ConstructorClassMember { parameters: Some(parameters) }));
    let fixed = ClassDeclaration { members, syntax: leaf(NodeKind::Other) };
    assert!(UseReadonlyClassProperties::run(fixed, &check_all()).is_empty());
}

#[test]
fn default_options_report_only_private_properties() {
    let reported = UseReadonlyClassProperties::run(invalid_example(), &default_options());
    for p in &reported {
        match p {
            AnyClassPropertiesLike::JsPropertyClassMember(m) => assert!(
                matches!(m.name, Some(ClassMemberName::Private { .. })) || m.modifiers.contains(&private())
            ),
            AnyClassPropertiesLike::TsPropertyParameter(q) => {
                assert!(q.modifiers.contains(&ParameterModifier::Accessibility(Accessibility::Private)))
            }
        }
    }
    let all = UseReadonlyClassProperties::run(invalid_example(), &check_all());
    for p in &reported {
        assert!(all.contains(p));
    }
}

#[test]
fn options_default_and_is_default() {
    assert!(!default_options().check_all_properties);
    assert!(is_default(&false));
    assert!(!is_default(&true));
    assert!(is_default(&0u32));
    assert!(!is_default(&7u32));
    assert!(is_default(&default_options()));
    assert!(!is_default(&check_all()));
}

#[test]
fn statement_walks_on_handled_statements() {
    let statements = vec![
        Statement::Block(vec![Statement::Ignored, Statement::Expression { has_expression: false }]),
        Statement::DoWhile { body: Some(Box::new(Statement::Block(vec![Statement::Ignored]))) },
        Statement::ForIn { body: Some(Box::new(Statement::Unhandled)) },
        Statement::ForIn { body: None },
    ];
    find_property_modify_in_function(&statements, vec!["this"]);
    find_method_member_change(&MethodClassMember { body: Some(statements) });
    find_method_member_change(&MethodClassMember { body: None });
    find_params();
}
