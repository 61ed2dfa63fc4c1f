//! The part of a TypeScript class's syntax that the rule reads, held as plain values.
//!
//! Each type mirrors one node kind of the JavaScript syntax tree. A child that
//! the parser may fail to produce is an `Option` (`None` where the tree has a
//! missing node), and node kinds that the rule treats alike share one variant.
use vstd::prelude::*;

verus! {

/// A range of source text, as byte offsets: `start` inclusive, `end` exclusive.
#[derive(Debug, Clone, Copy, PartialEq, Eq, Structural)]
pub struct TextRange {
    pub start: u32,
    pub end: u32,
}

/// A token: its text without trivia, and the trivia (whitespace, comments) around it.
#[derive(Debug, Clone, PartialEq, Eq)]
pub struct Token {
    pub leading_trivia: String,
    pub text: String,
    pub trailing_trivia: String,
}

/// An accessibility modifier: `private`, `protected` or `public`.
#[derive(Debug, Clone, Copy, PartialEq, Eq, Structural)]
pub enum Accessibility {
    Private,
    Protected,
    Public,
}

/// A modifier of a class property member.
#[derive(Debug, Clone, PartialEq, Eq)]
pub enum PropertyModifier {
    /// `accessor`
    Accessor,
    /// `readonly`, with its keyword token
    Readonly(Token),
    /// `private`, `protected` or `public`
    Accessibility(Accessibility),
    /// any other modifier: `static`, `declare`, `override`, `abstract`, a decorator
    Other,
}

/// A modifier of a constructor parameter property.
#[derive(Debug, Clone, PartialEq, Eq)]
pub enum ParameterModifier {
    /// `private`, `protected` or `public`
    Accessibility(Accessibility),
    /// `readonly`, with its keyword token
    Readonly(Token),
    /// `override`
    Override,
}

/// The name of a class member.
#[derive(Debug, Clone, PartialEq, Eq)]
pub enum ClassMemberName {
    /// An identifier, string or number literal; `quoted` when the token is a string literal.
    Literal { value: Option<Token>, quoted: bool, range: TextRange },
    /// `#name`: the `#` token and the identifier token after it.
    Private { hash: Option<Token>, id: Option<Token>, range: TextRange },
    /// `[expression]`
    Computed { range: TextRange },
    /// A grit metavariable.
    Metavariable { range: TextRange },
}

/// A property member of a class body, such as `private x: number = 1;`.
#[derive(Debug, Clone, PartialEq, Eq)]
pub struct PropertyClassMember {
    pub modifiers: Vec<PropertyModifier>,
    pub name: Option<ClassMemberName>,
    /// The type annotation, as source text.
    pub property_annotation: Option<String>,
    /// The initializer clause, as source text.
    pub value: Option<String>,
    pub semicolon: Option<Token>,
}

/// The binding of a formal parameter.
#[derive(Debug, Clone, PartialEq, Eq)]
pub enum BindingPattern {
    /// A plain identifier binding.
    Identifier { name: Option<Token>, range: TextRange },
    /// An array or object pattern, a bogus binding or a metavariable.
    Other,
}

/// A formal parameter.
#[derive(Debug, Clone, PartialEq, Eq)]
pub enum FormalParameter {
    Formal { binding: Option<BindingPattern> },
    Bogus,
    Metavariable,
}

/// A constructor parameter that declares a property, such as `private x: number`.
#[derive(Debug, Clone, PartialEq, Eq)]
pub struct PropertyParameter {
    /// The decorators, as source text.
    pub decorators: Vec<String>,
    pub modifiers: Vec<ParameterModifier>,
    pub formal_parameter: Option<FormalParameter>,
}

/// A parameter of a constructor.
#[derive(Debug, Clone, PartialEq, Eq)]
pub enum ConstructorParameter {
    /// A parameter property.
    Property(PropertyParameter),
    /// A plain formal parameter, a rest parameter, or a parameter the parser could not read.
    Other,
}

/// A constructor member; `parameters` is `None` where the parameter list is missing.
#[derive(Debug, Clone, PartialEq, Eq)]
pub struct ConstructorClassMember {
    pub parameters: Option<Vec<ConstructorParameter>>,
}

/// A member of a class body.
#[derive(Debug, Clone, PartialEq, Eq)]
pub enum ClassMember {
    Property(PropertyClassMember),
    Constructor(ConstructorClassMember),
    /// A method, getter, setter, index signature, static block or empty member.
    Other,
}

/// A statement, as far as the statement walk tells statements apart.
#[derive(Debug, PartialEq, Eq)]
pub enum Statement {
    /// `{ ... }`
    Block(Vec<Statement>),
    /// `do body while (...)`; `None` where the body is missing.
    DoWhile { body: Option<Box<Statement>> },
    /// `for (... in ...) body`; `None` where the body is missing.
    ForIn { body: Option<Box<Statement>> },
    /// An expression statement; `has_expression` is false where the expression is missing.
    Expression { has_expression: bool },
    /// A statement the walk passes over: bogus, `break`, `continue`, `debugger`, empty,
    /// a class or function declaration.
    Ignored,
    /// A statement the walk has no handling for yet: `for`, `for of`, `if`, labeled,
    /// `return`, `switch`, `throw`, `try`, variable, `while`, `with`, and the TypeScript
    /// declarations.
    Unhandled,
}

/// A method member of a class; `body` is `None` where the function body is missing.
#[derive(Debug, PartialEq, Eq)]
pub struct MethodClassMember {
    pub body: Option<Vec<Statement>>,
}

/// The member of a static member assignment: a plain name, or a `#name` when `private`.
#[derive(Debug, Clone, PartialEq, Eq)]
pub struct MemberName {
    pub value: Option<Token>,
    pub private: bool,
}

/// A place that an expression writes to: the left-hand side of an assignment, the
/// operand of `++`, `--` or `delete`, or a target inside a destructuring pattern.
#[derive(Debug, Clone, PartialEq, Eq)]
pub enum AssignmentTarget {
    /// `object.member`; `None` where the member is missing.
    StaticMember { member: Option<MemberName> },
    /// Any other target (an identifier, a computed member, a whole pattern), or a missing one.
    Other,
}

/// The kind of a syntax node, as far as the walk over a class tells kinds apart.
#[derive(Debug, PartialEq, Eq)]
pub enum NodeKind {
    /// A method member.
    MethodMember(MethodClassMember),
    /// A constructor member.
    ConstructorMember,
    /// Any other class member: a property, a getter, a setter, a static block, an
    /// index signature.
    OtherClassMember,
    /// `target = value`, or a compound assignment such as `target += value`.
    AssignmentExpression(AssignmentTarget),
    /// `target++`, `target--`, `++target` or `--target`.
    UpdateExpression(AssignmentTarget),
    /// `delete target`.
    DeleteExpression(AssignmentTarget),
    /// A target inside an array or object destructuring pattern, such as `this.a`
    /// in `[this.a] = values` or in `({ a: this.a } = object)`, rest elements included.
    DestructuringTarget(AssignmentTarget),
    /// Any other node.
    Other,
}

/// A node of the syntax tree and its children, in source order.
#[derive(Debug, PartialEq, Eq)]
pub struct SyntaxNode {
    pub kind: NodeKind,
    pub children: Vec<SyntaxNode>,
}

/// A class declaration: its members, and the syntax tree of the whole declaration.
#[derive(Debug, PartialEq, Eq)]
pub struct ClassDeclaration {
    pub members: Vec<ClassMember>,
    pub syntax: SyntaxNode,
}

/// A property of a class that may be marked `readonly`: a property member, or a
/// parameter property of the constructor.
#[derive(Debug, Clone, PartialEq, Eq)]
pub enum AnyClassPropertiesLike {
    JsPropertyClassMember(PropertyClassMember),
    TsPropertyParameter(PropertyParameter),
}

} // verus!
