//! Syntax tree of the source language, as the parser builds it, and the
//! mathematical view of each node.

use vstd::prelude::*;

verus! {

/// A piece of the input with its place in it: `value` is the text between
/// the character positions `start` (included) and `end` (excluded).
#[derive(Debug)]
pub struct PSym {
    pub start: usize,
    pub end: usize,
    pub value: String,
}

/// A type expression.
#[derive(Debug)]
pub enum Type {
    /// `()`
    Unit,
    /// A bare name.
    Simple(PSym),
    /// A name applied to type arguments: `name<T, ...>`.
    Index(PSym, Vec<Type>),
    /// `fun(T, ...) -> T`
    Fun { input: Vec<Type>, output: Box<Type> },
    /// `(T, T, ...)`, of two or more types.
    Tuple(Vec<Type>),
    /// A type reached through a path: `a::b::T`.
    Namespace(Vec<PSym>, Box<Type>),
    /// No type was written; a later stage infers it.
    Infer,
}

/// `use a::b::{...};`
#[derive(Debug)]
pub struct Use {
    pub namespace: Vec<PSym>,
    pub imports: Vec<Import>,
}

/// One entry of an import list.
#[derive(Debug)]
pub enum Import {
    /// `*`
    Everything,
    Item(PSym),
}

/// An expression.
#[derive(Debug)]
#[allow(inconsistent_fields)]
pub enum Expr {
    Number(PSym),
    PString(PSym),
    Bool(bool),
    Variable { namespace: Vec<PSym>, name: PSym },
    /// A lambda whose body is a block. `return_type` is `Infer` when none
    /// was written.
    StatementLambda { params: Vec<FunParam>, return_type: Type, definition: Vec<Statement> },
    /// A lambda whose body is an expression.
    ExprLambda { params: Vec<FunParam>, return_type: Type, definition: Box<Expr> },
    Call { func: Box<Expr>, params: Vec<Expr> },
    /// Postfix `?`.
    Try(Box<Expr>),
    /// Postfix `.slot`.
    Dot { object: Box<Expr>, slot: PSym },
    /// Postfix `-func`.
    Dash { object: Box<Expr>, func: PSym },
    /// `new [Name] { slot: value, ... }`
    StructCons { name: Option<PSym>, slots: Vec<StructSlot> },
    /// `[value, ...]`
    ListCons(Vec<Expr>),
    /// `Ok(value)` or `Err(value)`.
    ResultCons(ResultValue),
}

/// A statement. `If`, `ElseIf` and `Else` are three statements of their
/// own; a later stage joins them into one cascade.
#[derive(Debug)]
#[allow(inconsistent_fields)]
pub enum Statement {
    Expr(Expr),
    Return(Option<Expr>),
    Yield(Option<Expr>),
    /// `value_type` is `Infer` when none was written.
    Let { name: PSym, value_type: Type, expr: Expr },
    /// `set target = new_value;`
    Assign { target: Expr, new_value: Expr },
    Break,
    Continue,
    While { test: Expr, statements: Vec<Statement> },
    Foreach { var: PSym, items: Expr, statements: Vec<Statement> },
    If { test: Expr, statements: Vec<Statement> },
    ElseIf { test: Expr, statements: Vec<Statement> },
    Else(Vec<Statement>),
    Match { target: Expr, cases: Vec<MatchCase> },
}

/// One case of a `match`: `pattern [if test] => statements`.
#[derive(Debug)]
pub struct MatchCase {
    pub pattern: MatchPattern,
    pub test: Option<Expr>,
    pub statements: Vec<Statement>,
}

/// A pattern of a `match` case.
#[derive(Debug)]
pub enum MatchPattern {
    /// `_`
    Wildcard,
    /// A constructor and the patterns of its fields; none for a
    /// constructor without fields.
    Cons(PSym, Vec<MatchPattern>),
}

/// A parsed module. Each `*_exports` list holds the names of those
/// definitions of its kind that are marked `pub`, in the order of the
/// definitions.
#[derive(Debug)]
pub struct Mod {
    pub fun_defs: Vec<FunDef>,
    pub struct_defs: Vec<StructDef>,
    pub enum_defs: Vec<EnumDef>,
    pub fun_exports: Vec<String>,
    pub struct_exports: Vec<String>,
    pub enum_exports: Vec<String>,
    pub uses: Vec<Use>,
}

/// One item at the top level of a module.
#[derive(Debug)]
#[allow(inconsistent_fields)]
pub enum TopLevel {
    FunDef { def: FunDef, public: bool },
    EnumDef { def: EnumDef, public: bool },
    StructDef { def: StructDef, public: bool },
    Import(Use),
}

/// `enum Name { Case, ... }`
#[derive(Debug)]
pub struct EnumDef {
    pub name: PSym,
    pub items: Vec<PSym>,
}

/// `struct Name<T, ...> { item: Type, ... }`
#[derive(Debug)]
pub struct StructDef {
    pub name: PSym,
    pub type_params: Vec<PSym>,
    pub items: Vec<StructItem>,
}

/// One field of a struct definition.
#[derive(Debug)]
pub struct StructItem {
    pub name: PSym,
    pub item_type: Type,
}

/// One `slot: value` of a struct constructor.
#[derive(Debug)]
pub struct StructSlot {
    pub name: PSym,
    pub value: Expr,
}

/// The payload of a result constructor.
#[derive(Debug)]
pub enum ResultValue {
    Okay(Box<Expr>),
    Error(Box<Expr>),
}

/// `fun name<T, ...>(param: Type, ...) [-> Type] { ... }`; `return_type`
/// is `Unit` when none was written.
#[derive(Debug)]
pub struct FunDef {
    pub name: PSym,
    pub type_params: Vec<PSym>,
    pub params: Vec<FunParam>,
    pub return_type: Type,
    pub definition: Vec<Statement>,
}

/// A parameter with its type; `Infer` where a lambda leaves it out.
#[derive(Debug)]
pub struct FunParam {
    pub name: PSym,
    pub param_type: Type,
}

} // verus!
