//! Syntax tree of the Lua programs that the generator emits.

use vstd::prelude::*;

verus! {

/// A Lua expression.
#[allow(inconsistent_fields)]
pub enum Expr {
    Nil,
    /// A numeric literal, kept as its source text.
    Number(String),
    /// A string literal, kept as its source text (quotes included).
    String(String),
    Bool(bool),
    Var(String),
    /// A table constructor with string keys, in the order given.
    TableCons(Vec<InlineTableAssign>),
    TableAccess { expr: Box<Expr>, slot: String },
    ListCons(Vec<Expr>),
    ListAccess { expr: Box<Expr>, index: Box<Expr> },
    /// A call of an arbitrary callee value.
    FunCall { fun: Box<Expr>, params: Vec<Expr> },
    Lambda { params: Vec<String>, statements: Vec<Statement> },
    Paren(Box<Expr>),
    /// A call of a built-in that is referred to by its bare name.
    CallSystemFun { fun: String, params: Vec<Expr> },
    /// A binary operator, applied as a two-argument function.
    CallBinFun { fun: String, a: Box<Expr>, b: Box<Expr> },
    /// A unary operator, applied as a one-argument function.
    CallUniFun { fun: String, a: Box<Expr> },
}

/// One `key = value` entry of a table constructor.
pub struct InlineTableAssign {
    pub key: String,
    pub value: Expr,
}

/// A Lua statement.
#[allow(inconsistent_fields)]
pub enum Statement {
    LocalVarDeclare(String),
    Break,
    Return(Vec<Expr>),
    /// An `if` / `elseif` cascade: the first branch is the `if`, the others
    /// are `elseif`s, and `else_statement` is the body of the `else`
    /// (no `else` is written when it is empty).
    If { if_statements: Vec<If>, else_statement: Vec<Statement> },
    AssignVar { vars: Vec<String>, exprs: Vec<Expr> },
    AssignListAccess { target: Expr, index: Expr, new_value: Expr },
    AssignTableAccess { target: Expr, slot: String, new_value: Expr },
    While { test: Expr, statements: Vec<Statement> },
    Repeat { test: Expr, statements: Vec<Statement> },
    /// The generic `for .. in ..` loop.
    For { vars: Vec<String>, iterator: Expr, statements: Vec<Statement> },
    /// The counted `for` loop; the step is `1` when `increment` is absent.
    ForI { var: String, start: Expr, end: Expr, increment: Option<Expr>, statements: Vec<Statement> },
    FunCall { fun: Expr, params: Vec<Expr> },
    CallSystemFun { fun: String, params: Vec<Expr> },
}

/// One branch of an `if` cascade: a test and the body it guards.
pub struct If {
    pub test: Expr,
    pub statements: Vec<Statement>,
}

/// Every `If` statement in `e`, at any depth, has at least one branch.
pub open spec fn expr_well_formed(e: Expr) -> bool
    decreases e,
{
    match e {
        Expr::Nil | Expr::Number(_) | Expr::String(_) | Expr::Bool(_) | Expr::Var(_) => true,
        Expr::TableCons(assigns) => forall|i: int|
            0 <= i < assigns@.len() ==> expr_well_formed(#[trigger] assigns@[i].value),
        Expr::TableAccess { expr, slot: _ } => expr_well_formed(*expr),
        Expr::ListCons(items) => exprs_well_formed(items@),
        Expr::ListAccess { expr, index } => expr_well_formed(*expr) && expr_well_formed(*index),
        Expr::FunCall { fun, params } => expr_well_formed(*fun) && exprs_well_formed(params@),
        Expr::Lambda { params: _, statements } => statements_well_formed(statements@),
        Expr::Paren(inner) => expr_well_formed(*inner),
        Expr::CallSystemFun { fun: _, params } => exprs_well_formed(params@),
        Expr::CallBinFun { fun: _, a, b } => expr_well_formed(*a) && expr_well_formed(*b),
        Expr::CallUniFun { fun: _, a } => expr_well_formed(*a),
    }
}

/// Every expression of `es` is well formed.
pub open spec fn exprs_well_formed(es: Seq<Expr>) -> bool
    decreases es,
{
    forall|i: int| 0 <= i < es.len() ==> expr_well_formed(#[trigger] es[i])
}

/// Every `If` statement in `s`, at any depth, has at least one branch.
pub open spec fn statement_well_formed(s: Statement) -> bool
    decreases s,
{
    match s {
        Statement::LocalVarDeclare(_) | Statement::Break => true,
        Statement::Return(es) => exprs_well_formed(es@),
        Statement::If { if_statements, else_statement } => {
            &&& if_statements@.len() >= 1
            &&& forall|i: int|
                0 <= i < if_statements@.len() ==> branch_well_formed(#[trigger] if_statements@[i])
            &&& statements_well_formed(else_statement@)
        },
        Statement::AssignVar { vars: _, exprs } => exprs_well_formed(exprs@),
        Statement::AssignListAccess { target, index, new_value } => {
            expr_well_formed(target) && expr_well_formed(index) && expr_well_formed(new_value)
        },
        Statement::AssignTableAccess { target, slot: _, new_value } => {
            expr_well_formed(target) && expr_well_formed(new_value)
        },
        Statement::While { test, statements } => {
            expr_well_formed(test) && statements_well_formed(statements@)
        },
        Statement::Repeat { test, statements } => {
            expr_well_formed(test) && statements_well_formed(statements@)
        },
        Statement::For { vars: _, iterator, statements } => {
            expr_well_formed(iterator) && statements_well_formed(statements@)
        },
        Statement::ForI { var: _, start, end, increment, statements } => {
            &&& expr_well_formed(start)
            &&& expr_well_formed(end)
            &&& (increment matches Some(step) ==> expr_well_formed(step))
            &&& statements_well_formed(statements@)
        },
        Statement::FunCall { fun, params } => expr_well_formed(fun) && exprs_well_formed(params@),
        Statement::CallSystemFun { fun: _, params } => exprs_well_formed(params@),
    }
}

/// Every statement of `ss` is well formed.
pub open spec fn statements_well_formed(ss: Seq<Statement>) -> bool
    decreases ss,
{
    forall|i: int| 0 <= i < ss.len() ==> statement_well_formed(#[trigger] ss[i])
}

/// The test and the body of the branch are well formed.
pub open spec fn branch_well_formed(b: If) -> bool
    decreases b,
{
    expr_well_formed(b.test) && statements_well_formed(b.statements@)
}

/// Builds an `if` cascade from its first branch, the branches that
/// follow it and the body of its `else`. A cascade built this way has a
/// branch, so it is well formed if its parts are.
pub fn if_cascade(first: If, rest: Vec<If>, else_statement: Vec<Statement>) -> (s: Statement)
    ensures
        s matches Statement::If { if_statements, else_statement: otherwise }
            && if_statements@ == seq![first] + rest@ && otherwise == else_statement,
        branch_well_formed(first) && (forall|i: int|
            0 <= i < rest@.len() ==> branch_well_formed(#[trigger] rest@[i]))
            && statements_well_formed(else_statement@) ==> statement_well_formed(s),
{
    let mut rest = rest;
    let ghost tail = rest@;
    let mut if_statements: Vec<If> = Vec::new();
    if_statements.push(first);
    if_statements.append(&mut rest);
    assert(if_statements@ =~= seq![first] + tail);
    Statement::If { if_statements, else_statement }
}

/// Whether every `If` statement in `e` has at least one branch.
pub fn check_expr(e: &Expr) -> (r: bool)
    ensures
        r == expr_well_formed(*e),
    decreases e,
{
    match e {
        Expr::Nil | Expr::Number(_) | Expr::String(_) | Expr::Bool(_) | Expr::Var(_) => true,
        Expr::TableCons(assigns) => check_entries(assigns),
        Expr::TableAccess { expr, slot: _ } => check_expr(expr),
        Expr::ListCons(items) => check_exprs(items),
        Expr::ListAccess { expr, index } => check_expr(expr) && check_expr(index),
        Expr::FunCall { fun, params } => check_expr(fun) && check_exprs(params),
        Expr::Lambda { params: _, statements } => check_statements(statements),
        Expr::Paren(inner) => check_expr(inner),
        Expr::CallSystemFun { fun: _, params } => check_exprs(params),
        Expr::CallBinFun { fun: _, a, b } => check_expr(a) && check_expr(b),
        Expr::CallUniFun { fun: _, a } => check_expr(a),
    }
}

/// Whether the value of every entry of `assigns` is well formed.
fn check_entries(assigns: &Vec<InlineTableAssign>) -> (r: bool)
    ensures
        r == (forall|i: int|
            0 <= i < assigns@.len() ==> expr_well_formed(#[trigger] assigns@[i].value)),
    decreases assigns,
{
    let mut i: usize = 0;
    while i < assigns.len()
        invariant
            i <= assigns.len(),
            forall|j: int| 0 <= j < i ==> expr_well_formed(#[trigger] assigns@[j].value),
        decreases assigns.len() - i,
    {
        if !check_expr(&assigns[i].value) {
            return false;
        }
        i = i + 1;
    }
    true
}

/// Whether every branch of `branches` is well formed.
fn check_branches(branches: &Vec<If>) -> (r: bool)
    ensures
        r == (forall|i: int|
            0 <= i < branches@.len() ==> branch_well_formed(#[trigger] branches@[i])),
    decreases branches,
{
    let mut i: usize = 0;
    while i < branches.len()
        invariant
            i <= branches.len(),
            forall|j: int| 0 <= j < i ==> branch_well_formed(#[trigger] branches@[j]),
        decreases branches.len() - i,
    {
        if !(check_expr(&branches[i].test) && check_statements(&branches[i].statements)) {
            return false;
        }
        i = i + 1;
    }
    true
}

/// Whether every expression of `es` is well formed.
pub fn check_exprs(es: &Vec<Expr>) -> (r: bool)
    ensures
        r == exprs_well_formed(es@),
    decreases es,
{
    let mut i: usize = 0;
    while i < es.len()
        invariant
            i <= es.len(),
            forall|j: int| 0 <= j < i ==> expr_well_formed(#[trigger] es@[j]),
        decreases es.len() - i,
    {
        if !check_expr(&es[i]) {
            return false;
        }
        i = i + 1;
    }
    true
}

/// Whether every `If` statement in `s` has at least one branch.
pub fn check_statement(s: &Statement) -> (r: bool)
    ensures
        r == statement_well_formed(*s),
    decreases s,
{
    match s {
        Statement::LocalVarDeclare(_) | Statement::Break => true,
        Statement::Return(es) => check_exprs(es),
        Statement::If { if_statements, else_statement } => {
            if_statements.len() >= 1 && check_branches(if_statements) && check_statements(
                else_statement,
            )
        },
        Statement::AssignVar { vars: _, exprs } => check_exprs(exprs),
        Statement::AssignListAccess { target, index, new_value } => check_expr(target)
            && check_expr(index) && check_expr(new_value),
        Statement::AssignTableAccess { target, slot: _, new_value } => check_expr(target)
            && check_expr(new_value),
        Statement::While { test, statements } => check_expr(test) && check_statements(statements),
        Statement::Repeat { test, statements } => check_expr(test) && check_statements(statements),
        Statement::For { vars: _, iterator, statements } => check_expr(iterator)
            && check_statements(statements),
        Statement::ForI { var: _, start, end, increment, statements } => {
            let step_ok = match increment {
                Some(step) => check_expr(step),
                None => true,
            };
            check_expr(start) && check_expr(end) && step_ok && check_statements(statements)
        },
        Statement::FunCall { fun, params } => check_expr(fun) && check_exprs(params),
        Statement::CallSystemFun { fun: _, params } => check_exprs(params),
    }
}

/// Whether every statement of `ss` is well formed: whether the generator
/// accepts `ss`.
pub fn check_statements(ss: &Vec<Statement>) -> (r: bool)
    ensures
        r == statements_well_formed(ss@),
    decreases ss,
{
    let mut i: usize = 0;
    while i < ss.len()
        invariant
            i <= ss.len(),
            forall|j: int| 0 <= j < i ==> statement_well_formed(#[trigger] ss@[j]),
        decreases ss.len() - i,
    {
        if !check_statement(&ss[i]) {
            return false;
        }
        i = i + 1;
    }
    true
}

} // verus!
