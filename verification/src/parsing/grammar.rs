//! The grammar of expressions, statements and patterns, stated as
//! functions from a text and a position to what is found there.
//!
//! Alternatives are ordered: an earlier one that matches hides the later
//! ones. A form that fails after it has consumed part of the input fails
//! as a whole; nothing goes back to try another reading of what was
//! consumed, except where the grammar says "or else".
//!
//! The functions that take an `origin` describe a part of a form that
//! began at `origin`; the part itself stands after it.

use vstd::prelude::*;
use crate::parsing::combinators::{spec_choice, spec_list, spec_many, spec_maybe};
use crate::parsing::lexical::{
    giving, nowhere, spec_expect, spec_number, spec_string, spec_symbol, Outcome,
};
use crate::parsing::parse_error::ErrorView;
use crate::parsing::types::{spec_path_segment, spec_type};
use crate::parsing::view::{
    ExprView, FunParamView, MatchCaseView, MatchPatternView, ResultValueView, StatementView,
    StructSlotView, TypeView,
};

verus! {

/// The forms of a statement.
#[derive(Clone, Copy)]
pub enum StatementRule {
    Let,
    Match,
    If,
    ElseIf,
    Else,
    Assign,
    Return,
    Yield,
    Foreach,
    While,
    Break,
    Continue,
    Expr,
}

/// The forms of a statement in the order in which they are tried: the
/// forms that begin with a keyword first, and the expression statement,
/// which takes any name for a variable, last.
pub open spec fn statement_rules() -> Seq<StatementRule> {
    seq![
        StatementRule::Let,
        StatementRule::Match,
        StatementRule::If,
        StatementRule::ElseIf,
        StatementRule::Else,
        StatementRule::Assign,
        StatementRule::Return,
        StatementRule::Yield,
        StatementRule::Foreach,
        StatementRule::While,
        StatementRule::Break,
        StatementRule::Continue,
        StatementRule::Expr,
    ]
}

/// The forms of a primary expression.
#[derive(Clone, Copy)]
pub enum PrimaryRule {
    Number,
    PString,
    Bool,
    Lambda,
    ResultCons,
    StructCons,
    Variable,
    ListCons,
    Paren,
}

/// The forms of a primary expression in the order in which they are
/// tried. The constructors stand before the variable, which would
/// otherwise take their keywords for names.
pub open spec fn primary_rules() -> Seq<PrimaryRule> {
    seq![
        PrimaryRule::Number,
        PrimaryRule::PString,
        PrimaryRule::Bool,
        PrimaryRule::Lambda,
        PrimaryRule::ResultCons,
        PrimaryRule::StructCons,
        PrimaryRule::Variable,
        PrimaryRule::ListCons,
        PrimaryRule::Paren,
    ]
}

// ---------------------------------------------------------------- patterns

/// A pattern: the symbol `_` is the wildcard; any other symbol is a
/// constructor, with the patterns of its fields in parentheses after it,
/// or none.
pub open spec fn spec_pattern(text: Seq<char>, pos: nat) -> Outcome<MatchPatternView>
    decreases text.len() - pos, 2nat,
{
    match spec_symbol(text, pos) {
        Outcome::Fail { error } => Outcome::Fail { error },
        Outcome::Match { value: name, next: after_name } => if name.value == "_"@ {
            Outcome::Match { value: MatchPatternView::Wildcard, next: after_name }
        } else {
            match spec_pattern_fields(text, pos, after_name) {
                Outcome::Match { value: fields, next } => Outcome::Match {
                    value: MatchPatternView::Cons(name, fields),
                    next,
                },
                Outcome::Fail { .. } => Outcome::Match {
                    value: MatchPatternView::Cons(name, Seq::empty()),
                    next: after_name,
                },
            }
        },
    }
}

/// The fields of a constructor pattern: `(` patterns `)`.
pub open spec fn spec_pattern_fields(text: Seq<char>, origin: nat, from: nat) -> Outcome<
    Seq<MatchPatternView>,
>
    decreases text.len() - origin, 1nat,
{
    match spec_expect(text, from, "("@) {
        Outcome::Fail { error } => Outcome::Fail { error },
        Outcome::Match { value: _, next: p1 } => {
            let fields = spec_list(
                |p: nat|
                    if origin < p <= text.len() {
                        spec_pattern(text, p)
                    } else {
                        nowhere()
                    },
                text,
                p1,
            );
            giving(spec_expect(text, fields.1, ")"@), fields.0)
        },
    }
}

// ------------------------------------------------------------- expressions

/// The type that an optional `lead type` gives: the type after `lead`, or
/// `Infer` where `lead` is not there. A `lead` without a type after it is
/// a failure.
pub open spec fn spec_type_after(text: Seq<char>, pos: nat, lead: Seq<char>) -> Outcome<TypeView> {
    match spec_expect(text, pos, lead) {
        Outcome::Match { value: _, next } => spec_type(text, next),
        Outcome::Fail { .. } => Outcome::Match { value: TypeView::Infer, next: pos },
    }
}

/// A parameter of a lambda: a name, with `: type` or without.
pub open spec fn spec_lambda_param(text: Seq<char>, pos: nat) -> Outcome<FunParamView> {
    match spec_symbol(text, pos) {
        Outcome::Fail { error } => Outcome::Fail { error },
        Outcome::Match { value: name, next: p1 } => match spec_type_after(text, p1, ":"@) {
            Outcome::Fail { error } => Outcome::Fail { error },
            Outcome::Match { value: param_type, next } => Outcome::Match {
                value: FunParamView { name, param_type },
                next,
            },
        },
    }
}

/// The expression at `from`, which lies after `origin`.
pub open spec fn spec_expr_at(text: Seq<char>, origin: nat, from: nat) -> Outcome<ExprView>
    decreases text.len() - origin, 0nat,
{
    if origin < from <= text.len() {
        spec_expr(text, from)
    } else {
        nowhere()
    }
}

/// The comma-separated expressions at `from`, which lies after `origin`.
pub open spec fn spec_expr_list(text: Seq<char>, origin: nat, from: nat) -> (Seq<ExprView>, nat)
    decreases text.len() - origin, 0nat,
{
    spec_list(
        |p: nat|
            if origin < p <= text.len() {
                spec_expr(text, p)
            } else {
                nowhere()
            },
        text,
        from,
    )
}

/// The statements at `from`, which lies after `origin`, one after the
/// other as far as they go.
pub open spec fn spec_statements(text: Seq<char>, origin: nat, from: nat) -> (
    Seq<StatementView>,
    nat,
)
    decreases text.len() - origin, 0nat,
{
    spec_many(
        |p: nat|
            if origin < p <= text.len() {
                spec_statement(text, p)
            } else {
                nowhere()
            },
        text.len(),
        from,
    )
}

/// The rest of a block after its `{`, at `from`: statements and `}`.
pub open spec fn spec_block_rest(text: Seq<char>, origin: nat, from: nat) -> Outcome<
    Seq<StatementView>,
>
    decreases text.len() - origin, 1nat,
{
    let body = spec_statements(text, origin, from);
    giving(spec_expect(text, body.1, "}"@), body.0)
}

/// A block at `from`, which lies after `origin`: `{`, statements, `}`.
pub open spec fn spec_block(text: Seq<char>, origin: nat, from: nat) -> Outcome<
    Seq<StatementView>,
>
    decreases text.len() - origin, 2nat,
{
    match spec_expect(text, from, "{"@) {
        Outcome::Fail { error } => Outcome::Fail { error },
        Outcome::Match { value: _, next } => spec_block_rest(text, origin, next),
    }
}

/// An expression: a primary expression and the postfix operators that
/// follow it.
pub open spec fn spec_expr(text: Seq<char>, pos: nat) -> Outcome<ExprView>
    decreases text.len() - pos, 20nat,
{
    match spec_primary(text, pos) {
        Outcome::Fail { error } => Outcome::Fail { error },
        Outcome::Match { value, next } => if pos <= next <= text.len() {
            spec_post_expr(text, next, value)
        } else {
            nowhere()
        },
    }
}

/// A primary expression: the first of the forms of `primary_rules` that
/// matches.
pub open spec fn spec_primary(text: Seq<char>, pos: nat) -> Outcome<ExprView>
    decreases text.len() - pos, 18nat,
{
    spec_choice(|rule: PrimaryRule| spec_primary_form(text, pos, rule), primary_rules(), pos)
}

/// A primary expression of the form `rule`.
pub open spec fn spec_primary_form(text: Seq<char>, pos: nat, rule: PrimaryRule) -> Outcome<
    ExprView,
>
    decreases text.len() - pos, 17nat,
{
    match rule {
        PrimaryRule::Number => match spec_number(text, pos) {
            Outcome::Match { value, next } => Outcome::Match {
                value: ExprView::Number(value),
                next,
            },
            Outcome::Fail { error } => Outcome::Fail { error },
        },
        PrimaryRule::PString => match spec_string(text, pos) {
            Outcome::Match { value, next } => Outcome::Match {
                value: ExprView::PString(value),
                next,
            },
            Outcome::Fail { error } => Outcome::Fail { error },
        },
        PrimaryRule::Bool => spec_bool(text, pos),
        PrimaryRule::Lambda => spec_lambda(text, pos),
        PrimaryRule::ResultCons => spec_result_cons(text, pos),
        PrimaryRule::StructCons => spec_struct_cons(text, pos),
        PrimaryRule::Variable => spec_variable(text, pos),
        PrimaryRule::ListCons => spec_list_cons(text, pos),
        PrimaryRule::Paren => spec_paren_expr(text, pos),
    }
}

/// A boolean literal: the symbol `true` or the symbol `false`. Another
/// symbol is an error at the place where it starts.
pub open spec fn spec_bool(text: Seq<char>, pos: nat) -> Outcome<ExprView> {
    match spec_symbol(text, pos) {
        Outcome::Fail { error } => Outcome::Fail { error },
        Outcome::Match { value, next } => if value.value == "true"@ {
            Outcome::Match { value: ExprView::Bool(true), next }
        } else if value.value == "false"@ {
            Outcome::Match { value: ExprView::Bool(false), next }
        } else {
            Outcome::Fail { error: ErrorView::ErrorAt(value.start, "Expected boolean"@) }
        },
    }
}

/// A variable: the segments of a path, and a name.
pub open spec fn spec_variable(text: Seq<char>, pos: nat) -> Outcome<ExprView> {
    let path = spec_many(|p: nat| spec_path_segment(text, p), text.len(), pos);
    match spec_symbol(text, path.1) {
        Outcome::Fail { error } => Outcome::Fail { error },
        Outcome::Match { value: name, next } => Outcome::Match {
            value: ExprView::Variable { namespace: path.0, name },
            next,
        },
    }
}

/// A lambda: `|` parameters `|`, an optional `-> type`, and a body that
/// is a block or else an expression.
pub open spec fn spec_lambda(text: Seq<char>, pos: nat) -> Outcome<ExprView>
    decreases text.len() - pos, 16nat,
{
    match spec_expect(text, pos, "|"@) {
        Outcome::Fail { error } => Outcome::Fail { error },
        Outcome::Match { value: _, next: p1 } => {
            let params = spec_list(|p: nat| spec_lambda_param(text, p), text, p1);
            match spec_expect(text, params.1, "|"@) {
                Outcome::Fail { error } => Outcome::Fail { error },
                Outcome::Match { value: _, next: p2 } => match spec_type_after(text, p2, "->"@) {
                    Outcome::Fail { error } => Outcome::Fail { error },
                    Outcome::Match { value: return_type, next: p3 } => match spec_expect(
                        text,
                        p3,
                        "{"@,
                    ) {
                        Outcome::Match { value: _, next: p4 } => match spec_block_rest(
                            text,
                            pos,
                            p4,
                        ) {
                            Outcome::Fail { error } => Outcome::Fail { error },
                            Outcome::Match { value: definition, next } => Outcome::Match {
                                value: ExprView::StatementLambda {
                                    params: params.0,
                                    return_type,
                                    definition,
                                },
                                next,
                            },
                        },
                        Outcome::Fail { .. } => match spec_expr_at(text, pos, p3) {
                            Outcome::Fail { error } => Outcome::Fail { error },
                            Outcome::Match { value: definition, next } => Outcome::Match {
                                value: ExprView::ExprLambda {
                                    params: params.0,
                                    return_type,
                                    definition: Box::new(definition),
                                },
                                next,
                            },
                        },
                    },
                },
            }
        },
    }
}

/// The argument of a result constructor, at `from`: `(` expression `)`.
pub open spec fn spec_result_arg(text: Seq<char>, origin: nat, from: nat) -> Outcome<ExprView>
    decreases text.len() - origin, 1nat,
{
    match spec_expect(text, from, "("@) {
        Outcome::Fail { error } => Outcome::Fail { error },
        Outcome::Match { value: _, next: p1 } => match spec_expr_at(text, origin, p1) {
            Outcome::Fail { error } => Outcome::Fail { error },
            Outcome::Match { value, next: p2 } => giving(spec_expect(text, p2, ")"@), value),
        },
    }
}

/// A result constructor: `Ok(` expression `)`, or else `Err(` expression
/// `)`.
pub open spec fn spec_result_cons(text: Seq<char>, pos: nat) -> Outcome<ExprView>
    decreases text.len() - pos, 16nat,
{
    match spec_expect(text, pos, "Ok"@) {
        Outcome::Match { value: _, next: p1 } => match spec_result_arg(text, pos, p1) {
            Outcome::Fail { error } => Outcome::Fail { error },
            Outcome::Match { value, next } => Outcome::Match {
                value: ExprView::ResultCons(ResultValueView::Okay(Box::new(value))),
                next,
            },
        },
        Outcome::Fail { .. } => match spec_expect(text, pos, "Err"@) {
            Outcome::Fail { error } => Outcome::Fail { error },
            Outcome::Match { value: _, next: p1 } => match spec_result_arg(text, pos, p1) {
                Outcome::Fail { error } => Outcome::Fail { error },
                Outcome::Match { value, next } => Outcome::Match {
                    value: ExprView::ResultCons(ResultValueView::Error(Box::new(value))),
                    next,
                },
            },
        },
    }
}

/// One slot of a struct constructor: name `:` expression.
pub open spec fn spec_struct_slot(text: Seq<char>, pos: nat) -> Outcome<StructSlotView>
    decreases text.len() - pos, 15nat,
{
    match spec_symbol(text, pos) {
        Outcome::Fail { error } => Outcome::Fail { error },
        Outcome::Match { value: name, next: p1 } => match spec_expect(text, p1, ":"@) {
            Outcome::Fail { error } => Outcome::Fail { error },
            Outcome::Match { value: _, next: p2 } => match spec_expr_at(text, pos, p2) {
                Outcome::Fail { error } => Outcome::Fail { error },
                Outcome::Match { value, next } => Outcome::Match {
                    value: StructSlotView { name, value },
                    next,
                },
            },
        },
    }
}

/// A struct constructor: `new`, an optional name, and the slots in
/// braces.
pub open spec fn spec_struct_cons(text: Seq<char>, pos: nat) -> Outcome<ExprView>
    decreases text.len() - pos, 16nat,
{
    match spec_expect(text, pos, "new"@) {
        Outcome::Fail { error } => Outcome::Fail { error },
        Outcome::Match { value: _, next: p1 } => {
            let name = spec_maybe(spec_symbol(text, p1), p1);
            match spec_expect(text, name.1, "{"@) {
                Outcome::Fail { error } => Outcome::Fail { error },
                Outcome::Match { value: _, next: p2 } => {
                    let slots = spec_list(
                        |p: nat|
                            if pos < p <= text.len() {
                                spec_struct_slot(text, p)
                            } else {
                                nowhere()
                            },
                        text,
                        p2,
                    );
                    giving(
                        spec_expect(text, slots.1, "}"@),
                        ExprView::StructCons { name: name.0, slots: slots.0 },
                    )
                },
            }
        },
    }
}

/// A list constructor: `[` expressions `]`.
pub open spec fn spec_list_cons(text: Seq<char>, pos: nat) -> Outcome<ExprView>
    decreases text.len() - pos, 16nat,
{
    match spec_expect(text, pos, "["@) {
        Outcome::Fail { error } => Outcome::Fail { error },
        Outcome::Match { value: _, next: p1 } => {
            let items = spec_expr_list(text, pos, p1);
            giving(spec_expect(text, items.1, "]"@), ExprView::ListCons(items.0))
        },
    }
}

/// An expression in parentheses; it stands for the expression itself.
pub open spec fn spec_paren_expr(text: Seq<char>, pos: nat) -> Outcome<ExprView>
    decreases text.len() - pos, 16nat,
{
    match spec_expect(text, pos, "("@) {
        Outcome::Fail { error } => Outcome::Fail { error },
        Outcome::Match { value: _, next: p1 } => match spec_expr_at(text, pos, p1) {
            Outcome::Fail { error } => Outcome::Fail { error },
            Outcome::Match { value, next: p2 } => giving(spec_expect(text, p2, ")"@), value),
        },
    }
}

/// The postfix operators at `pos`, applied to the expression `e` built so
/// far. At each step the first of these that is there is applied to all
/// of `e`, and the chain goes on after it: `-name`, `.name`, `(`
/// arguments `)`, `?`. With none of them there, the result is `e`.
pub open spec fn spec_post_expr(text: Seq<char>, pos: nat, e: ExprView) -> Outcome<ExprView>
    decreases text.len() - pos, 13nat,
{
    match spec_expect(text, pos, "-"@) {
        Outcome::Match { value: _, next: p1 } => match spec_symbol(text, p1) {
            Outcome::Fail { error } => Outcome::Fail { error },
            Outcome::Match { value: func, next } => if pos < next <= text.len() {
                spec_post_expr(text, next, ExprView::Dash { object: Box::new(e), func })
            } else {
                nowhere()
            },
        },
        Outcome::Fail { .. } => match spec_expect(text, pos, "."@) {
            Outcome::Match { value: _, next: p1 } => match spec_symbol(text, p1) {
                Outcome::Fail { error } => Outcome::Fail { error },
                Outcome::Match { value: slot, next } => if pos < next <= text.len() {
                    spec_post_expr(text, next, ExprView::Dot { object: Box::new(e), slot })
                } else {
                    nowhere()
                },
            },
            Outcome::Fail { .. } => match spec_expect(text, pos, "("@) {
                Outcome::Match { value: _, next: p1 } => {
                    let params = spec_expr_list(text, pos, p1);
                    match spec_expect(text, params.1, ")"@) {
                        Outcome::Fail { error } => Outcome::Fail { error },
                        Outcome::Match { value: _, next } => if pos < next <= text.len() {
                            spec_post_expr(
                                text,
                                next,
                                ExprView::Call { func: Box::new(e), params: params.0 },
                            )
                        } else {
                            nowhere()
                        },
                    }
                },
                Outcome::Fail { .. } => match spec_expect(text, pos, "?"@) {
                    Outcome::Match { value: _, next } => if pos < next <= text.len() {
                        spec_post_expr(text, next, ExprView::Try(Box::new(e)))
                    } else {
                        nowhere()
                    },
                    Outcome::Fail { .. } => Outcome::Match { value: e, next: pos },
                },
            },
        },
    }
}

// -------------------------------------------------------------- statements

/// A statement: the first of the forms of `statement_rules` that matches.
pub open spec fn spec_statement(text: Seq<char>, pos: nat) -> Outcome<StatementView>
    decreases text.len() - pos, 30nat,
{
    spec_choice(
        |rule: StatementRule| spec_statement_form(text, pos, rule),
        statement_rules(),
        pos,
    )
}

/// A statement of the form `rule`.
pub open spec fn spec_statement_form(text: Seq<char>, pos: nat, rule: StatementRule) -> Outcome<
    StatementView,
>
    decreases text.len() - pos, 29nat,
{
    match rule {
        StatementRule::Let => spec_let(text, pos),
        StatementRule::Match => spec_match(text, pos),
        StatementRule::If => match spec_guarded_block(text, pos, "if"@) {
            Outcome::Fail { error } => Outcome::Fail { error },
            Outcome::Match { value, next } => Outcome::Match {
                value: StatementView::If { test: value.0, statements: value.1 },
                next,
            },
        },
        StatementRule::ElseIf => match spec_guarded_block(text, pos, "elseif"@) {
            Outcome::Fail { error } => Outcome::Fail { error },
            Outcome::Match { value, next } => Outcome::Match {
                value: StatementView::ElseIf { test: value.0, statements: value.1 },
                next,
            },
        },
        StatementRule::Else => spec_else(text, pos),
        StatementRule::Assign => spec_assign(text, pos),
        StatementRule::Return => match spec_keyword_value(text, pos, "return"@) {
            Outcome::Fail { error } => Outcome::Fail { error },
            Outcome::Match { value, next } => Outcome::Match {
                value: StatementView::Return(value),
                next,
            },
        },
        StatementRule::Yield => match spec_keyword_value(text, pos, "yield"@) {
            Outcome::Fail { error } => Outcome::Fail { error },
            Outcome::Match { value, next } => Outcome::Match {
                value: StatementView::Yield(value),
                next,
            },
        },
        StatementRule::Expr => spec_expr_statement(text, pos),
        StatementRule::Foreach => spec_foreach(text, pos),
        StatementRule::While => match spec_guarded_block(text, pos, "while"@) {
            Outcome::Fail { error } => Outcome::Fail { error },
            Outcome::Match { value, next } => Outcome::Match {
                value: StatementView::While { test: value.0, statements: value.1 },
                next,
            },
        },
        StatementRule::Break => giving(spec_keyword(text, pos, "break"@), StatementView::Break),
        StatementRule::Continue => giving(
            spec_keyword(text, pos, "continue"@),
            StatementView::Continue,
        ),
    }
}

/// `keyword ;`
pub open spec fn spec_keyword(text: Seq<char>, pos: nat, keyword: Seq<char>) -> Outcome<()> {
    match spec_expect(text, pos, keyword) {
        Outcome::Fail { error } => Outcome::Fail { error },
        Outcome::Match { value: _, next } => giving(spec_expect(text, next, ";"@), ()),
    }
}

/// `keyword` expression block: the shape of `if`, `elseif` and `while`.
pub open spec fn spec_guarded_block(text: Seq<char>, pos: nat, keyword: Seq<char>) -> Outcome<
    (ExprView, Seq<StatementView>),
>
    decreases text.len() - pos, 28nat,
{
    match spec_expect(text, pos, keyword) {
        Outcome::Fail { error } => Outcome::Fail { error },
        Outcome::Match { value: _, next: p1 } => match spec_expr_at(text, pos, p1) {
            Outcome::Fail { error } => Outcome::Fail { error },
            Outcome::Match { value: test, next: p2 } => match spec_block(text, pos, p2) {
                Outcome::Fail { error } => Outcome::Fail { error },
                Outcome::Match { value: statements, next } => Outcome::Match {
                    value: (test, statements),
                    next,
                },
            },
        },
    }
}

/// `keyword`, an optional expression, `;`: the shape of `return` and
/// `yield`.
pub open spec fn spec_keyword_value(text: Seq<char>, pos: nat, keyword: Seq<char>) -> Outcome<
    Option<ExprView>,
>
    decreases text.len() - pos, 28nat,
{
    match spec_expect(text, pos, keyword) {
        Outcome::Fail { error } => Outcome::Fail { error },
        Outcome::Match { value: _, next: p1 } => {
            let value = spec_maybe(spec_expr_at(text, pos, p1), p1);
            giving(spec_expect(text, value.1, ";"@), value.0)
        },
    }
}

/// `else` block
pub open spec fn spec_else(text: Seq<char>, pos: nat) -> Outcome<StatementView>
    decreases text.len() - pos, 28nat,
{
    match spec_expect(text, pos, "else"@) {
        Outcome::Fail { error } => Outcome::Fail { error },
        Outcome::Match { value: _, next: p1 } => match spec_block(text, pos, p1) {
            Outcome::Fail { error } => Outcome::Fail { error },
            Outcome::Match { value, next } => Outcome::Match {
                value: StatementView::Else(value),
                next,
            },
        },
    }
}

/// `let` name, an optional `: type`, `=` expression `;`
pub open spec fn spec_let(text: Seq<char>, pos: nat) -> Outcome<StatementView>
    decreases text.len() - pos, 28nat,
{
    match spec_expect(text, pos, "let"@) {
        Outcome::Fail { error } => Outcome::Fail { error },
        Outcome::Match { value: _, next: p1 } => match spec_symbol(text, p1) {
            Outcome::Fail { error } => Outcome::Fail { error },
            Outcome::Match { value: name, next: p2 } => match spec_type_after(text, p2, ":"@) {
                Outcome::Fail { error } => Outcome::Fail { error },
                Outcome::Match { value: value_type, next: p3 } => match spec_expect(
                    text,
                    p3,
                    "="@,
                ) {
                    Outcome::Fail { error } => Outcome::Fail { error },
                    Outcome::Match { value: _, next: p4 } => match spec_expr_at(text, pos, p4) {
                        Outcome::Fail { error } => Outcome::Fail { error },
                        Outcome::Match { value: expr, next: p5 } => giving(
                            spec_expect(text, p5, ";"@),
                            StatementView::Let { name, value_type, expr },
                        ),
                    },
                },
            },
        },
    }
}

/// `set` expression `=` expression `;`
pub open spec fn spec_assign(text: Seq<char>, pos: nat) -> Outcome<StatementView>
    decreases text.len() - pos, 28nat,
{
    match spec_expect(text, pos, "set"@) {
        Outcome::Fail { error } => Outcome::Fail { error },
        Outcome::Match { value: _, next: p1 } => match spec_expr_at(text, pos, p1) {
            Outcome::Fail { error } => Outcome::Fail { error },
            Outcome::Match { value: target, next: p2 } => match spec_expect(text, p2, "="@) {
                Outcome::Fail { error } => Outcome::Fail { error },
                Outcome::Match { value: _, next: p3 } => match spec_expr_at(text, pos, p3) {
                    Outcome::Fail { error } => Outcome::Fail { error },
                    Outcome::Match { value: new_value, next: p4 } => giving(
                        spec_expect(text, p4, ";"@),
                        StatementView::Assign { target, new_value },
                    ),
                },
            },
        },
    }
}

/// expression `;`
pub open spec fn spec_expr_statement(text: Seq<char>, pos: nat) -> Outcome<StatementView>
    decreases text.len() - pos, 28nat,
{
    match spec_expr(text, pos) {
        Outcome::Fail { error } => Outcome::Fail { error },
        Outcome::Match { value, next } => giving(
            spec_expect(text, next, ";"@),
            StatementView::Expr(value),
        ),
    }
}

/// `foreach` name `in` expression block
pub open spec fn spec_foreach(text: Seq<char>, pos: nat) -> Outcome<StatementView>
    decreases text.len() - pos, 28nat,
{
    match spec_expect(text, pos, "foreach"@) {
        Outcome::Fail { error } => Outcome::Fail { error },
        Outcome::Match { value: _, next: p1 } => match spec_symbol(text, p1) {
            Outcome::Fail { error } => Outcome::Fail { error },
            Outcome::Match { value: var, next: p2 } => match spec_expect(text, p2, "in"@) {
                Outcome::Fail { error } => Outcome::Fail { error },
                Outcome::Match { value: _, next: p3 } => match spec_expr_at(text, pos, p3) {
                    Outcome::Fail { error } => Outcome::Fail { error },
                    Outcome::Match { value: items, next: p4 } => match spec_block(text, pos, p4) {
                        Outcome::Fail { error } => Outcome::Fail { error },
                        Outcome::Match { value: statements, next } => Outcome::Match {
                            value: StatementView::Foreach { var, items, statements },
                            next,
                        },
                    },
                },
            },
        },
    }
}

/// `match` expression `{` cases `}`
pub open spec fn spec_match(text: Seq<char>, pos: nat) -> Outcome<StatementView>
    decreases text.len() - pos, 28nat,
{
    match spec_expect(text, pos, "match"@) {
        Outcome::Fail { error } => Outcome::Fail { error },
        Outcome::Match { value: _, next: p1 } => match spec_expr_at(text, pos, p1) {
            Outcome::Fail { error } => Outcome::Fail { error },
            Outcome::Match { value: target, next: p2 } => match spec_expect(text, p2, "{"@) {
                Outcome::Fail { error } => Outcome::Fail { error },
                Outcome::Match { value: _, next: p3 } => {
                    let cases = spec_many(
                        |p: nat|
                            if pos < p <= text.len() {
                                spec_case(text, p)
                            } else {
                                nowhere()
                            },
                        text.len(),
                        p3,
                    );
                    giving(
                        spec_expect(text, cases.1, "}"@),
                        StatementView::Match { target, cases: cases.0 },
                    )
                },
            },
        },
    }
}

/// The guard of a case, at `from`: `if` expression.
pub open spec fn spec_case_guard(text: Seq<char>, origin: nat, from: nat) -> Outcome<ExprView>
    decreases text.len() - origin, 1nat,
{
    match spec_expect(text, from, "if"@) {
        Outcome::Fail { error } => Outcome::Fail { error },
        Outcome::Match { value: _, next } => spec_expr_at(text, origin, next),
    }
}

/// The body of a case, at `from`: a block of one or more statements, or
/// else a single statement.
pub open spec fn spec_case_body(text: Seq<char>, origin: nat, from: nat) -> Outcome<
    Seq<StatementView>,
>
    decreases text.len() - origin, 2nat,
{
    match spec_expect(text, from, "{"@) {
        Outcome::Match { value: _, next: p1 } => match spec_statement_at(text, origin, p1) {
            Outcome::Fail { error } => Outcome::Fail { error },
            Outcome::Match { value: first, next: p2 } => match spec_block_rest(text, origin, p2) {
                Outcome::Fail { error } => Outcome::Fail { error },
                Outcome::Match { value: rest, next } => Outcome::Match {
                    value: seq![first] + rest,
                    next,
                },
            },
        },
        Outcome::Fail { .. } => match spec_statement_at(text, origin, from) {
            Outcome::Fail { error } => Outcome::Fail { error },
            Outcome::Match { value, next } => Outcome::Match { value: seq![value], next },
        },
    }
}

/// The statement at `from`, which lies after `origin`.
pub open spec fn spec_statement_at(text: Seq<char>, origin: nat, from: nat) -> Outcome<
    StatementView,
>
    decreases text.len() - origin, 0nat,
{
    if origin < from <= text.len() {
        spec_statement(text, from)
    } else {
        nowhere()
    }
}

/// A case of a `match`: a pattern, an optional guard, `=>`, and the body.
pub open spec fn spec_case(text: Seq<char>, pos: nat) -> Outcome<MatchCaseView>
    decreases text.len() - pos, 27nat,
{
    match spec_pattern(text, pos) {
        Outcome::Fail { error } => Outcome::Fail { error },
        Outcome::Match { value: pattern, next: p1 } => {
            let test = spec_maybe(spec_case_guard(text, pos, p1), p1);
            match spec_expect(text, test.1, "=>"@) {
                Outcome::Fail { error } => Outcome::Fail { error },
                Outcome::Match { value: _, next: p2 } => match spec_case_body(text, pos, p2) {
                    Outcome::Fail { error } => Outcome::Fail { error },
                    Outcome::Match { value: statements, next } => Outcome::Match {
                        value: MatchCaseView { pattern, test: test.0, statements },
                        next,
                    },
                },
            }
        },
    }
}

} // verus!
