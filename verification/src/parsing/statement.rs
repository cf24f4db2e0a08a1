//! The parser of expressions, statements and patterns.
//!
//! Each public function finds what the function of
//! [`crate::parsing::grammar`] with the matching name describes, and leaves
//! the cursor where it was when it fails. The private functions hold the
//! steps of one form each; after a failure they leave the cursor to their
//! caller, which puts it back.

use vstd::prelude::*;
use crate::parsing::ast::{
    Expr, FunParam, MatchCase, MatchPattern, PSym, ResultValue, Statement, StructSlot, Type,
};
use crate::parsing::combinators::{spec_choice, spec_list, spec_many, spec_maybe};
use crate::parsing::grammar::{
    primary_rules, spec_assign, spec_block, spec_block_rest, spec_bool, spec_case, spec_case_body,
    spec_case_guard, spec_else, spec_expr, spec_expr_at, spec_expr_list, spec_expr_statement,
    spec_foreach, spec_guarded_block, spec_keyword_value, spec_lambda, spec_lambda_param, spec_let,
    spec_list_cons, spec_match, spec_paren_expr, spec_pattern, spec_pattern_fields, spec_post_expr,
    spec_primary, spec_primary_form, spec_result_arg, spec_result_cons, spec_statement,
    spec_statement_form, spec_statements, spec_struct_cons, spec_struct_slot, spec_type_after,
    spec_variable, statement_rules, PrimaryRule, StatementRule,
};
use crate::parsing::input::{attempted, attempted_all, parsed, same_text, steady, Input};
use crate::parsing::lexical::{nowhere, spec_symbol, Outcome};
use crate::parsing::parse_error::ParseError;
use crate::parsing::types::{parse_path_segment, parse_type, spec_path_segment};
use crate::parsing::view::{
    case_views, expr_views, group_views, option_expr_view, pattern_views, slot_views,
    statement_views, views, ExprView, MatchCaseView, MatchPatternView, StatementView,
    StructSlotView,
};

verus! {

broadcast use group_views;

// ------------------------------------------------------------ constructors

fn call_of(func: Expr, params: Vec<Expr>) -> (e: Expr)
    ensures
        e@ == (ExprView::Call { func: Box::new(func@), params: views(params@) }),
{
    let e = Expr::Call { func: Box::new(func), params };
    assert(e@->Call_params == expr_views(params@));
    e
}

fn list_cons_of(items: Vec<Expr>) -> (e: Expr)
    ensures
        e@ == ExprView::ListCons(views(items@)),
{
    let e = Expr::ListCons(items);
    assert(e@->ListCons_0 == expr_views(items@));
    e
}

fn struct_cons_of(name: Option<PSym>, slots: Vec<StructSlot>) -> (e: Expr)
    ensures
        e@ == (ExprView::StructCons {
            name: match name {
                Some(n) => Some(n@),
                None => None,
            },
            slots: views(slots@),
        }),
{
    let e = Expr::StructCons { name, slots };
    assert(e@->StructCons_slots == slot_views(slots@));
    e
}

fn statement_lambda_of(params: Vec<FunParam>, return_type: Type, definition: Vec<Statement>) -> (e:
    Expr)
    ensures
        e@ == (ExprView::StatementLambda {
            params: views(params@),
            return_type: return_type@,
            definition: views(definition@),
        }),
{
    let e = Expr::StatementLambda { params, return_type, definition };
    assert(e@->StatementLambda_definition == statement_views(definition@));
    e
}

fn while_of(test: Expr, statements: Vec<Statement>) -> (s: Statement)
    ensures
        s@ == (StatementView::While { test: test@, statements: views(statements@) }),
{
    let s = Statement::While { test, statements };
    assert(s@->While_statements == statement_views(statements@));
    s
}

fn if_of(test: Expr, statements: Vec<Statement>) -> (s: Statement)
    ensures
        s@ == (StatementView::If { test: test@, statements: views(statements@) }),
{
    let s = Statement::If { test, statements };
    assert(s@->If_statements == statement_views(statements@));
    s
}

fn elseif_of(test: Expr, statements: Vec<Statement>) -> (s: Statement)
    ensures
        s@ == (StatementView::ElseIf { test: test@, statements: views(statements@) }),
{
    let s = Statement::ElseIf { test, statements };
    assert(s@->ElseIf_statements == statement_views(statements@));
    s
}

fn else_of(statements: Vec<Statement>) -> (s: Statement)
    ensures
        s@ == StatementView::Else(views(statements@)),
{
    let s = Statement::Else(statements);
    assert(s@->Else_0 == statement_views(statements@));
    s
}

fn foreach_of(var: PSym, items: Expr, statements: Vec<Statement>) -> (s: Statement)
    ensures
        s@ == (StatementView::Foreach {
            var: var@,
            items: items@,
            statements: views(statements@),
        }),
{
    let s = Statement::Foreach { var, items, statements };
    assert(s@->Foreach_statements == statement_views(statements@));
    s
}

fn match_of(target: Expr, cases: Vec<MatchCase>) -> (s: Statement)
    ensures
        s@ == (StatementView::Match { target: target@, cases: views(cases@) }),
{
    let s = Statement::Match { target, cases };
    assert(s@->Match_cases == case_views(cases@));
    s
}

fn case_of(pattern: MatchPattern, test: Option<Expr>, statements: Vec<Statement>) -> (c: MatchCase)
    ensures
        c.statements == statements,
        c@ == (MatchCaseView {
            pattern: pattern@,
            test: match test {
                Some(e) => Some(e@),
                None => None,
            },
            statements: views(statements@),
        }),
{
    let c = MatchCase { pattern, test, statements };
    assert(c@.statements == statement_views(statements@));
    c
}

fn cons_pattern_of(name: PSym, fields: Vec<MatchPattern>) -> (p: MatchPattern)
    ensures
        p@ == MatchPatternView::Cons(name@, views(fields@)),
{
    let p = MatchPattern::Cons(name, fields);
    assert(p@->Cons_1 == pattern_views(fields@));
    p
}

// ---------------------------------------------------------------- patterns

fn pattern_fields_body<'a>(input: &mut Input<'a>, Ghost(origin): Ghost<nat>) -> (r: Result<
    Vec<MatchPattern>,
    ParseError,
>)
    requires
        origin < old(input).position() <= old(input).text().len(),
    ensures
        attempted_all(
            *old(input),
            *final(input),
            r,
            spec_pattern_fields(old(input).text(), origin, old(input).position()),
        ),
    decreases old(input).text().len() - origin, 1nat,
{
    let ghost text = input.text();
    input.expect("(")?;
    let ghost from = input.position();
    let gtext: Ghost<Seq<char>> = Ghost(text);
    let gorigin: Ghost<nat> = Ghost(origin);
    let ghost sem = |p: nat|
        if origin < p <= text.len() {
            spec_pattern(text, p)
        } else {
            nowhere()
        };
    let gsem: Ghost<spec_fn(nat) -> Outcome<MatchPatternView>> = Ghost(sem);
    let item = |i: &mut Input<'a>| -> (r: Result<MatchPattern, ParseError>)
        requires
            old(i).text() == gtext@,
            gorigin@ < old(i).position() <= gtext@.len(),
        ensures
            parsed(*old(i), *final(i), r, (gsem@)(old(i).position())),
        { parse_pattern(i) };
    let fields = input.list(item)?;
    assert(spec_list(sem, text, from) == (views(fields@), input.position()));
    input.expect(")")?;
    Ok(fields)
}

fn pattern_body<'a>(input: &mut Input<'a>) -> (r: Result<MatchPattern, ParseError>)
    ensures
        attempted(
            *old(input),
            *final(input),
            r,
            spec_pattern(old(input).text(), old(input).position()),
        ),
        r is Ok ==> final(input).position() > old(input).position(),
    decreases old(input).text().len() - old(input).position(), 2nat,
{
    let ghost pos = input.position();
    let name = input.parse_symbol()?;
    if same_text(&name.value, "_") {
        return Ok(MatchPattern::Wildcard);
    }
    let rp = input.create_restore();
    match pattern_fields_body(input, Ghost(pos)) {
        Ok(fields) => Ok(cons_pattern_of(name, fields)),
        Err(_) => {
            input.restore(rp);
            let fields: Vec<MatchPattern> = Vec::new();
            assert(views(fields@) =~= Seq::<MatchPatternView>::empty());
            Ok(cons_pattern_of(name, fields))
        },
    }
}

/// Parses a pattern of a `match` case.
pub fn parse_pattern<'a>(input: &mut Input<'a>) -> (r: Result<MatchPattern, ParseError>)
    ensures
        parsed(
            *old(input),
            *final(input),
            r,
            spec_pattern(old(input).text(), old(input).position()),
        ),
        r is Ok ==> final(input).position() > old(input).position(),
    decreases old(input).text().len() - old(input).position(), 3nat,
{
    let rp = input.create_restore();
    let r = pattern_body(input);
    input.settle(rp, r)
}

// ------------------------------------------------------------- expressions

/// Parses an optional `lead type`: the type after `lead`, or `Infer`
/// where `lead` is not there.
fn type_after_body<'a>(input: &mut Input<'a>, lead: &str) -> (r: Result<Type, ParseError>)
    ensures
        attempted(
            *old(input),
            *final(input),
            r,
            spec_type_after(old(input).text(), old(input).position(), lead@),
        ),
{
    match input.expect(lead) {
        Ok(_) => parse_type(input),
        Err(_) => Ok(Type::Infer),
    }
}

fn lambda_param_body<'a>(input: &mut Input<'a>) -> (r: Result<FunParam, ParseError>)
    ensures
        attempted(
            *old(input),
            *final(input),
            r,
            spec_lambda_param(old(input).text(), old(input).position()),
        ),
{
    let name = input.parse_symbol()?;
    let param_type = type_after_body(input, ":")?;
    Ok(FunParam { name, param_type })
}

/// Parses a parameter of a lambda: a name, with `: type` or without.
pub fn parse_lambda_param<'a>(input: &mut Input<'a>) -> (r: Result<FunParam, ParseError>)
    ensures
        parsed(
            *old(input),
            *final(input),
            r,
            spec_lambda_param(old(input).text(), old(input).position()),
        ),
{
    let rp = input.create_restore();
    let r = lambda_param_body(input);
    input.settle(rp, r)
}

/// Parses the comma-separated expressions of a form that began at
/// `origin`.
fn parse_expr_list<'a>(input: &mut Input<'a>, Ghost(origin): Ghost<nat>) -> (r: Vec<Expr>)
    requires
        origin < old(input).position() <= old(input).text().len(),
    ensures
        steady(*old(input), *final(input)),
        (views(r@), final(input).position()) == spec_expr_list(
            old(input).text(),
            origin,
            old(input).position(),
        ),
    decreases old(input).text().len() - origin, 0nat,
{
    let ghost text = input.text();
    let ghost from = input.position();
    let gtext: Ghost<Seq<char>> = Ghost(text);
    let gorigin: Ghost<nat> = Ghost(origin);
    let ghost sem = |p: nat|
        if origin < p <= text.len() {
            spec_expr(text, p)
        } else {
            nowhere()
        };
    let gsem: Ghost<spec_fn(nat) -> Outcome<ExprView>> = Ghost(sem);
    let item = |i: &mut Input<'a>| -> (r: Result<Expr, ParseError>)
        requires
            old(i).text() == gtext@,
            gorigin@ < old(i).position() <= gtext@.len(),
        ensures
            parsed(*old(i), *final(i), r, (gsem@)(old(i).position())),
        { parse_expr(i) };
    let r = input.list(item);
    assert(spec_list(sem, text, from) == (views(r->Ok_0@), input.position()));
    match r {
        Ok(items) => items,
        Err(_) => Vec::new(),
    }
}

/// Parses the statements of a form that began at `origin`, as far as
/// they go.
fn parse_statements<'a>(input: &mut Input<'a>, Ghost(origin): Ghost<nat>) -> (r: Vec<Statement>)
    requires
        origin < old(input).position() <= old(input).text().len(),
    ensures
        steady(*old(input), *final(input)),
        (views(r@), final(input).position()) == spec_statements(
            old(input).text(),
            origin,
            old(input).position(),
        ),
    decreases old(input).text().len() - origin, 0nat,
{
    let ghost text = input.text();
    let ghost from = input.position();
    let gtext: Ghost<Seq<char>> = Ghost(text);
    let gorigin: Ghost<nat> = Ghost(origin);
    let ghost sem = |p: nat|
        if origin < p <= text.len() {
            spec_statement(text, p)
        } else {
            nowhere()
        };
    let gsem: Ghost<spec_fn(nat) -> Outcome<StatementView>> = Ghost(sem);
    let item = |i: &mut Input<'a>| -> (r: Result<Statement, ParseError>)
        requires
            old(i).text() == gtext@,
            gorigin@ < old(i).position() <= gtext@.len(),
        ensures
            parsed(*old(i), *final(i), r, (gsem@)(old(i).position())),
        { parse_statement(i) };
    let r = input.zero_or_more(item);
    assert(spec_many(sem, text.len(), from) == (views(r->Ok_0@), input.position()));
    match r {
        Ok(items) => items,
        Err(_) => Vec::new(),
    }
}

/// Parses the rest of a block after its `{`: statements and `}`.
fn block_rest_body<'a>(input: &mut Input<'a>, Ghost(origin): Ghost<nat>) -> (r: Result<
    Vec<Statement>,
    ParseError,
>)
    requires
        origin < old(input).position() <= old(input).text().len(),
    ensures
        attempted_all(
            *old(input),
            *final(input),
            r,
            spec_block_rest(old(input).text(), origin, old(input).position()),
        ),
    decreases old(input).text().len() - origin, 1nat,
{
    let statements = parse_statements(input, Ghost(origin));
    input.expect("}")?;
    Ok(statements)
}

/// Parses a block that belongs to a form that began at `origin`: `{`,
/// statements, `}`. The cursor may be anywhere after a failure.
pub(crate) fn parse_block<'a>(input: &mut Input<'a>, Ghost(origin): Ghost<nat>) -> (r: Result<
    Vec<Statement>,
    ParseError,
>)
    requires
        origin < old(input).position() <= old(input).text().len(),
    ensures
        attempted_all(
            *old(input),
            *final(input),
            r,
            spec_block(old(input).text(), origin, old(input).position()),
        ),
    decreases old(input).text().len() - origin, 2nat,
{
    input.expect("{")?;
    block_rest_body(input, Ghost(origin))
}

/// Parses a boolean literal: the symbol `true` or the symbol `false`.
/// Any other symbol is read and given back: the cursor returns to where
/// it was, and the error names the place where the symbol starts.
pub fn parse_bool<'a>(input: &mut Input<'a>) -> (r: Result<Expr, ParseError>)
    ensures
        parsed(*old(input), *final(input), r, spec_bool(old(input).text(), old(input).position())),
{
    let rp = input.create_restore();
    let value = input.parse_symbol()?;
    if same_text(&value.value, "true") {
        Ok(Expr::Bool(true))
    } else if same_text(&value.value, "false") {
        Ok(Expr::Bool(false))
    } else {
        input.restore(rp);
        Err(ParseError::ErrorAt(value.start, "Expected boolean".to_owned()))
    }
}

fn parse_variable<'a>(input: &mut Input<'a>) -> (r: Result<Expr, ParseError>)
    ensures
        attempted(
            *old(input),
            *final(input),
            r,
            spec_variable(old(input).text(), old(input).position()),
        ),
{
    let ghost text = input.text();
    let ghost pos = input.position();
    let segment = |i: &mut Input<'a>| -> (r: Result<PSym, ParseError>)
        ensures
            parsed(*old(i), *final(i), r, spec_path_segment(old(i).text(), old(i).position())),
        { parse_path_segment(i) };
    let namespace = input.zero_or_more(segment)?;
    proof {
        let sem = |p: nat| spec_path_segment(text, p);
        assert(spec_many(sem, text.len(), pos) == (views(namespace@), input.position()));
    }
    let name = input.parse_symbol()?;
    Ok(Expr::Variable { namespace, name })
}

fn lambda_body<'a>(input: &mut Input<'a>) -> (r: Result<Expr, ParseError>)
    ensures
        attempted(
            *old(input),
            *final(input),
            r,
            spec_lambda(old(input).text(), old(input).position()),
        ),
    decreases old(input).text().len() - old(input).position(), 16nat,
{
    let ghost text = input.text();
    let ghost pos = input.position();
    proof {
        reveal_strlit("|");
    }
    input.expect("|")?;
    let ghost params_at = input.position();
    let param = |i: &mut Input<'a>| -> (r: Result<FunParam, ParseError>)
        ensures
            parsed(*old(i), *final(i), r, spec_lambda_param(old(i).text(), old(i).position())),
        { parse_lambda_param(i) };
    let params = input.list(param)?;
    proof {
        let sem = |p: nat| spec_lambda_param(text, p);
        assert(spec_list(sem, text, params_at) == (views(params@), input.position()));
    }
    input.expect("|")?;
    let return_type = type_after_body(input, "->")?;
    match input.expect("{") {
        Ok(_) => {
            let definition = block_rest_body(input, Ghost(pos))?;
            Ok(statement_lambda_of(params, return_type, definition))
        },
        Err(_) => {
            let definition = Box::new(parse_expr(input)?);
            Ok(Expr::ExprLambda { params, return_type, definition })
        },
    }
}

/// Parses the argument of a result constructor: `(` expression `)`.
fn result_arg_body<'a>(input: &mut Input<'a>, Ghost(origin): Ghost<nat>) -> (r: Result<
    Expr,
    ParseError,
>)
    requires
        origin < old(input).position() <= old(input).text().len(),
    ensures
        attempted(
            *old(input),
            *final(input),
            r,
            spec_result_arg(old(input).text(), origin, old(input).position()),
        ),
    decreases old(input).text().len() - origin, 1nat,
{
    input.expect("(")?;
    let e = parse_expr(input)?;
    input.expect(")")?;
    Ok(e)
}

fn parse_result_cons<'a>(input: &mut Input<'a>) -> (r: Result<Expr, ParseError>)
    ensures
        attempted(
            *old(input),
            *final(input),
            r,
            spec_result_cons(old(input).text(), old(input).position()),
        ),
    decreases old(input).text().len() - old(input).position(), 16nat,
{
    let ghost pos = input.position();
    proof {
        reveal_strlit("Ok");
        reveal_strlit("Err");
    }
    match input.expect("Ok") {
        Ok(_) => {
            let e = result_arg_body(input, Ghost(pos))?;
            return Ok(Expr::ResultCons(ResultValue::Okay(Box::new(e))));
        },
        Err(_) => {},
    }
    input.expect("Err")?;
    let e = result_arg_body(input, Ghost(pos))?;
    Ok(Expr::ResultCons(ResultValue::Error(Box::new(e))))
}

fn struct_slot_body<'a>(input: &mut Input<'a>) -> (r: Result<StructSlot, ParseError>)
    ensures
        attempted(
            *old(input),
            *final(input),
            r,
            spec_struct_slot(old(input).text(), old(input).position()),
        ),
    decreases old(input).text().len() - old(input).position(), 14nat,
{
    let name = input.parse_symbol()?;
    input.expect(":")?;
    let value = parse_expr(input)?;
    Ok(StructSlot { name, value })
}

/// Parses one slot of a struct constructor: name `:` expression.
pub fn parse_struct_slot<'a>(input: &mut Input<'a>) -> (r: Result<StructSlot, ParseError>)
    ensures
        parsed(
            *old(input),
            *final(input),
            r,
            spec_struct_slot(old(input).text(), old(input).position()),
        ),
    decreases old(input).text().len() - old(input).position(), 15nat,
{
    let rp = input.create_restore();
    let r = struct_slot_body(input);
    input.settle(rp, r)
}

fn parse_struct_cons<'a>(input: &mut Input<'a>) -> (r: Result<Expr, ParseError>)
    ensures
        attempted(
            *old(input),
            *final(input),
            r,
            spec_struct_cons(old(input).text(), old(input).position()),
        ),
    decreases old(input).text().len() - old(input).position(), 16nat,
{
    let ghost text = input.text();
    let ghost pos = input.position();
    proof {
        reveal_strlit("new");
    }
    input.expect("new")?;
    let ghost name_at = input.position();
    let symbol = |i: &mut Input<'a>| -> (r: Result<PSym, ParseError>)
        ensures
            parsed(*old(i), *final(i), r, spec_symbol(old(i).text(), old(i).position())),
        { i.parse_symbol() };
    let name = input.maybe(symbol);
    assert(spec_maybe(spec_symbol(text, name_at), name_at) == (
        match name {
            Some(v) => Some(v@),
            None => None,
        },
        input.position(),
    ));
    input.expect("{")?;
    let ghost slots_at = input.position();
    let gtext: Ghost<Seq<char>> = Ghost(text);
    let gpos: Ghost<nat> = Ghost(pos);
    let ghost sem = |p: nat|
        if pos < p <= text.len() {
            spec_struct_slot(text, p)
        } else {
            nowhere()
        };
    let gsem: Ghost<spec_fn(nat) -> Outcome<StructSlotView>> = Ghost(sem);
    let slot = |i: &mut Input<'a>| -> (r: Result<StructSlot, ParseError>)
        requires
            old(i).text() == gtext@,
            gpos@ < old(i).position() <= gtext@.len(),
        ensures
            parsed(*old(i), *final(i), r, (gsem@)(old(i).position())),
        { parse_struct_slot(i) };
    let slots = input.list(slot)?;
    assert(spec_list(sem, text, slots_at) == (views(slots@), input.position()));
    input.expect("}")?;
    Ok(struct_cons_of(name, slots))
}

fn parse_list_cons<'a>(input: &mut Input<'a>) -> (r: Result<Expr, ParseError>)
    ensures
        attempted(
            *old(input),
            *final(input),
            r,
            spec_list_cons(old(input).text(), old(input).position()),
        ),
    decreases old(input).text().len() - old(input).position(), 16nat,
{
    let ghost pos = input.position();
    proof {
        reveal_strlit("[");
    }
    input.expect("[")?;
    let es = parse_expr_list(input, Ghost(pos));
    input.expect("]")?;
    Ok(list_cons_of(es))
}

fn parse_paren_expr<'a>(input: &mut Input<'a>) -> (r: Result<Expr, ParseError>)
    ensures
        attempted(
            *old(input),
            *final(input),
            r,
            spec_paren_expr(old(input).text(), old(input).position()),
        ),
    decreases old(input).text().len() - old(input).position(), 16nat,
{
    proof {
        reveal_strlit("(");
    }
    input.expect("(")?;
    let expr = parse_expr(input)?;
    input.expect(")")?;
    Ok(expr)
}

/// Parses a primary expression of the form `rule`.
pub fn parse_primary_form<'a>(input: &mut Input<'a>, rule: &PrimaryRule) -> (r: Result<
    Expr,
    ParseError,
>)
    ensures
        parsed(
            *old(input),
            *final(input),
            r,
            spec_primary_form(old(input).text(), old(input).position(), *rule),
        ),
    decreases old(input).text().len() - old(input).position(), 17nat,
{
    let rp = input.create_restore();
    let r = match rule {
        PrimaryRule::Number => match input.parse_number() {
            Ok(n) => Ok(Expr::Number(n)),
            Err(e) => Err(e),
        },
        PrimaryRule::PString => match input.parse_string() {
            Ok(s) => Ok(Expr::PString(s)),
            Err(e) => Err(e),
        },
        PrimaryRule::Bool => parse_bool(input),
        PrimaryRule::Lambda => lambda_body(input),
        PrimaryRule::ResultCons => parse_result_cons(input),
        PrimaryRule::StructCons => parse_struct_cons(input),
        PrimaryRule::Variable => parse_variable(input),
        PrimaryRule::ListCons => parse_list_cons(input),
        PrimaryRule::Paren => parse_paren_expr(input),
    };
    input.settle(rp, r)
}

/// Parses a lambda: `|` parameters `|`, an optional `-> type`, and a body
/// that is a block or else an expression.
pub fn parse_lambda<'a>(input: &mut Input<'a>) -> (r: Result<Expr, ParseError>)
    ensures
        parsed(
            *old(input),
            *final(input),
            r,
            spec_lambda(old(input).text(), old(input).position()),
        ),
{
    parse_primary_form(input, &PrimaryRule::Lambda)
}

/// Parses a primary expression. The forms are tried in the order of
/// [`primary_rules`].
pub fn parse_primary<'a>(input: &mut Input<'a>) -> (r: Result<Expr, ParseError>)
    ensures
        parsed(
            *old(input),
            *final(input),
            r,
            spec_primary(old(input).text(), old(input).position()),
        ),
    decreases old(input).text().len() - old(input).position(), 18nat,
{
    let ghost text = input.text();
    let ghost pos = input.position();
    let gtext: Ghost<Seq<char>> = Ghost(text);
    let gpos: Ghost<nat> = Ghost(pos);
    let rules = [
        PrimaryRule::Number,
        PrimaryRule::PString,
        PrimaryRule::Bool,
        PrimaryRule::Lambda,
        PrimaryRule::ResultCons,
        PrimaryRule::StructCons,
        PrimaryRule::Variable,
        PrimaryRule::ListCons,
        PrimaryRule::Paren,
    ];
    let form = |i: &mut Input<'a>, rule: &PrimaryRule| -> (r: Result<Expr, ParseError>)
        requires
            old(i).text() == gtext@,
            old(i).position() == gpos@,
        ensures
            parsed(*old(i), *final(i), r, spec_primary_form(gtext@, gpos@, *rule)),
        { parse_primary_form(i, rule) };
    let r = input.choice(rules.as_slice(), form);
    proof {
        let sem = |rule: PrimaryRule| spec_primary_form(text, pos, rule);
        assert(rules@ =~= primary_rules());
        assert(parsed(*old(input), *input, r, spec_choice(sem, rules@, pos)));
    }
    r
}

/// Parses the postfix operators that follow the expression `e` and
/// applies them to it, left to right.
fn parse_post_expr<'a>(input: &mut Input<'a>, e: Expr) -> (r: Result<Expr, ParseError>)
    requires
        old(input).position() <= old(input).text().len(),
    ensures
        attempted(
            *old(input),
            *final(input),
            r,
            spec_post_expr(old(input).text(), old(input).position(), e@),
        ),
    decreases old(input).text().len() - old(input).position(), 13nat,
{
    let ghost pos = input.position();
    proof {
        reveal_strlit("-");
        reveal_strlit(".");
        reveal_strlit("(");
        reveal_strlit("?");
    }
    match input.expect("-") {
        Ok(_) => {
            let func = input.parse_symbol()?;
            return parse_post_expr(input, Expr::Dash { object: Box::new(e), func });
        },
        Err(_) => (),
    }

    match input.expect(".") {
        Ok(_) => {
            let slot = input.parse_symbol()?;
            return parse_post_expr(input, Expr::Dot { object: Box::new(e), slot });
        },
        Err(_) => (),
    }

    match input.expect("(") {
        Ok(_) => {
            let params = parse_expr_list(input, Ghost(pos));

            input.expect(")")?;

            return parse_post_expr(input, call_of(e, params));
        },
        Err(_) => (),
    }

    match input.expect("?") {
        Ok(_) => {
            return parse_post_expr(input, Expr::Try(Box::new(e)));
        },
        Err(_) => (),
    }

    Ok(e)
}

fn expr_body<'a>(input: &mut Input<'a>) -> (r: Result<Expr, ParseError>)
    ensures
        attempted(*old(input), *final(input), r, spec_expr(old(input).text(), old(input).position())),
    decreases old(input).text().len() - old(input).position(), 19nat,
{
    let expr = parse_primary(input)?;
    parse_post_expr(input, expr)
}

/// Parses an expression: a primary expression and the postfix operators
/// that follow it. The operators apply left to right, each to all that
/// stands before it.
pub fn parse_expr<'a>(input: &mut Input<'a>) -> (r: Result<Expr, ParseError>)
    ensures
        parsed(*old(input), *final(input), r, spec_expr(old(input).text(), old(input).position())),
    decreases old(input).text().len() - old(input).position(), 20nat,
{
    let rp = input.create_restore();
    let r = expr_body(input);
    input.settle(rp, r)
}

// -------------------------------------------------------------- statements

/// Parses a statement. The forms are tried in the order of
/// [`statement_rules`].
pub fn parse_statement<'a>(input: &mut Input<'a>) -> (r: Result<Statement, ParseError>)
    ensures
        parsed(
            *old(input),
            *final(input),
            r,
            spec_statement(old(input).text(), old(input).position()),
        ),
    decreases old(input).text().len() - old(input).position(), 30nat,
{
    let ghost text = input.text();
    let ghost pos = input.position();
    let gtext: Ghost<Seq<char>> = Ghost(text);
    let gpos: Ghost<nat> = Ghost(pos);
    let rules = [
        StatementRule::Let,
        StatementRule::Match,
        StatementRule::If,
        StatementRule::ElseIf,
        StatementRule::Else,
        StatementRule::Assign,
        StatementRule::Return,
        StatementRule::Yield,
        StatementRule::Foreach,
        StatementRule::While,
        StatementRule::Break,
        StatementRule::Continue,
        StatementRule::Expr,
    ];
    let form = |i: &mut Input<'a>, rule: &StatementRule| -> (r: Result<Statement, ParseError>)
        requires
            old(i).text() == gtext@,
            old(i).position() == gpos@,
        ensures
            parsed(*old(i), *final(i), r, spec_statement_form(gtext@, gpos@, *rule)),
        { parse_statement_form(i, rule) };
    let r = input.choice(rules.as_slice(), form);
    proof {
        let sem = |rule: StatementRule| spec_statement_form(text, pos, rule);
        assert(rules@ =~= statement_rules());
        assert(parsed(*old(input), *input, r, spec_choice(sem, rules@, pos)));
    }
    r
}

/// Parses a statement of the form `rule`.
pub fn parse_statement_form<'a>(input: &mut Input<'a>, rule: &StatementRule) -> (r: Result<
    Statement,
    ParseError,
>)
    ensures
        parsed(
            *old(input),
            *final(input),
            r,
            spec_statement_form(old(input).text(), old(input).position(), *rule),
        ),
    decreases old(input).text().len() - old(input).position(), 29nat,
{
    let rp = input.create_restore();
    let r = match rule {
        StatementRule::Let => parse_let(input),
        StatementRule::Match => parse_match(input),
        StatementRule::If => parse_if(input),
        StatementRule::ElseIf => parse_elseif(input),
        StatementRule::Else => parse_else(input),
        StatementRule::Assign => parse_set(input),
        StatementRule::Return => parse_return(input),
        StatementRule::Yield => parse_yield(input),
        StatementRule::Expr => parse_expr_statement(input),
        StatementRule::Foreach => parse_foreach(input),
        StatementRule::While => parse_while(input),
        StatementRule::Break => parse_break(input),
        StatementRule::Continue => parse_continue(input),
    };
    input.settle(rp, r)
}

/// Parses `keyword`, an expression and a block.
fn guarded_block_body<'a>(input: &mut Input<'a>, keyword: &str) -> (r: Result<
    (Expr, Vec<Statement>),
    ParseError,
>)
    requires
        keyword@.len() > 0,
    ensures
        steady(*old(input), *final(input)),
        match spec_guarded_block(old(input).text(), old(input).position(), keyword@) {
            Outcome::Match { value, next } => r is Ok && r->Ok_0.0@ == value.0 && views(
                r->Ok_0.1@,
            ) == value.1 && final(input).position() == next,
            Outcome::Fail { error } => r is Err && r->Err_0@ == error,
        },
    decreases old(input).text().len() - old(input).position(), 27nat,
{
    let ghost pos = input.position();
    input.expect(keyword)?;
    let test = parse_expr(input)?;
    let statements = parse_block(input, Ghost(pos))?;
    Ok((test, statements))
}

fn parse_elseif<'a>(input: &mut Input<'a>) -> (r: Result<Statement, ParseError>)
    ensures
        attempted(
            *old(input),
            *final(input),
            r,
            spec_statement_form(old(input).text(), old(input).position(), StatementRule::ElseIf),
        ),
    decreases old(input).text().len() - old(input).position(), 28nat,
{
    proof {
        reveal_strlit("elseif");
    }
    let (test, statements) = guarded_block_body(input, "elseif")?;
    Ok(elseif_of(test, statements))
}

fn parse_else<'a>(input: &mut Input<'a>) -> (r: Result<Statement, ParseError>)
    ensures
        attempted(*old(input), *final(input), r, spec_else(old(input).text(), old(input).position())),
    decreases old(input).text().len() - old(input).position(), 28nat,
{
    let ghost pos = input.position();
    proof {
        reveal_strlit("else");
    }
    input.expect("else")?;
    let statements = parse_block(input, Ghost(pos))?;
    Ok(else_of(statements))
}

fn parse_if<'a>(input: &mut Input<'a>) -> (r: Result<Statement, ParseError>)
    ensures
        attempted(
            *old(input),
            *final(input),
            r,
            spec_statement_form(old(input).text(), old(input).position(), StatementRule::If),
        ),
    decreases old(input).text().len() - old(input).position(), 28nat,
{
    proof {
        reveal_strlit("if");
    }
    let (test, statements) = guarded_block_body(input, "if")?;
    Ok(if_of(test, statements))
}

fn parse_foreach<'a>(input: &mut Input<'a>) -> (r: Result<Statement, ParseError>)
    ensures
        attempted(
            *old(input),
            *final(input),
            r,
            spec_foreach(old(input).text(), old(input).position()),
        ),
    decreases old(input).text().len() - old(input).position(), 28nat,
{
    let ghost pos = input.position();
    proof {
        reveal_strlit("foreach");
    }
    input.expect("foreach")?;
    let var = input.parse_symbol()?;
    input.expect("in")?;
    let items = parse_expr(input)?;
    let statements = parse_block(input, Ghost(pos))?;
    Ok(foreach_of(var, items, statements))
}

fn parse_while<'a>(input: &mut Input<'a>) -> (r: Result<Statement, ParseError>)
    ensures
        attempted(
            *old(input),
            *final(input),
            r,
            spec_statement_form(old(input).text(), old(input).position(), StatementRule::While),
        ),
    decreases old(input).text().len() - old(input).position(), 28nat,
{
    proof {
        reveal_strlit("while");
    }
    let (test, statements) = guarded_block_body(input, "while")?;
    Ok(while_of(test, statements))
}

fn parse_break<'a>(input: &mut Input<'a>) -> (r: Result<Statement, ParseError>)
    ensures
        attempted(
            *old(input),
            *final(input),
            r,
            spec_statement_form(old(input).text(), old(input).position(), StatementRule::Break),
        ),
{
    input.expect("break")?;
    input.expect(";")?;
    Ok(Statement::Break)
}

fn parse_continue<'a>(input: &mut Input<'a>) -> (r: Result<Statement, ParseError>)
    ensures
        attempted(
            *old(input),
            *final(input),
            r,
            spec_statement_form(old(input).text(), old(input).position(), StatementRule::Continue),
        ),
{
    input.expect("continue")?;
    input.expect(";")?;
    Ok(Statement::Continue)
}

fn parse_set<'a>(input: &mut Input<'a>) -> (r: Result<Statement, ParseError>)
    ensures
        attempted(
            *old(input),
            *final(input),
            r,
            spec_assign(old(input).text(), old(input).position()),
        ),
    decreases old(input).text().len() - old(input).position(), 28nat,
{
    proof {
        reveal_strlit("set");
    }
    input.expect("set")?;
    let target = parse_expr(input)?;
    input.expect("=")?;
    let new_value = parse_expr(input)?;
    input.expect(";")?;
    Ok(Statement::Assign { target, new_value })
}

fn parse_let<'a>(input: &mut Input<'a>) -> (r: Result<Statement, ParseError>)
    ensures
        attempted(*old(input), *final(input), r, spec_let(old(input).text(), old(input).position())),
    decreases old(input).text().len() - old(input).position(), 28nat,
{
    proof {
        reveal_strlit("let");
    }
    input.expect("let")?;
    let name = input.parse_symbol()?;
    let value_type = type_after_body(input, ":")?;
    input.expect("=")?;
    let expr = parse_expr(input)?;
    input.expect(";")?;
    Ok(Statement::Let { name, value_type, expr })
}

fn parse_expr_statement<'a>(input: &mut Input<'a>) -> (r: Result<Statement, ParseError>)
    ensures
        attempted(
            *old(input),
            *final(input),
            r,
            spec_expr_statement(old(input).text(), old(input).position()),
        ),
    decreases old(input).text().len() - old(input).position(), 28nat,
{
    let expr = parse_expr(input)?;
    input.expect(";")?;
    Ok(Statement::Expr(expr))
}

/// Parses `keyword`, an optional expression, and `;`.
fn keyword_value_body<'a>(input: &mut Input<'a>, keyword: &str) -> (r: Result<
    Option<Expr>,
    ParseError,
>)
    requires
        keyword@.len() > 0,
    ensures
        steady(*old(input), *final(input)),
        match spec_keyword_value(old(input).text(), old(input).position(), keyword@) {
            Outcome::Match { value, next } => r is Ok && option_expr_view(r->Ok_0) == value
                && final(input).position() == next,
            Outcome::Fail { error } => r is Err && r->Err_0@ == error,
        },
    decreases old(input).text().len() - old(input).position(), 27nat,
{
    let ghost text = input.text();
    let ghost pos = input.position();
    input.expect(keyword)?;
    let ghost value_at = input.position();
    let gtext: Ghost<Seq<char>> = Ghost(text);
    let gpos: Ghost<nat> = Ghost(pos);
    let gat: Ghost<nat> = Ghost(value_at);
    let value = |i: &mut Input<'a>| -> (r: Result<Expr, ParseError>)
        requires
            old(i).text() == gtext@,
            old(i).position() == gat@,
            gpos@ < gat@ <= gtext@.len(),
        ensures
            parsed(*old(i), *final(i), r, spec_expr_at(gtext@, gpos@, gat@)),
        { parse_expr(i) };
    let expr = input.maybe(value);
    assert(spec_maybe(spec_expr_at(text, pos, value_at), value_at) == (
        match expr {
            Some(v) => Some(v@),
            None => None,
        },
        input.position(),
    ));
    input.expect(";")?;
    Ok(expr)
}

fn parse_yield<'a>(input: &mut Input<'a>) -> (r: Result<Statement, ParseError>)
    ensures
        attempted(
            *old(input),
            *final(input),
            r,
            spec_statement_form(old(input).text(), old(input).position(), StatementRule::Yield),
        ),
    decreases old(input).text().len() - old(input).position(), 28nat,
{
    proof {
        reveal_strlit("yield");
    }
    let expr = keyword_value_body(input, "yield")?;
    Ok(Statement::Yield(expr))
}

fn parse_return<'a>(input: &mut Input<'a>) -> (r: Result<Statement, ParseError>)
    ensures
        attempted(
            *old(input),
            *final(input),
            r,
            spec_statement_form(old(input).text(), old(input).position(), StatementRule::Return),
        ),
    decreases old(input).text().len() - old(input).position(), 28nat,
{
    proof {
        reveal_strlit("return");
    }
    let expr = keyword_value_body(input, "return")?;
    Ok(Statement::Return(expr))
}

/// Parses the guard of a case: `if` expression.
fn case_guard_body<'a>(input: &mut Input<'a>, Ghost(origin): Ghost<nat>) -> (r: Result<
    Expr,
    ParseError,
>)
    requires
        origin < old(input).position() <= old(input).text().len(),
    ensures
        attempted(
            *old(input),
            *final(input),
            r,
            spec_case_guard(old(input).text(), origin, old(input).position()),
        ),
    decreases old(input).text().len() - origin, 1nat,
{
    input.expect("if")?;
    parse_expr(input)
}

/// Parses the body of a case: a block of one or more statements, or else
/// a single statement.
fn case_body_body<'a>(input: &mut Input<'a>, Ghost(origin): Ghost<nat>) -> (r: Result<
    Vec<Statement>,
    ParseError,
>)
    requires
        origin < old(input).position() <= old(input).text().len(),
    ensures
        attempted_all(
            *old(input),
            *final(input),
            r,
            spec_case_body(old(input).text(), origin, old(input).position()),
        ),
        r is Ok ==> r->Ok_0@.len() >= 1,
    decreases old(input).text().len() - origin, 2nat,
{
    let mut statements: Vec<Statement> = Vec::new();
    match input.expect("{") {
        Ok(_) => {
            let first = parse_statement(input)?;
            let mut rest = block_rest_body(input, Ghost(origin))?;
            let ghost rest_views = views(rest@);
            statements.push(first);
            statements.append(&mut rest);
            assert(views(statements@) =~= seq![first@] + rest_views);
        },
        Err(_) => {
            let only = parse_statement(input)?;
            statements.push(only);
            assert(views(statements@) =~= seq![only@]);
        },
    }
    Ok(statements)
}

fn case_body<'a>(input: &mut Input<'a>) -> (r: Result<MatchCase, ParseError>)
    ensures
        attempted(*old(input), *final(input), r, spec_case(old(input).text(), old(input).position())),
        r is Ok ==> r->Ok_0.statements@.len() >= 1,
    decreases old(input).text().len() - old(input).position(), 26nat,
{
    let ghost text = input.text();
    let ghost pos = input.position();
    let pattern = parse_pattern(input)?;
    let rp = input.create_restore();
    let test = match case_guard_body(input, Ghost(pos)) {
        Ok(e) => Some(e),
        Err(_) => {
            input.restore(rp);
            None
        },
    };
    input.expect("=>")?;
    let statements = case_body_body(input, Ghost(pos))?;
    Ok(case_of(pattern, test, statements))
}

/// Parses a case of a `match`: a pattern, an optional guard, `=>`, and
/// the body.
pub fn parse_case<'a>(input: &mut Input<'a>) -> (r: Result<MatchCase, ParseError>)
    ensures
        parsed(*old(input), *final(input), r, spec_case(old(input).text(), old(input).position())),
        r is Ok ==> r->Ok_0.statements@.len() >= 1,
    decreases old(input).text().len() - old(input).position(), 27nat,
{
    let rp = input.create_restore();
    let r = case_body(input);
    input.settle(rp, r)
}

fn parse_match<'a>(input: &mut Input<'a>) -> (r: Result<Statement, ParseError>)
    ensures
        attempted(
            *old(input),
            *final(input),
            r,
            spec_match(old(input).text(), old(input).position()),
        ),
    decreases old(input).text().len() - old(input).position(), 28nat,
{
    let ghost text = input.text();
    let ghost pos = input.position();
    proof {
        reveal_strlit("match");
    }
    input.expect("match")?;
    let target = parse_expr(input)?;
    input.expect("{")?;
    let ghost cases_at = input.position();
    let gtext: Ghost<Seq<char>> = Ghost(text);
    let gpos: Ghost<nat> = Ghost(pos);
    let ghost sem = |p: nat|
        if pos < p <= text.len() {
            spec_case(text, p)
        } else {
            nowhere()
        };
    let gsem: Ghost<spec_fn(nat) -> Outcome<MatchCaseView>> = Ghost(sem);
    let case = |i: &mut Input<'a>| -> (r: Result<MatchCase, ParseError>)
        requires
            old(i).text() == gtext@,
            gpos@ < old(i).position() <= gtext@.len(),
        ensures
            parsed(*old(i), *final(i), r, (gsem@)(old(i).position())),
        { parse_case(i) };
    let cases = input.zero_or_more(case)?;
    assert(spec_many(sem, text.len(), cases_at) == (views(cases@), input.position()));
    input.expect("}")?;
    Ok(match_of(target, cases))
}

} // verus!
