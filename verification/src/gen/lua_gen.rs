//! Renders a Lua syntax tree as source text.
//!
//! The spec functions `render_*` say, as character sequences, what text
//! each node stands for; the executable `gen_*` functions build exactly
//! that text. Indentation is threaded through as the text that starts
//! each line: a nested body is rendered with four more spaces.

use vstd::prelude::*;
use crate::gen::lua_ast::{Expr, If, InlineTableAssign, Statement};
use crate::gen::lua_ast::{
    branch_well_formed, expr_well_formed, exprs_well_formed, statement_well_formed,
    statements_well_formed,
};
use crate::text::{
    concat, ends_line, join, join_strings, lemma_concat_ends_line, lemma_concat_step,
    lemma_join_step, lemma_occurrences_with_closer, occurrences, spaces, string_texts,
};

verus! {

/// The text that starts each line at nesting depth `depth`: four spaces
/// per level.
pub open spec fn indent(depth: nat) -> Seq<char> {
    spaces(4 * depth)
}

/// The padding of a body nested one level below a line padded by `pad`.
pub open spec fn deeper(pad: Seq<char>) -> Seq<char> {
    pad + "    "@
}

/// The text of the expression `e`, where the line it stands on is padded
/// by `pad`.
pub open spec fn render_expr(e: Expr, pad: Seq<char>) -> Seq<char>
    decreases e,
{
    match e {
        Expr::Nil => "nil"@,
        Expr::Number(s) => s@,
        Expr::String(s) => s@,
        Expr::Bool(b) => if b { "true"@ } else { "false"@ },
        Expr::Var(s) => s@,
        Expr::TableCons(assigns) => "{ "@ + join(table_entry_texts(assigns@, pad), "; "@) + " }"@,
        Expr::TableAccess { expr, slot } => render_expr(*expr, pad) + "."@ + slot@,
        Expr::ListCons(items) => "{ "@ + join(expr_texts(items@, pad), ", "@) + " }"@,
        Expr::ListAccess { expr, index } => render_expr(*expr, pad) + "[ "@ + render_expr(
            *index,
            pad,
        ) + " ]"@,
        Expr::FunCall { fun, params } => render_expr(*fun, pad) + "( "@ + join(
            expr_texts(params@, pad),
            ", "@,
        ) + " )"@,
        Expr::Lambda { params, statements } => "function( "@ + join(string_texts(params@), ", "@)
            + " )\n"@ + concat(statement_lines(statements@, deeper(pad))) + pad + "end"@,
        Expr::Paren(inner) => "("@ + render_expr(*inner, pad) + ")"@,
        Expr::CallSystemFun { fun, params } => fun@ + "( "@ + join(
            expr_texts(params@, pad),
            ", "@,
        ) + " )"@,
        Expr::CallBinFun { fun, a, b } => fun@ + "( "@ + render_expr(*a, pad) + ", "@
            + render_expr(*b, pad) + " )"@,
        Expr::CallUniFun { fun, a } => fun@ + "( "@ + render_expr(*a, pad) + " )"@,
    }
}

/// The text of each expression of `es`.
pub open spec fn expr_texts(es: Seq<Expr>, pad: Seq<char>) -> Seq<Seq<char>>
    decreases es,
{
    Seq::new(
        es.len(),
        |i: int| if 0 <= i < es.len() { render_expr(es[i], pad) } else { Seq::empty() },
    )
}

/// The text of each entry of a table constructor: the key in brackets and
/// quotes, `=`, and the value, with a space on either side.
pub open spec fn table_entry_texts(assigns: Seq<InlineTableAssign>, pad: Seq<char>) -> Seq<
    Seq<char>,
>
    decreases assigns,
{
    Seq::new(
        assigns.len(),
        |i: int|
            if 0 <= i < assigns.len() {
                " [\""@ + assigns[i].key@ + "\"] = "@ + render_expr(assigns[i].value, pad) + " "@
            } else {
                Seq::empty()
            },
    )
}

/// The texts of the expressions `es`, separated by `, `.
pub open spec fn render_exprs(es: Seq<Expr>, pad: Seq<char>) -> Seq<char> {
    join(expr_texts(es, pad), ", "@)
}

/// The text of the statement `s` on lines padded by `pad`, without a
/// final line break.
pub open spec fn render_statement(s: Statement, pad: Seq<char>) -> Seq<char>
    decreases s,
{
    match s {
        Statement::LocalVarDeclare(name) => pad + "local "@ + name@,
        Statement::Break => pad + "break"@,
        Statement::Return(es) => pad + "return "@ + join(expr_texts(es@, pad), ", "@),
        Statement::If { if_statements, else_statement } => if if_statements@.len() >= 1 {
            pad + "if "@ + render_branch(if_statements@[0], pad) + "\n"@ + concat(
                elseif_sections(if_statements@, pad),
            ) + else_section(
                else_statement@.len(),
                concat(statement_lines(else_statement@, deeper(pad))),
                pad,
            ) + pad + "end"@
        } else {
            pad + "end"@
        },
        Statement::AssignVar { vars, exprs } => pad + join(string_texts(vars@), ", "@) + " = "@
            + join(expr_texts(exprs@, pad), ", "@),
        Statement::AssignListAccess { target, index, new_value } => pad + render_expr(target, pad)
            + "[ "@ + render_expr(index, pad) + " ] = "@ + render_expr(new_value, pad),
        Statement::AssignTableAccess { target, slot, new_value } => pad + render_expr(target, pad)
            + "."@ + slot@ + " = "@ + render_expr(new_value, pad),
        Statement::While { test, statements } => pad + "while "@ + render_expr(test, pad)
            + " do\n"@ + concat(statement_lines(statements@, deeper(pad))) + pad + "end"@,
        Statement::Repeat { test, statements } => pad + "repeat\n"@ + concat(
            statement_lines(statements@, deeper(pad)),
        ) + pad + "until "@ + render_expr(test, pad),
        Statement::For { vars, iterator, statements } => pad + "for "@ + join(
            string_texts(vars@),
            ", "@,
        ) + " in "@ + render_expr(iterator, pad) + " do\n"@ + concat(
            statement_lines(statements@, deeper(pad)),
        ) + pad + "end"@,
        Statement::ForI { var, start, end, increment, statements } => pad + "for "@ + var@
            + " = "@ + render_expr(start, pad) + ", "@ + render_expr(end, pad) + ", "@
            + render_step(increment, pad) + " do\n"@ + concat(
            statement_lines(statements@, deeper(pad)),
        ) + pad + "end"@,
        Statement::FunCall { fun, params } => pad + render_expr(fun, pad) + "( "@ + join(
            expr_texts(params@, pad),
            ", "@,
        ) + " )"@,
        Statement::CallSystemFun { fun, params } => pad + fun@ + "( "@ + join(
            expr_texts(params@, pad),
            ", "@,
        ) + " )"@,
    }
}

/// The step of a counted loop: the increment, or `1` when there is none.
pub open spec fn render_step(increment: Option<Expr>, pad: Seq<char>) -> Seq<char>
    decreases increment,
{
    match increment {
        Some(step) => render_expr(step, pad),
        None => "1"@,
    }
}

/// The text of each statement of `ss` on lines padded by `pad`.
pub open spec fn statement_texts(ss: Seq<Statement>, pad: Seq<char>) -> Seq<Seq<char>>
    decreases ss,
{
    Seq::new(
        ss.len(),
        |i: int| if 0 <= i < ss.len() { render_statement(ss[i], pad) } else { Seq::empty() },
    )
}

/// The text of each statement of `ss` on lines padded by `pad`, each
/// followed by a line break.
pub open spec fn statement_lines(ss: Seq<Statement>, pad: Seq<char>) -> Seq<Seq<char>>
    decreases ss,
{
    Seq::new(
        ss.len(),
        |i: int|
            if 0 <= i < ss.len() {
                render_statement(ss[i], pad) + "\n"@
            } else {
                Seq::empty()
            },
    )
}

/// The statements `ss`, each on lines padded by `pad` and each followed by
/// a line break.
pub open spec fn render_block(ss: Seq<Statement>, pad: Seq<char>) -> Seq<char> {
    concat(statement_lines(ss, pad))
}

/// A branch after its keyword: the test, `then`, and the body one level
/// deeper, with line breaks between its statements and none at the end.
pub open spec fn render_branch(b: If, pad: Seq<char>) -> Seq<char>
    decreases b,
{
    render_expr(b.test, pad) + " then\n"@ + join(
        statement_texts(b.statements@, deeper(pad)),
        "\n"@,
    )
}

/// The `elseif` sections, one for each branch of `branches` after the
/// first, each ended by a line break.
pub open spec fn elseif_sections(branches: Seq<If>, pad: Seq<char>) -> Seq<Seq<char>>
    decreases branches,
{
    Seq::new(
        (branches.len() - 1) as nat,
        |i: int|
            if 0 <= i < branches.len() - 1 {
                pad + "elseif "@ + render_branch(branches[i + 1], pad) + "\n"@
            } else {
                Seq::empty()
            },
    )
}

/// The `else` section of a cascade whose `else` body has `count`
/// statements and renders as `body`: nothing when the body is empty.
pub open spec fn else_section(count: nat, body: Seq<char>, pad: Seq<char>) -> Seq<char> {
    if count == 0 {
        Seq::empty()
    } else {
        pad + "else\n"@ + body
    }
}

/// Everything of an `if` cascade but its closing `end`: the `if` section
/// for the first branch, an `elseif` section for each other branch, and the
/// `else` section.
pub open spec fn render_if_sections(
    branches: Seq<If>,
    otherwise: Seq<Statement>,
    pad: Seq<char>,
) -> Seq<char>
    recommends
        branches.len() >= 1,
{
    pad + "if "@ + render_branch(branches[0], pad) + "\n"@ + concat(
        elseif_sections(branches, pad),
    ) + else_section(otherwise.len(), render_block(otherwise, deeper(pad)), pad)
}

/// The text of a whole program: each statement at depth zero, followed by
/// a line break.
pub open spec fn render_program(ast: Seq<Statement>) -> Seq<char> {
    render_block(ast, Seq::empty())
}

/// The padding one level below `pad`.
fn deeper_pad(pad: &str) -> (r: String)
    ensures
        r@ == deeper(pad@),
{
    let mut inner = pad.to_owned();
    inner.append("    ");
    inner
}

/// Renders the expressions `es`, separated by `, `.
fn gen_exprs(es: &Vec<Expr>, pad: &str) -> (r: String)
    requires
        exprs_well_formed(es@),
    ensures
        r@ == render_exprs(es@, pad@),
    decreases es,
{
    let ghost parts = expr_texts(es@, pad@);
    let mut out = String::new();
    let mut i: usize = 0;
    while i < es.len()
        invariant
            i <= es.len(),
            exprs_well_formed(es@),
            parts == expr_texts(es@, pad@),
            out@ == join(parts.take(i as int), ", "@),
        decreases es.len() - i,
    {
        proof {
            lemma_join_step(parts, ", "@, i as int);
        }
        let piece = gen_expr(&es[i], pad);
        if i > 0 {
            out.append(", ");
        }
        out.append(piece.as_str());
        i = i + 1;
    }
    assert(parts.take(es.len() as int) =~= parts);
    out
}

/// Renders the entries of a table constructor, separated by `; `.
fn gen_table_entries(assigns: &Vec<InlineTableAssign>, pad: &str) -> (r: String)
    requires
        forall|i: int| 0 <= i < assigns@.len() ==> expr_well_formed(#[trigger] assigns@[i].value),
    ensures
        r@ == join(table_entry_texts(assigns@, pad@), "; "@),
    decreases assigns,
{
    let ghost parts = table_entry_texts(assigns@, pad@);
    let mut out = String::new();
    let mut i: usize = 0;
    while i < assigns.len()
        invariant
            i <= assigns.len(),
            forall|i: int|
                0 <= i < assigns@.len() ==> expr_well_formed(#[trigger] assigns@[i].value),
            parts == table_entry_texts(assigns@, pad@),
            out@ == join(parts.take(i as int), "; "@),
        decreases assigns.len() - i,
    {
        proof {
            lemma_join_step(parts, "; "@, i as int);
        }
        let value = gen_expr(&assigns[i].value, pad);
        let mut piece = " [\"".to_owned();
        piece.append(assigns[i].key.as_str());
        piece.append("\"] = ");
        piece.append(value.as_str());
        piece.append(" ");
        if i > 0 {
            out.append("; ");
        }
        out.append(piece.as_str());
        i = i + 1;
    }
    assert(parts.take(assigns.len() as int) =~= parts);
    out
}

/// Renders the expression `expr`, which stands on a line padded by `pad`.
///
/// The three call forms are written alike, as the callee or the bare name
/// followed by the arguments between `( ` and ` )`; an operator is applied
/// to its operands as a function is.
pub fn gen_expr(expr: &Expr, pad: &str) -> (r: String)
    requires
        expr_well_formed(*expr),
    ensures
        r@ == render_expr(*expr, pad@),
    decreases expr,
{
    match expr {
        Expr::Nil => "nil".to_owned(),
        Expr::Number(s) => s.clone(),
        Expr::String(s) => s.clone(),
        Expr::Bool(b) => if *b {
            "true".to_owned()
        } else {
            "false".to_owned()
        },
        Expr::Var(s) => s.clone(),
        Expr::TableCons(assigns) => {
            let entries = gen_table_entries(assigns, pad);
            let mut out = "{ ".to_owned();
            out.append(entries.as_str());
            out.append(" }");
            out
        },
        Expr::TableAccess { expr: table, slot } => {
            let mut out = gen_expr(table, pad);
            out.append(".");
            out.append(slot.as_str());
            out
        },
        Expr::ListCons(items) => {
            let inner = gen_exprs(items, pad);
            let mut out = "{ ".to_owned();
            out.append(inner.as_str());
            out.append(" }");
            out
        },
        Expr::ListAccess { expr: list, index } => {
            let mut out = gen_expr(list, pad);
            let index_text = gen_expr(index, pad);
            out.append("[ ");
            out.append(index_text.as_str());
            out.append(" ]");
            out
        },
        Expr::FunCall { fun, params } => {
            let mut out = gen_expr(fun, pad);
            let params_text = gen_exprs(params, pad);
            out.append("( ");
            out.append(params_text.as_str());
            out.append(" )");
            out
        },
        Expr::Lambda { params, statements } => {
            let names = join_strings(params, ", ");
            let inner = deeper_pad(pad);
            let body = gen_block(statements, inner.as_str());
            let mut out = "function( ".to_owned();
            out.append(names.as_str());
            out.append(" )\n");
            out.append(body.as_str());
            out.append(pad);
            out.append("end");
            out
        },
        Expr::Paren(inner) => {
            let inner_text = gen_expr(inner, pad);
            let mut out = "(".to_owned();
            out.append(inner_text.as_str());
            out.append(")");
            out
        },
        Expr::CallSystemFun { fun, params } => {
            let params_text = gen_exprs(params, pad);
            let mut out = fun.clone();
            out.append("( ");
            out.append(params_text.as_str());
            out.append(" )");
            out
        },
        Expr::CallBinFun { fun, a, b } => {
            let a_text = gen_expr(a, pad);
            let b_text = gen_expr(b, pad);
            let mut out = fun.clone();
            out.append("( ");
            out.append(a_text.as_str());
            out.append(", ");
            out.append(b_text.as_str());
            out.append(" )");
            out
        },
        Expr::CallUniFun { fun, a } => {
            let a_text = gen_expr(a, pad);
            let mut out = fun.clone();
            out.append("( ");
            out.append(a_text.as_str());
            out.append(" )");
            out
        },
    }
}

/// Renders the statements `ss` on lines padded by `pad`, each followed by a
/// line break.
fn gen_block(ss: &Vec<Statement>, pad: &str) -> (r: String)
    requires
        statements_well_formed(ss@),
    ensures
        r@ == render_block(ss@, pad@),
    decreases ss,
{
    let ghost parts = statement_lines(ss@, pad@);
    let mut out = String::new();
    let mut i: usize = 0;
    while i < ss.len()
        invariant
            i <= ss.len(),
            statements_well_formed(ss@),
            parts == statement_lines(ss@, pad@),
            out@ == concat(parts.take(i as int)),
        decreases ss.len() - i,
    {
        proof {
            lemma_concat_step(parts, i as int);
        }
        let mut line = gen_statement(&ss[i], pad);
        line.append("\n");
        out.append(line.as_str());
        i = i + 1;
    }
    assert(parts.take(ss.len() as int) =~= parts);
    out
}

/// Renders a branch after its keyword: the test, `then`, and the body one
/// level below `pad`.
pub fn gen_if(if_statement: &If, pad: &str) -> (r: String)
    requires
        branch_well_formed(*if_statement),
    ensures
        r@ == render_branch(*if_statement, pad@),
    decreases if_statement,
{
    let inner = deeper_pad(pad);
    let ss = &if_statement.statements;
    let ghost parts = statement_texts(ss@, deeper(pad@));
    let mut body = String::new();
    let mut i: usize = 0;
    while i < ss.len()
        invariant
            i <= ss.len(),
            ss == &if_statement.statements,
            statements_well_formed(ss@),
            inner@ == deeper(pad@),
            parts == statement_texts(ss@, deeper(pad@)),
            body@ == join(parts.take(i as int), "\n"@),
        decreases ss.len() - i,
    {
        proof {
            lemma_join_step(parts, "\n"@, i as int);
        }
        let piece = gen_statement(&ss[i], inner.as_str());
        if i > 0 {
            body.append("\n");
        }
        body.append(piece.as_str());
        i = i + 1;
    }
    assert(parts.take(ss.len() as int) =~= parts);
    let mut out = gen_expr(&if_statement.test, pad);
    out.append(" then\n");
    out.append(body.as_str());
    out
}

/// Renders the `elseif` sections of a cascade: one for each branch after
/// the first.
fn gen_elseifs(branches: &Vec<If>, pad: &str) -> (r: String)
    requires
        branches@.len() >= 1,
        forall|i: int| 0 <= i < branches@.len() ==> branch_well_formed(#[trigger] branches@[i]),
    ensures
        r@ == concat(elseif_sections(branches@, pad@)),
    decreases branches,
{
    let ghost parts = elseif_sections(branches@, pad@);
    let mut out = String::new();
    let mut i: usize = 1;
    while i < branches.len()
        invariant
            1 <= i <= branches.len(),
            forall|i: int|
                0 <= i < branches@.len() ==> branch_well_formed(#[trigger] branches@[i]),
            parts == elseif_sections(branches@, pad@),
            out@ == concat(parts.take(i - 1)),
        decreases branches.len() - i,
    {
        proof {
            lemma_concat_step(parts, i - 1);
        }
        let branch = gen_if(&branches[i], pad);
        let mut section = pad.to_owned();
        section.append("elseif ");
        section.append(branch.as_str());
        section.append("\n");
        out.append(section.as_str());
        i = i + 1;
    }
    assert(parts.take(branches.len() - 1) =~= parts);
    out
}

/// Renders the statement `statement` on lines padded by `pad`, without a
/// final line break. A block-bodied statement renders its body one level
/// deeper and its closing keyword at its own padding.
pub fn gen_statement(statement: &Statement, pad: &str) -> (r: String)
    requires
        statement_well_formed(*statement),
    ensures
        r@ == render_statement(*statement, pad@),
    decreases statement,
{
    let mut out = pad.to_owned();
    match statement {
        Statement::LocalVarDeclare(name) => {
            out.append("local ");
            out.append(name.as_str());
        },
        Statement::Break => {
            out.append("break");
        },
        Statement::Return(es) => {
            let exprs = gen_exprs(es, pad);
            out.append("return ");
            out.append(exprs.as_str());
        },
        Statement::If { if_statements, else_statement } => {
            let first = gen_if(&if_statements[0], pad);
            let elseifs = gen_elseifs(if_statements, pad);
            out.append("if ");
            out.append(first.as_str());
            out.append("\n");
            out.append(elseifs.as_str());
            if else_statement.len() > 0 {
                let inner = deeper_pad(pad);
                let body = gen_block(else_statement, inner.as_str());
                let mut section = pad.to_owned();
                section.append("else\n");
                section.append(body.as_str());
                out.append(section.as_str());
            } else {
                assert(out@ + Seq::<char>::empty() =~= out@);
            }
            out.append(pad);
            out.append("end");
        },
        Statement::AssignVar { vars, exprs } => {
            let names = join_strings(vars, ", ");
            let values = gen_exprs(exprs, pad);
            out.append(names.as_str());
            out.append(" = ");
            out.append(values.as_str());
        },
        Statement::AssignListAccess { target, index, new_value } => {
            let list_expr = gen_expr(target, pad);
            let index_expr = gen_expr(index, pad);
            let value_expr = gen_expr(new_value, pad);
            out.append(list_expr.as_str());
            out.append("[ ");
            out.append(index_expr.as_str());
            out.append(" ] = ");
            out.append(value_expr.as_str());
        },
        Statement::AssignTableAccess { target, slot, new_value } => {
            let table_expr = gen_expr(target, pad);
            let value_expr = gen_expr(new_value, pad);
            out.append(table_expr.as_str());
            out.append(".");
            out.append(slot.as_str());
            out.append(" = ");
            out.append(value_expr.as_str());
        },
        Statement::While { test, statements } => {
            let test_expr = gen_expr(test, pad);
            let inner = deeper_pad(pad);
            let body = gen_block(statements, inner.as_str());
            out.append("while ");
            out.append(test_expr.as_str());
            out.append(" do\n");
            out.append(body.as_str());
            out.append(pad);
            out.append("end");
        },
        Statement::Repeat { test, statements } => {
            let test_expr = gen_expr(test, pad);
            let inner = deeper_pad(pad);
            let body = gen_block(statements, inner.as_str());
            out.append("repeat\n");
            out.append(body.as_str());
            out.append(pad);
            out.append("until ");
            out.append(test_expr.as_str());
        },
        Statement::For { vars, iterator, statements } => {
            let vars_text = join_strings(vars, ", ");
            let iterator_text = gen_expr(iterator, pad);
            let inner = deeper_pad(pad);
            let body = gen_block(statements, inner.as_str());
            out.append("for ");
            out.append(vars_text.as_str());
            out.append(" in ");
            out.append(iterator_text.as_str());
            out.append(" do\n");
            out.append(body.as_str());
            out.append(pad);
            out.append("end");
        },
        Statement::ForI { var, start, end, increment, statements } => {
            let start_text = gen_expr(start, pad);
            let end_text = gen_expr(end, pad);
            let increment_text = match increment {
                Some(step) => gen_expr(step, pad),
                None => "1".to_owned(),
            };
            let inner = deeper_pad(pad);
            let body = gen_block(statements, inner.as_str());
            out.append("for ");
            out.append(var.as_str());
            out.append(" = ");
            out.append(start_text.as_str());
            out.append(", ");
            out.append(end_text.as_str());
            out.append(", ");
            out.append(increment_text.as_str());
            out.append(" do\n");
            out.append(body.as_str());
            out.append(pad);
            out.append("end");
        },
        Statement::FunCall { fun, params } => {
            let fun_text = gen_expr(fun, pad);
            let params_text = gen_exprs(params, pad);
            out.append(fun_text.as_str());
            out.append("( ");
            out.append(params_text.as_str());
            out.append(" )");
        },
        Statement::CallSystemFun { fun, params } => {
            let params_text = gen_exprs(params, pad);
            out.append(fun.as_str());
            out.append("( ");
            out.append(params_text.as_str());
            out.append(" )");
        },
    }
    out
}

/// Renders a program: each statement of `ast` at depth zero, followed by a
/// line break.
pub fn gen_code(ast: Vec<Statement>) -> (r: String)
    requires
        statements_well_formed(ast@),
    ensures
        r@ == render_program(ast@),
{
    let r = gen_block(&ast, "");
    proof {
        reveal_strlit("");
        assert(""@ =~= Seq::<char>::empty());
    }
    r
}

/// One level of nesting adds four spaces to the padding.
pub proof fn lemma_deeper_indent(depth: nat)
    ensures
        deeper(indent(depth)) == indent(depth + 1),
{
    reveal_strlit("    ");
    assert(deeper(indent(depth)) =~= indent(depth + 1));
}

/// An `if` cascade has exactly one `end` of its own, whatever the number
/// of its branches and whether it has an `else` or not: its text is its
/// sections followed by one closing line, the padding and `end`, and it
/// holds the word `end` exactly once more than its sections do.
pub proof fn lemma_if_closes_once(if_statements: Vec<If>, else_statement: Vec<Statement>, depth: nat)
    requires
        if_statements@.len() >= 1,
    ensures
        render_statement(Statement::If { if_statements, else_statement }, indent(depth))
            == render_if_sections(if_statements@, else_statement@, indent(depth)) + indent(depth)
            + "end"@,
        occurrences(
            render_statement(Statement::If { if_statements, else_statement }, indent(depth)),
            "end"@,
        ) == occurrences(
            render_if_sections(if_statements@, else_statement@, indent(depth)),
            "end"@,
        ) + 1,
{
    let pad = indent(depth);
    let word = "end"@;
    let sections = render_if_sections(if_statements@, else_statement@, pad);
    reveal_strlit("end");
    reveal_strlit("\n");
    reveal_strlit("else\n");
    let head = pad + "if "@ + render_branch(if_statements@[0], pad) + "\n"@;
    assert(ends_line(head));
    let elseifs = elseif_sections(if_statements@, pad);
    assert forall|i: int| 0 <= i < elseifs.len() implies ends_line(#[trigger] elseifs[i]) by {}
    lemma_concat_ends_line(elseifs);
    let lines = statement_lines(else_statement@, deeper(pad));
    assert forall|i: int| 0 <= i < lines.len() implies ends_line(#[trigger] lines[i]) by {}
    lemma_concat_ends_line(lines);
    let otherwise = else_section(else_statement@.len(), concat(lines), pad);
    assert(otherwise.len() > 0 ==> ends_line(otherwise)) by {
        if else_statement@.len() > 0 {
            assert(ends_line(concat(lines)));
            assert(otherwise == pad + "else\n"@ + concat(lines));
        }
    }
    assert(sections == head + concat(elseifs) + otherwise);
    assert(ends_line(sections));
    assert(!word.contains('\n'));
    assert(!word.contains(' '));
    lemma_occurrences_with_closer(sections, pad, word);
}

/// A counted loop without an increment steps by `1`.
pub proof fn lemma_for_steps_by_one(
    var: String,
    start: Expr,
    end: Expr,
    statements: Vec<Statement>,
    pad: Seq<char>,
)
    ensures
        render_statement(Statement::ForI { var, start, end, increment: None, statements }, pad)
            == pad + "for "@ + var@ + " = "@ + render_expr(start, pad) + ", "@ + render_expr(
            end,
            pad,
        ) + ", "@ + "1"@ + " do\n"@ + render_block(statements@, deeper(pad)) + pad + "end"@,
{
}

} // verus!
