//! The lines of a rendered `if` cascade.
//!
//! Where no test and no statement of a body renders with a line break in
//! it, the text of a cascade is a sequence of lines that can be told
//! apart: one `if` line, one `elseif` line for each later branch, the
//! lines of the bodies, an `else` line if there is an `else`, and one
//! closing `end` line, the last.

use vstd::prelude::*;
use crate::gen::lua_ast::{If, Statement};
use crate::gen::lua_gen::{
    deeper, else_section, elseif_sections, render_branch, render_expr, render_statement,
    statement_lines, statement_texts,
};
use crate::text::{concat, join, lemma_concat_step};

verus! {

/// `text` holds no line break.
pub open spec fn plain(text: Seq<char>) -> bool {
    forall|i: int| 0 <= i < text.len() ==> text[i] != '\n'
}

/// `text` begins with `prefix`.
pub open spec fn starts_with(text: Seq<char>, prefix: Seq<char>) -> bool {
    prefix.len() <= text.len() && text.subrange(0, prefix.len() as int) == prefix
}

/// The text made of `lines`, each followed by a line break.
pub open spec fn terminated(lines: Seq<Seq<char>>) -> Seq<char> {
    concat(Seq::new(lines.len(), |i: int| lines[i] + seq!['\n']))
}

/// The number of lines of `lines` of which `holds` is true.
pub open spec fn count_where(lines: Seq<Seq<char>>, holds: spec_fn(Seq<char>) -> bool) -> nat
    decreases lines.len(),
{
    if lines.len() == 0 {
        0
    } else {
        count_where(lines.drop_last(), holds) + if holds(lines.last()) {
            1nat
        } else {
            0nat
        }
    }
}

/// The lines of a body rendered at `pad`: one for each statement, or one
/// empty line for a body without statements.
pub open spec fn body_lines(ss: Seq<Statement>, pad: Seq<char>) -> Seq<Seq<char>> {
    if ss.len() == 0 {
        seq![Seq::empty()]
    } else {
        statement_texts(ss, pad)
    }
}

/// The lines of the branch `b` under `keyword`: the line of the keyword
/// and the test, and the lines of the body.
pub open spec fn branch_lines(b: If, keyword: Seq<char>, pad: Seq<char>) -> Seq<Seq<char>> {
    seq![pad + keyword + render_expr(b.test, pad) + " then"@] + body_lines(
        b.statements@,
        deeper(pad),
    )
}

/// The lines of the `elseif` branches: those of the branches after the
/// first and before the `upto`-th.
pub open spec fn elseif_lines(branches: Seq<If>, upto: nat, pad: Seq<char>) -> Seq<Seq<char>>
    decreases upto,
{
    if upto <= 1 || upto > branches.len() {
        Seq::empty()
    } else {
        elseif_lines(branches, (upto - 1) as nat, pad) + branch_lines(
            branches[upto - 1],
            "elseif "@,
            pad,
        )
    }
}

/// The lines of the `else`: none without statements.
pub open spec fn else_lines(otherwise: Seq<Statement>, pad: Seq<char>) -> Seq<Seq<char>> {
    if otherwise.len() == 0 {
        Seq::empty()
    } else {
        seq![pad + "else"@] + statement_texts(otherwise, deeper(pad))
    }
}

/// The lines of a cascade.
pub open spec fn cascade_lines(branches: Seq<If>, otherwise: Seq<Statement>, pad: Seq<char>)
    -> Seq<Seq<char>>
    recommends
        branches.len() >= 1,
{
    branch_lines(branches[0], "if "@, pad) + elseif_lines(branches, branches.len(), pad)
        + else_lines(otherwise, pad) + seq![pad + "end"@]
}

/// No test and no statement of a body of the cascade renders with a line
/// break in it, and the padding holds none.
pub open spec fn flat(branches: Seq<If>, otherwise: Seq<Statement>, pad: Seq<char>) -> bool {
    &&& plain(pad)
    &&& forall|i: int| 0 <= i < branches.len() ==> plain(#[trigger] render_expr(branches[i].test, pad))
    &&& forall|i: int, j: int|
        0 <= i < branches.len() && 0 <= j < branches[i].statements@.len() ==> plain(
            #[trigger] render_statement(branches[i].statements@[j], deeper(pad)),
        )
    &&& forall|j: int|
        0 <= j < otherwise.len() ==> plain(#[trigger] render_statement(otherwise[j], deeper(pad)))
}

/// Pieces put one after the other: the pieces of two sequences give the
/// text of the first and then the text of the second.
pub proof fn lemma_concat_add(a: Seq<Seq<char>>, b: Seq<Seq<char>>)
    ensures
        concat(a + b) == concat(a) + concat(b),
    decreases b.len(),
{
    if b.len() == 0 {
        assert(a + b =~= a);
        assert(concat(a) + concat(b) =~= concat(a));
    } else {
        assert((a + b).drop_last() =~= a + b.drop_last());
        assert((a + b).last() == b.last());
        lemma_concat_add(a, b.drop_last());
        assert(concat(a) + concat(b.drop_last()) + b.last() =~= concat(a) + (concat(
            b.drop_last(),
        ) + b.last()));
    }
}

/// The lines of two sequences, each line ended, give the text of the
/// first and then the text of the second.
pub proof fn lemma_terminated_add(a: Seq<Seq<char>>, b: Seq<Seq<char>>)
    ensures
        terminated(a + b) == terminated(a) + terminated(b),
{
    let ab = a + b;
    assert(Seq::new(ab.len(), |i: int| ab[i] + seq!['\n']) =~= Seq::new(
        a.len(),
        |i: int| a[i] + seq!['\n'],
    ) + Seq::new(b.len(), |i: int| b[i] + seq!['\n']));
    lemma_concat_add(
        Seq::new(a.len(), |i: int| a[i] + seq!['\n']),
        Seq::new(b.len(), |i: int| b[i] + seq!['\n']),
    );
}

/// One line, ended.
pub proof fn lemma_terminated_one(line: Seq<char>)
    ensures
        terminated(seq![line]) == line + seq!['\n'],
{
    let parts = Seq::new(1, |i: int| seq![line][i] + seq!['\n']);
    assert(parts.drop_last() =~= Seq::<Seq<char>>::empty());
    assert(concat(parts) == concat(parts.drop_last()) + parts.last());
    assert(concat(parts.drop_last()) + parts.last() =~= line + seq!['\n']);
}

/// Counting in two sequences of lines counts in each.
pub proof fn lemma_count_add(
    a: Seq<Seq<char>>,
    b: Seq<Seq<char>>,
    holds: spec_fn(Seq<char>) -> bool,
)
    ensures
        count_where(a + b, holds) == count_where(a, holds) + count_where(b, holds),
    decreases b.len(),
{
    if b.len() == 0 {
        assert(a + b =~= a);
    } else {
        assert((a + b).drop_last() =~= a + b.drop_last());
        assert((a + b).last() == b.last());
        lemma_count_add(a, b.drop_last(), holds);
    }
}

/// Lines of which `holds` is never true count as none.
pub proof fn lemma_count_none(lines: Seq<Seq<char>>, holds: spec_fn(Seq<char>) -> bool)
    requires
        forall|i: int| 0 <= i < lines.len() ==> !holds(#[trigger] lines[i]),
    ensures
        count_where(lines, holds) == 0,
    decreases lines.len(),
{
    if lines.len() > 0 {
        assert(!holds(lines[lines.len() - 1]));
        assert forall|i: int| 0 <= i < lines.drop_last().len() implies !holds(
            #[trigger] lines.drop_last()[i],
        ) by {
            assert(lines.drop_last()[i] == lines[i]);
        }
        lemma_count_none(lines.drop_last(), holds);
    }
}

/// One line counts as one or none.
pub proof fn lemma_count_one(line: Seq<char>, holds: spec_fn(Seq<char>) -> bool)
    ensures
        count_where(seq![line], holds) == if holds(line) {
            1nat
        } else {
            0nat
        },
{
    assert(seq![line].drop_last() =~= Seq::<Seq<char>>::empty());
    assert(count_where(seq![line].drop_last(), holds) == 0);
}

/// Lines joined by line breaks and then ended are the lines, each ended.
pub proof fn lemma_join_terminated(lines: Seq<Seq<char>>)
    requires
        lines.len() > 0,
    ensures
        join(lines, seq!['\n']) + seq!['\n'] == terminated(lines),
    decreases lines.len(),
{
    if lines.len() == 1 {
        assert(lines =~= seq![lines[0]]);
        lemma_terminated_one(lines[0]);
    } else {
        let front = lines.drop_last();
        lemma_join_terminated(front);
        assert(lines =~= front + seq![lines.last()]);
        lemma_terminated_add(front, seq![lines.last()]);
        lemma_terminated_one(lines.last());
        assert(join(lines, seq!['\n']) + seq!['\n'] =~= (join(front, seq!['\n']) + seq!['\n'])
            + (lines.last() + seq!['\n']));
    }
}

/// The text of a branch under its keyword, ended, is its lines, each
/// ended.
pub proof fn lemma_branch_text(b: If, keyword: Seq<char>, pad: Seq<char>)
    ensures
        pad + keyword + render_branch(b, pad) + "\n"@ == terminated(branch_lines(b, keyword, pad)),
{
    reveal_strlit("\n");
    reveal_strlit(" then");
    reveal_strlit(" then\n");
    assert("\n"@ =~= seq!['\n']);
    let head = pad + keyword + render_expr(b.test, pad) + " then"@;
    let body = body_lines(b.statements@, deeper(pad));
    let texts = statement_texts(b.statements@, deeper(pad));
    lemma_terminated_add(seq![head], body);
    lemma_terminated_one(head);
    if b.statements@.len() == 0 {
        assert(texts =~= Seq::<Seq<char>>::empty());
        assert(join(texts, "\n"@) =~= Seq::<char>::empty());
        lemma_terminated_one(Seq::<char>::empty());
        assert(join(texts, "\n"@) + seq!['\n'] =~= terminated(body));
    } else {
        lemma_join_terminated(texts);
    }
    assert(join(texts, "\n"@) + seq!['\n'] == terminated(body));
    assert(pad + keyword + render_branch(b, pad) + "\n"@ =~= (head + seq!['\n']) + (join(
        texts,
        "\n"@,
    ) + seq!['\n']));
}

/// The `elseif` sections up to the `upto`-th branch are the lines of
/// those branches, each ended.
pub proof fn lemma_elseif_text(branches: Seq<If>, upto: nat, pad: Seq<char>)
    requires
        1 <= upto <= branches.len(),
    ensures
        concat(elseif_sections(branches, pad).take(upto - 1)) == terminated(
            elseif_lines(branches, upto, pad),
        ),
    decreases upto,
{
    let sections = elseif_sections(branches, pad);
    if upto == 1 {
        assert(sections.take(0) =~= Seq::<Seq<char>>::empty());
        assert(terminated(Seq::<Seq<char>>::empty()) =~= Seq::<char>::empty());
    } else {
        lemma_elseif_text(branches, (upto - 1) as nat, pad);
        lemma_concat_step(sections, upto - 2);
        lemma_branch_text(branches[upto - 1], "elseif "@, pad);
        lemma_terminated_add(
            elseif_lines(branches, (upto - 1) as nat, pad),
            branch_lines(branches[upto - 1], "elseif "@, pad),
        );
    }
}

/// The `else` section is the lines of the `else`, each ended.
pub proof fn lemma_else_text(otherwise: Seq<Statement>, pad: Seq<char>)
    ensures
        else_section(otherwise.len(), concat(statement_lines(otherwise, deeper(pad))), pad)
            == terminated(else_lines(otherwise, pad)),
{
    reveal_strlit("\n");
    reveal_strlit("else");
    reveal_strlit("else\n");
    if otherwise.len() == 0 {
        assert(terminated(Seq::<Seq<char>>::empty()) =~= Seq::<char>::empty());
    } else {
        let texts = statement_texts(otherwise, deeper(pad));
        assert("\n"@ =~= seq!['\n']);
        assert(statement_lines(otherwise, deeper(pad)) =~= Seq::new(
            texts.len(),
            |i: int| texts[i] + seq!['\n'],
        ));
        lemma_terminated_add(seq![pad + "else"@], texts);
        lemma_terminated_one(pad + "else"@);
        assert(pad + "else\n"@ =~= pad + "else"@ + seq!['\n']);
    }
}

/// The text of a cascade, ended, is its lines, each ended.
pub proof fn lemma_cascade_text(
    if_statements: Vec<If>,
    else_statement: Vec<Statement>,
    pad: Seq<char>,
)
    requires
        if_statements@.len() >= 1,
    ensures
        render_statement(Statement::If { if_statements, else_statement }, pad) + seq!['\n']
            == terminated(cascade_lines(if_statements@, else_statement@, pad)),
{
    reveal_strlit("\n");
    let branches = if_statements@;
    let otherwise = else_statement@;
    let sections = elseif_sections(branches, pad);
    lemma_branch_text(branches[0], "if "@, pad);
    lemma_elseif_text(branches, branches.len(), pad);
    assert(sections.take(branches.len() - 1) =~= sections);
    lemma_else_text(otherwise, pad);
    lemma_terminated_one(pad + "end"@);
    let first = branch_lines(branches[0], "if "@, pad);
    let later = elseif_lines(branches, branches.len(), pad);
    let last = else_lines(otherwise, pad);
    lemma_terminated_add(first, later);
    lemma_terminated_add(first + later, last);
    lemma_terminated_add(first + later + last, seq![pad + "end"@]);
    let text = render_statement(Statement::If { if_statements, else_statement }, pad);
    assert(text + seq!['\n'] =~= (pad + "if "@ + render_branch(branches[0], pad) + "\n"@)
        + concat(sections) + else_section(
        otherwise.len(),
        concat(statement_lines(otherwise, deeper(pad))),
        pad,
    ) + (pad + "end"@ + seq!['\n']));
}

/// The lines that close a cascade padded by `pad`: the padding and
/// `end`, and nothing more.
pub open spec fn closes(pad: Seq<char>) -> spec_fn(Seq<char>) -> bool {
    |line: Seq<char>| line == pad + "end"@
}

/// The lines that open a cascade padded by `pad`: they begin with the
/// padding and `if `.
pub open spec fn opens_if(pad: Seq<char>) -> spec_fn(Seq<char>) -> bool {
    |line: Seq<char>| starts_with(line, pad + "if "@)
}

/// The lines that open a later branch of a cascade padded by `pad`: they
/// begin with the padding and `elseif `.
pub open spec fn opens_elseif(pad: Seq<char>) -> spec_fn(Seq<char>) -> bool {
    |line: Seq<char>| starts_with(line, pad + "elseif "@)
}

/// The text of a statement begins with its padding.
pub proof fn lemma_statement_starts_with_pad(s: Statement, pad: Seq<char>)
    ensures
        starts_with(render_statement(s, pad), pad),
{
    let text = render_statement(s, pad);
    assert(pad.len() <= text.len() && text.subrange(0, pad.len() as int) =~= pad);
}

/// A line of a body is neither the opening of a branch nor the closing of
/// the cascade around it.
pub proof fn lemma_body_lines_are_plain_lines(ss: Seq<Statement>, pad: Seq<char>)
    ensures
        count_where(body_lines(ss, deeper(pad)), closes(pad)) == 0,
        count_where(body_lines(ss, deeper(pad)), opens_if(pad)) == 0,
        count_where(body_lines(ss, deeper(pad)), opens_elseif(pad)) == 0,
{
    reveal_strlit("    ");
    reveal_strlit("end");
    reveal_strlit("if ");
    reveal_strlit("elseif ");
    let lines = body_lines(ss, deeper(pad));
    assert forall|i: int| 0 <= i < lines.len() implies !closes(pad)(#[trigger] lines[i])
        && !opens_if(pad)(lines[i]) && !opens_elseif(pad)(lines[i]) by {
        let line = lines[i];
        if ss.len() > 0 {
            lemma_statement_starts_with_pad(ss[i], deeper(pad));
            assert(line.subrange(0, deeper(pad).len() as int)[pad.len() as int] == ' ');
            assert(line[pad.len() as int] == ' ');
            assert((pad + "end"@)[pad.len() as int] == 'e');
            if starts_with(line, pad + "if "@) {
                assert(line.subrange(0, (pad + "if "@).len() as int)[pad.len() as int] == 'i');
            }
            if starts_with(line, pad + "elseif "@) {
                assert(line.subrange(0, (pad + "elseif "@).len() as int)[pad.len() as int] == 'e');
            }
        }
    }
    lemma_count_none(lines, closes(pad));
    lemma_count_none(lines, opens_if(pad));
    lemma_count_none(lines, opens_elseif(pad));
}

/// Among the lines of the first branch, one opens the cascade, and none
/// opens a later branch or closes it.
pub proof fn lemma_first_branch_counts(b: If, pad: Seq<char>)
    ensures
        count_where(branch_lines(b, "if "@, pad), closes(pad)) == 0,
        count_where(branch_lines(b, "if "@, pad), opens_if(pad)) == 1,
        count_where(branch_lines(b, "if "@, pad), opens_elseif(pad)) == 0,
{
    reveal_strlit("end");
    reveal_strlit("if ");
    reveal_strlit("elseif ");
    let head = pad + "if "@ + render_expr(b.test, pad) + " then"@;
    let body = body_lines(b.statements@, deeper(pad));
    lemma_body_lines_are_plain_lines(b.statements@, pad);
    assert(head[pad.len() as int] == 'i');
    assert((pad + "end"@)[pad.len() as int] == 'e');
    assert(head.subrange(0, (pad + "if "@).len() as int) =~= pad + "if "@);
    if starts_with(head, pad + "elseif "@) {
        assert(head.subrange(0, (pad + "elseif "@).len() as int)[pad.len() as int] == 'e');
    }
    lemma_count_one(head, closes(pad));
    lemma_count_one(head, opens_if(pad));
    lemma_count_one(head, opens_elseif(pad));
    lemma_count_add(seq![head], body, closes(pad));
    lemma_count_add(seq![head], body, opens_if(pad));
    lemma_count_add(seq![head], body, opens_elseif(pad));
}

/// Among the lines of a later branch, one opens the branch, and none
/// opens or closes the cascade.
pub proof fn lemma_later_branch_counts(b: If, pad: Seq<char>)
    ensures
        count_where(branch_lines(b, "elseif "@, pad), closes(pad)) == 0,
        count_where(branch_lines(b, "elseif "@, pad), opens_if(pad)) == 0,
        count_where(branch_lines(b, "elseif "@, pad), opens_elseif(pad)) == 1,
{
    reveal_strlit("end");
    reveal_strlit("if ");
    reveal_strlit("elseif ");
    let head = pad + "elseif "@ + render_expr(b.test, pad) + " then"@;
    let body = body_lines(b.statements@, deeper(pad));
    lemma_body_lines_are_plain_lines(b.statements@, pad);
    assert(head[pad.len() as int] == 'e');
    assert(head[pad.len() as int + 1] == 'l');
    assert((pad + "end"@)[pad.len() as int + 1] == 'n');
    assert(head.subrange(0, (pad + "elseif "@).len() as int) =~= pad + "elseif "@);
    if starts_with(head, pad + "if "@) {
        assert(head.subrange(0, (pad + "if "@).len() as int)[pad.len() as int] == 'i');
    }
    lemma_count_one(head, closes(pad));
    lemma_count_one(head, opens_if(pad));
    lemma_count_one(head, opens_elseif(pad));
    lemma_count_add(seq![head], body, closes(pad));
    lemma_count_add(seq![head], body, opens_if(pad));
    lemma_count_add(seq![head], body, opens_elseif(pad));
}

/// Among the lines of the later branches up to the `upto`-th, one line
/// for each branch opens it, and none opens or closes the cascade.
pub proof fn lemma_elseif_counts(branches: Seq<If>, upto: nat, pad: Seq<char>)
    requires
        1 <= upto <= branches.len(),
    ensures
        count_where(elseif_lines(branches, upto, pad), closes(pad)) == 0,
        count_where(elseif_lines(branches, upto, pad), opens_if(pad)) == 0,
        count_where(elseif_lines(branches, upto, pad), opens_elseif(pad)) == upto - 1,
    decreases upto,
{
    if upto > 1 {
        let front = elseif_lines(branches, (upto - 1) as nat, pad);
        let back = branch_lines(branches[upto - 1], "elseif "@, pad);
        lemma_elseif_counts(branches, (upto - 1) as nat, pad);
        lemma_later_branch_counts(branches[upto - 1], pad);
        lemma_count_add(front, back, closes(pad));
        lemma_count_add(front, back, opens_if(pad));
        lemma_count_add(front, back, opens_elseif(pad));
    }
}

/// No line of the `else` opens a branch or closes the cascade.
pub proof fn lemma_else_counts(otherwise: Seq<Statement>, pad: Seq<char>)
    ensures
        count_where(else_lines(otherwise, pad), closes(pad)) == 0,
        count_where(else_lines(otherwise, pad), opens_if(pad)) == 0,
        count_where(else_lines(otherwise, pad), opens_elseif(pad)) == 0,
{
    reveal_strlit("end");
    reveal_strlit("if ");
    reveal_strlit("elseif ");
    reveal_strlit("else");
    if otherwise.len() > 0 {
        let head = pad + "else"@;
        let body = statement_texts(otherwise, deeper(pad));
        assert(body == body_lines(otherwise, deeper(pad)));
        lemma_body_lines_are_plain_lines(otherwise, pad);
        assert(head[pad.len() as int + 1] == 'l');
        assert((pad + "end"@)[pad.len() as int + 1] == 'n');
        if starts_with(head, pad + "if "@) {
            assert(head.subrange(0, (pad + "if "@).len() as int)[pad.len() as int] == 'i');
        }
        lemma_count_one(head, closes(pad));
        lemma_count_one(head, opens_if(pad));
        lemma_count_one(head, opens_elseif(pad));
        lemma_count_add(seq![head], body, closes(pad));
        lemma_count_add(seq![head], body, opens_if(pad));
        lemma_count_add(seq![head], body, opens_elseif(pad));
    }
}

/// Text put together from texts without line breaks holds none.
pub proof fn lemma_plain_add(a: Seq<char>, b: Seq<char>)
    requires
        plain(a),
        plain(b),
    ensures
        plain(a + b),
{
    assert forall|i: int| 0 <= i < (a + b).len() implies (a + b)[i] != '\n' by {
        if i < a.len() {
            assert((a + b)[i] == a[i]);
        } else {
            assert((a + b)[i] == b[i - a.len()]);
        }
    }
}

/// No line of `lines` holds a line break.
pub open spec fn all_plain(lines: Seq<Seq<char>>) -> bool {
    forall|i: int| 0 <= i < lines.len() ==> plain(#[trigger] lines[i])
}

/// Lines without line breaks after lines without line breaks.
pub proof fn lemma_all_plain_add(a: Seq<Seq<char>>, b: Seq<Seq<char>>)
    requires
        all_plain(a),
        all_plain(b),
    ensures
        all_plain(a + b),
{
    assert forall|i: int| 0 <= i < (a + b).len() implies plain(#[trigger] (a + b)[i]) by {
        if i < a.len() {
            assert((a + b)[i] == a[i]);
        } else {
            assert((a + b)[i] == b[i - a.len()]);
        }
    }
}

/// The lines of a branch whose test and statements render without line
/// breaks hold none.
pub proof fn lemma_branch_lines_are_plain(b: If, keyword: Seq<char>, pad: Seq<char>)
    requires
        plain(pad),
        plain(keyword),
        plain(render_expr(b.test, pad)),
        forall|j: int|
            0 <= j < b.statements@.len() ==> plain(
                #[trigger] render_statement(b.statements@[j], deeper(pad)),
            ),
    ensures
        all_plain(branch_lines(b, keyword, pad)),
{
    reveal_strlit(" then");
    let head = pad + keyword + render_expr(b.test, pad) + " then"@;
    lemma_plain_add(pad, keyword);
    lemma_plain_add(pad + keyword, render_expr(b.test, pad));
    lemma_plain_add(pad + keyword + render_expr(b.test, pad), " then"@);
    let body = body_lines(b.statements@, deeper(pad));
    assert(all_plain(seq![head]));
    assert forall|i: int| 0 <= i < body.len() implies plain(#[trigger] body[i]) by {
        if b.statements@.len() > 0 {
            assert(body[i] == render_statement(b.statements@[i], deeper(pad)));
        }
    }
    lemma_all_plain_add(seq![head], body);
}

/// The lines of the later branches of a flat cascade hold no line break.
pub proof fn lemma_elseif_lines_are_plain(
    branches: Seq<If>,
    otherwise: Seq<Statement>,
    upto: nat,
    pad: Seq<char>,
)
    requires
        1 <= upto <= branches.len(),
        flat(branches, otherwise, pad),
    ensures
        all_plain(elseif_lines(branches, upto, pad)),
    decreases upto,
{
    reveal_strlit("elseif ");
    if upto > 1 {
        lemma_elseif_lines_are_plain(branches, otherwise, (upto - 1) as nat, pad);
        let b = branches[upto - 1];
        assert(plain(render_expr(branches[upto - 1].test, pad)));
        assert forall|j: int| 0 <= j < b.statements@.len() implies plain(
            #[trigger] render_statement(b.statements@[j], deeper(pad)),
        ) by {
            assert(plain(render_statement(branches[upto - 1].statements@[j], deeper(pad))));
        }
        lemma_branch_lines_are_plain(b, "elseif "@, pad);
        lemma_all_plain_add(
            elseif_lines(branches, (upto - 1) as nat, pad),
            branch_lines(b, "elseif "@, pad),
        );
    }
}

/// The lines of a flat cascade hold no line break.
pub proof fn lemma_flat_lines_are_plain(
    branches: Seq<If>,
    otherwise: Seq<Statement>,
    pad: Seq<char>,
)
    requires
        branches.len() >= 1,
        flat(branches, otherwise, pad),
    ensures
        all_plain(cascade_lines(branches, otherwise, pad)),
{
    reveal_strlit("if ");
    reveal_strlit("else");
    reveal_strlit("end");
    let b = branches[0];
    assert(plain(render_expr(branches[0].test, pad)));
    assert forall|j: int| 0 <= j < b.statements@.len() implies plain(
        #[trigger] render_statement(b.statements@[j], deeper(pad)),
    ) by {
        assert(plain(render_statement(branches[0].statements@[j], deeper(pad))));
    }
    lemma_branch_lines_are_plain(b, "if "@, pad);
    lemma_elseif_lines_are_plain(branches, otherwise, branches.len(), pad);
    let first = branch_lines(b, "if "@, pad);
    let later = elseif_lines(branches, branches.len(), pad);
    let last = else_lines(otherwise, pad);
    lemma_plain_add(pad, "else"@);
    lemma_plain_add(pad, "end"@);
    assert forall|i: int| 0 <= i < last.len() implies plain(#[trigger] last[i]) by {
        if i > 0 {
            assert(last[i] == render_statement(otherwise[i - 1], deeper(pad)));
        }
    }
    assert(all_plain(seq![pad + "end"@]));
    lemma_all_plain_add(first, later);
    lemma_all_plain_add(first + later, last);
    lemma_all_plain_add(first + later + last, seq![pad + "end"@]);
}

/// The lines of a cascade, line by line. The text of a cascade with a
/// line break after it is its lines, each with a line break after it.
/// Among them exactly one closes the cascade, and it is the last; exactly
/// one opens it, and it is the first; and exactly one for each later
/// branch opens that branch. Where the cascade is flat, no line holds a
/// line break, so that these are the lines of the text.
pub proof fn lemma_cascade_line_by_line(
    if_statements: Vec<If>,
    else_statement: Vec<Statement>,
    pad: Seq<char>,
)
    requires
        if_statements@.len() >= 1,
    ensures
        render_statement(Statement::If { if_statements, else_statement }, pad) + seq!['\n']
            == terminated(cascade_lines(if_statements@, else_statement@, pad)),
        cascade_lines(if_statements@, else_statement@, pad).last() == pad + "end"@,
        starts_with(cascade_lines(if_statements@, else_statement@, pad)[0], pad + "if "@),
        count_where(cascade_lines(if_statements@, else_statement@, pad), closes(pad)) == 1,
        count_where(cascade_lines(if_statements@, else_statement@, pad), opens_if(pad)) == 1,
        count_where(cascade_lines(if_statements@, else_statement@, pad), opens_elseif(pad))
            == if_statements@.len() - 1,
        flat(if_statements@, else_statement@, pad) ==> all_plain(
            cascade_lines(if_statements@, else_statement@, pad),
        ),
{
    let branches = if_statements@;
    let otherwise = else_statement@;
    let first = branch_lines(branches[0], "if "@, pad);
    let later = elseif_lines(branches, branches.len(), pad);
    let last = else_lines(otherwise, pad);
    let closer = pad + "end"@;
    let lines = cascade_lines(branches, otherwise, pad);
    lemma_cascade_text(if_statements, else_statement, pad);
    lemma_first_branch_counts(branches[0], pad);
    lemma_elseif_counts(branches, branches.len(), pad);
    lemma_else_counts(otherwise, pad);
    reveal_strlit("end");
    reveal_strlit("if ");
    reveal_strlit("elseif ");
    if starts_with(closer, pad + "if "@) {
        assert(closer.subrange(0, (pad + "if "@).len() as int)[pad.len() as int] == 'i');
        assert(closer[pad.len() as int] == 'e');
    }
    lemma_count_one(closer, closes(pad));
    lemma_count_one(closer, opens_if(pad));
    lemma_count_one(closer, opens_elseif(pad));
    lemma_count_add(first, later, closes(pad));
    lemma_count_add(first, later, opens_if(pad));
    lemma_count_add(first, later, opens_elseif(pad));
    lemma_count_add(first + later, last, closes(pad));
    lemma_count_add(first + later, last, opens_if(pad));
    lemma_count_add(first + later, last, opens_elseif(pad));
    lemma_count_add(first + later + last, seq![closer], closes(pad));
    lemma_count_add(first + later + last, seq![closer], opens_if(pad));
    lemma_count_add(first + later + last, seq![closer], opens_elseif(pad));
    let head = pad + "if "@ + render_expr(branches[0].test, pad) + " then"@;
    assert(lines[0] == head);
    assert(head.subrange(0, (pad + "if "@).len() as int) =~= pad + "if "@);
    if flat(branches, otherwise, pad) {
        lemma_flat_lines_are_plain(branches, otherwise, pad);
    }
}

} // verus!
