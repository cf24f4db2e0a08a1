//! Laws of the grammar: what holds of every text, proved from the
//! definitions of the grammar.

use vstd::prelude::*;
use crate::parsing::combinators::{
    after_comma, choice_from, comma_sem, spec_choice, spec_list, spec_many,
};
use crate::parsing::grammar::{spec_expr, spec_expr_list, spec_post_expr, spec_primary};
use crate::parsing::lexical::{
    lemma_skip_trivia_bounds, nowhere, spec_expect, spec_symbol, Outcome,
};
use crate::parsing::types::{
    collapse, spec_fun_type, spec_named_type, spec_path_segment, spec_tuple_type, spec_type,
    spec_type_args, spec_type_form, spec_type_list, type_rules, TypeRule,
};
use crate::parsing::view::{ExprView, TypeView};

verus! {

/// A literal that matches ends within the text, after the position it was
/// looked for at, by at least its length.
pub proof fn lemma_expect_advances(text: Seq<char>, pos: nat, literal: Seq<char>)
    requires
        pos <= text.len(),
        spec_expect(text, pos, literal) is Match,
    ensures
        pos + literal.len() <= spec_expect(text, pos, literal)->next <= text.len(),
{
    reveal(spec_expect);
    lemma_skip_trivia_bounds(text, pos);
}

/// What stands between parentheses collapses by the number of types:
/// none is the unit type, one is that type itself, and only two or more
/// make a tuple.
pub proof fn lemma_collapse(items: Seq<TypeView>)
    ensures
        items.len() == 0 ==> collapse(items) == TypeView::Unit,
        items.len() == 1 ==> collapse(items) == items[0],
        items.len() >= 2 ==> collapse(items) == TypeView::Tuple(items),
        collapse(items) is Tuple && items.len() < 2 ==> items.len() == 1 && items[0] is Tuple,
{
}

/// A type in parentheses is that type: where `(`, one type, no `,` and
/// `)` stand at `pos`, the type at `pos` is the tree of the type between
/// the parentheses.
pub proof fn lemma_parenthesized_type(text: Seq<char>, pos: nat)
    requires
        pos <= text.len(),
        spec_expect(text, pos, "("@) is Match,
        spec_type(text, spec_expect(text, pos, "("@)->next) is Match,
        spec_expect(text, spec_type(text, spec_expect(text, pos, "("@)->next)->next, ","@) is Fail,
        spec_expect(text, spec_type(text, spec_expect(text, pos, "("@)->next)->next, ")"@)
            is Match,
    ensures
        spec_type(text, pos) == (Outcome::Match {
            value: spec_type(text, spec_expect(text, pos, "("@)->next)->value,
            next: spec_expect(
                text,
                spec_type(text, spec_expect(text, pos, "("@)->next)->next,
                ")"@,
            )->next,
        }),
{
    let p1 = spec_expect(text, pos, "("@)->next;
    let inner = spec_type(text, p1)->value;
    let p2 = spec_type(text, p1)->next;
    reveal_strlit("(");
    lemma_expect_advances(text, pos, "("@);
    let sem = |p: nat|
        if pos < p <= text.len() {
            spec_type(text, p)
        } else {
            nowhere()
        };
    assert(sem(p1) == spec_type(text, p1));
    assert(comma_sem(sem, text)(p2) == after_comma(sem, text, p2));
    assert(spec_many(comma_sem(sem, text), text.len(), p2) == (Seq::<TypeView>::empty(), p2));
    assert(spec_list(sem, text, p1).0 =~= seq![inner]);
    assert(spec_type_list(text, pos, p1) == (seq![inner], p2));
    assert(spec_tuple_type(text, pos) is Match);
    assert(spec_tuple_type(text, pos)->value == inner);
    let forms = |rule: TypeRule| spec_type_form(text, pos, rule);
    assert(type_rules()[0] == TypeRule::Tuple);
    assert(forms(TypeRule::Tuple) == spec_tuple_type(text, pos));
    assert(spec_type(text, pos) == spec_choice(forms, type_rules(), pos));
}

/// Arrows nest to the right: the output of a function type is the whole
/// type that stands after its `->`, which may be a function type itself.
pub proof fn lemma_arrow_output_is_a_whole_type(text: Seq<char>, pos: nat)
    requires
        pos <= text.len(),
        spec_fun_type(text, pos) is Match,
    ensures
        ({
            let p1 = spec_expect(text, pos, "fun"@)->next;
            let p2 = spec_expect(text, p1, "("@)->next;
            let input = spec_type_list(text, pos, p2);
            let p3 = spec_expect(text, input.1, ")"@)->next;
            let p4 = spec_expect(text, p3, "->"@)->next;
            &&& spec_type(text, p4) is Match
            &&& spec_fun_type(text, pos) == (Outcome::Match {
                value: TypeView::Fun {
                    input: input.0,
                    output: Box::new(spec_type(text, p4)->value),
                },
                next: spec_type(text, p4)->next,
            })
        }),
{
}

/// A repetition that starts within the text ends within it, not before
/// where it started.
pub proof fn lemma_many_bounds<V>(sem: spec_fn(nat) -> Outcome<V>, len: nat, pos: nat)
    requires
        pos <= len,
    ensures
        pos <= spec_many(sem, len, pos).1 <= len,
    decreases len - pos,
{
    match sem(pos) {
        Outcome::Match { value, next } => {
            if pos < next <= len {
                lemma_many_bounds(sem, len, next);
            }
        },
        Outcome::Fail { .. } => {},
    }
}

/// The postfix operators of an expression end within the text, not
/// before where they started.
pub proof fn lemma_post_expr_bounds(text: Seq<char>, pos: nat, e: ExprView)
    requires
        pos <= text.len(),
        spec_post_expr(text, pos, e) is Match,
    ensures
        pos <= spec_post_expr(text, pos, e)->next <= text.len(),
    decreases text.len() - pos,
{
    match spec_expect(text, pos, "-"@) {
        Outcome::Match { value: _, next: p1 } => match spec_symbol(text, p1) {
            Outcome::Fail { .. } => {},
            Outcome::Match { value: func, next } => {
                if pos < next <= text.len() {
                    lemma_post_expr_bounds(
                        text,
                        next,
                        ExprView::Dash { object: Box::new(e), func },
                    );
                }
            },
        },
        Outcome::Fail { .. } => match spec_expect(text, pos, "."@) {
            Outcome::Match { value: _, next: p1 } => match spec_symbol(text, p1) {
                Outcome::Fail { .. } => {},
                Outcome::Match { value: slot, next } => {
                    if pos < next <= text.len() {
                        lemma_post_expr_bounds(
                            text,
                            next,
                            ExprView::Dot { object: Box::new(e), slot },
                        );
                    }
                },
            },
            Outcome::Fail { .. } => match spec_expect(text, pos, "("@) {
                Outcome::Match { value: _, next: p1 } => {
                    let params = spec_expr_list(text, pos, p1);
                    match spec_expect(text, params.1, ")"@) {
                        Outcome::Fail { .. } => {},
                        Outcome::Match { value: _, next } => {
                            if pos < next <= text.len() {
                                lemma_post_expr_bounds(
                                    text,
                                    next,
                                    ExprView::Call { func: Box::new(e), params: params.0 },
                                );
                            }
                        },
                    }
                },
                Outcome::Fail { .. } => match spec_expect(text, pos, "?"@) {
                    Outcome::Match { value: _, next } => {
                        if pos < next <= text.len() {
                            lemma_post_expr_bounds(text, next, ExprView::Try(Box::new(e)));
                        }
                    },
                    Outcome::Fail { .. } => {},
                },
            },
        },
    }
}

/// An expression ends within the text, not before where it started.
pub proof fn lemma_expr_bounds(text: Seq<char>, pos: nat)
    requires
        pos <= text.len(),
        spec_expr(text, pos) is Match,
    ensures
        pos <= spec_expr(text, pos)->next <= text.len(),
{
    match spec_primary(text, pos) {
        Outcome::Fail { .. } => {},
        Outcome::Match { value, next } => {
            if pos <= next <= text.len() {
                lemma_post_expr_bounds(text, next, value);
            }
        },
    }
}

/// A list of expressions after `origin` ends within the text, not before
/// where it started.
pub proof fn lemma_expr_list_bounds(text: Seq<char>, origin: nat, from: nat)
    requires
        origin < from <= text.len(),
    ensures
        from <= spec_expr_list(text, origin, from).1 <= text.len(),
{
    let sem = choose|sem: spec_fn(nat) -> Outcome<ExprView>|
        (#[trigger] spec_list(sem, text, from)) == spec_expr_list(text, origin, from) && sem(from)
            == spec_expr(text, from);
    match sem(from) {
        Outcome::Match { value, next } => {
            lemma_expr_bounds(text, from);
            lemma_many_bounds(comma_sem(sem, text), text.len(), next);
        },
        Outcome::Fail { .. } => {},
    }
}

/// Postfix operators chain to the left: an argument list after the
/// expression `e` built so far makes a call of all of `e`, and what
/// follows applies to that call.
pub proof fn lemma_call_applies_to_all_before(text: Seq<char>, pos: nat, e: ExprView)
    requires
        pos <= text.len(),
        spec_expect(text, pos, "-"@) is Fail,
        spec_expect(text, pos, "."@) is Fail,
        spec_expect(text, pos, "("@) is Match,
        spec_expect(
            text,
            spec_expr_list(text, pos, spec_expect(text, pos, "("@)->next).1,
            ")"@,
        ) is Match,
    ensures
        ({
            let args = spec_expr_list(text, pos, spec_expect(text, pos, "("@)->next);
            let after = spec_expect(text, args.1, ")"@)->next;
            spec_post_expr(text, pos, e) == spec_post_expr(
                text,
                after,
                ExprView::Call { func: Box::new(e), params: args.0 },
            )
        }),
{
    let p1 = spec_expect(text, pos, "("@)->next;
    let args = spec_expr_list(text, pos, p1);
    reveal_strlit("(");
    reveal_strlit(")");
    lemma_expect_advances(text, pos, "("@);
    lemma_expr_list_bounds(text, pos, p1);
    lemma_expect_advances(text, args.1, ")"@);
}

/// Where every match of `sem` has the property `holds`, every item of a
/// repetition of `sem` has it.
pub proof fn lemma_many_all<V>(
    sem: spec_fn(nat) -> Outcome<V>,
    len: nat,
    pos: nat,
    holds: spec_fn(V) -> bool,
)
    requires
        forall|p: nat| (#[trigger] sem(p)) is Match ==> holds(sem(p)->value),
    ensures
        forall|i: int|
            0 <= i < spec_many(sem, len, pos).0.len() ==> holds(
                #[trigger] spec_many(sem, len, pos).0[i],
            ),
    decreases len - pos,
{
    match sem(pos) {
        Outcome::Match { value, next } => {
            if pos < next <= len {
                lemma_many_all(sem, len, next, holds);
                assert(holds(sem(pos)->value));
                let rest = spec_many(sem, len, next).0;
                let all = spec_many(sem, len, pos).0;
                assert(all == seq![value] + rest);
                assert forall|i: int| 0 <= i < all.len() implies holds(#[trigger] all[i]) by {
                    if i > 0 {
                        assert(all[i] == rest[i - 1]);
                    }
                }
            }
        },
        Outcome::Fail { .. } => {},
    }
}

/// Where every match of `sem` has the property `holds`, every item of a
/// list of `sem` has it.
pub proof fn lemma_list_all<V>(
    sem: spec_fn(nat) -> Outcome<V>,
    text: Seq<char>,
    pos: nat,
    holds: spec_fn(V) -> bool,
)
    requires
        forall|p: nat| (#[trigger] sem(p)) is Match ==> holds(sem(p)->value),
    ensures
        forall|i: int|
            0 <= i < spec_list(sem, text, pos).0.len() ==> holds(
                #[trigger] spec_list(sem, text, pos).0[i],
            ),
{
    match sem(pos) {
        Outcome::Match { value, next } => {
            let later = comma_sem(sem, text);
            assert forall|p: nat| (#[trigger] later(p)) is Match implies holds(
                later(p)->value,
            ) by {
                match spec_expect(text, p, ","@) {
                    Outcome::Match { value: _, next: q } => {
                        assert(later(p) == sem(q));
                    },
                    Outcome::Fail { .. } => {},
                }
            }
            lemma_many_all(later, text.len(), next, holds);
            assert(holds(sem(pos)->value));
            let rest = spec_many(later, text.len(), next).0;
            let all = spec_list(sem, text, pos).0;
            assert(all == seq![value] + rest);
            assert forall|i: int| 0 <= i < all.len() implies holds(#[trigger] all[i]) by {
                if i > 0 {
                    assert(all[i] == rest[i - 1]);
                }
            }
        },
        Outcome::Fail { .. } => {},
    }
}

/// Where every match of `sem` has the property `holds`, the match of a
/// choice has it.
pub proof fn lemma_choice_all<R, V>(
    sem: spec_fn(R) -> Outcome<V>,
    alternatives: Seq<R>,
    i: nat,
    fallback: crate::parsing::parse_error::ErrorView,
    holds: spec_fn(V) -> bool,
)
    requires
        forall|rule: R| (#[trigger] sem(rule)) is Match ==> holds(sem(rule)->value),
    ensures
        choice_from(sem, alternatives, i, fallback) is Match ==> holds(
            choice_from(sem, alternatives, i, fallback)->value,
        ),
    decreases alternatives.len() - i,
{
    if i < alternatives.len() {
        match sem(alternatives[i as int]) {
            Outcome::Match { .. } => {},
            Outcome::Fail { error } => {
                lemma_choice_all(sem, alternatives, i + 1, error, holds);
            },
        }
    }
}

/// Every tuple in `t` has two or more items.
pub open spec fn tuples_are_wide(t: TypeView) -> bool
    decreases t,
{
    match t {
        TypeView::Unit | TypeView::Simple(_) | TypeView::Infer => true,
        TypeView::Index(_, args) => forall|i: int|
            0 <= i < args.len() ==> tuples_are_wide(#[trigger] args[i]),
        TypeView::Fun { input, output } => {
            &&& forall|i: int| 0 <= i < input.len() ==> tuples_are_wide(#[trigger] input[i])
            &&& tuples_are_wide(*output)
        },
        TypeView::Tuple(items) => {
            &&& items.len() >= 2
            &&& forall|i: int| 0 <= i < items.len() ==> tuples_are_wide(#[trigger] items[i])
        },
        TypeView::Namespace(_, inner) => tuples_are_wide(*inner),
    }
}

/// The types of a list after `origin` hold no tuple of fewer than two
/// items.
proof fn lemma_type_list_is_wide(text: Seq<char>, origin: nat, from: nat)
    requires
        origin <= text.len(),
    ensures
        forall|i: int|
            0 <= i < spec_type_list(text, origin, from).0.len() ==> tuples_are_wide(
                #[trigger] spec_type_list(text, origin, from).0[i],
            ),
    decreases text.len() - origin, 1nat,
{
    let sem = choose|sem: spec_fn(nat) -> Outcome<TypeView>|
        (#[trigger] spec_list(sem, text, from)) == spec_type_list(text, origin, from) && forall|
            p: nat,
        |
            (#[trigger] sem(p)) == if origin < p <= text.len() {
                spec_type(text, p)
            } else {
                nowhere()
            };
    let holds = |t: TypeView| tuples_are_wide(t);
    assert forall|p: nat| (#[trigger] sem(p)) is Match implies holds(sem(p)->value) by {
        if origin < p <= text.len() {
            lemma_type_is_wide(text, p);
        }
    }
    lemma_list_all(sem, text, from, holds);
}

/// A type of any form holds no tuple of fewer than two items.
proof fn lemma_type_form_is_wide(text: Seq<char>, pos: nat, rule: TypeRule)
    requires
        pos <= text.len(),
    ensures
        spec_type_form(text, pos, rule) is Match ==> tuples_are_wide(
            spec_type_form(text, pos, rule)->value,
        ),
    decreases text.len() - pos, 4nat,
{
    match rule {
        TypeRule::Tuple => {
            if spec_tuple_type(text, pos) is Match {
                let p1 = spec_expect(text, pos, "("@)->next;
                let items = spec_type_list(text, pos, p1).0;
                lemma_type_list_is_wide(text, pos, p1);
                assert(spec_tuple_type(text, pos)->value == collapse(items));
                if items.len() == 1 {
                    assert(tuples_are_wide(items[0]));
                }
            }
        },
        TypeRule::Fun => {
            if spec_fun_type(text, pos) is Match {
                let p1 = spec_expect(text, pos, "fun"@)->next;
                let p2 = spec_expect(text, p1, "("@)->next;
                let input = spec_type_list(text, pos, p2);
                let p3 = spec_expect(text, input.1, ")"@)->next;
                let p4 = spec_expect(text, p3, "->"@)->next;
                lemma_type_list_is_wide(text, pos, p2);
                lemma_type_is_wide(text, p4);
            }
        },
        TypeRule::Named => {
            let path = spec_many(|p: nat| spec_path_segment(text, p), text.len(), pos);
            match spec_symbol(text, path.1) {
                Outcome::Fail { .. } => {},
                Outcome::Match { value: name, next: after_name } => {
                    let inner = match spec_type_args(text, pos, after_name) {
                        Outcome::Match { value: args, next } => TypeView::Index(name, args),
                        Outcome::Fail { .. } => TypeView::Simple(name),
                    };
                    if spec_type_args(text, pos, after_name) is Match {
                        let p1 = spec_expect(text, after_name, "<"@)->next;
                        lemma_type_list_is_wide(text, pos, p1);
                        assert(spec_type_args(text, pos, after_name)->value == spec_type_list(
                            text,
                            pos,
                            p1,
                        ).0);
                    }
                    assert(tuples_are_wide(inner));
                    assert(spec_named_type(text, pos)->value == if path.0.len() == 0 {
                        inner
                    } else {
                        TypeView::Namespace(path.0, Box::new(inner))
                    });
                },
            }
        },
    }
}

/// The invariant of parsed types: a type that the grammar finds holds no
/// tuple of fewer than two items, at any depth.
pub proof fn lemma_type_is_wide(text: Seq<char>, pos: nat)
    requires
        pos <= text.len(),
    ensures
        spec_type(text, pos) is Match ==> tuples_are_wide(spec_type(text, pos)->value),
    decreases text.len() - pos, 5nat,
{
    let forms = choose|forms: spec_fn(TypeRule) -> Outcome<TypeView>|
        (#[trigger] spec_choice(forms, type_rules(), pos)) == spec_type(text, pos) && forall|
            rule: TypeRule,
        |
            (#[trigger] forms(rule)) == spec_type_form(text, pos, rule);
    let holds = |t: TypeView| tuples_are_wide(t);
    assert forall|rule: TypeRule| (#[trigger] forms(rule)) is Match implies holds(
        forms(rule)->value,
    ) by {
        lemma_type_form_is_wide(text, pos, rule);
    }
    lemma_choice_all(
        forms,
        type_rules(),
        0,
        crate::parsing::parse_error::ErrorView::ErrorAt(pos, "Expected an alternative"@),
        holds,
    );
}

} // verus!
