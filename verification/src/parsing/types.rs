//! The grammar of types: `()`, `(T, ...)`, `fun(T, ...) -> T`, `T`,
//! `T<T, ...>` and `ns::T`.

use vstd::prelude::*;
use crate::parsing::ast::{PSym, Type};
use crate::parsing::combinators::{spec_choice, spec_list, spec_many};
use crate::parsing::input::{attempted, parsed, steady, Input};
use crate::parsing::laws::{lemma_type_is_wide, tuples_are_wide};
use crate::parsing::lexical::{nowhere, spec_expect, spec_symbol, Outcome};
use crate::parsing::parse_error::ParseError;
use crate::parsing::view::{group_views, type_views, views, PSymView, TypeView};

verus! {

broadcast use group_views;

/// The forms of a type, in the order in which they are tried.
#[derive(Clone, Copy)]
pub enum TypeRule {
    /// `(` types `)`
    Tuple,
    /// `fun (` types `) ->` type
    Fun,
    /// A name, with an optional path before it and optional type
    /// arguments after it.
    Named,
}

/// The forms of a type in the order in which they are tried.
pub open spec fn type_rules() -> Seq<TypeRule> {
    seq![TypeRule::Tuple, TypeRule::Fun, TypeRule::Named]
}

/// What the types between parentheses stand for: none is the unit type,
/// one is that type itself, two or more are a tuple.
pub open spec fn collapse(items: Seq<TypeView>) -> TypeView {
    if items.len() == 0 {
        TypeView::Unit
    } else if items.len() == 1 {
        items[0]
    } else {
        TypeView::Tuple(items)
    }
}

/// One segment of a path: a symbol and the `::` after it.
pub open spec fn spec_path_segment(text: Seq<char>, pos: nat) -> Outcome<PSymView> {
    match spec_symbol(text, pos) {
        Outcome::Fail { error } => Outcome::Fail { error },
        Outcome::Match { value, next: after_symbol } => match spec_expect(
            text,
            after_symbol,
            "::"@,
        ) {
            Outcome::Fail { error } => Outcome::Fail { error },
            Outcome::Match { value: _, next } => Outcome::Match { value, next },
        },
    }
}

/// A type: the first of the forms of `type_rules` that matches.
pub open spec fn spec_type(text: Seq<char>, pos: nat) -> Outcome<TypeView>
    decreases text.len() - pos, 5nat,
{
    spec_choice(|rule: TypeRule| spec_type_form(text, pos, rule), type_rules(), pos)
}

/// A type of the form `rule`.
pub open spec fn spec_type_form(text: Seq<char>, pos: nat, rule: TypeRule) -> Outcome<TypeView>
    decreases text.len() - pos, 4nat,
{
    match rule {
        TypeRule::Tuple => spec_tuple_type(text, pos),
        TypeRule::Fun => spec_fun_type(text, pos),
        TypeRule::Named => spec_named_type(text, pos),
    }
}

/// A comma-separated list of types that stands after `pos`.
pub open spec fn spec_type_list(text: Seq<char>, pos: nat, from: nat) -> (Seq<TypeView>, nat)
    decreases text.len() - pos, 1nat,
{
    spec_list(
        |p: nat|
            if pos < p <= text.len() {
                spec_type(text, p)
            } else {
                nowhere()
            },
        text,
        from,
    )
}

/// `(` types `)`, collapsed: see [`collapse`].
pub open spec fn spec_tuple_type(text: Seq<char>, pos: nat) -> Outcome<TypeView>
    decreases text.len() - pos, 3nat,
{
    match spec_expect(text, pos, "("@) {
        Outcome::Fail { error } => Outcome::Fail { error },
        Outcome::Match { value: _, next: p1 } => {
            let items = spec_type_list(text, pos, p1);
            match spec_expect(text, items.1, ")"@) {
                Outcome::Fail { error } => Outcome::Fail { error },
                Outcome::Match { value: _, next } => Outcome::Match {
                    value: collapse(items.0),
                    next,
                },
            }
        },
    }
}

/// `fun (` types `) ->` type. The output is a whole type, so arrows nest
/// to the right.
pub open spec fn spec_fun_type(text: Seq<char>, pos: nat) -> Outcome<TypeView>
    decreases text.len() - pos, 3nat,
{
    match spec_expect(text, pos, "fun"@) {
        Outcome::Fail { error } => Outcome::Fail { error },
        Outcome::Match { value: _, next: p1 } => match spec_expect(text, p1, "("@) {
            Outcome::Fail { error } => Outcome::Fail { error },
            Outcome::Match { value: _, next: p2 } => {
                let input = spec_type_list(text, pos, p2);
                match spec_expect(text, input.1, ")"@) {
                    Outcome::Fail { error } => Outcome::Fail { error },
                    Outcome::Match { value: _, next: p3 } => match spec_expect(text, p3, "->"@) {
                        Outcome::Fail { error } => Outcome::Fail { error },
                        Outcome::Match { value: _, next: p4 } => if pos < p4 <= text.len() {
                            match spec_type(text, p4) {
                                Outcome::Fail { error } => Outcome::Fail { error },
                                Outcome::Match { value: output, next } => Outcome::Match {
                                    value: TypeView::Fun {
                                        input: input.0,
                                        output: Box::new(output),
                                    },
                                    next,
                                },
                            }
                        } else {
                            nowhere()
                        },
                    },
                }
            },
        },
    }
}

/// The type arguments of a name: `<` types `>`.
pub open spec fn spec_type_args(text: Seq<char>, pos: nat, from: nat) -> Outcome<Seq<TypeView>>
    decreases text.len() - pos, 2nat,
{
    match spec_expect(text, from, "<"@) {
        Outcome::Fail { error } => Outcome::Fail { error },
        Outcome::Match { value: _, next: p1 } => {
            let args = spec_type_list(text, pos, p1);
            match spec_expect(text, args.1, ">"@) {
                Outcome::Fail { error } => Outcome::Fail { error },
                Outcome::Match { value: _, next } => Outcome::Match { value: args.0, next },
            }
        },
    }
}

/// A named type: the segments of a path, a name, and optional type
/// arguments. A name alone is `Simple`, a name with arguments is `Index`,
/// and a path before either wraps it in `Namespace`.
pub open spec fn spec_named_type(text: Seq<char>, pos: nat) -> Outcome<TypeView>
    decreases text.len() - pos, 3nat,
{
    let path = spec_many(|p: nat| spec_path_segment(text, p), text.len(), pos);
    match spec_symbol(text, path.1) {
        Outcome::Fail { error } => Outcome::Fail { error },
        Outcome::Match { value: name, next: after_name } => {
            let (inner, next) = match spec_type_args(text, pos, after_name) {
                Outcome::Match { value: args, next } => (TypeView::Index(name, args), next),
                Outcome::Fail { .. } => (TypeView::Simple(name), after_name),
            };
            if path.0.len() == 0 {
                Outcome::Match { value: inner, next }
            } else {
                Outcome::Match { value: TypeView::Namespace(path.0, Box::new(inner)), next }
            }
        },
    }
}

/// The type that the types between parentheses stand for: none is the
/// unit type, one is that type itself, two or more are a tuple.
pub fn collapse_tuple(items: Vec<Type>) -> (t: Type)
    ensures
        t@ == collapse(views(items@)),
{
    let mut items = items;
    let ghost before = items@;
    if items.len() == 0 {
        Type::Unit
    } else if items.len() == 1 {
        let only = items.pop().unwrap();
        assert(only == before[0]);
        assert(only@ == views(before)[0]);
        only
    } else {
        let t = Type::Tuple(items);
        assert(t@ == TypeView::Tuple(type_views(before)));
        assert(type_views(before) == views(before));
        t
    }
}

fn path_segment_body<'a>(input: &mut Input<'a>) -> (r: Result<PSym, ParseError>)
    ensures
        attempted(
            *old(input),
            *final(input),
            r,
            spec_path_segment(old(input).text(), old(input).position()),
        ),
{
    let name = input.parse_symbol()?;
    input.expect("::")?;
    Ok(name)
}

/// Parses one segment of a path: a symbol and the `::` after it.
pub fn parse_path_segment<'a>(input: &mut Input<'a>) -> (r: Result<PSym, ParseError>)
    ensures
        parsed(
            *old(input),
            *final(input),
            r,
            spec_path_segment(old(input).text(), old(input).position()),
        ),
{
    let rp = input.create_restore();
    let r = path_segment_body(input);
    input.settle(rp, r)
}

/// Parses a comma-separated list of types; `origin` is where the form that
/// holds the list began, before the cursor.
fn parse_type_list<'a>(input: &mut Input<'a>, Ghost(origin): Ghost<nat>) -> (r: Vec<Type>)
    requires
        origin < old(input).position() <= old(input).text().len(),
    ensures
        steady(*old(input), *final(input)),
        (views(r@), final(input).position()) == spec_type_list(
            old(input).text(),
            origin,
            old(input).position(),
        ),
    decreases old(input).text().len() - origin, 1nat,
{
    let ghost text = input.text();
    let ghost from = input.position();
    let gtext: Ghost<Seq<char>> = Ghost(text);
    let gorigin: Ghost<nat> = Ghost(origin);
    let ghost sem = |p: nat|
        if origin < p <= text.len() {
            spec_type(text, p)
        } else {
            nowhere()
        };
    let gsem: Ghost<spec_fn(nat) -> Outcome<TypeView>> = Ghost(sem);
    let item = |i: &mut Input<'a>| -> (r: Result<Type, ParseError>)
        requires
            old(i).text() == gtext@,
            gorigin@ < old(i).position() <= gtext@.len(),
        ensures
            parsed(*old(i), *final(i), r, (gsem@)(old(i).position())),
        { parse_type(i) };
    let r = input.list(item);
    assert(spec_list(sem, text, from) == (views(r->Ok_0@), input.position()));
    match r {
        Ok(items) => items,
        Err(_) => Vec::new(),
    }
}

fn tuple_type_body<'a>(input: &mut Input<'a>) -> (r: Result<Type, ParseError>)
    ensures
        attempted(
            *old(input),
            *final(input),
            r,
            spec_tuple_type(old(input).text(), old(input).position()),
        ),
    decreases old(input).text().len() - old(input).position(), 2nat,
{
    let ghost pos = input.position();
    proof {
        reveal_strlit("(");
    }
    input.expect("(")?;
    let items = parse_type_list(input, Ghost(pos));
    input.expect(")")?;
    Ok(collapse_tuple(items))
}

fn fun_type_body<'a>(input: &mut Input<'a>) -> (r: Result<Type, ParseError>)
    ensures
        attempted(
            *old(input),
            *final(input),
            r,
            spec_fun_type(old(input).text(), old(input).position()),
        ),
    decreases old(input).text().len() - old(input).position(), 2nat,
{
    let ghost pos = input.position();
    proof {
        reveal_strlit("fun");
    }
    input.expect("fun")?;
    input.expect("(")?;
    let args = parse_type_list(input, Ghost(pos));
    input.expect(")")?;
    input.expect("->")?;
    let output = parse_type(input)?;
    let ghost args_seq = args@;
    let ghost output_view = output@;
    let t = Type::Fun { input: args, output: Box::new(output) };
    assert(t@ == TypeView::Fun { input: views(args_seq), output: Box::new(output_view) }) by {
        assert(t@->Fun_input == type_views(args_seq));
        assert(type_views(args_seq) == views(args_seq));
    }
    Ok(t)
}

fn type_args_body<'a>(input: &mut Input<'a>, Ghost(origin): Ghost<nat>) -> (r: Result<
    Vec<Type>,
    ParseError,
>)
    requires
        origin < old(input).position() <= old(input).text().len(),
    ensures
        steady(*old(input), *final(input)),
        match spec_type_args(old(input).text(), origin, old(input).position()) {
            Outcome::Match { value, next } => r is Ok && views(r->Ok_0@) == value
                && final(input).position() == next,
            Outcome::Fail { error } => r is Err,
        },
    decreases old(input).text().len() - origin, 2nat,
{
    input.expect("<")?;
    let args = parse_type_list(input, Ghost(origin));
    input.expect(">")?;
    Ok(args)
}

fn named_type_body<'a>(input: &mut Input<'a>) -> (r: Result<Type, ParseError>)
    ensures
        attempted(
            *old(input),
            *final(input),
            r,
            spec_named_type(old(input).text(), old(input).position()),
        ),
    decreases old(input).text().len() - old(input).position(), 3nat,
{
    let ghost text = input.text();
    let ghost pos = input.position();
    let segment = |i: &mut Input<'a>| -> (r: Result<PSym, ParseError>)
        ensures
            parsed(*old(i), *final(i), r, spec_path_segment(old(i).text(), old(i).position())),
        { parse_path_segment(i) };
    let path = input.zero_or_more(segment)?;
    proof {
        let sem = |p: nat| spec_path_segment(text, p);
        assert(spec_many(sem, text.len(), pos) == (views(path@), input.position()));
    }
    let name = input.parse_symbol()?;
    let rp = input.create_restore();
    let tried = type_args_body(input, Ghost(pos));
    let ghost name_view = name@;
    let inner = match tried {
        Ok(args) => {
            let ghost args_seq = args@;
            let t = Type::Index(name, args);
            assert(t@ == TypeView::Index(name_view, views(args_seq))) by {
                assert(t@->Index_1 == type_views(args_seq));
                assert(type_views(args_seq) == views(args_seq));
            }
            t
        },
        Err(_) => {
            input.restore(rp);
            Type::Simple(name)
        },
    };
    if path.len() == 0 {
        Ok(inner)
    } else {
        let ghost path_view = views(path@);
        let ghost inner_view = inner@;
        let t = Type::Namespace(path, Box::new(inner));
        assert(t@ == TypeView::Namespace(path_view, Box::new(inner_view)));
        Ok(t)
    }
}

/// Parses a type of the form `rule`.
pub fn parse_type_form<'a>(input: &mut Input<'a>, rule: &TypeRule) -> (r: Result<Type, ParseError>)
    ensures
        parsed(
            *old(input),
            *final(input),
            r,
            spec_type_form(old(input).text(), old(input).position(), *rule),
        ),
    decreases old(input).text().len() - old(input).position(), 4nat,
{
    let rp = input.create_restore();
    let r = match rule {
        TypeRule::Tuple => tuple_type_body(input),
        TypeRule::Fun => fun_type_body(input),
        TypeRule::Named => named_type_body(input),
    };
    input.settle(rp, r)
}

/// Parses a type. The forms are tried in the order of [`type_rules`]: the
/// parenthesized form, the function form, then the named form.
pub fn parse_type<'a>(input: &mut Input<'a>) -> (r: Result<Type, ParseError>)
    ensures
        parsed(*old(input), *final(input), r, spec_type(old(input).text(), old(input).position())),
        r is Ok ==> tuples_are_wide(r->Ok_0@),
    decreases old(input).text().len() - old(input).position(), 5nat,
{
    let ghost text = input.text();
    let ghost pos = input.position();
    let gtext: Ghost<Seq<char>> = Ghost(text);
    let gpos: Ghost<nat> = Ghost(pos);
    let rules = [TypeRule::Tuple, TypeRule::Fun, TypeRule::Named];
    let form = |i: &mut Input<'a>, rule: &TypeRule| -> (r: Result<Type, ParseError>)
        requires
            old(i).text() == gtext@,
            old(i).position() == gpos@,
        ensures
            parsed(*old(i), *final(i), r, spec_type_form(gtext@, gpos@, *rule)),
        { parse_type_form(i, rule) };
    let r = input.choice(rules.as_slice(), form);
    proof {
        let sem = |rule: TypeRule| spec_type_form(text, pos, rule);
        assert(rules@ =~= type_rules());
        assert(parsed(*old(input), *input, r, spec_choice(sem, rules@, pos)));
        lemma_type_is_wide(text, pos);
    }
    r
}

} // verus!
