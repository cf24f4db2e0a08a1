//! The items at the top level of a module: imports, and function, struct
//! and enum definitions with an optional `pub` before them.

use vstd::prelude::*;
use crate::parsing::ast::{EnumDef, FunDef, FunParam, PSym, StructDef, StructItem, TopLevel, Type};
use crate::parsing::combinators::{spec_list, spec_maybe};
use crate::parsing::grammar::spec_block;
use crate::parsing::input::{attempted, attempted_all, parsed, steady, Input};
use crate::parsing::lexical::{giving, spec_expect, spec_symbol, Outcome};
use crate::parsing::misc::spec_use;
use crate::parsing::parse_error::ParseError;
use crate::parsing::statement::parse_block;
use crate::parsing::types::{parse_type, spec_type};
use crate::parsing::view::{
    views, EnumDefView, FunDefView, FunParamView, PSymView, StructDefView, StructItemView,
    TopLevelView, TypeView,
};

verus! {

/// A name with its type: name `:` type. Parameters of functions and items
/// of structs have this shape.
pub open spec fn spec_typed_name(text: Seq<char>, pos: nat) -> Outcome<(PSymView, TypeView)> {
    match spec_symbol(text, pos) {
        Outcome::Fail { error } => Outcome::Fail { error },
        Outcome::Match { value: name, next: p1 } => match spec_expect(text, p1, ":"@) {
            Outcome::Fail { error } => Outcome::Fail { error },
            Outcome::Match { value: _, next: p2 } => match spec_type(text, p2) {
                Outcome::Fail { error } => Outcome::Fail { error },
                Outcome::Match { value, next } => Outcome::Match { value: (name, value), next },
            },
        },
    }
}

/// A parameter of a function definition: name `:` type.
pub open spec fn spec_fun_param(text: Seq<char>, pos: nat) -> Outcome<FunParamView> {
    match spec_typed_name(text, pos) {
        Outcome::Fail { error } => Outcome::Fail { error },
        Outcome::Match { value, next } => Outcome::Match {
            value: FunParamView { name: value.0, param_type: value.1 },
            next,
        },
    }
}

/// An item of a struct definition: name `:` type.
pub open spec fn spec_struct_item(text: Seq<char>, pos: nat) -> Outcome<StructItemView> {
    match spec_typed_name(text, pos) {
        Outcome::Fail { error } => Outcome::Fail { error },
        Outcome::Match { value, next } => Outcome::Match {
            value: StructItemView { name: value.0, item_type: value.1 },
            next,
        },
    }
}

/// The rest of a list of type parameters after its `<`: names and `>`.
pub open spec fn spec_type_params_rest(text: Seq<char>, pos: nat) -> Outcome<Seq<PSymView>> {
    let names = spec_list(|p: nat| spec_symbol(text, p), text, pos);
    giving(spec_expect(text, names.1, ">"@), names.0)
}

/// A list of type parameters: `<` names `>`.
pub open spec fn spec_type_params(text: Seq<char>, pos: nat) -> Outcome<Seq<PSymView>> {
    match spec_expect(text, pos, "<"@) {
        Outcome::Fail { error } => Outcome::Fail { error },
        Outcome::Match { value: _, next } => spec_type_params_rest(text, next),
    }
}

/// An enum definition: `enum` name `{` cases `}`.
pub open spec fn spec_enum_def(text: Seq<char>, pos: nat) -> Outcome<EnumDefView> {
    match spec_expect(text, pos, "enum"@) {
        Outcome::Fail { error } => Outcome::Fail { error },
        Outcome::Match { value: _, next: p1 } => match spec_symbol(text, p1) {
            Outcome::Fail { error } => Outcome::Fail { error },
            Outcome::Match { value: name, next: p2 } => match spec_expect(text, p2, "{"@) {
                Outcome::Fail { error } => Outcome::Fail { error },
                Outcome::Match { value: _, next: p3 } => {
                    let items = spec_list(|p: nat| spec_symbol(text, p), text, p3);
                    giving(
                        spec_expect(text, items.1, "}"@),
                        EnumDefView { name, items: items.0 },
                    )
                },
            },
        },
    }
}

/// A struct definition: `struct` name, optional type parameters, and the
/// items in braces. Type parameters that do not close with `>` count as
/// not there.
pub open spec fn spec_struct_def(text: Seq<char>, pos: nat) -> Outcome<StructDefView> {
    match spec_expect(text, pos, "struct"@) {
        Outcome::Fail { error } => Outcome::Fail { error },
        Outcome::Match { value: _, next: p1 } => match spec_symbol(text, p1) {
            Outcome::Fail { error } => Outcome::Fail { error },
            Outcome::Match { value: name, next: p2 } => {
                let params = spec_maybe(spec_type_params(text, p2), p2);
                let type_params = match params.0 {
                    Some(names) => names,
                    None => Seq::empty(),
                };
                match spec_expect(text, params.1, "{"@) {
                    Outcome::Fail { error } => Outcome::Fail { error },
                    Outcome::Match { value: _, next: p3 } => {
                        let items = spec_list(|p: nat| spec_struct_item(text, p), text, p3);
                        giving(
                            spec_expect(text, items.1, "}"@),
                            StructDefView { name, type_params, items: items.0 },
                        )
                    },
                }
            },
        },
    }
}

/// The type parameters of a function definition at `pos`: after a `<`,
/// names and `>`, which then must be there; without a `<`, none.
pub open spec fn spec_fun_type_params(text: Seq<char>, pos: nat) -> Outcome<Seq<PSymView>> {
    match spec_expect(text, pos, "<"@) {
        Outcome::Match { value: _, next } => spec_type_params_rest(text, next),
        Outcome::Fail { .. } => Outcome::Match { value: Seq::empty(), next: pos },
    }
}

/// The return type of a function definition at `pos`: the type after
/// `->`, or `Unit` without a `->`.
pub open spec fn spec_return_type(text: Seq<char>, pos: nat) -> Outcome<TypeView> {
    match spec_expect(text, pos, "->"@) {
        Outcome::Match { value: _, next } => spec_type(text, next),
        Outcome::Fail { .. } => Outcome::Match { value: TypeView::Unit, next: pos },
    }
}

/// A function definition: `fun` name, optional type parameters, the
/// parameters in parentheses, an optional `-> type`, and the body.
pub open spec fn spec_fun_def(text: Seq<char>, pos: nat) -> Outcome<FunDefView> {
    match spec_expect(text, pos, "fun"@) {
        Outcome::Fail { error } => Outcome::Fail { error },
        Outcome::Match { value: _, next: p1 } => match spec_symbol(text, p1) {
            Outcome::Fail { error } => Outcome::Fail { error },
            Outcome::Match { value: name, next: p2 } => match spec_fun_type_params(text, p2) {
                Outcome::Fail { error } => Outcome::Fail { error },
                Outcome::Match { value: type_params, next: p3 } => match spec_expect(
                    text,
                    p3,
                    "("@,
                ) {
                    Outcome::Fail { error } => Outcome::Fail { error },
                    Outcome::Match { value: _, next: p4 } => {
                        let params = spec_list(|p: nat| spec_fun_param(text, p), text, p4);
                        match spec_expect(text, params.1, ")"@) {
                            Outcome::Fail { error } => Outcome::Fail { error },
                            Outcome::Match { value: _, next: p5 } => match spec_return_type(
                                text,
                                p5,
                            ) {
                                Outcome::Fail { error } => Outcome::Fail { error },
                                Outcome::Match { value: return_type, next: p6 } => match spec_block(
                                    text,
                                    pos,
                                    p6,
                                ) {
                                    Outcome::Fail { error } => Outcome::Fail { error },
                                    Outcome::Match { value: definition, next } => Outcome::Match {
                                        value: FunDefView {
                                            name,
                                            type_params,
                                            params: params.0,
                                            return_type,
                                            definition,
                                        },
                                        next,
                                    },
                                },
                            },
                        }
                    },
                },
            },
        },
    }
}

/// A definition at `pos`, which is `public` or not: a function, or else a
/// struct, or else an enum, whose error is the error if none matches.
pub open spec fn spec_definition(text: Seq<char>, pos: nat, public: bool) -> Outcome<
    TopLevelView,
> {
    match spec_fun_def(text, pos) {
        Outcome::Match { value: def, next } => Outcome::Match {
            value: TopLevelView::FunDef { def, public },
            next,
        },
        Outcome::Fail { .. } => match spec_struct_def(text, pos) {
            Outcome::Match { value: def, next } => Outcome::Match {
                value: TopLevelView::StructDef { def, public },
                next,
            },
            Outcome::Fail { .. } => match spec_enum_def(text, pos) {
                Outcome::Match { value: def, next } => Outcome::Match {
                    value: TopLevelView::EnumDef { def, public },
                    next,
                },
                Outcome::Fail { error } => Outcome::Fail { error },
            },
        },
    }
}

/// An item at the top level: an import, or else a definition with an
/// optional `pub` before it.
pub open spec fn spec_top_level(text: Seq<char>, pos: nat) -> Outcome<TopLevelView> {
    match spec_use(text, pos) {
        Outcome::Match { value, next } => Outcome::Match {
            value: TopLevelView::Import(value),
            next,
        },
        Outcome::Fail { .. } => {
            let public = spec_maybe(spec_expect(text, pos, "pub"@), pos);
            spec_definition(text, public.1, public.0 is Some)
        },
    }
}

// ------------------------------------------------------------------ parser

fn typed_name_body<'a>(input: &mut Input<'a>) -> (r: Result<(PSym, Type), ParseError>)
    ensures
        steady(*old(input), *final(input)),
        match spec_typed_name(old(input).text(), old(input).position()) {
            Outcome::Match { value, next } => r is Ok && r->Ok_0.0@ == value.0 && r->Ok_0.1@
                == value.1 && final(input).position() == next,
            Outcome::Fail { error } => r is Err && r->Err_0@ == error,
        },
{
    let name = input.parse_symbol()?;
    input.expect(":")?;
    let value = parse_type(input)?;
    Ok((name, value))
}

/// Parses a parameter of a function definition: name `:` type.
pub fn parse_fun_param<'a>(input: &mut Input<'a>) -> (r: Result<FunParam, ParseError>)
    ensures
        parsed(
            *old(input),
            *final(input),
            r,
            spec_fun_param(old(input).text(), old(input).position()),
        ),
{
    let rp = input.create_restore();
    let r = match typed_name_body(input) {
        Ok((name, param_type)) => Ok(FunParam { name, param_type }),
        Err(e) => Err(e),
    };
    input.settle(rp, r)
}

/// Parses an item of a struct definition: name `:` type.
pub fn parse_struct_item<'a>(input: &mut Input<'a>) -> (r: Result<StructItem, ParseError>)
    ensures
        parsed(
            *old(input),
            *final(input),
            r,
            spec_struct_item(old(input).text(), old(input).position()),
        ),
{
    let rp = input.create_restore();
    let r = match typed_name_body(input) {
        Ok((name, item_type)) => Ok(StructItem { name, item_type }),
        Err(e) => Err(e),
    };
    input.settle(rp, r)
}

/// Parses a comma-separated list of symbols.
fn parse_symbols<'a>(input: &mut Input<'a>) -> (r: Vec<PSym>)
    ensures
        steady(*old(input), *final(input)),
        (views(r@), final(input).position()) == spec_list(
            |p: nat| spec_symbol(old(input).text(), p),
            old(input).text(),
            old(input).position(),
        ),
{
    let ghost text = input.text();
    let ghost from = input.position();
    let symbol = |i: &mut Input<'a>| -> (r: Result<PSym, ParseError>)
        ensures
            parsed(*old(i), *final(i), r, spec_symbol(old(i).text(), old(i).position())),
        { i.parse_symbol() };
    let r = input.list(symbol);
    proof {
        let sem = |p: nat| spec_symbol(text, p);
        assert(spec_list(sem, text, from) == (views(r->Ok_0@), input.position()));
    }
    match r {
        Ok(items) => items,
        Err(_) => Vec::new(),
    }
}

fn type_params_rest_body<'a>(input: &mut Input<'a>) -> (r: Result<Vec<PSym>, ParseError>)
    ensures
        attempted_all(
            *old(input),
            *final(input),
            r,
            spec_type_params_rest(old(input).text(), old(input).position()),
        ),
{
    let params = parse_symbols(input);
    input.expect(">")?;
    Ok(params)
}

fn type_params_body<'a>(input: &mut Input<'a>) -> (r: Result<Vec<PSym>, ParseError>)
    ensures
        attempted_all(
            *old(input),
            *final(input),
            r,
            spec_type_params(old(input).text(), old(input).position()),
        ),
{
    input.expect("<")?;
    type_params_rest_body(input)
}

fn enum_def_body<'a>(input: &mut Input<'a>) -> (r: Result<EnumDef, ParseError>)
    ensures
        attempted(
            *old(input),
            *final(input),
            r,
            spec_enum_def(old(input).text(), old(input).position()),
        ),
{
    input.expect("enum")?;
    let name = input.parse_symbol()?;
    input.expect("{")?;
    let items = parse_symbols(input);
    input.expect("}")?;
    Ok(EnumDef { name, items })
}

/// Parses an enum definition: `enum Name { Case, ... }`.
pub fn parse_enum_def<'a>(input: &mut Input<'a>) -> (r: Result<EnumDef, ParseError>)
    ensures
        parsed(
            *old(input),
            *final(input),
            r,
            spec_enum_def(old(input).text(), old(input).position()),
        ),
{
    let rp = input.create_restore();
    let r = enum_def_body(input);
    input.settle(rp, r)
}

fn struct_def_body<'a>(input: &mut Input<'a>) -> (r: Result<StructDef, ParseError>)
    ensures
        attempted(
            *old(input),
            *final(input),
            r,
            spec_struct_def(old(input).text(), old(input).position()),
        ),
{
    let ghost text = input.text();
    input.expect("struct")?;
    let name = input.parse_symbol()?;
    let rp = input.create_restore();
    let type_params = match type_params_body(input) {
        Ok(names) => names,
        Err(_) => {
            input.restore(rp);
            let none: Vec<PSym> = Vec::new();
            assert(views(none@) =~= Seq::<PSymView>::empty());
            none
        },
    };

    input.expect("{")?;

    let ghost items_at = input.position();
    let item = |i: &mut Input<'a>| -> (r: Result<StructItem, ParseError>)
        ensures
            parsed(*old(i), *final(i), r, spec_struct_item(old(i).text(), old(i).position())),
        { parse_struct_item(i) };
    let items = input.list(item)?;
    proof {
        let sem = |p: nat| spec_struct_item(text, p);
        assert(spec_list(sem, text, items_at) == (views(items@), input.position()));
    }

    input.expect("}")?;
    Ok(StructDef { name, type_params, items })
}

/// Parses a struct definition: `struct Name<T, ...> { item: Type, ... }`.
pub fn parse_struct_def<'a>(input: &mut Input<'a>) -> (r: Result<StructDef, ParseError>)
    ensures
        parsed(
            *old(input),
            *final(input),
            r,
            spec_struct_def(old(input).text(), old(input).position()),
        ),
{
    let rp = input.create_restore();
    let r = struct_def_body(input);
    input.settle(rp, r)
}

fn fun_def_body<'a>(input: &mut Input<'a>) -> (r: Result<FunDef, ParseError>)
    ensures
        attempted(
            *old(input),
            *final(input),
            r,
            spec_fun_def(old(input).text(), old(input).position()),
        ),
{
    let ghost text = input.text();
    let ghost pos = input.position();
    proof {
        reveal_strlit("fun");
    }
    input.expect("fun")?;

    let name = input.parse_symbol()?;

    let type_params = match input.expect("<") {
        Ok(_) => type_params_rest_body(input)?,
        Err(_) => {
            let none: Vec<PSym> = Vec::new();
            assert(views(none@) =~= Seq::<PSymView>::empty());
            none
        },
    };
    input.expect("(")?;
    let ghost params_at = input.position();
    let param = |i: &mut Input<'a>| -> (r: Result<FunParam, ParseError>)
        ensures
            parsed(*old(i), *final(i), r, spec_fun_param(old(i).text(), old(i).position())),
        { parse_fun_param(i) };
    let params = input.list(param)?;
    proof {
        let sem = |p: nat| spec_fun_param(text, p);
        assert(spec_list(sem, text, params_at) == (views(params@), input.position()));
    }
    input.expect(")")?;
    let return_type = match input.expect("->") {
        Ok(_) => parse_type(input)?,
        Err(_) => Type::Unit,
    };
    let definition = parse_block(input, Ghost(pos))?;
    Ok(FunDef { name, type_params, params, return_type, definition })
}

/// Parses a function definition:
/// `fun name<T, ...>(param: Type, ...) -> Type { ... }`. Without type
/// parameters the list is empty; without `-> Type` the return type is
/// `Unit`.
pub fn parse_fun_def<'a>(input: &mut Input<'a>) -> (r: Result<FunDef, ParseError>)
    ensures
        parsed(
            *old(input),
            *final(input),
            r,
            spec_fun_def(old(input).text(), old(input).position()),
        ),
{
    let rp = input.create_restore();
    let r = fun_def_body(input);
    input.settle(rp, r)
}

fn top_level_body<'a>(input: &mut Input<'a>) -> (r: Result<TopLevel, ParseError>)
    ensures
        attempted(
            *old(input),
            *final(input),
            r,
            spec_top_level(old(input).text(), old(input).position()),
        ),
{
    match input.parse_use() {
        Ok(v) => {
            return Ok(TopLevel::Import(v));
        },
        Err(_) => {},
    }

    let public = input.expect("pub").is_ok();

    match parse_fun_def(input) {
        Ok(def) => {
            return Ok(TopLevel::FunDef { def, public });
        },
        Err(_) => {},
    }

    match parse_struct_def(input) {
        Ok(def) => {
            return Ok(TopLevel::StructDef { def, public });
        },
        Err(_) => {},
    }

    match parse_enum_def(input) {
        Ok(def) => Ok(TopLevel::EnumDef { def, public }),
        Err(e) => Err(e),
    }
}

/// Parses one item at the top level of a module: an import, or else a
/// function, struct or enum definition, marked public by a `pub` before
/// it.
pub fn parse_top_level<'a>(input: &mut Input<'a>) -> (r: Result<TopLevel, ParseError>)
    ensures
        parsed(
            *old(input),
            *final(input),
            r,
            spec_top_level(old(input).text(), old(input).position()),
        ),
{
    let rp = input.create_restore();
    let r = top_level_body(input);
    input.settle(rp, r)
}

} // verus!
