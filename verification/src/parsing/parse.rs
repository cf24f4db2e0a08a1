//! The parser of a whole module.

use vstd::prelude::*;
use vstd::std_specs::iter::IteratorSpec;
use crate::parsing::ast::{EnumDef, FunDef, Mod, StructDef, TopLevel, Use};
use crate::parsing::combinators::spec_many;
use crate::parsing::input::{chars_of, parsed, Input};
use crate::parsing::lexical::{spec_end, Outcome};
use crate::parsing::parse_error::{ErrorView, ParseError};
use crate::parsing::top_level::{parse_top_level, spec_top_level};
use crate::text::utf8_len;
use crate::parsing::view::{views, EnumDefView, FunDefView, ModView, StructDefView, TopLevelView};

verus! {

/// The module without items.
pub open spec fn empty_module() -> ModView {
    ModView {
        fun_defs: Seq::empty(),
        struct_defs: Seq::empty(),
        enum_defs: Seq::empty(),
        fun_exports: Seq::empty(),
        struct_exports: Seq::empty(),
        enum_exports: Seq::empty(),
        uses: Seq::empty(),
    }
}

/// The module `m` with `item` added at the end of the list of its kind;
/// the name of a public definition is added to the exports of its kind.
pub open spec fn with_item(m: ModView, item: TopLevelView) -> ModView {
    match item {
        TopLevelView::FunDef { def, public } => ModView {
            fun_defs: m.fun_defs.push(def),
            fun_exports: if public {
                m.fun_exports.push(def.name.value)
            } else {
                m.fun_exports
            },
            ..m
        },
        TopLevelView::StructDef { def, public } => ModView {
            struct_defs: m.struct_defs.push(def),
            struct_exports: if public {
                m.struct_exports.push(def.name.value)
            } else {
                m.struct_exports
            },
            ..m
        },
        TopLevelView::EnumDef { def, public } => ModView {
            enum_defs: m.enum_defs.push(def),
            enum_exports: if public {
                m.enum_exports.push(def.name.value)
            } else {
                m.enum_exports
            },
            ..m
        },
        TopLevelView::Import(u) => ModView { uses: m.uses.push(u), ..m },
    }
}

/// The module made of `items`: each kind of item in its own list, in the
/// order of `items`.
pub open spec fn module_of(items: Seq<TopLevelView>) -> ModView
    decreases items.len(),
{
    if items.len() == 0 {
        empty_module()
    } else {
        with_item(module_of(items.drop_last()), items.last())
    }
}

/// A module: top-level items as far as they go, and then the end of the
/// text. Text that is left over is an error at the place where it starts.
pub open spec fn spec_module(text: Seq<char>) -> Result<ModView, ErrorView> {
    let items = spec_many(|p: nat| spec_top_level(text, p), text.len(), 0);
    match spec_end(text, items.1) {
        Outcome::Match { .. } => Ok(module_of(items.0)),
        Outcome::Fail { error } => Err(error),
    }
}

/// `name` is the name of one of the functions `defs`.
pub open spec fn names_a_fun(name: Seq<char>, defs: Seq<FunDefView>) -> bool {
    exists|j: int| 0 <= j < defs.len() && (#[trigger] defs[j]).name.value == name
}

/// `name` is the name of one of the structs `defs`.
pub open spec fn names_a_struct(name: Seq<char>, defs: Seq<StructDefView>) -> bool {
    exists|j: int| 0 <= j < defs.len() && (#[trigger] defs[j]).name.value == name
}

/// `name` is the name of one of the enums `defs`.
pub open spec fn names_an_enum(name: Seq<char>, defs: Seq<EnumDefView>) -> bool {
    exists|j: int| 0 <= j < defs.len() && (#[trigger] defs[j]).name.value == name
}

/// Every exported name of `m` is the name of a definition of its kind.
pub open spec fn exports_are_defined(m: ModView) -> bool {
    &&& forall|i: int|
        0 <= i < m.fun_exports.len() ==> names_a_fun(#[trigger] m.fun_exports[i], m.fun_defs)
    &&& forall|i: int|
        0 <= i < m.struct_exports.len() ==> names_a_struct(
            #[trigger] m.struct_exports[i],
            m.struct_defs,
        )
    &&& forall|i: int|
        0 <= i < m.enum_exports.len() ==> names_an_enum(
            #[trigger] m.enum_exports[i],
            m.enum_defs,
        )
}

/// A definition more keeps the names that were defined.
proof fn lemma_still_defined(m: ModView, item: TopLevelView)
    requires
        exports_are_defined(m),
    ensures
        exports_are_defined(with_item(m, item)),
{
    let n = with_item(m, item);
    assert forall|i: int| 0 <= i < n.fun_exports.len() implies names_a_fun(
        #[trigger] n.fun_exports[i],
        n.fun_defs,
    ) by {
        if i < m.fun_exports.len() {
            assert(names_a_fun(m.fun_exports[i], m.fun_defs));
            let j = choose|j: int|
                0 <= j < m.fun_defs.len() && (#[trigger] m.fun_defs[j]).name.value
                    == m.fun_exports[i];
            assert(n.fun_defs[j].name.value == n.fun_exports[i]);
        } else {
            assert(n.fun_defs[n.fun_defs.len() - 1].name.value == n.fun_exports[i]);
        }
    }
    assert forall|i: int| 0 <= i < n.struct_exports.len() implies names_a_struct(
        #[trigger] n.struct_exports[i],
        n.struct_defs,
    ) by {
        if i < m.struct_exports.len() {
            assert(names_a_struct(m.struct_exports[i], m.struct_defs));
            let j = choose|j: int|
                0 <= j < m.struct_defs.len() && (#[trigger] m.struct_defs[j]).name.value
                    == m.struct_exports[i];
            assert(n.struct_defs[j].name.value == n.struct_exports[i]);
        } else {
            assert(n.struct_defs[n.struct_defs.len() - 1].name.value == n.struct_exports[i]);
        }
    }
    assert forall|i: int| 0 <= i < n.enum_exports.len() implies names_an_enum(
        #[trigger] n.enum_exports[i],
        n.enum_defs,
    ) by {
        if i < m.enum_exports.len() {
            assert(names_an_enum(m.enum_exports[i], m.enum_defs));
            let j = choose|j: int|
                0 <= j < m.enum_defs.len() && (#[trigger] m.enum_defs[j]).name.value
                    == m.enum_exports[i];
            assert(n.enum_defs[j].name.value == n.enum_exports[i]);
        } else {
            assert(n.enum_defs[n.enum_defs.len() - 1].name.value == n.enum_exports[i]);
        }
    }
}

/// In the module made of any items, every exported name is the name of a
/// definition of its kind.
pub proof fn lemma_exports_are_defined(items: Seq<TopLevelView>)
    ensures
        exports_are_defined(module_of(items)),
    decreases items.len(),
{
    if items.len() > 0 {
        lemma_exports_are_defined(items.drop_last());
        lemma_still_defined(module_of(items.drop_last()), items.last());
    }
}

/// The characters of `s`, each with the byte offset at which it starts,
/// as long as the offsets fit.
fn char_indices(s: &str) -> (data: Vec<(usize, char)>)
    ensures
        chars_of(data@) == s@,
{
    let mut data: Vec<(usize, char)> = Vec::new();
    let mut offset: usize = 0;
    let mut chars = s.chars();
    loop
        invariant
            chars.decrease() is Some,
            chars_of(data@) + chars.remaining() == s@,
        decreases chars.decrease()->0,
    {
        let ghost before = chars.remaining();
        let ghost old_data = data@;
        match chars.next() {
            Some(c) => {
                data.push((offset, c));
                offset = offset.saturating_add(utf8_len(c));
                assert(chars_of(data@) =~= chars_of(old_data).push(c));
                assert(chars_of(old_data).push(c) + before.drop_first() =~= chars_of(old_data)
                    + before);
            },
            None => {
                assert(chars_of(data@) + Seq::<char>::empty() =~= chars_of(data@));
                return data;
            },
        }
    }
}

/// The items of `v` in the opposite order.
fn reversed<T>(v: Vec<T>) -> (r: Vec<T>)
    ensures
        r@ == v@.reverse(),
{
    let mut stack = v;
    let mut r: Vec<T> = Vec::new();
    let ghost n = stack@.len();
    loop
        invariant
            n == v@.len(),
            r@.len() + stack@.len() == n,
            stack@ == v@.take(stack@.len() as int),
            forall|j: int| 0 <= j < r@.len() ==> r@[j] == v@[n - 1 - j],
        decreases stack@.len(),
    {
        match stack.pop() {
            Some(x) => {
                r.push(x);
            },
            None => {
                assert(r@ =~= v@.reverse());
                return r;
            },
        }
    }
}

/// Sorts the items of a module into the lists of their kinds and records
/// the names of the public definitions.
pub fn assemble(items: Vec<TopLevel>) -> (m: Mod)
    ensures
        m@ == module_of(views(items@)),
        exports_are_defined(m@),
{
    let mut fun_defs: Vec<FunDef> = Vec::new();
    let mut fun_exports: Vec<String> = Vec::new();

    let mut struct_defs: Vec<StructDef> = Vec::new();
    let mut struct_exports: Vec<String> = Vec::new();

    let mut enum_defs: Vec<EnumDef> = Vec::new();
    let mut enum_exports: Vec<String> = Vec::new();

    let mut uses: Vec<Use> = Vec::new();

    let ghost all = views(items@);
    let ghost n = items@.len();
    let mut rest = reversed(items);
    let ghost mut done: int = 0;
    proof {
        assert(all.take(0) =~= Seq::empty());
        assert(views(fun_defs@) =~= Seq::empty());
        assert(views(struct_defs@) =~= Seq::empty());
        assert(views(enum_defs@) =~= Seq::empty());
        assert(views(fun_exports@) =~= Seq::empty());
        assert(views(struct_exports@) =~= Seq::empty());
        assert(views(enum_exports@) =~= Seq::empty());
        assert(views(uses@) =~= Seq::empty());
    }
    loop
        invariant
            all == views(items@),
            n == items@.len(),
            0 <= done <= n,
            rest@ == items@.reverse().take(n - done),
            module_of(all.take(done)) == (ModView {
                fun_defs: views(fun_defs@),
                struct_defs: views(struct_defs@),
                enum_defs: views(enum_defs@),
                fun_exports: views(fun_exports@),
                struct_exports: views(struct_exports@),
                enum_exports: views(enum_exports@),
                uses: views(uses@),
            }),
        decreases rest@.len(),
    {
        let ghost before = ModView {
            fun_defs: views(fun_defs@),
            struct_defs: views(struct_defs@),
            enum_defs: views(enum_defs@),
            fun_exports: views(fun_exports@),
            struct_exports: views(struct_exports@),
            enum_exports: views(enum_exports@),
            uses: views(uses@),
        };
        let item = match rest.pop() {
            Some(item) => item,
            None => {
                proof {
                    assert(all.take(done) =~= all);
                    lemma_exports_are_defined(all);
                }
                return Mod {
                    fun_defs,
                    fun_exports,
                    struct_defs,
                    struct_exports,
                    enum_defs,
                    enum_exports,
                    uses,
                };
            },
        };
        proof {
            assert(item == items@[done]);
            assert(all.take(done + 1).drop_last() =~= all.take(done));
            assert(all.take(done + 1).last() == item@);
            assert(module_of(all.take(done + 1)) == with_item(before, item@));
        }
        match item {
            TopLevel::FunDef { def, public } => {
                if public {
                    let name = def.name.value.clone();
                    assert(views(fun_exports@.push(name)) =~= views(fun_exports@).push(name@));
                    fun_exports.push(name);
                }
                assert(views(fun_defs@.push(def)) =~= views(fun_defs@).push(def@));
                fun_defs.push(def);
            },
            TopLevel::StructDef { def, public } => {
                if public {
                    let name = def.name.value.clone();
                    assert(views(struct_exports@.push(name)) =~= views(struct_exports@).push(
                        name@,
                    ));
                    struct_exports.push(name);
                }
                assert(views(struct_defs@.push(def)) =~= views(struct_defs@).push(def@));
                struct_defs.push(def);
            },
            TopLevel::EnumDef { def, public } => {
                if public {
                    let name = def.name.value.clone();
                    assert(views(enum_exports@.push(name)) =~= views(enum_exports@).push(name@));
                    enum_exports.push(name);
                }
                assert(views(enum_defs@.push(def)) =~= views(enum_defs@).push(def@));
                enum_defs.push(def);
            },
            TopLevel::Import(u) => {
                assert(views(uses@.push(u)) =~= views(uses@).push(u@));
                uses.push(u);
            },
        }
        proof {
            done = done + 1;
        }
    }
}

/// Parses the module that `input` holds: top-level items as far as they
/// go, and then the end of the text.
fn parse_module<'a>(input: &mut Input<'a>) -> (r: Result<Mod, ParseError>)
    requires
        old(input).position() == 0,
    ensures
        final(input).text() == old(input).text(),
        match spec_module(old(input).text()) {
            Ok(m) => r is Ok && r->Ok_0@ == m,
            Err(e) => r is Err && r->Err_0@ == e,
        },
        r is Ok ==> exports_are_defined(r->Ok_0@),
{
    let ghost text = input.text();
    let item = |i: &mut Input<'a>| -> (r: Result<TopLevel, ParseError>)
        ensures
            parsed(*old(i), *final(i), r, spec_top_level(old(i).text(), old(i).position())),
        { parse_top_level(i) };
    let top_level_items = input.zero_or_more(item)?;
    proof {
        let sem = |p: nat| spec_top_level(text, p);
        assert(spec_many(sem, text.len(), 0) == (views(top_level_items@), input.position()));
    }
    let module = assemble(top_level_items);

    input.expect_end()?;

    Ok(module)
}

/// Parses the text of a module. The result holds the definitions of each
/// kind in the order written, the names of those marked `pub`, and the
/// imports. The whole text must be consumed: what no item matches is an
/// error.
pub fn parse_proc(s: &str) -> (r: Result<Mod, ParseError>)
    ensures
        match spec_module(s@) {
            Ok(m) => r is Ok && r->Ok_0@ == m,
            Err(e) => r is Err && r->Err_0@ == e,
        },
        r is Ok ==> exports_are_defined(r->Ok_0@),
{
    let ci = char_indices(s);
    let mut input = Input::new(ci.as_slice());
    parse_module(&mut input)
}

/// Parses the text of a module; the same as [`parse_proc`].
pub fn parse(s: &str) -> (r: Result<Mod, ParseError>)
    ensures
        match spec_module(s@) {
            Ok(m) => r is Ok && r->Ok_0@ == m,
            Err(e) => r is Err && r->Err_0@ == e,
        },
        r is Ok ==> exports_are_defined(r->Ok_0@),
{
    parse_proc(s)
}

} // verus!
