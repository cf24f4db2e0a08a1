//! The import declaration: `use a::b::{*, item};`.

use vstd::prelude::*;
use crate::parsing::ast::{Import, PSym, Use};
use crate::parsing::combinators::spec_list;
use crate::parsing::input::{attempted, parsed, steady, Input};
use crate::parsing::lexical::{
    nowhere, prepend, spec_expect, spec_symbol, Outcome,
};
use crate::parsing::parse_error::ParseError;
use crate::parsing::view::{views, ImportView, PSymView, UseView};

verus! {

/// One entry of an import list: a symbol, or else `*`.
pub open spec fn spec_import(text: Seq<char>, pos: nat) -> Outcome<ImportView> {
    match spec_symbol(text, pos) {
        Outcome::Match { value, next } => Outcome::Match { value: ImportView::Item(value), next },
        Outcome::Fail { .. } => match spec_expect(text, pos, "*"@) {
            Outcome::Match { value: _, next } => Outcome::Match {
                value: ImportView::Everything,
                next,
            },
            Outcome::Fail { error } => Outcome::Fail { error },
        },
    }
}

/// The rest of the path of an import after a segment: `::` and either the
/// `{` that opens the import list, or another segment and the rest after
/// it. The value holds the segments found.
pub open spec fn spec_use_path(text: Seq<char>, pos: nat) -> Outcome<Seq<PSymView>>
    decreases text.len() - pos,
{
    match spec_expect(text, pos, "::"@) {
        Outcome::Fail { error } => Outcome::Fail { error },
        Outcome::Match { value: _, next: after_colons } => match spec_expect(
            text,
            after_colons,
            "{"@,
        ) {
            Outcome::Match { value: _, next } => Outcome::Match { value: Seq::empty(), next },
            Outcome::Fail { .. } => match spec_symbol(text, after_colons) {
                Outcome::Fail { error } => Outcome::Fail { error },
                Outcome::Match { value: segment, next: after_segment } => if pos < after_segment
                    <= text.len() {
                    match spec_use_path(text, after_segment) {
                        Outcome::Fail { error } => Outcome::Fail { error },
                        Outcome::Match { value: rest, next } => Outcome::Match {
                            value: seq![segment] + rest,
                            next,
                        },
                    }
                } else {
                    nowhere()
                },
            },
        },
    }
}

/// An import declaration: `use`, a path of one or more segments separated
/// by `::`, `::`, the import list in braces, and `;`.
pub open spec fn spec_use(text: Seq<char>, pos: nat) -> Outcome<UseView> {
    match spec_expect(text, pos, "use"@) {
        Outcome::Fail { error } => Outcome::Fail { error },
        Outcome::Match { value: _, next: p1 } => match spec_symbol(text, p1) {
            Outcome::Fail { error } => Outcome::Fail { error },
            Outcome::Match { value: first, next: p2 } => match spec_use_path(text, p2) {
                Outcome::Fail { error } => Outcome::Fail { error },
                Outcome::Match { value: rest, next: p3 } => {
                    let imports = spec_list(|p: nat| spec_import(text, p), text, p3);
                    match spec_expect(text, imports.1, "}"@) {
                        Outcome::Fail { error } => Outcome::Fail { error },
                        Outcome::Match { value: _, next: p4 } => match spec_expect(
                            text,
                            p4,
                            ";"@,
                        ) {
                            Outcome::Fail { error } => Outcome::Fail { error },
                            Outcome::Match { value: _, next } => Outcome::Match {
                                value: UseView {
                                    namespace: seq![first] + rest,
                                    imports: imports.0,
                                },
                                next,
                            },
                        },
                    }
                },
            },
        },
    }
}

/// Parses one entry of an import list.
pub fn parse_star_or_sym<'a>(input: &mut Input<'a>) -> (r: Result<Import, ParseError>)
    ensures
        parsed(*old(input), *final(input), r, spec_import(old(input).text(), old(input).position())),
{
    match input.parse_symbol() {
        Ok(sym) => {
            return Ok(Import::Item(sym));
        },
        Err(_) => (),
    }
    match input.expect("*") {
        Ok(_) => Ok(Import::Everything),
        Err(x) => Err(x),
    }
}

impl<'a> Input<'a> {
    #[verifier::loop_isolation(false)]
    fn use_body(&mut self) -> (r: Result<Use, ParseError>)
        ensures
            attempted(*old(self), *final(self), r, spec_use(old(self).text(), old(self).position())),
    {
        let ghost text = self.text();
        self.expect("use")?;

        let mut namespace: Vec<PSym> = Vec::new();

        namespace.push(self.parse_symbol()?);
        let ghost first = namespace@[0]@;
        let ghost path_at = self.position();
        let ghost mut rest: Seq<PSymView> = Seq::empty();

        let mut opened = false;
        while !opened
            invariant
                self.text() == text,
                steady(*old(self), *self),
                views(namespace@) == seq![first] + rest,
                spec_use_path(text, path_at) == if opened {
                    Outcome::Match { value: rest, next: self.position() }
                } else {
                    prepend(rest, spec_use_path(text, self.position()))
                },
            decreases text.len() - self.position(),
        {
            proof {
                reveal_strlit("::");
            }
            self.expect("::")?;
            match self.expect("{") {
                Ok(_) => {
                    assert(rest + Seq::<PSymView>::empty() =~= rest);
                    opened = true;
                },
                Err(_) => {
                    let segment = self.parse_symbol()?;
                    proof {
                        assert(views(namespace@.push(segment)) =~= views(namespace@).push(
                            segment@,
                        ));
                        assert(seq![first] + rest.push(segment@) =~= (seq![first] + rest).push(
                            segment@,
                        ));
                        assert forall|more: Seq<PSymView>|
                            rest + (seq![segment@] + more) == #[trigger] (rest.push(segment@)
                                + more) by {
                            assert(rest + (seq![segment@] + more) =~= rest.push(segment@) + more);
                        }
                        rest = rest.push(segment@);
                    }
                    namespace.push(segment);
                },
            }
        }

        let ghost list_at = self.position();
        let item = |i: &mut Input<'a>| -> (r: Result<Import, ParseError>)
            ensures
                parsed(*old(i), *final(i), r, spec_import(old(i).text(), old(i).position())),
            { parse_star_or_sym(i) };
        let imports = self.list(item)?;
        proof {
            let sem = |p: nat| spec_import(text, p);
            assert(spec_list(sem, text, list_at) == (views(imports@), self.position()));
        }

        self.expect("}")?;

        self.expect(";")?;

        Ok(Use { imports, namespace })
    }

    /// Parses an import declaration, `use a::b::{*, item};`: the path
    /// becomes the namespace, and the entries between the braces become
    /// the imports, in the order written.
    pub fn parse_use(&mut self) -> (r: Result<Use, ParseError>)
        ensures
            parsed(*old(self), *final(self), r, spec_use(old(self).text(), old(self).position())),
    {
        let rp = self.create_restore();
        let r = self.use_body();
        self.settle(rp, r)
    }
}

} // verus!
