//! The combinators: `maybe`, `zero_or_more`, `list` and `choice`.
//!
//! Each takes the parser to apply as a function value. What a combinator
//! returns is stated against any description of that parser: if every
//! call of the parser does what `sem` says, the combinator does what the
//! matching `spec_*` function says of `sem`.
//!
//! A combinator leaves the cursor where it was whenever it returns no
//! result, whatever the parser it was given did.

use vstd::prelude::*;
use crate::parsing::input::{parsed, steady, Input};
use crate::parsing::lexical::{spec_expect, Outcome};
use crate::parsing::parse_error::{ErrorView, ParseError};
use crate::parsing::view::views;

verus! {

/// An optional parser: the value and the position after it, or nothing at
/// the position it was tried at.
pub open spec fn spec_maybe<V>(o: Outcome<V>, pos: nat) -> (Option<V>, nat) {
    match o {
        Outcome::Match { value, next } => (Some(value), next),
        Outcome::Fail { .. } => (None, pos),
    }
}

/// A repeated parser: the values of the matches of `sem` one after the
/// other from `pos`, and the position after the last. The repetition ends
/// at the first failure, and at a match that consumes nothing.
pub open spec fn spec_many<V>(sem: spec_fn(nat) -> Outcome<V>, len: nat, pos: nat) -> (
    Seq<V>,
    nat,
)
    decreases len - pos,
{
    match sem(pos) {
        Outcome::Match { value, next } => if pos < next <= len {
            let rest = spec_many(sem, len, next);
            (seq![value] + rest.0, rest.1)
        } else {
            (Seq::empty(), pos)
        },
        Outcome::Fail { .. } => (Seq::empty(), pos),
    }
}

/// A `,` and then what `sem` describes.
pub open spec fn after_comma<V>(sem: spec_fn(nat) -> Outcome<V>, text: Seq<char>, pos: nat)
    -> Outcome<V> {
    match spec_expect(text, pos, ","@) {
        Outcome::Match { value: _, next } => sem(next),
        Outcome::Fail { error } => Outcome::Fail { error },
    }
}

/// The parser of a list's later items: a `,` and then what `sem`
/// describes.
pub open spec fn comma_sem<V>(sem: spec_fn(nat) -> Outcome<V>, text: Seq<char>) -> spec_fn(
    nat,
) -> Outcome<V> {
    |p: nat| after_comma(sem, text, p)
}

/// A comma-separated list, possibly empty: a first item, then items that
/// each follow a `,`. A `,` that no item follows is not part of the list.
pub open spec fn spec_list<V>(sem: spec_fn(nat) -> Outcome<V>, text: Seq<char>, pos: nat) -> (
    Seq<V>,
    nat,
) {
    match sem(pos) {
        Outcome::Match { value, next } => {
            let rest = spec_many(comma_sem(sem, text), text.len(), next);
            (seq![value] + rest.0, rest.1)
        },
        Outcome::Fail { .. } => (Seq::empty(), pos),
    }
}

/// The alternatives from the `i`-th on, tried in order: the first match,
/// or else the error of the last one; `fallback` if there is none to try.
pub open spec fn choice_from<R, V>(
    sem: spec_fn(R) -> Outcome<V>,
    alternatives: Seq<R>,
    i: nat,
    fallback: ErrorView,
) -> Outcome<V>
    decreases alternatives.len() - i,
{
    if i >= alternatives.len() {
        Outcome::Fail { error: fallback }
    } else {
        match sem(alternatives[i as int]) {
            Outcome::Match { value, next } => Outcome::Match { value, next },
            Outcome::Fail { error } => choice_from(sem, alternatives, i + 1, error),
        }
    }
}

/// An ordered choice at `pos`: the first alternative that matches wins; if
/// none does, the error is that of the last alternative. A choice among no
/// alternatives fails at `pos`.
pub open spec fn spec_choice<R, V>(sem: spec_fn(R) -> Outcome<V>, alternatives: Seq<R>, pos: nat)
    -> Outcome<V> {
    choice_from(sem, alternatives, 0, ErrorView::ErrorAt(pos, "Expected an alternative"@))
}

/// A repetition whose first item does not match is empty and consumes
/// nothing.
pub proof fn lemma_many_without_match<V>(sem: spec_fn(nat) -> Outcome<V>, len: nat, pos: nat)
    requires
        sem(pos) is Fail,
    ensures
        spec_many(sem, len, pos) == (Seq::<V>::empty(), pos),
{
}

/// A list whose first item does not match is empty and consumes nothing.
pub proof fn lemma_list_without_match<V>(sem: spec_fn(nat) -> Outcome<V>, text: Seq<char>, pos: nat)
    requires
        sem(pos) is Fail,
    ensures
        spec_list(sem, text, pos) == (Seq::<V>::empty(), pos),
{
}

impl<'a> Input<'a> {
    /// Runs `p`; if it fails, the cursor goes back to where it was and the
    /// result is `None`.
    pub fn maybe<T: View, F: FnOnce(&mut Input<'a>) -> Result<T, ParseError>>(
        &mut self,
        p: F,
    ) -> (r: Option<T>)
        requires
            forall|x: &mut Input<'a>|
                x.text() == old(self).text() && x.position() == old(self).position()
                    ==> #[trigger] call_requires(p, (x,)),
            forall|x: &mut Input<'a>, y: Result<T, ParseError>| #[trigger]
                call_ensures(p, (x,), y) ==> steady(*x, *final(x)),
        ensures
            steady(*old(self), *final(self)),
            r is None ==> final(self).position() == old(self).position(),
            forall|o: Outcome<T::V>|
                (forall|x: &mut Input<'a>, y: Result<T, ParseError>|
                    x.text() == old(self).text() && x.position() == old(self).position()
                        && #[trigger] call_ensures(p, (x,), y) ==> parsed(*x, *final(x), y, o))
                    ==> (#[trigger] spec_maybe(o, old(self).position())) == (
                    match r {
                        Some(v) => Some(v@),
                        None => None,
                    },
                    final(self).position(),
                ),
    {
        let rp = self.create_restore();
        match p(self) {
            Ok(v) => Some(v),
            Err(_) => {
                self.restore(rp);
                None
            },
        }
    }

    /// Repeats `p` until it fails, or matches without consuming anything;
    /// the cursor then stands after the last item that counts. Never
    /// fails: with no item the result is empty and the cursor has not
    /// moved.
    pub fn zero_or_more<T: View, F: Fn(&mut Input<'a>) -> Result<T, ParseError>>(
        &mut self,
        p: F,
    ) -> (r: Result<Vec<T>, ParseError>)
        requires
            forall|x: &mut Input<'a>|
                x.text() == old(self).text() && old(self).position() <= x.position()
                    <= x.text().len() ==> #[trigger] call_requires(p, (x,)),
            forall|x: &mut Input<'a>, y: Result<T, ParseError>| #[trigger]
                call_ensures(p, (x,), y) ==> steady(*x, *final(x)),
        ensures
            r is Ok,
            steady(*old(self), *final(self)),
            r->Ok_0@.len() == 0 ==> final(self).position() == old(self).position(),
            forall|sem: spec_fn(nat) -> Outcome<T::V>|
                (forall|x: &mut Input<'a>, y: Result<T, ParseError>|
                    x.text() == old(self).text() && old(self).position() <= x.position()
                        && #[trigger] call_ensures(p, (x,), y) ==> parsed(
                        *x,
                        *final(x),
                        y,
                        sem(x.position()),
                    )) ==> (#[trigger] spec_many(
                    sem,
                    old(self).text().len(),
                    old(self).position(),
                )) == (views(r->Ok_0@), final(self).position()),
    {
        let mut out: Vec<T> = Vec::new();
        let ghost text = self.text();
        let ghost start = self.position();
        let mut rp = self.create_restore();
        loop
            invariant
                rp@ == self.position(),
                text == old(self).text(),
                start == old(self).position(),
                steady(*old(self), *self),
                out@.len() == 0 ==> self.position() == start,
                forall|x: &mut Input<'a>|
                    x.text() == text && start <= x.position() <= x.text().len()
                        ==> #[trigger] call_requires(p, (x,)),
                forall|x: &mut Input<'a>, y: Result<T, ParseError>| #[trigger]
                    call_ensures(p, (x,), y) ==> steady(*x, *final(x)),
                forall|sem: spec_fn(nat) -> Outcome<T::V>|
                    (forall|x: &mut Input<'a>, y: Result<T, ParseError>|
                        x.text() == text && start <= x.position() && #[trigger] call_ensures(
                            p,
                            (x,),
                            y,
                        ) ==> parsed(*x, *final(x), y, sem(x.position()))) ==> (
                    #[trigger] spec_many(sem, text.len(), start)) == (
                        views(out@) + spec_many(sem, text.len(), self.position()).0,
                        spec_many(sem, text.len(), self.position()).1,
                    ),
            decreases text.len() - self.position(),
        {
            let ghost here = self.position();
            let ghost old_out = out@;
            match p(self) {
                Ok(v) => {
                    if !self.beyond(&rp) {
                        self.restore(rp);
                        assert forall|sem: spec_fn(nat) -> Outcome<T::V>|
                            (forall|x: &mut Input<'a>, y: Result<T, ParseError>|
                                x.text() == text && start <= x.position()
                                    && #[trigger] call_ensures(p, (x,), y) ==> parsed(
                                    *x,
                                    *final(x),
                                    y,
                                    sem(x.position()),
                                )) implies (#[trigger] spec_many(sem, text.len(), start)) == (
                            views(out@),
                            self.position(),
                        ) by {
                            assert(spec_many(sem, text.len(), here).0 =~= Seq::empty());
                            assert(views(out@) + Seq::<T::V>::empty() =~= views(out@));
                        }
                        return Ok(out);
                    }
                    out.push(v);
                    rp = self.create_restore();
                    assert forall|sem: spec_fn(nat) -> Outcome<T::V>|
                        (forall|x: &mut Input<'a>, y: Result<T, ParseError>|
                            x.text() == text && start <= x.position() && #[trigger] call_ensures(
                                p,
                                (x,),
                                y,
                            ) ==> parsed(*x, *final(x), y, sem(x.position()))) implies (
                    #[trigger] spec_many(sem, text.len(), start)) == (
                        views(out@) + spec_many(sem, text.len(), self.position()).0,
                        spec_many(sem, text.len(), self.position()).1,
                    ) by {
                        assert(views(out@) =~= views(old_out).push(v@));
                        assert(sem(here) == Outcome::Match { value: v@, next: self.position() });
                        assert(views(old_out) + spec_many(sem, text.len(), here).0 =~= views(out@)
                            + spec_many(sem, text.len(), self.position()).0);
                    }
                },
                Err(_) => {
                    self.restore(rp);
                    assert forall|sem: spec_fn(nat) -> Outcome<T::V>|
                        (forall|x: &mut Input<'a>, y: Result<T, ParseError>|
                            x.text() == text && start <= x.position() && #[trigger] call_ensures(
                                p,
                                (x,),
                                y,
                            ) ==> parsed(*x, *final(x), y, sem(x.position()))) implies (
                    #[trigger] spec_many(sem, text.len(), start)) == (
                        views(out@),
                        self.position(),
                    ) by {
                        assert(spec_many(sem, text.len(), here).0 =~= Seq::empty());
                        assert(views(out@) + Seq::<T::V>::empty() =~= views(out@));
                    }
                    return Ok(out);
                },
            }
        }
    }

    /// Parses a comma-separated list of zero or more items. Never fails:
    /// with no first item the result is empty and the cursor has not
    /// moved; a `,` that no item follows is left unconsumed.
    pub fn list<T: View, F: Fn(&mut Input<'a>) -> Result<T, ParseError>>(&mut self, p: F) -> (r:
        Result<Vec<T>, ParseError>)
        requires
            forall|x: &mut Input<'a>|
                x.text() == old(self).text() && old(self).position() <= x.position()
                    <= x.text().len() ==> #[trigger] call_requires(p, (x,)),
            forall|x: &mut Input<'a>, y: Result<T, ParseError>| #[trigger]
                call_ensures(p, (x,), y) ==> steady(*x, *final(x)),
        ensures
            r is Ok,
            steady(*old(self), *final(self)),
            r->Ok_0@.len() == 0 ==> final(self).position() == old(self).position(),
            forall|sem: spec_fn(nat) -> Outcome<T::V>|
                (forall|x: &mut Input<'a>, y: Result<T, ParseError>|
                    x.text() == old(self).text() && old(self).position() <= x.position()
                        && #[trigger] call_ensures(p, (x,), y) ==> parsed(
                        *x,
                        *final(x),
                        y,
                        sem(x.position()),
                    )) ==> (#[trigger] spec_list(sem, old(self).text(), old(self).position()))
                    == (views(r->Ok_0@), final(self).position()),
    {
        let mut out: Vec<T> = Vec::new();
        let ghost text = self.text();
        let ghost start = self.position();
        let entry = self.create_restore();
        match p(self) {
            Ok(v) => {
                out.push(v);
                assert(views(out@) =~= seq![v@]);
            },
            Err(_) => {
                self.restore(entry);
                assert(views(out@) =~= Seq::empty());
                return Ok(out);
            },
        }
        loop
            invariant
                text == old(self).text(),
                start == old(self).position(),
                steady(*old(self), *self),
                out@.len() > 0,
                forall|x: &mut Input<'a>|
                    x.text() == text && start <= x.position() <= x.text().len()
                        ==> #[trigger] call_requires(p, (x,)),
                forall|x: &mut Input<'a>, y: Result<T, ParseError>| #[trigger]
                    call_ensures(p, (x,), y) ==> steady(*x, *final(x)),
                forall|sem: spec_fn(nat) -> Outcome<T::V>|
                    (forall|x: &mut Input<'a>, y: Result<T, ParseError>|
                        x.text() == text && start <= x.position() && #[trigger] call_ensures(
                            p,
                            (x,),
                            y,
                        ) ==> parsed(*x, *final(x), y, sem(x.position()))) ==> (
                    #[trigger] spec_list(sem, text, start)) == (
                        views(out@) + spec_many(
                            comma_sem(sem, text),
                            text.len(),
                            self.position(),
                        ).0,
                        spec_many(comma_sem(sem, text), text.len(), self.position()).1,
                    ),
            decreases text.len() - self.position(),
        {
            let rp = self.create_restore();
            let ghost here = self.position();
            let ghost old_out = out@;
            proof {
                reveal_strlit(",");
            }
            match self.expect(",") {
                Ok(_) => {},
                Err(_) => {
                    assert forall|sem: spec_fn(nat) -> Outcome<T::V>|
                        (forall|x: &mut Input<'a>, y: Result<T, ParseError>|
                            x.text() == text && start <= x.position() && #[trigger] call_ensures(
                                p,
                                (x,),
                                y,
                            ) ==> parsed(*x, *final(x), y, sem(x.position()))) implies (
                    #[trigger] spec_list(sem, text, start)) == (
                        views(out@),
                        self.position(),
                    ) by {
                        let csem = comma_sem(sem, text);
                        assert(csem(here) is Fail);
                        assert(spec_many(csem, text.len(), here).0 =~= Seq::empty());
                        assert(views(out@) + Seq::<T::V>::empty() =~= views(out@));
                    }
                    return Ok(out);
                },
            }
            let ghost item_at = self.position();
            match p(self) {
                Ok(v) => {
                    out.push(v);
                    assert forall|sem: spec_fn(nat) -> Outcome<T::V>|
                        (forall|x: &mut Input<'a>, y: Result<T, ParseError>|
                            x.text() == text && start <= x.position() && #[trigger] call_ensures(
                                p,
                                (x,),
                                y,
                            ) ==> parsed(*x, *final(x), y, sem(x.position()))) implies (
                    #[trigger] spec_list(sem, text, start)) == (
                        views(out@) + spec_many(
                            comma_sem(sem, text),
                            text.len(),
                            self.position(),
                        ).0,
                        spec_many(comma_sem(sem, text), text.len(), self.position()).1,
                    ) by {
                        let csem = comma_sem(sem, text);
                        assert(views(out@) =~= views(old_out).push(v@));
                        assert(sem(item_at) == Outcome::Match { value: v@, next: self.position() });
                        assert(csem(here) == sem(item_at));
                        assert(views(old_out) + spec_many(csem, text.len(), here).0 =~= views(out@)
                            + spec_many(csem, text.len(), self.position()).0);
                    }
                },
                Err(_) => {
                    self.restore(rp);
                    assert forall|sem: spec_fn(nat) -> Outcome<T::V>|
                        (forall|x: &mut Input<'a>, y: Result<T, ParseError>|
                            x.text() == text && start <= x.position() && #[trigger] call_ensures(
                                p,
                                (x,),
                                y,
                            ) ==> parsed(*x, *final(x), y, sem(x.position()))) implies (
                    #[trigger] spec_list(sem, text, start)) == (
                        views(out@),
                        self.position(),
                    ) by {
                        let csem = comma_sem(sem, text);
                        assert(csem(here) is Fail);
                        assert(spec_many(csem, text.len(), here).0 =~= Seq::empty());
                        assert(views(out@) + Seq::<T::V>::empty() =~= views(out@));
                    }
                    return Ok(out);
                },
            }
        }
    }

    /// Tries `p` on each of `alternatives` in the order given, from the
    /// same position: the first that succeeds wins. If all fail, the error
    /// is that of the last one tried, and the cursor has not moved.
    pub fn choice<R, T: View, F: Fn(&mut Input<'a>, &R) -> Result<T, ParseError>>(
        &mut self,
        alternatives: &[R],
        p: F,
    ) -> (r: Result<T, ParseError>)
        requires
            forall|x: &mut Input<'a>, k: &R|
                x.text() == old(self).text() && x.position() == old(self).position()
                    ==> #[trigger] call_requires(p, (x, k)),
            forall|x: &mut Input<'a>, k: &R, y: Result<T, ParseError>| #[trigger]
                call_ensures(p, (x, k), y) ==> steady(*x, *final(x)),
        ensures
            steady(*old(self), *final(self)),
            r is Err ==> final(self).position() == old(self).position(),
            forall|sem: spec_fn(R) -> Outcome<T::V>|
                (forall|x: &mut Input<'a>, k: &R, y: Result<T, ParseError>|
                    x.text() == old(self).text() && x.position() == old(self).position()
                        && #[trigger] call_ensures(p, (x, k), y) ==> parsed(
                        *x,
                        *final(x),
                        y,
                        sem(*k),
                    )) ==> parsed(
                    *old(self),
                    *final(self),
                    r,
                    #[trigger] spec_choice(sem, alternatives@, old(self).position()),
                ),
    {
        let ghost text = self.text();
        let ghost start = self.position();
        let mut last = ParseError::ErrorAt(self.offset(), "Expected an alternative".to_owned());
        let mut i: usize = 0;
        while i < alternatives.len()
            invariant
                i <= alternatives.len(),
                text == old(self).text(),
                start == old(self).position(),
                self.text() == text,
                self.position() == start,
                start <= text.len(),
                forall|x: &mut Input<'a>, k: &R|
                    x.text() == text && x.position() == start ==> #[trigger] call_requires(
                        p,
                        (x, k),
                    ),
                forall|x: &mut Input<'a>, k: &R, y: Result<T, ParseError>| #[trigger]
                    call_ensures(p, (x, k), y) ==> steady(*x, *final(x)),
                forall|sem: spec_fn(R) -> Outcome<T::V>|
                    (forall|x: &mut Input<'a>, k: &R, y: Result<T, ParseError>|
                        x.text() == text && x.position() == start && #[trigger] call_ensures(
                            p,
                            (x, k),
                            y,
                        ) ==> parsed(*x, *final(x), y, sem(*k))) ==> (#[trigger] spec_choice(
                        sem,
                        alternatives@,
                        start,
                    )) == choice_from(sem, alternatives@, i as nat, last@),
            decreases alternatives.len() - i,
        {
            let rp = self.create_restore();
            match p(self, &alternatives[i]) {
                Ok(v) => {
                    return Ok(v);
                },
                Err(e) => {
                    self.restore(rp);
                    last = e;
                },
            }
            i = i + 1;
        }
        Err(last)
    }
}

} // verus!
