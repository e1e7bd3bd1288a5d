//! Handing out `n` copies of a value: `n - 1` clones, then the value itself.
use vstd::prelude::*;

verus! {

pub struct Multiplied<T> {
    remaining_clones: usize,
    last: Option<T>,
}

/// The copies of `value` to hand out, `n` in all.
pub fn multiply<T: Clone>(value: T, n: usize) -> (r: Multiplied<T>)
    requires
        n >= 1,
    ensures
        r.wf(),
        r.remaining() == n,
        r.prototype() == Some(value),
{
    Multiplied { remaining_clones: n - 1, last: Some(value) }
}

impl<T: Clone> Multiplied<T> {
    pub closed spec fn wf(self) -> bool {
        self.remaining_clones > 0 ==> self.last is Some
    }

    /// How many copies are still to come.
    pub closed spec fn remaining(self) -> nat {
        (self.remaining_clones + if self.last is Some { 1int } else { 0 }) as nat
    }

    /// The value that the copies are taken from, until it is handed out.
    pub closed spec fn prototype(self) -> Option<T> {
        self.last
    }

    /// The next copy, while any remain: a clone of the value, or the value
    /// itself as the last one.
    pub fn next(&mut self) -> (r: Option<T>)
        requires
            old(self).wf(),
        ensures
            final(self).wf(),
            r is Some <==> old(self).remaining() > 0,
            final(self).remaining() == if old(self).remaining() > 0 { old(self).remaining() - 1 } else { 0 },
            final(self).remaining() > 0 ==> final(self).prototype() == old(self).prototype(),
            r is Some ==> old(self).prototype() is Some && cloned(old(self).prototype()->0, r->0),
            old(self).remaining() == 1 ==> r == old(self).prototype(),
    {
        if self.remaining_clones > 0 {
            self.remaining_clones = self.remaining_clones - 1;
            match &self.last {
                Some(v) => Some(v.clone()),
                None => None,
            }
        } else {
            let last = self.last.take();
            last
        }
    }

    /// All remaining copies, in a vector.
    pub fn into_vec(self) -> (r: Vec<T>)
        requires
            self.wf(),
        ensures
            r.len() == self.remaining(),
            forall|i: int| 0 <= i < r.len() ==> cloned(self.prototype()->0, #[trigger] r[i]),
            r.len() > 0 ==> r[r.len() - 1] == self.prototype()->0,
    {
        let mut it = self;
        let mut out: Vec<T> = Vec::new();
        let ghost total = it.remaining();
        let ghost proto = self.prototype();
        loop
            invariant
                it.wf(),
                out.len() + it.remaining() == total,
                it.remaining() > 0 ==> it.prototype() == proto,
                out.len() > 0 ==> proto is Some,
                forall|i: int| 0 <= i < out.len() ==> cloned(proto->0, #[trigger] out[i]),
                it.remaining() == 0 && out.len() > 0 ==> out[out.len() - 1] == proto->0,
            ensures
                out.len() == total,
                forall|i: int| 0 <= i < out.len() ==> cloned(proto->0, #[trigger] out[i]),
                out.len() > 0 ==> out[out.len() - 1] == proto->0,
            decreases it.remaining(),
        {
            match it.next() {
                Some(v) => out.push(v),
                None => break,
            }
        }
        out
    }
}

} // verus!
