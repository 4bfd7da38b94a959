use vstd::prelude::*;

use crate::zeroable::Zeroable;

verus! {

/// Whether some element of `s` is a terminator.
pub open spec fn is_terminated<T: Zeroable>(s: Seq<T>) -> bool {
    exists|i: int| 0 <= i < s.len() && #[trigger] s[i].spec_is_zero()
}

/// The elements of `s` that come before its first terminator (all of `s`
/// where it holds none).
pub open spec fn before_sentinel<T: Zeroable>(s: Seq<T>) -> Seq<T>
    decreases s.len(),
{
    if s.len() == 0 || s[0].spec_is_zero() {
        Seq::empty()
    } else {
        seq![s[0]] + before_sentinel(s.drop_first())
    }
}

/// An array that opens with elements that are not terminators, followed by a
/// terminator, is terminated, and the elements before its sentinel are
/// exactly the leading ones, in their order, whatever lies after the
/// terminator.
pub proof fn lemma_before_sentinel_of_closed<T: Zeroable>(s: Seq<T>, z: T, rest: Seq<T>)
    requires
        forall|i: int| 0 <= i < s.len() ==> !(#[trigger] s[i]).spec_is_zero(),
        z.spec_is_zero(),
    ensures
        is_terminated(s.push(z) + rest),
        before_sentinel(s.push(z) + rest) == s,
    decreases s.len(),
{
    assert((s.push(z) + rest)[s.len() as int].spec_is_zero());
    if s.len() > 0 {
        lemma_before_sentinel_of_closed(s.drop_first(), z, rest);
        assert((s.push(z) + rest).drop_first() == s.drop_first().push(z) + rest);
        assert(s == seq![s[0]] + s.drop_first());
    }
}

/// Cursor over a terminated array.
///
/// It reads one element per step, starting at the first, and reports
/// exhaustion once it reads a terminator. From then on it reports exhaustion
/// again without reading the array.
pub struct NullTermArrayIter<'a, T: Zeroable + Copy> {
    arr: &'a [T],
    pos: usize,
    done: bool,
}

impl<'a, T: Zeroable + Copy> NullTermArrayIter<'a, T> {
    /// Until exhaustion, the element to read next lies in the array, and a
    /// terminator lies at or after it.
    #[verifier::type_invariant]
    closed spec fn inv(self) -> bool {
        self.done || (self.pos < self.arr@.len() && is_terminated(
            self.arr@.subrange(self.pos as int, self.arr@.len() as int),
        ))
    }

    /// The elements that the cursor has yet to yield.
    pub closed spec fn remaining(self) -> Seq<T> {
        if self.done {
            Seq::empty()
        } else {
            before_sentinel(self.arr@.subrange(self.pos as int, self.arr@.len() as int))
        }
    }

    /// Whether a step has reported exhaustion.
    pub closed spec fn exhausted(self) -> bool {
        self.done
    }

    /// Creates a cursor at the first element of `arr`, which must hold a
    /// terminator.
    pub fn new(arr: &'a [T]) -> (r: Self)
        requires
            is_terminated(arr@),
        ensures
            r.remaining() == before_sentinel(arr@),
            !r.exhausted(),
            arr@[0].spec_is_zero() ==> r.remaining().len() == 0,
    {
        assert(arr@.subrange(0, arr@.len() as int) == arr@);
        NullTermArrayIter { arr, pos: 0, done: false }
    }

    /// Creates a cursor at the first element of `arr` where `arr` holds a
    /// terminator, and `None` where it holds none.
    pub fn try_new(arr: &'a [T]) -> (r: Option<Self>)
        ensures
            r is Some <==> is_terminated(arr@),
            r matches Some(c) ==> c.remaining() == before_sentinel(arr@) && !c.exhausted(),
    {
        let mut i: usize = 0;
        while i < arr.len()
            invariant
                i <= arr@.len(),
                forall|j: int| 0 <= j < i ==> !(#[trigger] arr@[j]).spec_is_zero(),
            decreases arr@.len() - i,
        {
            if arr[i].is_zero() {
                return Some(Self::new(arr));
            }
            i = i + 1;
        }
        None
    }

    /// Yields the next element, or `None` once the terminator is reached.
    pub fn next(&mut self) -> (r: Option<T>)
        ensures
            old(self).remaining().len() == 0 ==> r is None && final(self).exhausted()
                && final(self).remaining().len() == 0,
            old(self).remaining().len() > 0 ==> r == Some(old(self).remaining()[0])
                && final(self).remaining() == old(self).remaining().drop_first()
                && !final(self).exhausted(),
            old(self).exhausted() ==> r is None && *final(self) == *old(self),
    {
        proof {
            use_type_invariant(&*self);
        }
        if self.done {
            return None;
        }
        let ghost sub = self.arr@.subrange(self.pos as int, self.arr@.len() as int);
        let value = self.arr[self.pos];
        assert(value == sub[0]);
        if value.is_zero() {
            self.done = true;
            None
        } else {
            let ghost i = choose|i: int| 0 <= i < sub.len() && #[trigger] sub[i].spec_is_zero();
            let ghost rest = self.arr@.subrange(self.pos + 1, self.arr@.len() as int);
            assert(sub.drop_first() == rest);
            assert(rest[i - 1].spec_is_zero());
            self.pos = self.pos + 1;
            Some(value)
        }
    }

    /// Yields every remaining element, in order, and leaves the cursor
    /// exhausted.
    pub fn collect_vec(&mut self) -> (r: Vec<T>)
        ensures
            r@ == old(self).remaining(),
            final(self).exhausted(),
            final(self).remaining().len() == 0,
    {
        let mut out: Vec<T> = Vec::new();
        loop
            invariant
                out@ + self.remaining() == old(self).remaining(),
            ensures
                out@ == old(self).remaining(),
                self.exhausted(),
                self.remaining().len() == 0,
            decreases self.remaining().len(),
        {
            let ghost before = self.remaining();
            match self.next() {
                None => {
                    assert(before.len() == 0);
                    break;
                },
                Some(v) => {
                    out.push(v);
                    assert(out@ + self.remaining() == old(self).remaining()) by {
                        assert(before == seq![v] + before.drop_first());
                    }
                },
            }
        }
        out
    }
}

} // verus!
