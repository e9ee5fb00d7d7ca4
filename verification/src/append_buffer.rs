//! Byte accumulator for one terminal frame.
//!
//! A frame is assembled by appending escape sequences and row contents,
//! then drained in one step so that the whole repaint can be written to
//! the terminal in a single call.

use vstd::prelude::*;

verus! {

/// Append-only byte accumulator; the view of a buffer is the sequence of
/// bytes accumulated since it was created or last drained.
pub struct AppendBuffer {
    pub chars: Vec<u8>,
}

impl View for AppendBuffer {
    type V = Seq<u8>;

    open spec fn view(&self) -> Seq<u8> {
        self.chars@
    }
}

/// Contents of the accumulator after appending `s` to `contents`.
pub open spec fn spec_append(contents: Seq<u8>, s: Seq<u8>) -> Seq<u8> {
    contents + s
}

/// Result of draining an accumulator holding `contents`: the bytes handed
/// out and the contents left behind.
pub open spec fn spec_take(contents: Seq<u8>) -> (Seq<u8>, Seq<u8>) {
    (contents, Seq::<u8>::empty())
}

impl AppendBuffer {
    pub fn new() -> (r: Self)
        ensures
            r@ == Seq::<u8>::empty(),
    {
        Self { chars: Vec::new() }
    }

    /// Appends the bytes of `s`, keeping everything accumulated so far.
    pub fn append(&mut self, s: &[u8])
        ensures
            final(self)@ == spec_append(old(self)@, s@),
    {
        let mut i: usize = 0;
        while i < s.len()
            invariant
                i <= s.len(),
                self.chars@ == old(self).chars@ + s@.subrange(0, i as int),
            decreases s.len() - i,
        {
            self.chars.push(s[i]);
            assert(s@.subrange(0, i + 1) == s@.subrange(0, i as int).push(s@[i as int]));
            i = i + 1;
        }
        assert(s@.subrange(0, s@.len() as int) == s@);
    }

    /// Appends one byte.
    pub fn push_byte(&mut self, b: u8)
        ensures
            final(self)@ == old(self)@.push(b),
    {
        self.chars.push(b);
    }

    /// Empties the accumulator, discarding its contents.
    pub fn free(&mut self)
        ensures
            final(self)@ == Seq::<u8>::empty(),
    {
        self.chars.clear();
    }

    /// Hands out the accumulated bytes and leaves the accumulator empty,
    /// in one step.
    pub fn take(&mut self) -> (r: Vec<u8>)
        ensures
            r@ == spec_take(old(self)@).0,
            final(self)@ == spec_take(old(self)@).1,
    {
        let mut out: Vec<u8> = Vec::new();
        core::mem::swap(&mut self.chars, &mut out);
        out
    }
}

/// Draining after two appends yields exactly the concatenation of the two
/// appended byte sequences, and draining again, with nothing appended in
/// between, yields the empty sequence.
pub proof fn lemma_take_round_trip(a: Seq<u8>, b: Seq<u8>)
    ensures
        spec_take(spec_append(spec_append(Seq::<u8>::empty(), a), b)).0 == a + b,
        spec_take(spec_take(spec_append(spec_append(Seq::<u8>::empty(), a), b)).1).0
            == Seq::<u8>::empty(),
{
    assert(spec_append(spec_append(Seq::<u8>::empty(), a), b) =~= a + b);
}

} // verus!
