//! Reassembly of streamed command output into text lines. Output arrives in
//! chunks whose boundaries may fall anywhere, also inside a line or inside a
//! multi-byte character; lines are cut at newline bytes and decoded only once
//! complete, so the result depends on the bytes alone, not on the chunking.
use crate::text::{lemma_split_feed_append, split_feed, split_start, Split};
use crate::transport::{decode_lossy, utf8_lossy};
use vstd::prelude::*;

verus! {

pub open spec fn newline() -> u8 {
    10u8
}

/// A line without the carriage return that ends it, as `str::lines` gives it.
pub open spec fn strip_cr(line: Seq<u8>) -> Seq<u8> {
    if line.len() > 0 && line.last() == 13u8 {
        line.drop_last()
    } else {
        line
    }
}

/// The text lines of a split state at end of input: each closed segment
/// without the carriage return that ends it, then the open segment as it is,
/// if it is not empty. This is how `str::lines` cuts a text.
pub open spec fn text_lines(st: Split<u8>) -> Seq<Seq<char>> {
    let closed = st.0.map_values(|l: Seq<u8>| utf8_lossy(strip_cr(l)));
    if st.1.len() > 0 {
        closed.push(utf8_lossy(st.1))
    } else {
        closed
    }
}

/// The text lines of a whole output.
pub open spec fn output_lines(out: Seq<u8>) -> Seq<Seq<char>> {
    text_lines(split_feed(split_start(), out, newline()))
}

/// Collects the lines of an output that is handed over chunk by chunk.
pub struct LineAssembler {
    done: Vec<Vec<u8>>,
    pending: Vec<u8>,
}

impl View for LineAssembler {
    type V = Split<u8>;

    closed spec fn view(&self) -> Split<u8> {
        (self.done.deep_view(), self.pending@)
    }
}

impl LineAssembler {
    pub fn new() -> (r: Self)
        ensures
            r@ == split_start::<u8>(),
    {
        let r = LineAssembler { done: Vec::new(), pending: Vec::new() };
        assert(r.done.deep_view() =~= Seq::<Seq<u8>>::empty());
        r
    }

    /// Takes in the next chunk of output.
    pub fn push_chunk(&mut self, chunk: &[u8])
        ensures
            final(self)@ == split_feed(old(self)@, chunk@, newline()),
    {
        let n = chunk.len();
        let mut i: usize = 0;
        while i < n
            invariant
                n == chunk@.len(),
                i <= n,
                self@ == split_feed(old(self)@, chunk@.take(i as int), newline()),
            decreases n - i,
        {
            let b = chunk[i];
            assert(chunk@.take(i + 1).drop_last() =~= chunk@.take(i as int));
            if b == 10u8 {
                let mut line: Vec<u8> = Vec::new();
                core::mem::swap(&mut line, &mut self.pending);
                let ghost before = self.done.deep_view();
                let ghost lv = line@;
                assert(line.deep_view() =~= lv);
                self.done.push(line);
                assert(self.done.deep_view() =~= before.push(lv));
            } else {
                self.pending.push(b);
            }
            i = i + 1;
        }
        assert(chunk@.take(n as int) =~= chunk@);
    }

    /// Ends the output and returns its text lines, in order.
    pub fn finish(self) -> (r: Vec<String>)
        ensures
            r@.map_values(|s: String| s@) == text_lines(self@),
    {
        let LineAssembler { done, pending } = self;
        let ghost closed = done.deep_view();
        let mut out: Vec<String> = Vec::new();
        let mut i: usize = 0;
        while i < done.len()
            invariant
                i <= done@.len(),
                done.deep_view() == closed,
                out@.len() == i,
                forall|k: int| 0 <= k < i ==> out@[k]@ == utf8_lossy(strip_cr(closed[k])),
            decreases done@.len() - i,
        {
            let line = &done[i];
            assert(line@ == closed[i as int]);
            let len = line.len();
            let end = if len > 0 && line[len - 1] == 13u8 {
                len - 1
            } else {
                len
            };
            let text = decode_lossy(line.as_slice().split_at(end).0);
            assert(line@.subrange(0, end as int) =~= strip_cr(closed[i as int]));
            out.push(text);
            i = i + 1;
        }
        let ghost texts = out@.map_values(|s: String| s@);
        assert(texts =~= closed.map_values(|l: Seq<u8>| utf8_lossy(strip_cr(l))));
        if pending.len() > 0 {
            let last = decode_lossy(pending.as_slice());
            out.push(last);
            assert(out@.map_values(|s: String| s@) =~= texts.push(utf8_lossy(pending@)));
        }
        out
    }
}

/// Handing an output over in two chunks gives the same lines as handing it
/// over at once, wherever the boundary falls.
pub proof fn lemma_chunking_irrelevant(a: Seq<u8>, b: Seq<u8>)
    ensures
        text_lines(split_feed(split_feed(split_start(), a, newline()), b, newline()))
            == output_lines(a + b),
{
    lemma_split_feed_append(split_start(), a, b, newline());
}

} // verus!
