use vstd::prelude::*;

use vstd::string::StringSliceAdditionalSpecFns;
use vstd::utf8::{
    encode_utf8_valid_utf8, is_char_boundary, is_char_boundary_iff_not_is_continuation_byte,
    is_char_boundary_start_end_of_seq, is_continuation_byte,
};

verus! {

/// Whether a character whose UTF-8 encoding starts at `i` in `b` has the
/// Unicode `White_Space` property.
pub open spec fn ws_at(b: Seq<u8>, i: int) -> bool {
    let x = b[i];
    if 9 <= x <= 13 || x == 32 {
        true
    } else if x == 0xc2 {
        i + 1 < b.len() && (b[i + 1] == 0x85 || b[i + 1] == 0xa0)
    } else if x == 0xe1 {
        i + 2 < b.len() && b[i + 1] == 0x9a && b[i + 2] == 0x80
    } else if x == 0xe2 {
        i + 2 < b.len() && ((b[i + 1] == 0x80 && ((0x80 <= b[i + 2] <= 0x8a) || b[i + 2] == 0xa8
            || b[i + 2] == 0xa9 || b[i + 2] == 0xaf)) || (b[i + 1] == 0x81 && b[i + 2] == 0x9f))
    } else if x == 0xe3 {
        i + 2 < b.len() && b[i + 1] == 0x80 && b[i + 2] == 0x80
    } else {
        false
    }
}

/// Whether a word character starts at `i`.
pub open spec fn word_char_at(b: Seq<u8>, i: int) -> bool {
    !is_continuation_byte(b[i]) && !ws_at(b, i)
}

/// Whether a whitespace character starts at `i`.
pub open spec fn space_at(b: Seq<u8>, i: int) -> bool {
    !is_continuation_byte(b[i]) && ws_at(b, i)
}

/// The first position at or after `i` where a word starts, or the length.
pub open spec fn next_start(b: Seq<u8>, i: int) -> int
    decreases b.len() - i,
{
    if i >= b.len() {
        b.len() as int
    } else if i >= 0 && word_char_at(b, i) {
        i
    } else {
        next_start(b, i + 1)
    }
}

/// The first position at or after `i` where whitespace starts, or the length.
pub open spec fn next_end(b: Seq<u8>, i: int) -> int
    decreases b.len() - i,
{
    if i >= b.len() {
        b.len() as int
    } else if i >= 0 && space_at(b, i) {
        i
    } else {
        next_end(b, i + 1)
    }
}

/// The words of `b`, each with its byte offset plus `n`.
pub open spec fn words_spec(b: Seq<u8>, n: int) -> Seq<(int, Seq<u8>)>
    decreases b.len(),
{
    let s = next_start(b, 0);
    if s >= b.len() {
        Seq::empty()
    } else {
        let e = next_end(b, s);
        if e <= 0 || e > b.len() {
            Seq::empty()
        } else {
            seq![(n + s, b.subrange(s, e))] + words_spec(b.subrange(e, b.len() as int), n + e)
        }
    }
}

/// Offsets and bytes of a list of words.
pub open spec fn word_views(s: Seq<(usize, &str)>) -> Seq<(int, Seq<u8>)> {
    s.map_values(|w: (usize, &str)| (w.0 as int, w.1.spec_bytes()))
}

proof fn lemma_next_start_bounds(b: Seq<u8>, i: int)
    requires
        0 <= i,
    ensures
        i <= next_start(b, i) || next_start(b, i) == b.len(),
        next_start(b, i) <= b.len(),
        next_start(b, i) < b.len() ==> word_char_at(b, next_start(b, i)),
    decreases b.len() - i,
{
    if i < b.len() && !word_char_at(b, i) {
        lemma_next_start_bounds(b, i + 1);
    }
}

proof fn lemma_next_end_bounds(b: Seq<u8>, i: int)
    requires
        0 <= i,
    ensures
        i <= next_end(b, i) || next_end(b, i) == b.len(),
        next_end(b, i) <= b.len(),
        next_end(b, i) < b.len() ==> space_at(b, next_end(b, i)),
    decreases b.len() - i,
{
    if i < b.len() && !space_at(b, i) {
        lemma_next_end_bounds(b, i + 1);
    }
}

/// Splits a string into whitespace-separated words, each with its byte
/// offset in the string.
#[derive(Debug)]
pub struct Words<'a> {
    string: &'a str,
    n: usize,
}

impl<'a> Words<'a> {
    /// The bytes not yet split.
    pub closed spec fn rest(&self) -> Seq<u8> {
        self.string.spec_bytes()
    }

    /// The byte offset of what is not yet split.
    pub closed spec fn offset(&self) -> int {
        self.n as int
    }

    pub open spec fn wf(&self) -> bool {
        self.offset() + self.rest().len() <= usize::MAX
    }

    /// Split a string into words.
    pub fn new(string: &'a str) -> (r: Words<'a>)
        requires
            string.spec_bytes().len() <= usize::MAX,
        ensures
            r.rest() == string.spec_bytes(),
            r.offset() == 0,
            r.wf(),
    {
        Words { string, n: 0 }
    }

    fn scan(b: &[u8], from: usize, want_space: bool) -> (r: usize)
        requires
            from <= b@.len(),
        ensures
            !want_space ==> r == next_start(b@, from as int),
            want_space ==> r == next_end(b@, from as int),
            r <= b@.len(),
    {
        let mut i = from;
        while i < b.len()
            invariant
                from <= i <= b@.len(),
                !want_space ==> next_start(b@, from as int) == next_start(b@, i as int),
                want_space ==> next_end(b@, from as int) == next_end(b@, i as int),
            decreases b@.len() - i,
        {
            let x = b[i];
            let ws = if 9 <= x && x <= 13 || x == 32 {
                true
            } else if x == 0xc2 {
                b.len() - i > 1 && (b[i + 1] == 0x85 || b[i + 1] == 0xa0)
            } else if x == 0xe1 {
                b.len() - i > 2 && b[i + 1] == 0x9a && b[i + 2] == 0x80
            } else if x == 0xe2 {
                b.len() - i > 2 && ((b[i + 1] == 0x80 && ((0x80 <= b[i + 2] && b[i + 2] <= 0x8a)
                    || b[i + 2] == 0xa8 || b[i + 2] == 0xa9 || b[i + 2] == 0xaf)) || (b[i + 1]
                    == 0x81 && b[i + 2] == 0x9f))
            } else if x == 0xe3 {
                b.len() - i > 2 && b[i + 1] == 0x80 && b[i + 2] == 0x80
            } else {
                false
            };
            let cont = 0x80 <= x && x <= 0xbf;
            if !cont && ws == want_space {
                return i;
            }
            i = i + 1;
        }
        i
    }

    /// The next word and its byte offset, if any.
    pub fn next(&mut self) -> (r: Option<(usize, &'a str)>)
        requires
            old(self).wf(),
        ensures
            final(self).wf(),
            ({
                let b = old(self).rest();
                let s = next_start(b, 0);
                let e = next_end(b, s);
                &&& s >= b.len() ==> r is None && final(self).rest().len() == 0
                &&& s < b.len() ==> (r matches Some(w) && w.0 == old(self).offset() + s
                    && w.1.spec_bytes() == b.subrange(s, e) && final(self).rest() == b.subrange(
                    e,
                    b.len() as int,
                ) && final(self).offset() == old(self).offset() + e)
            }),
    {
        let b = self.string.as_bytes();
        let ghost bs = b@;
        proof {
            encode_utf8_valid_utf8(self.string@);
            lemma_next_start_bounds(bs, 0);
        }
        let s = Words::scan(b, 0, false);
        if s >= b.len() {
            self.n = self.n + b.len();
            self.string = "";
            proof {
                assert(self.string.spec_bytes().len() == 0) by {
                    reveal_strlit("");
                }
            }
            return None;
        }
        proof {
            lemma_next_end_bounds(bs, s as int);
        }
        let e = Words::scan(b, s, true);
        let string = self.string;
        proof {
            is_char_boundary_iff_not_is_continuation_byte(bs, s as int);
            if e < bs.len() {
                is_char_boundary_iff_not_is_continuation_byte(bs, e as int);
            } else {
                is_char_boundary_start_end_of_seq(bs);
            }
        }
        let (_, tail) = string.split_at(s);
        let ghost tb = tail.spec_bytes();
        proof {
            encode_utf8_valid_utf8(tail@);
            assert(tb =~= bs.subrange(s as int, bs.len() as int));
            if e < bs.len() {
                assert(tb[e - s] == bs[e as int]);
                is_char_boundary_iff_not_is_continuation_byte(tb, e - s);
            } else {
                is_char_boundary_start_end_of_seq(tb);
            }
        }
        let (word, _) = tail.split_at(e - s);
        let (_, rest) = string.split_at(e);
        let start = self.n + s;
        self.n = self.n + e;
        self.string = rest;
        proof {
            assert(word.spec_bytes() =~= bs.subrange(s as int, e as int));
        }
        Some((start, word))
    }

    /// Every remaining word with its byte offset, in order.
    pub fn collect_words(self) -> (r: Vec<(usize, &'a str)>)
        requires
            self.wf(),
        ensures
            word_views(r@) == words_spec(self.rest(), self.offset()),
    {
        let mut words = self;
        let mut out: Vec<(usize, &'a str)> = Vec::new();
        let ghost all = words_spec(self.rest(), self.offset());
        proof {
            assert(word_views(out@) + words_spec(words.rest(), words.offset()) =~= all);
        }
        loop
            invariant
                words.wf(),
                word_views(out@) + words_spec(words.rest(), words.offset()) == all,
                all == words_spec(self.rest(), self.offset()),
            decreases words.rest().len(),
        {
            let ghost b = words.rest();
            let ghost n = words.offset();
            proof {
                lemma_next_start_bounds(b, 0);
                let s = next_start(b, 0);
                if s < b.len() {
                    lemma_next_end_bounds(b, s + 1);
                }
            }
            match words.next() {
                None => {
                    proof {
                        assert(next_start(words.rest(), 0) == 0);
                        assert(words_spec(words.rest(), words.offset()) =~= Seq::empty());
                        assert(word_views(out@) =~= all);
                    }
                    return out;
                },
                Some(w) => {
                    let ghost o0 = out@;
                    out.push(w);
                    proof {
                        assert(word_views(out@) =~= word_views(o0) + seq![(w.0 as int, w.1.spec_bytes())]);
                    }
                },
            }
        }
    }
}

} // verus!
