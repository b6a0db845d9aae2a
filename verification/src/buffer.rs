//! Executable helpers for assembling query text.

use vstd::prelude::*;

use crate::text::dec_digit;
use crate::text::dec_rep;
use crate::text::joined;
use crate::text::lemma_joined_step;
use crate::text::quoted;
use crate::text::unset_message;
use crate::Error;

verus! {

/// An ordered list of text chunks, joined on demand.
pub(crate) struct Buffer {
    chunks: Vec<String>,
}

impl View for Buffer {
    type V = Seq<Seq<char>>;

    closed spec fn view(&self) -> Seq<Seq<char>> {
        self.chunks@.map_values(|s: String| s@)
    }
}

impl Buffer {
    /// An empty buffer.
    pub(crate) fn new() -> (r: Buffer)
        ensures
            r@ == Seq::<Seq<char>>::empty(),
    {
        let r = Buffer { chunks: Vec::new() };
        proof {
            assert(r@ =~= Seq::<Seq<char>>::empty());
        }
        r
    }

    /// Append a chunk.
    pub(crate) fn push(&mut self, chunk: String)
        ensures
            final(self)@ == old(self)@.push(chunk@),
    {
        let ghost before = self@;
        self.chunks.push(chunk);
        proof {
            assert(self@ =~= before.push(chunk@));
        }
    }

    /// How many chunks are held.
    pub(crate) fn len(&self) -> (r: usize)
        ensures
            r == self@.len(),
    {
        self.chunks.len()
    }

    /// The chunks joined with the delimiter between consecutive chunks.
    pub(crate) fn join(self, delimiter: &str) -> (r: String)
        ensures
            r@ == joined(self@, delimiter@),
    {
        let mut result = String::new();
        let n = self.chunks.len();
        let mut i: usize = 0;
        while i < n
            invariant
                i <= n,
                n == self.chunks.len(),
                result@ == joined(self@.take(i as int), delimiter@),
            decreases n - i,
        {
            if i > 0 {
                result.append(delimiter);
            }
            result.append(self.chunks[i].as_str());
            proof {
                lemma_joined_step(self@, delimiter@, i as int);
            }
            i += 1;
        }
        proof {
            assert(self@.take(n as int) =~= self@);
        }
        result
    }
}

/// The identifier wrapped in backticks.
pub(crate) fn quote(name: &str) -> (r: String)
    ensures
        r@ == quoted(name@),
{
    let mut r = String::from_str("`");
    r.append(name);
    r.append("`");
    r
}

/// The error reported when a required builder field was never set.
pub(crate) fn unset_error(field: &str) -> (e: Error)
    ensures
        e@ == unset_message(field@),
{
    let mut m = String::from_str("expected `");
    m.append(field);
    m.append("` to be set");
    Error::new(m)
}

/// The one-character string a decimal digit prints as.
fn digit_str(d: usize) -> (r: &'static str)
    requires
        d < 10,
    ensures
        r@ == seq![dec_digit(d as nat)],
{
    let r = if d == 0 {
        "0"
    } else if d == 1 {
        "1"
    } else if d == 2 {
        "2"
    } else if d == 3 {
        "3"
    } else if d == 4 {
        "4"
    } else if d == 5 {
        "5"
    } else if d == 6 {
        "6"
    } else if d == 7 {
        "7"
    } else if d == 8 {
        "8"
    } else {
        "9"
    };
    proof {
        reveal_strlit("0");
        reveal_strlit("1");
        reveal_strlit("2");
        reveal_strlit("3");
        reveal_strlit("4");
        reveal_strlit("5");
        reveal_strlit("6");
        reveal_strlit("7");
        reveal_strlit("8");
        reveal_strlit("9");
        assert(r@ =~= seq![dec_digit(d as nat)]);
    }
    r
}

/// The decimal representation of a number.
pub(crate) fn decimal(n: usize) -> (r: String)
    ensures
        r@ == dec_rep(n as nat),
    decreases n,
{
    if n < 10 {
        String::from_str(digit_str(n))
    } else {
        let mut r = decimal(n / 10);
        r.append(digit_str(n % 10));
        proof {
            assert(dec_rep((n / 10) as nat).push(dec_digit((n % 10) as nat)) =~= dec_rep(
                (n / 10) as nat,
            ) + seq![dec_digit((n % 10) as nat)]);
        }
        r
    }
}

} // verus!
