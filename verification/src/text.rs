//! The specification of compiled query text.
//!
//! Every builder compiles to text assembled from identifiers, keywords and
//! placeholders.  The functions here define that text, character by
//! character, and the error message produced when a required field was never
//! set.  The builders' executable `compile` functions are proved to return
//! exactly this text.

use vstd::prelude::*;

verus! {

/// The keyword a column type compiles to.
pub open spec fn kind_keyword(kind: crate::column::Type) -> Seq<char> {
    match kind {
        crate::column::Type::Binary => "BLOB"@,
        crate::column::Type::Float => "REAL"@,
        crate::column::Type::Integer => "INTEGER"@,
        crate::column::Type::String => "TEXT"@,
    }
}

/// An identifier wrapped in backticks, verbatim: embedded backticks are not
/// escaped.
pub open spec fn quoted(name: Seq<char>) -> Seq<char> {
    "`"@ + name + "`"@
}

/// The chunks joined with the separator between consecutive chunks.
pub open spec fn joined(chunks: Seq<Seq<char>>, sep: Seq<char>) -> Seq<char>
    decreases chunks.len(),
{
    if chunks.len() == 0 {
        Seq::empty()
    } else if chunks.len() == 1 {
        chunks[0]
    } else {
        joined(chunks.drop_last(), sep) + sep + chunks.last()
    }
}

/// The message reported when a required builder field was never set.
pub open spec fn unset_message(field: Seq<char>) -> Seq<char> {
    "expected `"@ + field + "` to be set"@
}

/// The character a decimal digit prints as.
pub open spec fn dec_digit(d: nat) -> char {
    if d == 0 {
        '0'
    } else if d == 1 {
        '1'
    } else if d == 2 {
        '2'
    } else if d == 3 {
        '3'
    } else if d == 4 {
        '4'
    } else if d == 5 {
        '5'
    } else if d == 6 {
        '6'
    } else if d == 7 {
        '7'
    } else if d == 8 {
        '8'
    } else {
        '9'
    }
}

/// The decimal representation of a number, most significant digit first.
pub open spec fn dec_rep(n: nat) -> Seq<char>
    decreases n,
{
    if n < 10 {
        seq![dec_digit(n)]
    } else {
        dec_rep(n / 10).push(dec_digit(n % 10))
    }
}

/// One `?` placeholder per parameter.
pub open spec fn placeholders(n: nat) -> Seq<Seq<char>> {
    Seq::new(n, |i: int| "?"@)
}

/// A parenthesized group of `n` comma-separated placeholders.
pub open spec fn placeholder_group(n: nat) -> Seq<char> {
    "("@ + joined(placeholders(n), ", "@) + ")"@
}

/// The same chunk repeated `m` times.
pub open spec fn repeated(chunk: Seq<char>, m: nat) -> Seq<Seq<char>> {
    Seq::new(m, |i: int| chunk)
}

/// Unrolls `joined` by one chunk at the end of a prefix: the text of a
/// one-longer prefix extends the shorter one by the separator (when the
/// shorter one is not empty) and the added chunk.
pub proof fn lemma_joined_step(chunks: Seq<Seq<char>>, sep: Seq<char>, i: int)
    requires
        0 <= i < chunks.len(),
    ensures
        joined(chunks.take(i + 1), sep) == if i == 0 {
            chunks[0]
        } else {
            joined(chunks.take(i), sep) + sep + chunks[i]
        },
{
    let t = chunks.take(i + 1);
    assert(t.drop_last() =~= chunks.take(i));
    assert(t.last() == chunks[i]);
    if i == 0 {
        assert(t[0] == chunks[0]);
    }
}

} // verus!
