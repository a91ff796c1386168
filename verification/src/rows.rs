//! The display rows of the table: a fixed-width tuple of strings per row,
//! and the height (in terminal lines) that a row needs when drawn.

use vstd::prelude::*;
use vstd::string::*;

verus! {

/// One entry of the table: three display strings, immutable after
/// construction.
#[derive(Clone)]
pub struct Row {
    pub name: String,
    pub user: String,
    pub engine: String,
}

/// Number of newline characters in a sequence of characters.
pub open spec fn newline_count(s: Seq<char>) -> nat
    decreases s.len(),
{
    if s.len() == 0 {
        0
    } else {
        newline_count(s.drop_last()) + (if s.last() == '\n' {
            1nat
        } else {
            0nat
        })
    }
}

/// A string holds at most as many newlines as characters.
pub proof fn lemma_newline_count_le_len(s: Seq<char>)
    ensures
        newline_count(s) <= s.len(),
    decreases s.len(),
{
    if s.len() > 0 {
        lemma_newline_count_le_len(s.drop_last());
    }
}

/// The height a row occupies when drawn: one line more than the largest
/// newline count among its three cells.
pub open spec fn spec_row_height(r: Row) -> nat {
    let a = newline_count(r.name@);
    let b = newline_count(r.user@);
    let c = newline_count(r.engine@);
    1 + (if a >= b && a >= c {
        a
    } else if b >= c {
        b
    } else {
        c
    })
}

/// Counts the newline characters of a string.
pub fn count_newlines(s: &str) -> (n: usize)
    ensures
        n == newline_count(s@),
{
    let len = s.unicode_len();
    let mut n: usize = 0;
    let mut i: usize = 0;
    while i < len
        invariant
            i <= len,
            len == s@.len(),
            n == newline_count(s@.take(i as int)),
            n <= i,
        decreases len - i,
    {
        let c = s.get_char(i);
        if c == '\n' {
            n = n + 1;
        }
        i = i + 1;
        proof {
            assert(s@.take(i as int).drop_last() =~= s@.take(i as int - 1));
            assert(s@.take(i as int).last() == s@[i as int - 1]);
        }
    }
    proof {
        assert(s@.take(len as int) =~= s@);
    }
    n
}

impl Row {
    /// The number of terminal lines this row needs: the tallest of its
    /// three cells, where a cell with k newlines is k + 1 lines tall.
    pub fn height(&self) -> (h: usize)
        requires
            self.name@.len() < usize::MAX,
            self.user@.len() < usize::MAX,
            self.engine@.len() < usize::MAX,
        ensures
            h == spec_row_height(*self),
    {
        proof {
            lemma_newline_count_le_len(self.name@);
            lemma_newline_count_le_len(self.user@);
            lemma_newline_count_le_len(self.engine@);
        }
        let a = count_newlines(self.name.as_str());
        let b = count_newlines(self.user.as_str());
        let c = count_newlines(self.engine.as_str());
        let tallest = if a >= b && a >= c {
            a
        } else if b >= c {
            b
        } else {
            c
        };
        tallest + 1
    }
}

} // verus!
