//! Numbers and padding as text.

use vstd::prelude::*;

verus! {

/// The decimal numeral of `n`, without leading zeros.
pub open spec fn digits(n: nat) -> Seq<char>
    decreases n,
{
    if n < 10 {
        seq!["0123456789"@[n as int]]
    } else {
        digits(n / 10).push("0123456789"@[(n % 10) as int])
    }
}

/// `n` blanks.
pub open spec fn blanks(n: nat) -> Seq<char> {
    Seq::new(n, |i: int| ' ')
}

/// `s`, moved to the right edge of a field of `width` columns.
pub open spec fn right_aligned(s: Seq<char>, width: nat) -> Seq<char> {
    if s.len() < width {
        blanks((width - s.len()) as nat) + s
    } else {
        s
    }
}

/// Writes a number in decimal.
pub fn decimal(n: u64) -> (s: String)
    ensures
        s@ == digits(n as nat),
    decreases n,
{
    let figures = "0123456789";
    proof {
        reveal_strlit("0123456789");
    }
    if n < 10 {
        let s = figures.substring_char(n as usize, n as usize + 1).to_owned();
        assert(s@ =~= digits(n as nat));
        s
    } else {
        let mut s = decimal(n / 10);
        let d: usize = (n % 10) as usize;
        s.append(figures.substring_char(d, d + 1));
        assert(s@ =~= digits(n as nat));
        s
    }
}

/// A string of `n` blanks.
pub fn spaces(n: usize) -> (s: String)
    ensures
        s@ == blanks(n as nat),
{
    let mut s = String::new();
    let mut i: usize = 0;
    while i < n
        invariant
            i <= n,
            s@ == blanks(i as nat),
        decreases n - i,
    {
        s.append(" ");
        i = i + 1;
        proof {
            reveal_strlit(" ");
        }
        assert(s@ =~= blanks(i as nat));
    }
    s
}

/// Right-aligns a text in a field of `width` columns; a longer text stays as it is.
pub fn pad_left(text: &str, width: usize) -> (s: String)
    ensures
        s@ == right_aligned(text@, width as nat),
{
    let n: usize = text.unicode_len();
    if n < width {
        let mut s = spaces(width - n);
        s.append(text);
        s
    } else {
        text.to_owned()
    }
}

/// The number that a numeral stands for.
pub open spec fn value(s: Seq<char>) -> int
    decreases s.len(),
{
    if s.len() == 0 {
        0
    } else {
        10 * value(s.drop_last()) + (s.last() as int - '0' as int)
    }
}

/// A number is read back from its numeral.
pub proof fn law_numeral_reads_back(n: nat)
    ensures
        value(digits(n)) == n,
        digits(n).len() >= 1,
        forall|i: int| 0 <= i < digits(n).len() ==> '0' <= #[trigger] digits(n)[i] <= '9',
    decreases n,
{
    reveal_strlit("0123456789");
    if n < 10 {
        assert(digits(n).drop_last() =~= Seq::empty());
        assert(value(digits(n).drop_last()) == 0);
    } else {
        law_numeral_reads_back(n / 10);
        assert(digits(n).drop_last() =~= digits(n / 10));
    }
}

} // verus!
