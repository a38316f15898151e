//! Names for new notebook files.

use vstd::prelude::*;

verus! {

/// The decimal digit for `d`.
pub open spec fn digit_char(d: nat) -> char {
    seq!['0', '1', '2', '3', '4', '5', '6', '7', '8', '9'][d as int]
}

/// The decimal form of `n`, without leading zeros.
pub open spec fn decimal(n: nat) -> Seq<char>
    decreases n,
{
    if n < 10 {
        seq![digit_char(n)]
    } else {
        decimal(n / 10) + seq![digit_char(n % 10)]
    }
}

/// `Untitled.ipynb` for 0, and `Untitled<n>.ipynb` otherwise.
pub open spec fn spec_untitled_name(n: nat) -> Seq<char> {
    "Untitled"@ + (if n == 0 { Seq::empty() } else { decimal(n) }) + ".ipynb"@
}

fn digit_text(d: u32) -> (r: &'static str)
    requires
        d < 10,
    ensures
        r@ == seq![digit_char(d as nat)],
{
    proof {
        reveal_strlit("0");
        reveal_strlit("1");
        reveal_strlit("2");
        reveal_strlit("3");
        reveal_strlit("4");
        reveal_strlit("5");
        reveal_strlit("6");
        reveal_strlit("7");
        reveal_strlit("8");
        reveal_strlit("9");
    }
    let r = match d {
        0 => "0",
        1 => "1",
        2 => "2",
        3 => "3",
        4 => "4",
        5 => "5",
        6 => "6",
        7 => "7",
        8 => "8",
        _ => "9",
    };
    assert(r@ =~= seq![digit_char(d as nat)]);
    r
}

fn append_decimal(out: &mut String, n: u32)
    ensures
        final(out)@ == old(out)@ + decimal(n as nat),
    decreases n,
{
    if n >= 10 {
        append_decimal(out, n / 10);
    }
    out.append(digit_text(n % 10));
}

/// The file name of the `n`-th candidate for a new notebook:
/// `Untitled.ipynb`, then `Untitled1.ipynb`, `Untitled2.ipynb`, ...
pub fn untitled_notebook_name(n: u32) -> (r: String)
    ensures
        r@ == spec_untitled_name(n as nat),
{
    let mut r = String::from_str("Untitled");
    if n > 0 {
        append_decimal(&mut r, n);
    }
    r.append(".ipynb");
    r
}

/// How many candidate names a new notebook may take, starting from
/// `Untitled.ipynb`.
pub const UNTITLED_CANDIDATES: u32 = 100;

/// The first candidate that is not taken, among the first
/// `UNTITLED_CANDIDATES` entries of `taken` (entry `i` tells whether the
/// `i`-th candidate name is in use).
pub fn first_free_untitled(taken: &Vec<bool>) -> (r: Option<u32>)
    ensures
        match r {
            Some(i) => i < UNTITLED_CANDIDATES && i < taken@.len() && !taken@[i as int]
                && forall|j: int| 0 <= j < i ==> taken@[j],
            None => forall|j: int| 0 <= j < taken@.len() && j < UNTITLED_CANDIDATES ==> taken@[j],
        },
{
    let mut i: u32 = 0;
    while i < UNTITLED_CANDIDATES && (i as usize) < taken.len()
        invariant
            i <= UNTITLED_CANDIDATES,
            i <= taken@.len(),
            forall|j: int| 0 <= j < i ==> taken@[j],
        decreases UNTITLED_CANDIDATES - i,
    {
        if !taken[i as usize] {
            return Some(i);
        }
        i = i + 1;
    }
    None
}

} // verus!
