//! Decimal rendering of counters and labels, as the screens print them.
use vstd::prelude::*;
use vstd::string::*;

verus! {

/// The character that stands for the decimal digit `d`.
pub open spec fn digit_char(d: nat) -> char
    recommends
        d < 10,
{
    (48 + d) as char
}

/// The decimal representation of `n`, most significant digit first, no leading zeros.
pub open spec fn decimal(n: nat) -> Seq<char>
    decreases n,
{
    if n < 10 {
        seq![digit_char(n)]
    } else {
        decimal(n / 10).push(digit_char(n % 10))
    }
}

/// `decimal(n)` left-padded with `'0'` up to `width` characters.
pub open spec fn zero_padded(n: nat, width: nat) -> Seq<char> {
    let d = decimal(n);
    if d.len() < width {
        Seq::new((width - d.len()) as nat, |_i: int| '0') + d
    } else {
        d
    }
}

/// A padded number is at least `width` characters long, and exactly as long
/// as its digits when those already fill the width.
pub proof fn law_zero_padded_length(n: nat, width: nat)
    ensures
        zero_padded(n, width).len() == if decimal(n).len() < width {
            width
        } else {
            decimal(n).len()
        },
{
}

/// Appends one character to a `String`. Trusted: it calls std's
/// `String::push`, which std documents as appending the given `char` to the
/// end of the string; the contract claims exactly that of the string's view.
#[verifier::external_body]
pub(crate) fn push_char(s: &mut String, c: char)
    ensures
        final(s)@ == old(s)@.push(c),
{
    s.push(c);
}

fn digit(d: u64) -> (c: char)
    requires
        d < 10,
    ensures
        c == digit_char(d as nat),
{
    let b: u8 = 48u8 + (d as u8);
    b as char
}

/// Appends the decimal representation of `n` to `s`.
pub fn push_decimal(s: &mut String, n: u64)
    ensures
        final(s)@ == old(s)@ + decimal(n as nat),
    decreases n,
{
    if n >= 10 {
        push_decimal(s, n / 10);
    }
    push_char(s, digit(n % 10));
    proof {
        if n >= 10 {
            assert(decimal(n as nat) == decimal((n / 10) as nat).push(digit_char((n % 10) as nat)));
        }
    }
}


proof fn lemma_decimal_len(n: nat)
    ensures
        decimal(n).len() >= 1,
        n < 10 ==> decimal(n).len() == 1,
        n >= 10 ==> decimal(n).len() == decimal(n / 10).len() + 1,
    decreases n,
{
    if n >= 10 {
        lemma_decimal_len(n / 10);
    }
}

spec fn ten_pow(k: nat) -> nat
    decreases k,
{
    if k == 0 {
        1
    } else {
        10 * ten_pow((k - 1) as nat)
    }
}

proof fn lemma_decimal_len_bound(n: nat, k: nat)
    requires
        k >= 1,
        n < ten_pow(k),
    ensures
        decimal(n).len() <= k,
    decreases n,
{
    lemma_decimal_len(n);
    if n >= 10 {
        let t = ten_pow((k - 1) as nat);
        if k == 1 {
            assert(ten_pow(1) == 10) by {
                reveal_with_fuel(ten_pow, 2);
            }
        }
        assert(n / 10 < t) by (nonlinear_arith)
            requires
                n < 10 * t,
        ;
        lemma_decimal_len_bound(n / 10, (k - 1) as nat);
    }
}

/// The number of decimal digits of `n`.
pub fn decimal_len(n: u64) -> (len: usize)
    ensures
        len == decimal(n as nat).len(),
        1 <= len <= 20,
    decreases n,
{
    proof {
        lemma_decimal_len(n as nat);
        assert(ten_pow(20) == 100000000000000000000) by {
            reveal_with_fuel(ten_pow, 21);
        }
        lemma_decimal_len_bound(n as nat, 20);
    }
    if n < 10 {
        1
    } else {
        let l = decimal_len(n / 10);
        l + 1
    }
}

/// The decimal representation of `n` as a new string.
pub fn decimal_string(n: u64) -> (s: String)
    ensures
        s@ == decimal(n as nat),
{
    let mut s = String::new();
    push_decimal(&mut s, n);
    proof {
        assert(s@ =~= decimal(n as nat));
    }
    s
}

/// Appends `n` in decimal, left-padded with zeros to `width` characters
/// (what `format!("{:0width$}", n)` prints).
pub fn push_zero_padded(s: &mut String, n: u64, width: usize)
    ensures
        final(s)@ == old(s)@ + zero_padded(n as nat, width as nat),
{
    let len = decimal_len(n);
    let ghost start = s@;
    if len < width {
        let pad = width - len;
        let mut i: usize = 0;
        while i < pad
            invariant
                i <= pad,
                s@ == start + Seq::new(i as nat, |_j: int| '0'),
            decreases pad - i,
        {
            push_char(s, '0');
            i = i + 1;
            proof {
                assert(s@ =~= start + Seq::new(i as nat, |_j: int| '0'));
            }
        }
        let ghost mid = s@;
        push_decimal(s, n);
        proof {
            assert(s@ =~= start + zero_padded(n as nat, width as nat));
        }
    } else {
        push_decimal(s, n);
    }
}

} // verus!
