//! Decimal rendering of unsigned integers, with a proof that the rendering is
//! injective. Temporary-file names are built from a process id and a counter;
//! their uniqueness rests on this module.
use vstd::prelude::*;
use vstd::string::StringExecFns;

verus! {

/// The character for a single decimal digit.
pub open spec fn digit_char(d: nat) -> char
    recommends
        d < 10,
{
    (('0' as u8) + d) as char
}

/// The decimal representation of `n`, most significant digit first, with no
/// leading zeros (the representation of 0 is "0").
pub open spec fn dec_str(n: nat) -> Seq<char>
    decreases n,
{
    if n < 10 {
        seq![digit_char(n)]
    } else {
        dec_str(n / 10) + seq![digit_char(n % 10)]
    }
}

pub proof fn lemma_dec_str_len(n: nat)
    ensures
        dec_str(n).len() >= 1,
        n >= 10 ==> dec_str(n).len() >= 2,
    decreases n,
{
    if n >= 10 {
        lemma_dec_str_len(n / 10);
    }
}

/// Distinct numbers have distinct decimal representations.
pub proof fn lemma_dec_str_injective(a: nat, b: nat)
    requires
        dec_str(a) == dec_str(b),
    ensures
        a == b,
    decreases a,
{
    lemma_dec_str_len(a);
    lemma_dec_str_len(b);
    if a < 10 && b < 10 {
        assert(dec_str(a) == seq![digit_char(a)]);
        assert(dec_str(b) == seq![digit_char(b)]);
        assert(seq![digit_char(a)][0] == digit_char(a));
        assert(seq![digit_char(b)][0] == digit_char(b));
        assert(digit_char(a) == digit_char(b));
        assert(digit_char(a) as u8 == digit_char(b) as u8);
        assert(('0' as u8) + a == ('0' as u8) + b);
    } else if a >= 10 && b >= 10 {
        let sa = dec_str(a / 10);
        let sb = dec_str(b / 10);
        assert(dec_str(a).len() == sa.len() + 1);
        assert(dec_str(b).len() == sb.len() + 1);
        assert(sa.len() == sb.len());
        assert(sa =~= sb) by {
            assert forall|i: int| 0 <= i < sa.len() implies sa[i] == sb[i] by {
                assert(dec_str(a)[i] == sa[i]);
                assert(dec_str(b)[i] == sb[i]);
            }
        }
        lemma_dec_str_injective(a / 10, b / 10);
        let la = dec_str(a).last();
        let lb = dec_str(b).last();
        assert(la == digit_char(a % 10));
        assert(lb == digit_char(b % 10));
        assert(la == lb);
        assert(('0' as u8) + a % 10 == ('0' as u8) + b % 10) by {
            assert(digit_char((a % 10) as nat) as u8 == digit_char((b % 10) as nat) as u8);
        }
        assert(a == 10 * (a / 10) + a % 10);
        assert(b == 10 * (b / 10) + b % 10);
    } else {
        // lengths differ: one side has one digit, the other at least two
        assert(false);
    }
}

/// A one-character string slice for the digit `d`.
fn digit_str(d: u64) -> (r: &'static str)
    requires
        d < 10,
    ensures
        r@ =~= seq![digit_char(d as nat)],
{
    proof {
        reveal_strlit("0");
        reveal_strlit("1");
        reveal_strlit("2");
        reveal_strlit("3");
        reveal_strlit("4");
        reveal_strlit("5");
        reveal_strlit("6");
        reveal_strlit("7");
        reveal_strlit("8");
        reveal_strlit("9");
    }
    match d {
        0 => "0",
        1 => "1",
        2 => "2",
        3 => "3",
        4 => "4",
        5 => "5",
        6 => "6",
        7 => "7",
        8 => "8",
        _ => "9",
    }
}

/// Renders `n` in decimal.
pub fn u64_to_string(n: u64) -> (r: String)
    ensures
        r@ == dec_str(n as nat),
    decreases n,
{
    if n < 10 {
        String::from_str(digit_str(n))
    } else {
        let high = u64_to_string(n / 10);
        let r = high.concat(digit_str(n % 10));
        assert(r@ =~= dec_str(n as nat));
        r
    }
}

} // verus!
