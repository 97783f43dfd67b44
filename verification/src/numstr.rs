use vstd::prelude::*;
use vstd::string::StringExecFns;

verus! {

/// The decimal digit character for `d`.
pub open spec fn dec_digit(d: nat) -> char
    recommends
        d < 10,
{
    (('0' as u32) + d as u32) as char
}

/// The canonical decimal representation of `n`, with no leading zeros.
pub open spec fn dec_str(n: nat) -> Seq<char>
    decreases n,
{
    if n < 10 {
        seq![dec_digit(n)]
    } else {
        dec_str(n / 10) + seq![dec_digit(n % 10)]
    }
}

/// The digit characters of `ds`, least-significant first in `ds`,
/// most-significant first in the result.
pub open spec fn digits_chars(ds: Seq<u64>) -> Seq<char>
    decreases ds.len(),
{
    if ds.len() == 0 {
        Seq::empty()
    } else {
        seq![dec_digit(ds.last() as nat)] + digits_chars(ds.drop_last())
    }
}

fn digit_str(d: u64) -> (r: &'static str)
    requires
        d < 10,
    ensures
        r@ == seq![dec_digit(d as nat)],
{
    proof {
        reveal_strlit("0");
        reveal_strlit("1");
        reveal_strlit("2");
        reveal_strlit("3");
        reveal_strlit("4");
        reveal_strlit("5");
        reveal_strlit("6");
        reveal_strlit("7");
        reveal_strlit("8");
        reveal_strlit("9");
    }
    match d {
        0 => "0",
        1 => "1",
        2 => "2",
        3 => "3",
        4 => "4",
        5 => "5",
        6 => "6",
        7 => "7",
        8 => "8",
        _ => "9",
    }
}

/// Renders `n` in decimal, the form every outbound tag takes.
pub fn u64_to_string(n: u64) -> (r: String)
    ensures
        r@ == dec_str(n as nat),
{
    let mut digits: Vec<u64> = Vec::new();
    let mut m: u64 = n;
    proof {
        assert(dec_str(n as nat) =~= dec_str(n as nat) + digits_chars(digits@));
    }
    loop
        invariant_except_break
            dec_str(n as nat) == dec_str(m as nat) + digits_chars(digits@),
        invariant
            forall|i: int| 0 <= i < digits@.len() ==> digits@[i] < 10,
        ensures
            dec_str(n as nat) == digits_chars(digits@),
        decreases m,
    {
        let d: u64 = m % 10;
        let below_ten: bool = m < 10;
        m = m / 10;
        let ghost pre = digits@;
        digits.push(d);
        proof {
            assert(digits@.last() == d);
            assert(digits@.drop_last() =~= pre);
            assert(digits_chars(digits@) =~= seq![dec_digit(d as nat)] + digits_chars(pre));
        }
        if below_ten {
            proof {
                assert(dec_str(n as nat) =~= digits_chars(digits@));
            }
            break;
        }
        proof {
            assert(dec_str(n as nat) =~= dec_str(m as nat) + digits_chars(digits@));
        }
    }
    let mut r = String::new();
    let mut i: usize = digits.len();
    proof {
        assert(digits@.take(i as int) =~= digits@);
        assert(r@ + digits_chars(digits@.take(i as int)) =~= digits_chars(digits@));
    }
    while i > 0
        invariant
            i <= digits@.len(),
            forall|j: int| 0 <= j < digits@.len() ==> digits@[j] < 10,
            r@ + digits_chars(digits@.take(i as int)) == digits_chars(digits@),
        decreases i,
    {
        i = i - 1;
        let d = digits[i];
        r.append(digit_str(d));
        proof {
            assert(digits@.take(i + 1).last() == digits@[i as int]);
            assert(digits@.take(i + 1).drop_last() =~= digits@.take(i as int));
            assert(digits_chars(digits@.take(i + 1)) =~= seq![dec_digit(digits@[i as int] as nat)]
                + digits_chars(digits@.take(i as int)));
            assert(r@ + digits_chars(digits@.take(i as int)) =~= digits_chars(digits@));
        }
    }
    proof {
        assert(digits_chars(digits@.take(0)) =~= Seq::<char>::empty());
        assert(r@ =~= r@ + digits_chars(digits@.take(0)));
    }
    r
}

} // verus!

verus! {

pub open spec fn spec_is_digit(c: char) -> bool {
    '0' <= c && c <= '9'
}

pub open spec fn spec_digit_val(c: char) -> nat {
    (c as int - '0' as int) as nat
}

pub open spec fn spec_all_digits(t: Seq<char>) -> bool {
    forall|i: int| 0 <= i < t.len() ==> spec_is_digit(t[i])
}

/// The number a digit string denotes.
pub open spec fn spec_dec_val(t: Seq<char>) -> nat
    decreases t.len(),
{
    if t.len() == 0 {
        0
    } else {
        spec_dec_val(t.drop_last()) * 10 + spec_digit_val(t.last())
    }
}

/// The number a canonical decimal string denotes: digits only, no redundant
/// leading zero, within range.  Exactly the strings `dec_str` produces.
pub open spec fn spec_num_u64(t: Seq<char>) -> Option<u64> {
    if t.len() > 0 && spec_all_digits(t) && (t[0] != '0' || t.len() == 1) && spec_dec_val(t)
        <= u64::MAX {
        Some(spec_dec_val(t) as u64)
    } else {
        None
    }
}

/// Rendering a number and reading it back yields the number: the decimal tag
/// form is canonical.
pub proof fn lemma_dec_str_canonical(n: u64)
    ensures
        spec_num_u64(dec_str(n as nat)) == Some(n),
    decreases n,
{
    lemma_dec_str_shape(n as nat);
}

proof fn lemma_dec_str_shape(n: nat)
    ensures
        dec_str(n).len() > 0,
        spec_all_digits(dec_str(n)),
        dec_str(n)[0] != '0' || dec_str(n).len() == 1,
        spec_dec_val(dec_str(n)) == n,
    decreases n,
{
    if n < 10 {
        let t = dec_str(n);
        assert(t =~= seq![dec_digit(n)]);
        assert(t.drop_last() =~= Seq::<char>::empty());
        assert(t.last() == dec_digit(n));
        assert(spec_is_digit(dec_digit(n)));
        assert(spec_dec_val(t) == spec_dec_val(Seq::<char>::empty()) * 10 + spec_digit_val(
            dec_digit(n),
        ));
        assert(spec_digit_val(dec_digit(n)) == n);
    } else {
        lemma_dec_str_shape(n / 10);
        let t = dec_str(n);
        let h = dec_str(n / 10);
        assert(t == h + seq![dec_digit(n % 10)]);
        assert(t.drop_last() =~= h);
        assert(t.last() == dec_digit(n % 10));
        assert(spec_digit_val(dec_digit(n % 10)) == n % 10);
        assert(spec_dec_val(t) == (n / 10) * 10 + n % 10);
        assert((n / 10) * 10 + n % 10 == n) by (nonlinear_arith);
        assert forall|i: int| 0 <= i < t.len() implies spec_is_digit(t[i]) by {
            if i < h.len() {
                assert(t[i] == h[i]);
            } else {
                assert(t[i] == dec_digit(n % 10));
            }
        }
        assert(t[0] == h[0]);
        assert(h.len() >= 1);
        if n / 10 < 10 {
            assert(h =~= seq![dec_digit(n / 10)]);
            assert(n / 10 >= 1);
            assert(h[0] == dec_digit(n / 10));
            assert(dec_digit(n / 10) as u32 == '0' as u32 + (n / 10) as u32);
            assert(h[0] != '0');
        } else {
            assert(dec_str(n / 100).len() >= 1);
            assert(h.len() >= 2);
        }
    }
}

} // verus!

verus! {

proof fn lemma_dec_val_mono(t: Seq<char>, i: int)
    requires
        0 <= i <= t.len(),
    ensures
        spec_dec_val(t) >= spec_dec_val(t.take(i)),
    decreases t.len() - i,
{
    if i < t.len() {
        assert(t.take(i + 1).drop_last() =~= t.take(i));
        assert(t.take(i + 1).last() == t[i]);
        let v = spec_dec_val(t.take(i));
        assert(spec_dec_val(t.take(i + 1)) == v * 10 + spec_digit_val(t[i]));
        assert(v * 10 >= v) by (nonlinear_arith);
        lemma_dec_val_mono(t, i + 1);
        assert(t.take(t.len() as int) =~= t);
    } else {
        assert(t.take(i) =~= t);
    }
}

/// Reads a tag back as a number: accepts exactly the canonical decimal forms
/// `u64_to_string` produces.
pub fn parse_u64_dec(s: &str) -> (r: Option<u64>)
    ensures
        r == spec_num_u64(s@),
{
    let n = s.unicode_len();
    if n == 0 {
        return None;
    }
    if n > 1 && s.get_char(0) == '0' {
        return None;
    }
    let mut val: u64 = 0;
    let mut i: usize = 0;
    proof {
        assert(s@.take(0) =~= Seq::<char>::empty());
    }
    while i < n
        invariant
            i <= n,
            n == s@.len(),
            n > 0,
            n > 1 ==> s@[0] != '0',
            val == spec_dec_val(s@.take(i as int)),
            forall|m: int| 0 <= m < i ==> spec_is_digit(s@[m]),
        decreases n - i,
    {
        let c = s.get_char(i);
        if !('0' <= c && c <= '9') {
            return None;
        }
        let d: u64 = (c as u32 as u64) - 48;
        proof {
            assert(s@.take(i + 1).drop_last() =~= s@.take(i as int));
            assert(s@.take(i + 1).last() == s@[i as int]);
            assert(d == spec_digit_val(c));
        }
        if val > (u64::MAX - d) / 10 {
            proof {
                let w = spec_dec_val(s@.take(i + 1));
                assert(w == val * 10 + d);
                assert(val * 10 + d > u64::MAX) by (nonlinear_arith)
                    requires
                        val > (u64::MAX - d) / 10,
                        d < 10,
                ;
                lemma_dec_val_mono(s@, i + 1);
            }
            return None;
        }
        val = val * 10 + d;
        i = i + 1;
    }
    proof {
        assert(s@.take(n as int) =~= s@);
    }
    Some(val)
}

} // verus!
