//! Verified text utilities: substring search (used to recognize error
//! signatures and process command lines) and decimal parsing (used for the
//! port override).

use vstd::prelude::*;

verus! {

/// `pat` occurs in `s` starting at position `i`.
pub open spec fn spec_match_at(s: Seq<char>, pat: Seq<char>, i: int) -> bool {
    0 <= i && i + pat.len() <= s.len() && s.subrange(i, i + pat.len()) == pat
}

/// `pat` occurs somewhere in `s`.
pub open spec fn spec_contains(s: Seq<char>, pat: Seq<char>) -> bool {
    exists|i: int| spec_match_at(s, pat, i)
}

fn match_at(s: &str, pat: &str, i: usize) -> (r: bool)
    requires
        i + pat@.len() <= s@.len(),
        s@.len() <= usize::MAX,
    ensures
        r == spec_match_at(s@, pat@, i as int),
{
    let n = pat.unicode_len();
    let mut j: usize = 0;
    while j < n
        invariant
            j <= n,
            n == pat@.len(),
            i + n <= s@.len(),
            s@.len() <= usize::MAX,
            forall|k: int| 0 <= k < j ==> s@[i + k] == pat@[k],
        decreases n - j,
    {
        if s.get_char(i + j) != pat.get_char(j) {
            proof {
                assert(s@.subrange(i as int, i as int + pat@.len())[j as int] == s@[i + j]);
            }
            return false;
        }
        j += 1;
    }
    proof {
        assert(s@.subrange(i as int, i as int + pat@.len()) =~= pat@);
    }
    true
}

/// Substring search: true exactly when `pat` occurs contiguously in `s`.
pub fn contains_sub(s: &str, pat: &str) -> (r: bool)
    ensures
        r == spec_contains(s@, pat@),
{
    let n = s.unicode_len();
    let m = pat.unicode_len();
    if m > n {
        return false;
    }
    if m == 0 {
        proof {
            assert(s@.subrange(0, 0) =~= pat@);
            assert(spec_match_at(s@, pat@, 0));
        }
        return true;
    }
    let mut i: usize = 0;
    while i <= n - m
        invariant
            0 < m <= n,
            n == s@.len(),
            m == pat@.len(),
            i <= n - m + 1,
            forall|k: int| 0 <= k < i ==> !spec_match_at(s@, pat@, k),
        decreases n - i,
    {
        if match_at(s, pat, i) {
            return true;
        }
        i += 1;
    }
    proof {
        assert forall|k: int| !spec_match_at(s@, pat@, k) by {
            if k >= i {
                assert(k + m > n);
            }
        }
    }
    false
}

/// Character-wise string equality.
pub fn str_eq(a: &str, b: &str) -> (r: bool)
    ensures
        r == (a@ == b@),
{
    let n = a.unicode_len();
    if n != b.unicode_len() {
        return false;
    }
    let mut i: usize = 0;
    while i < n
        invariant
            i <= n,
            n == a@.len(),
            n == b@.len(),
            forall|k: int| 0 <= k < i ==> a@[k] == b@[k],
        decreases n - i,
    {
        if a.get_char(i) != b.get_char(i) {
            return false;
        }
        i += 1;
    }
    proof {
        assert(a@ =~= b@);
    }
    true
}

/// `c` is a decimal digit.
pub open spec fn spec_is_digit(c: char) -> bool {
    '0' as int <= c as int && c as int <= '9' as int
}

pub open spec fn spec_digit_val(c: char) -> int {
    c as int - '0' as int
}

/// Every character of `s` is a decimal digit.
pub open spec fn spec_all_digits(s: Seq<char>) -> bool {
    forall|i: int| 0 <= i < s.len() ==> spec_is_digit(#[trigger] s[i])
}

/// The value of `s` read as a decimal numeral.
pub open spec fn spec_decimal_val(s: Seq<char>) -> int
    decreases s.len(),
{
    if s.len() == 0 {
        0
    } else {
        spec_decimal_val(s.drop_last()) * 10 + spec_digit_val(s.last())
    }
}

proof fn lemma_decimal_val_nonneg(s: Seq<char>)
    requires
        spec_all_digits(s),
    ensures
        spec_decimal_val(s) >= 0,
    decreases s.len(),
{
    if s.len() > 0 {
        assert(spec_all_digits(s.drop_last())) by {
            assert(forall|i: int| 0 <= i < s.len() - 1 ==> s.drop_last()[i] == #[trigger] s[i]);
        }
        lemma_decimal_val_nonneg(s.drop_last());
    }
}

/// A longer digit prefix never has a smaller value.
proof fn lemma_decimal_prefix_le(s: Seq<char>, i: int, j: int)
    requires
        spec_all_digits(s),
        0 <= i <= j <= s.len(),
    ensures
        spec_decimal_val(s.take(i)) <= spec_decimal_val(s.take(j)),
    decreases j - i,
{
    if i < j {
        lemma_decimal_prefix_le(s, i, j - 1);
        let p = s.take(j);
        assert(p.drop_last() =~= s.take(j - 1));
        assert(spec_all_digits(p)) by {
            assert(forall|k: int| 0 <= k < j ==> p[k] == #[trigger] s[k]);
        }
        lemma_decimal_val_nonneg(p.drop_last());
        assert(spec_decimal_val(p) == spec_decimal_val(p.drop_last()) * 10 + spec_digit_val(p.last()));
        assert(spec_digit_val(p.last()) >= 0);
    }
}

/// Parses `s` as a decimal `u16`. Returns the value exactly when `s` is a
/// non-empty string of decimal digits whose value fits in `u16`; returns
/// `None` otherwise.
pub fn parse_u16(s: &str) -> (r: Option<u16>)
    ensures
        r is Some <==> s@.len() > 0 && spec_all_digits(s@) && spec_decimal_val(s@) <= u16::MAX,
        r is Some ==> r->Some_0 as int == spec_decimal_val(s@),
{
    let n = s.unicode_len();
    if n == 0 {
        return None;
    }
    let mut acc: u32 = 0;
    let mut i: usize = 0;
    while i < n
        invariant
            i <= n,
            n == s@.len(),
            n > 0,
            spec_all_digits(s@.take(i as int)),
            acc as int == spec_decimal_val(s@.take(i as int)),
            acc <= u16::MAX,
        decreases n - i,
    {
        let c = s.get_char(i);
        let cu = c as u32;
        if cu < 48 || cu > 57 {
            return None;
        }
        let d: u32 = cu - 48;
        proof {
            assert(s@.take(i + 1).drop_last() =~= s@.take(i as int));
            assert(s@.take(i + 1).last() == s@[i as int]);
            assert(spec_all_digits(s@.take(i + 1)));
        }
        let next: u32 = acc * 10 + d;
        if next > 65535 {
            proof {
                if spec_all_digits(s@) {
                    lemma_decimal_prefix_le(s@, i + 1, n as int);
                    assert(s@.take(n as int) =~= s@);
                }
            }
            return None;
        }
        acc = next;
        i += 1;
    }
    proof {
        assert(s@.take(n as int) =~= s@);
    }
    Some(acc as u16)
}

/// Parses `s` as a decimal `u32`. Returns the value exactly when `s` is a
/// non-empty string of decimal digits whose value fits in `u32`; returns
/// `None` otherwise.
pub fn parse_u32(s: &str) -> (r: Option<u32>)
    ensures
        r is Some <==> s@.len() > 0 && spec_all_digits(s@) && spec_decimal_val(s@) <= u32::MAX,
        r is Some ==> r->Some_0 as int == spec_decimal_val(s@),
{
    let n = s.unicode_len();
    if n == 0 {
        return None;
    }
    let mut acc: u64 = 0;
    let mut i: usize = 0;
    while i < n
        invariant
            i <= n,
            n == s@.len(),
            n > 0,
            spec_all_digits(s@.take(i as int)),
            acc as int == spec_decimal_val(s@.take(i as int)),
            acc <= u32::MAX,
        decreases n - i,
    {
        let c = s.get_char(i);
        let cu = c as u32;
        if cu < 48 || cu > 57 {
            return None;
        }
        let d: u64 = (cu - 48) as u64;
        proof {
            assert(s@.take(i + 1).drop_last() =~= s@.take(i as int));
            assert(s@.take(i + 1).last() == s@[i as int]);
            assert(spec_all_digits(s@.take(i + 1)));
        }
        let next: u64 = acc * 10 + d;
        if next > 0xffffffff {
            proof {
                if spec_all_digits(s@) {
                    lemma_decimal_prefix_le(s@, i + 1, n as int);
                    assert(s@.take(n as int) =~= s@);
                }
            }
            return None;
        }
        acc = next;
        i += 1;
    }
    proof {
        assert(s@.take(n as int) =~= s@);
    }
    Some(acc as u32)
}

/// Ten to the `n`.
pub open spec fn pow10(n: nat) -> int
    decreases n,
{
    if n == 0 {
        1
    } else {
        10 * pow10((n - 1) as nat)
    }
}

proof fn lemma_pow10_pos(n: nat)
    ensures
        pow10(n) >= 1,
    decreases n,
{
    if n > 0 {
        lemma_pow10_pos((n - 1) as nat);
    }
}

/// Prepending a digit multiplies its place value by ten to the length.
proof fn lemma_decimal_val_prepend(c: char, s: Seq<char>)
    ensures
        spec_decimal_val(seq![c] + s) == spec_digit_val(c) * pow10(s.len()) + spec_decimal_val(s),
    decreases s.len(),
{
    if s.len() == 0 {
        assert(seq![c] + s =~= seq![c]);
        assert((seq![c]).drop_last() =~= Seq::<char>::empty());
        assert((seq![c]).last() == c);
        assert(spec_decimal_val(Seq::<char>::empty()) == 0);
        assert(spec_decimal_val(seq![c]) == spec_decimal_val((seq![c]).drop_last()) * 10
            + spec_digit_val((seq![c]).last()));
        assert(pow10(0) == 1);
        assert(s =~= Seq::<char>::empty());
    } else {
        let w = seq![c] + s;
        assert(w.drop_last() =~= seq![c] + s.drop_last());
        lemma_decimal_val_prepend(c, s.drop_last());
        assert(w.last() == s.last());
        assert(spec_decimal_val(w) == spec_decimal_val(w.drop_last()) * 10 + spec_digit_val(
            w.last(),
        ));
        let a = spec_digit_val(c);
        let p = pow10((s.len() - 1) as nat);
        assert(pow10(s.len()) == 10 * p);
        assert(a * (10 * p) == (a * p) * 10) by (nonlinear_arith);
        assert(spec_decimal_val(w) == (a * p + spec_decimal_val(s.drop_last())) * 10
            + spec_digit_val(s.last()));
        assert(spec_decimal_val(s) == spec_decimal_val(s.drop_last()) * 10 + spec_digit_val(
            s.last(),
        ));
    }
}

/// The character of one decimal digit.
pub open spec fn spec_digit_char(d: int) -> char {
    if d == 0 {
        '0'
    } else if d == 1 {
        '1'
    } else if d == 2 {
        '2'
    } else if d == 3 {
        '3'
    } else if d == 4 {
        '4'
    } else if d == 5 {
        '5'
    } else if d == 6 {
        '6'
    } else if d == 7 {
        '7'
    } else if d == 8 {
        '8'
    } else {
        '9'
    }
}

/// The decimal rendering of `v`: most significant digit first, no leading
/// zeros.
pub open spec fn spec_digits_of(v: nat) -> Seq<char>
    decreases v,
{
    if v < 10 {
        seq![spec_digit_char(v as int)]
    } else {
        spec_digits_of(v / 10).push(spec_digit_char((v % 10) as int))
    }
}

fn digit_str(d: u64) -> (r: &'static str)
    requires
        d < 10,
    ensures
        r@.len() == 1,
        spec_is_digit(r@[0]),
        spec_digit_val(r@[0]) == d as int,
        r@ == seq![spec_digit_char(d as int)],
{
    proof {
        reveal_strlit("0");
        reveal_strlit("1");
        reveal_strlit("2");
        reveal_strlit("3");
        reveal_strlit("4");
        reveal_strlit("5");
        reveal_strlit("6");
        reveal_strlit("7");
        reveal_strlit("8");
        reveal_strlit("9");
    }
    let r: &'static str = if d == 0 {
        "0"
    } else if d == 1 {
        "1"
    } else if d == 2 {
        "2"
    } else if d == 3 {
        "3"
    } else if d == 4 {
        "4"
    } else if d == 5 {
        "5"
    } else if d == 6 {
        "6"
    } else if d == 7 {
        "7"
    } else if d == 8 {
        "8"
    } else {
        "9"
    };
    proof {
        assert(r@ =~= seq![spec_digit_char(d as int)]);
    }
    r
}

/// Renders `v` in decimal: the unique digit string without leading zeros
/// whose value is `v`.
pub fn u16_to_string(v: u16) -> (r: String)
    ensures
        r@ == spec_digits_of(v as nat),
        r@.len() > 0,
        spec_all_digits(r@),
        spec_decimal_val(r@) == v as int,
        r@[0] == '0' ==> r@.len() == 1,
{
    if v == 0 {
        let r = String::from_str(digit_str(0));
        proof {
            assert(r@.drop_last() =~= Seq::<char>::empty());
            assert(r@.last() == r@[0]);
            assert(spec_decimal_val(r@) == spec_decimal_val(r@.drop_last()) * 10 + spec_digit_val(
                r@.last(),
            ));
            assert(r@ =~= spec_digits_of(0));
        }
        return r;
    }
    let mut acc = String::new();
    let mut x: u64 = v as u64;
    while x > 0
        invariant
            x <= u16::MAX,
            spec_all_digits(acc@),
            x as int * pow10(acc@.len()) + spec_decimal_val(acc@) == v as int,
            acc@.len() > 0 ==> (x == 0 ==> acc@[0] != '0'),
            x == 0 ==> acc@.len() > 0,
            x > 0 ==> spec_digits_of(v as nat) == spec_digits_of(x as nat) + acc@,
            x == 0 ==> spec_digits_of(v as nat) == acc@,
        decreases x,
    {
        let d = x % 10;
        let ghost acc0 = acc@;
        let piece = digit_str(d);
        let next_acc = piece.to_owned().concat(acc.as_str());
        proof {
            assert(next_acc@ =~= seq![piece@[0]] + acc0);
            lemma_decimal_val_prepend(piece@[0], acc0);
            lemma_pow10_pos(acc0.len());
            assert(spec_all_digits(next_acc@)) by {
                assert(forall|i: int| 0 <= i < next_acc@.len() ==> #[trigger] next_acc@[i]
                    == (seq![piece@[0]] + acc0)[i]);
            }
            let ghost q = (x as int) / 10;
            let ghost w = (x as int) % 10;
            let ghost p = pow10(acc0.len());
            assert(x as int == q * 10 + w);
            assert(pow10(acc0.len() + 1) == 10 * p);
            assert(spec_decimal_val(next_acc@) == w * p + spec_decimal_val(acc0));
            assert(q * (10 * p) + w * p == (q * 10 + w) * p) by (nonlinear_arith);
            assert((q * 10 + w) * p == (x as int) * p);
            assert(q * pow10(acc0.len() + 1) + spec_decimal_val(next_acc@) == v as int);
        }
        proof {
            if x >= 10 {
                assert(spec_digits_of(x as nat) == spec_digits_of((x as nat) / 10).push(
                    spec_digit_char(((x as nat) % 10) as int),
                ));
                assert(spec_digits_of((x as nat) / 10) + (seq![spec_digit_char(d as int)] + acc0)
                    =~= spec_digits_of(x as nat) + acc0);
                assert((x as nat) / 10 == ((x / 10) as u64) as nat);
            } else {
                assert(spec_digits_of(x as nat) == seq![spec_digit_char(x as int)]);
                assert(seq![spec_digit_char(d as int)] + acc0 =~= spec_digits_of(x as nat) + acc0);
            }
        }
        acc = next_acc;
        x = x / 10;
        proof {
            if x == 0 {
                assert(d >= 1) by {
                    if d == 0 {
                        assert(spec_decimal_val(acc@) + 0 == v as int);
                    }
                }
                assert(acc@[0] != '0') by {
                    assert(spec_digit_val(acc@[0]) == d as int);
                }
            }
        }
    }
    proof {
        assert(pow10(acc@.len()) >= 1) by {
            lemma_pow10_pos(acc@.len());
        }
        assert(spec_decimal_val(acc@) == v as int);
    }
    acc
}

} // verus!
