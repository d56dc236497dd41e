//! Decimal text: rendering unsigned integers, parsing them back, and the
//! fixed-point balance display used for account balances.

use vstd::prelude::*;

verus! {

/// The decimal digit characters, as a character for a digit value.
pub open spec fn digit_char(d: int) -> char {
    ((d + 48) as u8) as char
}

/// Whether a character is a decimal digit.
pub open spec fn is_dec_digit(c: char) -> bool {
    48 <= c as int && c as int <= 57
}

/// Whether every character of `s` is a decimal digit.
pub open spec fn all_digits(s: Seq<char>) -> bool {
    forall|i: int| 0 <= i < s.len() ==> #[trigger] is_dec_digit(s[i])
}

/// The value of a decimal digit character.
pub open spec fn digit_val(c: char) -> int {
    c as int - 48
}

/// The canonical decimal rendering of a natural number: no sign, no
/// leading zeros (a single `'0'` for zero).
pub open spec fn dec_of(n: nat) -> Seq<char>
    decreases n,
{
    if n < 10 {
        seq![digit_char(n as int)]
    } else {
        dec_of(n / 10).push(digit_char((n % 10) as int))
    }
}

/// The numeric value of a sequence of decimal digit characters.
pub open spec fn val_of(s: Seq<char>) -> int
    decreases s.len(),
{
    if s.len() == 0 {
        0
    } else {
        val_of(s.drop_last()) * 10 + digit_val(s.last())
    }
}

/// Whether `s` is text that denotes a value representable as a `u64`:
/// nonempty, digits only, and within range.
pub open spec fn is_u64_text(s: Seq<char>) -> bool {
    s.len() > 0 && all_digits(s) && val_of(s) <= u64::MAX
}

/// A canonical decimal rendering is nonempty and made of digits only.
pub proof fn lemma_dec_of_digits(n: nat)
    ensures
        dec_of(n).len() > 0,
        all_digits(dec_of(n)),
    decreases n,
{
    if n < 10 {
        assert(dec_of(n)[0] == digit_char(n as int));
        assert(is_dec_digit(digit_char(n as int)));
    } else {
        lemma_dec_of_digits(n / 10);
        let p = dec_of(n / 10);
        let d = digit_char((n % 10) as int);
        assert(is_dec_digit(d));
        assert(forall|i: int| 0 <= i < p.push(d).len() ==> #[trigger] p.push(d)[i]
            == if i < p.len() { p[i] } else { d });
    }
}

/// The decimal rendering evaluates back to the number it renders.
pub proof fn lemma_val_of_dec_of(n: nat)
    ensures
        val_of(dec_of(n)) == n,
    decreases n,
{
    if n < 10 {
        let s = dec_of(n);
        assert(s.drop_last() =~= Seq::<char>::empty());
        assert(s.last() == digit_char(n as int));
        assert(digit_val(digit_char(n as int)) == n);
        assert(val_of(s) == val_of(s.drop_last()) * 10 + digit_val(s.last()));
        assert(val_of(dec_of(n)) == n);
    } else {
        lemma_val_of_dec_of(n / 10);
        let p = dec_of(n / 10);
        let d = digit_char((n % 10) as int);
        assert(p.push(d).drop_last() =~= p);
        assert(p.push(d).last() == d);
        assert(digit_val(d) == n % 10);
        vstd::arithmetic::div_mod::lemma_fundamental_div_mod(n as int, 10);
        assert(val_of(dec_of(n)) == (n / 10) * 10 + n % 10);
        assert(val_of(dec_of(n)) == n);
    }
}

/// Distinct numbers have distinct decimal renderings.
pub proof fn lemma_dec_of_injective(a: nat, b: nat)
    requires
        dec_of(a) == dec_of(b),
    ensures
        a == b,
{
    lemma_val_of_dec_of(a);
    lemma_val_of_dec_of(b);
}

/// The six-digit zero-padded rendering of a fractional part below
/// 1,000,000.
pub open spec fn frac6(f: nat) -> Seq<char> {
    seq![
        digit_char((f / 100000) as int),
        digit_char(((f / 10000) % 10) as int),
        digit_char(((f / 1000) % 10) as int),
        digit_char(((f / 100) % 10) as int),
        digit_char(((f / 10) % 10) as int),
        digit_char((f % 10) as int),
    ]
}

/// The display form of a raw balance held in the smallest unit: the
/// whole part after scaling down by 1,000,000, a dot, and exactly six
/// fractional digits.
pub open spec fn balance_display(raw: nat) -> Seq<char> {
    dec_of(raw / 1000000) + seq!['.'] + frac6(raw % 1000000)
}

/// Renders a raw balance for display, matching `balance_display`.
pub fn format_balance(raw: u64) -> (r: String)
    ensures
        r@ == balance_display(raw as nat),
{
    let mut s = u64_to_string(raw / 1000000);
    push_char(&mut s, '.');
    let f = raw % 1000000;
    push_char(&mut s, (48 + (f / 100000) as u8) as char);
    push_char(&mut s, (48 + ((f / 10000) % 10) as u8) as char);
    push_char(&mut s, (48 + ((f / 1000) % 10) as u8) as char);
    push_char(&mut s, (48 + ((f / 100) % 10) as u8) as char);
    push_char(&mut s, (48 + ((f / 10) % 10) as u8) as char);
    push_char(&mut s, (48 + (f % 10) as u8) as char);
    proof {
        assert(s@ =~= balance_display(raw as nat));
    }
    s
}

/// Relies on std's `String::push`: appends the given character to the
/// end of the string.
#[verifier::external_body]
pub fn push_char(s: &mut String, c: char)
    ensures
        final(s)@ == old(s)@.push(c),
{
    s.push(c);
}

/// Renders `n` in decimal, matching `dec_of`.
pub fn u64_to_string(n: u64) -> (r: String)
    ensures
        r@ == dec_of(n as nat),
    decreases n,
{
    if n < 10 {
        let mut s = String::new();
        push_char(&mut s, (48 + n as u8) as char);
        proof {
            assert(s@ =~= dec_of(n as nat));
        }
        s
    } else {
        let mut s = u64_to_string(n / 10);
        push_char(&mut s, (48 + (n % 10) as u8) as char);
        proof {
            assert(s@ =~= dec_of(n as nat));
        }
        s
    }
}

/// The value of a digit string is non-negative.
pub proof fn lemma_val_of_nonneg(s: Seq<char>)
    requires
        all_digits(s),
    ensures
        val_of(s) >= 0,
    decreases s.len(),
{
    if s.len() > 0 {
        assert(all_digits(s.drop_last())) by {
            assert(forall|i: int|
                0 <= i < s.drop_last().len() ==> s.drop_last()[i] == s[i]);
        }
        lemma_val_of_nonneg(s.drop_last());
        assert(is_dec_digit(s.last()));
    }
}

/// Extending a digit string on the right can only increase its value.
pub proof fn lemma_val_of_prefix(s: Seq<char>, i: int)
    requires
        all_digits(s),
        0 <= i <= s.len(),
    ensures
        val_of(s.subrange(0, i)) <= val_of(s),
    decreases s.len() - i,
{
    if i < s.len() {
        let p = s.subrange(0, i);
        let q = s.subrange(0, i + 1);
        assert(q.drop_last() =~= p);
        assert(all_digits(p));
        lemma_val_of_nonneg(p);
        assert(is_dec_digit(q.last()));
        assert(val_of(q) == val_of(p) * 10 + digit_val(q.last()));
        assert(val_of(p) * 10 >= val_of(p)) by (nonlinear_arith)
            requires val_of(p) >= 0;
        lemma_val_of_prefix(s, i + 1);
    } else {
        assert(s.subrange(0, i) =~= s);
    }
}

/// Parses decimal text as a `u64`. Succeeds exactly on nonempty
/// all-digit text whose value fits in a `u64`, and then returns that
/// value.
pub fn parse_u64(s: &str) -> (r: Option<u64>)
    ensures
        r is Some <==> is_u64_text(s@),
        r matches Some(v) ==> v == val_of(s@),
{
    let len = s.unicode_len();
    if len == 0 {
        return None;
    }
    let mut acc: u64 = 0;
    let mut i: usize = 0;
    while i < len
        invariant
            0 < len == s@.len(),
            0 <= i <= len,
            all_digits(s@.subrange(0, i as int)),
            acc == val_of(s@.subrange(0, i as int)),
        decreases len - i,
    {
        let c = s.get_char(i);
        let cv = c as u32;
        if cv < 48 || cv > 57 {
            proof {
                assert(!is_dec_digit(s@[i as int]));
            }
            return None;
        }
        let d: u64 = (cv - 48) as u64;
        proof {
            assert(s@.subrange(0, i + 1).drop_last() =~= s@.subrange(0, i as int));
            lemma_val_of_nonneg(s@.subrange(0, i as int));
        }
        if acc > (u64::MAX - d) / 10 {
            proof {
                let p = s@.subrange(0, i as int);
                let q = s@.subrange(0, i + 1);
                assert(val_of(q) == acc * 10 + d);
                assert(acc * 10 + d > u64::MAX) by (nonlinear_arith)
                    requires
                        acc > (u64::MAX - d) / 10,
                        0 <= d <= 9,
                        acc >= 0;
                assert(all_digits(q));
                if all_digits(s@) {
                    lemma_val_of_prefix(s@, i + 1);
                    assert(val_of(s@) > u64::MAX);
                }
            }
            return None;
        }
        proof {
            assert(acc * 10 + d <= u64::MAX) by (nonlinear_arith)
                requires
                    acc <= (u64::MAX - d) / 10,
                    0 <= d <= 9,
                    acc >= 0;
            assert(val_of(s@.subrange(0, i + 1)) == acc * 10 + d);
        }
        acc = acc * 10 + d;
        i = i + 1;
    }
    proof {
        assert(s@.subrange(0, len as int) =~= s@);
    }
    Some(acc)
}

} // verus!
