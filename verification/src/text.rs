use vstd::prelude::*;

verus! {

/// The character of a decimal digit.
pub open spec fn digit_char(d: int) -> char {
    if d == 0 {
        '0'
    } else if d == 1 {
        '1'
    } else if d == 2 {
        '2'
    } else if d == 3 {
        '3'
    } else if d == 4 {
        '4'
    } else if d == 5 {
        '5'
    } else if d == 6 {
        '6'
    } else if d == 7 {
        '7'
    } else if d == 8 {
        '8'
    } else {
        '9'
    }
}

/// The decimal representation of `n`, without leading zeros.
pub open spec fn decimal(n: nat) -> Seq<char>
    decreases n,
{
    if n < 10 {
        seq![digit_char(n as int)]
    } else {
        decimal(n / 10).push(digit_char((n % 10) as int))
    }
}

/// `n` repetitions of the character `c`.
pub open spec fn repeat_char(c: char, n: nat) -> Seq<char> {
    Seq::new(n, |_i: int| c)
}

/// The decimal representation of `n`, left-padded with zeros to at least
/// `width` characters.
pub open spec fn zero_padded_decimal(n: nat, width: nat) -> Seq<char> {
    let d = decimal(n);
    if d.len() < width {
        repeat_char('0', (width - d.len()) as nat) + d
    } else {
        d
    }
}

/// The decimal representation of a signed integer.
pub open spec fn signed_decimal(v: int) -> Seq<char> {
    if v < 0 {
        seq!['-'] + decimal((-v) as nat)
    } else {
        decimal(v as nat)
    }
}

/// A decimal representation is never empty.
pub proof fn lemma_decimal_len(n: nat)
    ensures
        decimal(n).len() >= 1,
    decreases n,
{
    if n >= 10 {
        lemma_decimal_len(n / 10);
    }
}

/// The digit characters of distinct digits are distinct, and none is `-`.
pub proof fn lemma_digit_char_injective(a: int, b: int)
    requires
        0 <= a < 10,
        0 <= b < 10,
    ensures
        digit_char(a) == digit_char(b) ==> a == b,
        digit_char(a) != '-',
{
}

/// Distinct numbers have distinct decimal representations, which hold at
/// least two digits from ten on.
pub proof fn lemma_decimal_injective(a: nat, b: nat)
    ensures
        decimal(a) == decimal(b) ==> a == b,
        a >= 10 ==> decimal(a).len() >= 2,
        decimal(a)[0] != '-',
    decreases a + b,
{
    lemma_decimal_len(a);
    lemma_decimal_len(b);
    if a >= 10 {
        lemma_decimal_len(a / 10);
        lemma_decimal_injective(a / 10, a / 10);
        assert(decimal(a)[0] == decimal(a / 10)[0]);
    } else {
        lemma_digit_char_injective(a as int, 0);
    }
    if b >= 10 {
        lemma_decimal_len(b / 10);
        assert(decimal(b).len() == decimal(b / 10).len() + 1);
    }
    if a >= 10 {
        assert(decimal(a).len() == decimal(a / 10).len() + 1);
    }
    if decimal(a) == decimal(b) {
        if a < 10 && b < 10 {
            assert(decimal(a)[0] == digit_char(a as int));
            assert(decimal(b)[0] == digit_char(b as int));
            lemma_digit_char_injective(a as int, b as int);
        } else if a < 10 {
            assert(decimal(a).len() == 1);
        } else if b < 10 {
            assert(decimal(b).len() == 1);
        } else {
            assert(decimal(a).drop_last() =~= decimal(a / 10));
            assert(decimal(b).drop_last() =~= decimal(b / 10));
            lemma_decimal_injective(a / 10, b / 10);
            assert(decimal(a).last() == digit_char((a % 10) as int));
            assert(decimal(b).last() == digit_char((b % 10) as int));
            lemma_digit_char_injective((a % 10) as int, (b % 10) as int);
            assert(a == (a / 10) * 10 + a % 10 && b == (b / 10) * 10 + b % 10) by (nonlinear_arith);
        }
    }
}

/// Distinct integers have distinct signed decimal representations.
pub proof fn lemma_signed_decimal_injective(a: int, b: int)
    ensures
        signed_decimal(a) == signed_decimal(b) ==> a == b,
{
    let da = if a < 0 { (-a) as nat } else { a as nat };
    let db = if b < 0 { (-b) as nat } else { b as nat };
    lemma_decimal_injective(da, db);
    lemma_decimal_injective(db, da);
    lemma_decimal_len(da);
    lemma_decimal_len(db);
    if signed_decimal(a) == signed_decimal(b) {
        if a < 0 && b < 0 {
            assert(signed_decimal(a).drop_first() =~= decimal(da));
            assert(signed_decimal(b).drop_first() =~= decimal(db));
        } else if a < 0 {
            assert(signed_decimal(a)[0] == '-');
        } else if b < 0 {
            assert(signed_decimal(b)[0] == '-');
        }
    }
}

/// Ten to the power `k`.
pub open spec fn pow10(k: nat) -> nat
    decreases k,
{
    if k == 0 {
        1
    } else {
        10 * pow10((k - 1) as nat)
    }
}

/// A power of ten is positive.
pub proof fn lemma_pow10_positive(k: nat)
    ensures
        pow10(k) >= 1,
    decreases k,
{
    if k > 0 {
        lemma_pow10_positive((k - 1) as nat);
    }
}

/// A number below `10^w` has at most `w` decimal digits.
proof fn lemma_decimal_len_bound(x: nat, w: nat)
    requires
        w >= 1,
        x < pow10(w),
    ensures
        decimal(x).len() <= w,
    decreases w,
{
    if x >= 10 {
        if w == 1 {
            assert(pow10(1) == 10 * pow10(0));
        }
        let m = (w - 1) as nat;
        lemma_pow10_positive(m);
        assert(x / 10 < pow10(m)) by (nonlinear_arith)
            requires
                x < 10 * pow10(m),
        ;
        lemma_decimal_len_bound(x / 10, m);
    }
}

/// The digits of a number below `10^w` written on `w` digits: the digit at
/// index `i` is the `(w - 1 - i)`th decimal digit of the number, counting
/// from the units.
pub proof fn lemma_zero_padded_digits(x: nat, w: nat)
    requires
        w >= 1,
        x < pow10(w),
    ensures
        zero_padded_decimal(x, w).len() == w,
        forall|i: int|
            0 <= i < w ==> #[trigger] zero_padded_decimal(x, w)[i] == digit_char(
                ((x / pow10((w - 1 - i) as nat)) % 10) as int,
            ),
    decreases w,
{
    let zp = zero_padded_decimal(x, w);
    if w == 1 {
        assert(pow10(1) == 10 * pow10(0));
        assert(x / pow10(0) == x);
    } else {
        let m = (w - 1) as nat;
        let q = x / 10;
        let r = x % 10;
        lemma_pow10_positive(m);
        assert(q < pow10(m)) by (nonlinear_arith)
            requires
                x < 10 * pow10(m),
                q == x / 10,
        ;
        lemma_zero_padded_digits(q, m);
        lemma_decimal_len_bound(q, m);
        lemma_decimal_len(q);
        let zq = zero_padded_decimal(q, m);
        if x >= 10 {
            assert(decimal(x) == decimal(q).push(digit_char(r as int)));
            assert(zp =~= zq.push(digit_char(r as int)));
        } else {
            assert(q == 0);
            assert(decimal(0) == seq![digit_char(0)]);
            assert(zq =~= repeat_char('0', m));
            assert(zp =~= zq.push(digit_char(r as int)));
        }
        assert forall|i: int| 0 <= i < w implies #[trigger] zp[i] == digit_char(
            ((x / pow10((w - 1 - i) as nat)) % 10) as int,
        ) by {
            if i < w - 1 {
                let e = (m - 1 - i) as nat;
                assert(zp[i] == zq[i]);
                lemma_pow10_positive(e);
                vstd::arithmetic::div_mod::lemma_div_denominator(x as int, 10, pow10(e) as int);
                assert(pow10((w - 1 - i) as nat) == 10 * pow10(e));
            } else {
                assert(pow10(0) == 1);
                assert((w - 1 - i) as nat == 0);
                assert(x / 1 == x);
                assert(zp[i] == digit_char(r as int));
            }
        }
    }
}

/// Returns the character of the digit `d`.
pub fn digit(d: u64) -> (c: char)
    requires
        d < 10,
    ensures
        c == digit_char(d as int),
{
    if d == 0 {
        '0'
    } else if d == 1 {
        '1'
    } else if d == 2 {
        '2'
    } else if d == 3 {
        '3'
    } else if d == 4 {
        '4'
    } else if d == 5 {
        '5'
    } else if d == 6 {
        '6'
    } else if d == 7 {
        '7'
    } else if d == 8 {
        '8'
    } else {
        '9'
    }
}

/// Appends the decimal representation of `n` to `out`.
pub fn push_decimal(out: &mut Vec<char>, n: u64)
    ensures
        final(out)@ == old(out)@ + decimal(n as nat),
    decreases n,
{
    if n >= 10 {
        push_decimal(out, n / 10);
    }
    out.push(digit(n % 10));
    proof {
        assert(old(out)@ + decimal(n as nat) =~= old(out)@ + (if n >= 10 {
            decimal((n / 10) as nat)
        } else {
            Seq::<char>::empty()
        }).push(digit_char((n % 10) as int)));
    }
}

/// Appends `n` copies of `c` to `out`.
pub fn push_repeat(out: &mut Vec<char>, c: char, n: usize)
    ensures
        final(out)@ == old(out)@ + repeat_char(c, n as nat),
{
    let mut i: usize = 0;
    while i < n
        invariant
            i <= n,
            out@ == old(out)@ + repeat_char(c, i as nat),
        decreases n - i,
    {
        out.push(c);
        i = i + 1;
        proof {
            assert(out@ =~= old(out)@ + repeat_char(c, i as nat));
        }
    }
}

/// Appends the decimal representation of `n`, left-padded with zeros to at
/// least `width` characters.
pub fn push_zero_padded(out: &mut Vec<char>, n: u64, width: usize)
    ensures
        final(out)@ == old(out)@ + zero_padded_decimal(n as nat, width as nat),
{
    let mut digits: Vec<char> = Vec::new();
    push_decimal(&mut digits, n);
    assert(digits@ =~= decimal(n as nat));
    if digits.len() < width {
        push_repeat(out, '0', width - digits.len());
    }
    push_chars(out, &digits);
    proof {
        assert(out@ =~= old(out)@ + zero_padded_decimal(n as nat, width as nat));
    }
}

/// Appends the characters of `src` to `out`.
pub fn push_chars(out: &mut Vec<char>, src: &Vec<char>)
    ensures
        final(out)@ == old(out)@ + src@,
{
    let mut i: usize = 0;
    while i < src.len()
        invariant
            i <= src.len(),
            out@ == old(out)@ + src@.subrange(0, i as int),
        decreases src.len() - i,
    {
        out.push(src[i]);
        i = i + 1;
        proof {
            assert(out@ =~= old(out)@ + src@.subrange(0, i as int));
        }
    }
    proof {
        assert(src@.subrange(0, src.len() as int) =~= src@);
    }
}

/// Appends the characters of the string `s` to `out`.
pub fn push_str(out: &mut Vec<char>, s: &str)
    ensures
        final(out)@ == old(out)@ + s@,
{
    let n = s.unicode_len();
    let mut i: usize = 0;
    while i < n
        invariant
            n == s@.len(),
            i <= n,
            out@ == old(out)@ + s@.subrange(0, i as int),
        decreases n - i,
    {
        out.push(s.get_char(i));
        i = i + 1;
        proof {
            assert(out@ =~= old(out)@ + s@.subrange(0, i as int));
        }
    }
    proof {
        assert(s@.subrange(0, n as int) =~= s@);
    }
}

/// Appends the decimal representation of the signed integer `v` to `out`.
pub fn push_signed_decimal(out: &mut Vec<char>, v: i64)
    ensures
        final(out)@ == old(out)@ + signed_decimal(v as int),
{
    if v < 0 {
        out.push('-');
        let m: u64 = if v == i64::MIN {
            0x8000_0000_0000_0000u64
        } else {
            (-v) as u64
        };
        push_decimal(out, m);
        proof {
            assert(out@ =~= old(out)@ + signed_decimal(v as int));
        }
    } else {
        push_decimal(out, v as u64);
    }
}

/// Appends the character `c` to the string `s`.
#[verifier::external_body]
fn string_push(s: &mut String, c: char)
    ensures
        final(s)@ == old(s)@.push(c),
{
    s.push(c)
}

/// Collects characters into a `String`.
pub fn chars_to_string(chars: &Vec<char>) -> (s: String)
    ensures
        s@ == chars@,
{
    let mut s = String::new();
    let mut i: usize = 0;
    while i < chars.len()
        invariant
            i <= chars.len(),
            s@ == chars@.subrange(0, i as int),
        decreases chars.len() - i,
    {
        string_push(&mut s, chars[i]);
        i = i + 1;
        proof {
            assert(s@ =~= chars@.subrange(0, i as int));
        }
    }
    proof {
        assert(chars@.subrange(0, chars.len() as int) =~= chars@);
    }
    s
}

} // verus!
