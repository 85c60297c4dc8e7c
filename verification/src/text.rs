use vstd::prelude::*;
use vstd::arithmetic::power::pow;

verus! {

broadcast use vstd::string::group_string_axioms;

/// An ASCII decimal digit.
pub open spec fn is_digit(c: char) -> bool {
    '0' <= c && c <= '9'
}

/// Every character of `s` is an ASCII decimal digit.
pub open spec fn all_digits(s: Seq<char>) -> bool {
    forall|i: int| 0 <= i < s.len() ==> is_digit(#[trigger] s[i])
}

/// The number an ASCII decimal digit stands for.
pub open spec fn digit_value(c: char) -> nat {
    (c as int - '0' as int) as nat
}

/// The ASCII decimal digit that stands for `d` (below ten).
pub open spec fn digit_char(d: nat) -> char {
    ('0' as int + d) as char
}

/// The number that the decimal digits `s` spell, most significant first.
pub open spec fn decimal_value(s: Seq<char>) -> nat
    decreases s.len(),
{
    if s.len() == 0 {
        0
    } else {
        decimal_value(s.drop_last()) * 10 + digit_value(s.last())
    }
}

/// `s` without the one `+` that may lead it.
pub open spec fn unsigned_digits(s: Seq<char>) -> Seq<char> {
    if s.len() > 0 && s[0] == '+' {
        s.drop_first()
    } else {
        s
    }
}

/// What `str::parse::<usize>` gives on `s`: an optional `+`, then at least one
/// ASCII decimal digit, with a value that fits in `usize`.
pub open spec fn usize_from_text(s: Seq<char>) -> Option<usize> {
    let d = unsigned_digits(s);
    if d.len() > 0 && all_digits(d) && decimal_value(d) <= usize::MAX {
        Some(decimal_value(d) as usize)
    } else {
        None
    }
}

/// The last `width` decimal digits of `n`, with zeros in front where `n`
/// has fewer digits.
pub open spec fn padded_decimal(n: nat, width: nat) -> Seq<char>
    decreases width,
{
    if width == 0 {
        Seq::empty()
    } else {
        padded_decimal(n / 10, (width - 1) as nat).push(digit_char(n % 10))
    }
}

/// A prefix of a string of digits never spells more than the whole.
pub proof fn lemma_decimal_prefix_le(d: Seq<char>, j: int)
    requires
        0 <= j <= d.len(),
    ensures
        decimal_value(d.take(j)) <= decimal_value(d),
    decreases d.len(),
{
    if j < d.len() {
        assert(d.drop_last().take(j) =~= d.take(j));
        lemma_decimal_prefix_le(d.drop_last(), j);
    } else {
        assert(d.take(j) =~= d);
    }
}

/// Zero padding to `width` digits keeps the last `width` digits of `n`.
pub proof fn lemma_padded_decimal(n: nat, width: nat)
    ensures
        padded_decimal(n, width).len() == width,
        all_digits(padded_decimal(n, width)),
        decimal_value(padded_decimal(n, width)) == n % (pow(10, width) as nat),
        pow(10, width) > 0,
    decreases width,
{
    vstd::arithmetic::power::lemma_pow_positive(10, width);
    if width > 0 {
        let w1 = (width - 1) as nat;
        lemma_padded_decimal(n / 10, w1);
        let s = padded_decimal(n, width);
        assert(s.drop_last() =~= padded_decimal(n / 10, w1));
        assert(is_digit(digit_char(n % 10)));
        assert(digit_value(digit_char(n % 10)) == n % 10);
        assert(pow(10, width) == 10 * pow(10, w1)) by {
            vstd::arithmetic::power::lemma_pow1(10);
            vstd::arithmetic::power::lemma_pow_adds(10, 1, w1);
        };
        vstd::arithmetic::div_mod::lemma_mod_breakdown(n as int, 10, pow(10, w1));
        assert(decimal_value(s) == decimal_value(s.drop_last()) * 10 + digit_value(s.last()));
        assert(decimal_value(s) == ((n / 10) % (pow(10, w1) as nat)) * 10 + n % 10);
        let p = pow(10, w1);
        assert(((n / 10) % (p as nat)) * 10 == 10 * ((n as int / 10) % p)) by (nonlinear_arith)
            requires
                p > 0,
        ;
    } else {
        assert(pow(10, 0) == 1) by {
            vstd::arithmetic::power::lemma_pow0(10);
        };
    }
}

/// A digit string spells less than ten to the power of its length.
pub proof fn lemma_decimal_value_bound(d: Seq<char>)
    requires
        all_digits(d),
    ensures
        decimal_value(d) < pow(10, d.len()),
    decreases d.len(),
{
    if d.len() > 0 {
        let init = d.drop_last();
        assert(all_digits(init)) by {
            assert forall|i: int| 0 <= i < init.len() implies is_digit(#[trigger] init[i]) by {
                assert(init[i] == d[i]);
            }
        }
        lemma_decimal_value_bound(init);
        assert(is_digit(d[d.len() - 1]));
        let p = pow(10, init.len());
        assert(pow(10, d.len()) == 10 * p) by {
            vstd::arithmetic::power::lemma_pow1(10);
            vstd::arithmetic::power::lemma_pow_adds(10, 1, init.len());
        };
        let v = decimal_value(init);
        let x = digit_value(d.last());
        assert(v * 10 + x < 10 * p) by (nonlinear_arith)
            requires
                v < p,
                x < 10,
        ;
    } else {
        vstd::arithmetic::power::lemma_pow0(10);
    }
}

/// What text reads as a `usize`: only an optional leading `+` followed by
/// at least one ASCII decimal digit; any other character, anywhere, makes
/// the text unreadable.
pub proof fn lemma_usize_text_is_digits(s: Seq<char>)
    ensures
        usize_from_text(s) is Some ==> s.len() > 0 && (forall|i: int|
            0 <= i < s.len() ==> is_digit(#[trigger] s[i]) || (i == 0 && s[i] == '+')) && !(
        s.len() == 1 && s[0] == '+'),
        (exists|i: int| 0 < i < s.len() && !is_digit(#[trigger] s[i])) ==> usize_from_text(s) is None,
        (s.len() > 0 && !is_digit(s[0]) && s[0] != '+') ==> usize_from_text(s) is None,
{
    if usize_from_text(s) is Some {
        let d = unsigned_digits(s);
        assert forall|i: int| 0 <= i < s.len() implies is_digit(#[trigger] s[i]) || (i == 0
            && s[i] == '+') by {
            if s[0] == '+' {
                if i > 0 {
                    assert(d[i - 1] == s[i]);
                }
            } else {
                assert(d[i] == s[i]);
            }
        }
    }
    if exists|i: int| 0 < i < s.len() && !is_digit(#[trigger] s[i]) {
        let i = choose|i: int| 0 < i < s.len() && !is_digit(#[trigger] s[i]);
        let d = unsigned_digits(s);
        if s[0] == '+' {
            assert(d[i - 1] == s[i]);
        } else {
            assert(d[i] == s[i]);
        }
    }
    if s.len() > 0 && !is_digit(s[0]) && s[0] != '+' {
        assert(unsigned_digits(s)[0] == s[0]);
    }
}

/// A single digit reads as the number it stands for.
pub proof fn lemma_usize_text_single_digit(c: char)
    requires
        is_digit(c),
    ensures
        usize_from_text(seq![c]) == Some((c as int - '0' as int) as usize),
{
    let s = seq![c];
    assert(unsigned_digits(s) == s);
    assert(s.drop_last() =~= Seq::<char>::empty());
    assert(decimal_value(s.drop_last()) == 0);
    assert(decimal_value(s) == digit_value(c));
    assert(all_digits(s));
}

/// Appending a digit to a readable string of digits multiplies what it reads
/// as by ten and adds the digit, as long as the result fits in `usize`.
pub proof fn lemma_usize_text_append_digit(s: Seq<char>, c: char, n: usize)
    requires
        usize_from_text(s) == Some(n),
        is_digit(c),
        n as int * 10 + (c as int - '0' as int) <= usize::MAX,
    ensures
        usize_from_text(s.push(c)) == Some((n as int * 10 + (c as int - '0' as int)) as usize),
{
    let d = unsigned_digits(s);
    let t = s.push(c);
    assert(unsigned_digits(t) =~= d.push(c));
    assert(d.push(c).drop_last() =~= d);
    assert(all_digits(d.push(c))) by {
        assert forall|i: int| 0 <= i < d.push(c).len() implies is_digit(#[trigger] d.push(c)[i]) by {
            if i < d.len() {
                assert(d.push(c)[i] == d[i]);
            }
        }
    }
}

/// A leading `+` does not change what a string of digits reads as.
pub proof fn lemma_usize_text_plus_sign(d: Seq<char>)
    requires
        d.len() > 0,
        d[0] != '+',
    ensures
        usize_from_text(seq!['+'] + d) == usize_from_text(d),
{
    assert((seq!['+'] + d).drop_first() =~= d);
}

/// A string of digits is readable exactly when what it spells fits in
/// `usize`.
pub proof fn lemma_usize_text_digits_fit(d: Seq<char>)
    requires
        d.len() > 0,
        all_digits(d),
    ensures
        usize_from_text(d) is Some <==> decimal_value(d) <= usize::MAX,
{
    assert(is_digit(d[0]));
}

/// Reads a `usize` the way `str::parse::<usize>` does.
pub fn parse_usize(s: &str) -> (r: Option<usize>)
    ensures
        r == usize_from_text(s@),
{
    let mut value: usize = 0;
    let mut seen_digit = false;
    let mut at_start = true;
    for c in it: s.chars()
        invariant
            it.seq() == s@,
            at_start == (it.index() == 0),
            all_digits(unsigned_digits(s@.take(it.index()))),
            value == decimal_value(unsigned_digits(s@.take(it.index()))),
            seen_digit == (unsigned_digits(s@.take(it.index())).len() > 0),
    {
        let ghost k = it.index();
        let ghost before = unsigned_digits(s@.take(k));
        let ghost blen: int = before.len() as int;
        assert(s@[k] == c);
        if at_start && c == '+' {
            assert(unsigned_digits(s@.take(k + 1)) =~= Seq::<char>::empty());
        } else {
            assert(unsigned_digits(s@.take(k + 1)) =~= before.push(c));
            let ghost whole = unsigned_digits(s@);
            assert(whole.take(blen + 1) =~= before.push(c));
            if !('0' <= c && c <= '9') {
                assert(whole[blen] == c);
                return None;
            }
            let digit = (c as u32 - '0' as u32) as usize;
            assert(digit == digit_value(c));
            assert(before.push(c).drop_last() =~= before);
            match value.checked_mul(10) {
                Some(tens) => match tens.checked_add(digit) {
                    Some(next) => {
                        value = next;
                    },
                    None => {
                        proof {
                            lemma_decimal_prefix_le(whole, blen + 1);
                        }
                        return None;
                    },
                },
                None => {
                    proof {
                        lemma_decimal_prefix_le(whole, blen + 1);
                    }
                    return None;
                },
            }
            seen_digit = true;
        }
        at_start = false;
    }
    assert(s@.take(s@.len() as int) =~= s@);
    if seen_digit {
        Some(value)
    } else {
        None
    }
}

/// Appends `c` to `s`.
#[verifier::external_body]
fn push_char(s: &mut String, c: char)
    ensures
        final(s)@ == old(s)@.push(c),
{
    s.push(c)
}

/// Appends the last `width` decimal digits of `n` to `s`, padding with
/// zeros in front.
pub fn push_padded_decimal(s: &mut String, n: usize, width: usize)
    ensures
        final(s)@ == old(s)@ + padded_decimal(n as nat, width as nat),
    decreases width,
{
    if width > 0 {
        push_padded_decimal(s, n / 10, width - 1);
        let d = (n % 10) as u8;
        let c = (48u8 + d) as char;
        assert(c == digit_char((n % 10) as nat));
        push_char(s, c);
        assert(old(s)@ + padded_decimal(n as nat, width as nat) =~= old(s)@ + padded_decimal(
            (n / 10) as nat,
            (width - 1) as nat,
        ) + seq![c]);
    } else {
        assert(old(s)@ + padded_decimal(n as nat, 0) =~= old(s)@);
    }
}

} // verus!
