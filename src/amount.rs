//! Decimal amounts, held as a signed mantissa and a count of decimal places,
//! and their short human-readable rendering.
use vstd::prelude::*;

verus! {

/// The largest mantissa magnitude a decimal amount can hold: 2^96 - 1.
pub const MAX_MANTISSA: i128 = 0xFFFF_FFFF_FFFF_FFFF_FFFF_FFFF;

/// The largest count of decimal places.
pub const MAX_SCALE: u32 = 28;

/// The value `mantissa / 10^scale`.
#[derive(Clone, Copy, Debug, PartialEq, Eq, Structural)]
pub struct Amount {
    pub mantissa: i128,
    pub scale: u32,
}

pub open spec fn pow10(n: nat) -> int
    decreases n,
{
    if n == 0 {
        1
    } else {
        10 * pow10((n - 1) as nat)
    }
}

pub open spec fn abs(x: int) -> int {
    if x < 0 {
        -x
    } else {
        x
    }
}

pub open spec fn is_number_char(c: char) -> bool {
    ('0' <= c && c <= '9') || c == '.' || c == '-'
}

/// The text of `mantissa / 10^scale` with `places` decimal places.
pub uninterp spec fn fixed_point_text(mantissa: int, scale: int, places: int) -> Seq<char>;

/// Relies on rust_decimal's `Decimal::from_i128_with_scale`, which panics
/// on a scale above 28 or a mantissa beyond 2^96 - 1 in magnitude, and on
/// its `Display` with a precision, which writes the value with that many
/// decimal places and drops any further digits. `Display` builds the
/// digits, the point and the decimals in a buffer of 32 characters and
/// panics past it, so with decimals the integer part may have at most
/// `31 - places` digits. What it writes is a sign, digits and a point.
#[verifier::external_body]
fn decimal_text(mantissa: i128, scale: u32, places: usize) -> (r: String)
    requires
        scale <= MAX_SCALE,
        -MAX_MANTISSA <= mantissa <= MAX_MANTISSA,
        places <= MAX_SCALE,
        places == 0 || abs(mantissa as int) < pow10((scale + 31 - places) as nat),
    ensures
        r@ == fixed_point_text(mantissa as int, scale as int, places as int),
        forall|k: int| 0 <= k < r@.len() ==> is_number_char(#[trigger] r@[k]),
{
    let d = rust_decimal::Decimal::from_i128_with_scale(mantissa, scale);
    format!("{:.prec$}", d, prec = places)
}

impl Amount {
    pub open spec fn wf(&self) -> bool {
        self.scale <= MAX_SCALE && -MAX_MANTISSA <= self.mantissa <= MAX_MANTISSA
    }

    /// The amount `mantissa / 10^scale`, or `None` where it cannot be held.
    pub fn new(mantissa: i128, scale: u32) -> (r: Option<Amount>)
        ensures
            r == (if scale <= MAX_SCALE && -MAX_MANTISSA <= mantissa <= MAX_MANTISSA {
                Some(Amount { mantissa, scale })
            } else {
                None::<Amount>
            }),
    {
        if scale <= MAX_SCALE && -MAX_MANTISSA <= mantissa && mantissa <= MAX_MANTISSA {
            Some(Amount { mantissa, scale })
        } else {
            None
        }
    }
}

/// The rendering of `a` with `places` decimal places: divided by a billion,
/// a million or a thousand, with the suffix `B`, `M` or `K`, where its
/// magnitude reaches that unit.
pub open spec fn human_readable(a: Amount, places: int) -> Seq<char> {
    let m = abs(a.mantissa as int);
    let s = a.scale as nat;
    if m >= pow10(s + 9) {
        fixed_point_text(a.mantissa as int, (s + 9) as int, places) + "B"@
    } else if m >= pow10(s + 6) {
        fixed_point_text(a.mantissa as int, (s + 6) as int, places) + "M"@
    } else if m >= pow10(s + 3) {
        fixed_point_text(a.mantissa as int, (s + 3) as int, places) + "K"@
    } else {
        fixed_point_text(a.mantissa as int, s as int, places)
    }
}

proof fn lemma_pow10_monotonic(a: nat, b: nat)
    requires
        a <= b,
    ensures
        1 <= pow10(a) <= pow10(b),
    decreases b,
{
    if a < b {
        lemma_pow10_monotonic(a, (b - 1) as nat);
    } else if b > 0 {
        lemma_pow10_monotonic((a - 1) as nat, (b - 1) as nat);
    }
}

proof fn lemma_pow10_29()
    ensures
        pow10(29) > MAX_MANTISSA,
{
    reveal_with_fuel(pow10, 30);
}

fn pow10_exec(n: u32) -> (r: u128)
    requires
        n <= 37,
    ensures
        r == pow10(n as nat),
{
    let mut r: u128 = 1;
    let mut i: u32 = 0;
    while i < n
        invariant
            i <= n <= 37,
            r == pow10(i as nat),
        decreases n - i,
    {
        proof {
            lemma_pow10_monotonic((i + 1) as nat, 37);
            reveal_with_fuel(pow10, 38);
        }
        r = r * 10;
        i += 1;
    }
    r
}

/// A magnitude that reaches `10^(scale + shift)` leaves room for `shift`
/// more decimal places.
proof fn lemma_shift_fits(m: int, scale: nat, shift: nat)
    requires
        m <= MAX_MANTISSA,
        m >= pow10(scale + shift),
    ensures
        scale + shift <= MAX_SCALE,
{
    if scale + shift > 28 {
        lemma_pow10_monotonic(29, scale + shift);
        lemma_pow10_29();
    }
}

/// At most 11 decimal places fit beside the integer digits of the largest
/// amount in billions.
pub fn format_human_readable(num: Amount, decimal_places: usize) -> (r: String)
    requires
        num.wf(),
        decimal_places <= 11,
    ensures
        r@ == human_readable(num, decimal_places as int),
        forall|k: int| 0 <= k < r@.len() ==> #[trigger] r@[k] != '?',
{
    let m: u128 = if num.mantissa < 0 {
        (-num.mantissa) as u128
    } else {
        num.mantissa as u128
    };
    let s: u32 = num.scale;
    proof {
        lemma_pow10_monotonic(0, s as nat);
    }
    if m >= pow10_exec(s + 9) {
        proof {
            lemma_shift_fits(m as int, s as nat, 9);
            lemma_pow10_monotonic(29, (s + 9 + 31 - decimal_places) as nat);
            lemma_pow10_29();
        }
        let mut t: String = decimal_text(num.mantissa, s + 9, decimal_places);
        let ghost digits = t@;
        t.append("B");
        assert forall|k: int| 0 <= k < t@.len() implies #[trigger] t@[k] != '?' by {
            if k < digits.len() {
                assert(is_number_char(digits[k]));
            } else {
                reveal_strlit("B");
                assert(t@[k] == 'B');
            }
        }
        t
    } else if m >= pow10_exec(s + 6) {
        proof {
            lemma_shift_fits(m as int, s as nat, 6);
            lemma_pow10_monotonic((s + 9) as nat, (s + 6 + 31 - decimal_places) as nat);
        }
        let mut t: String = decimal_text(num.mantissa, s + 6, decimal_places);
        let ghost digits = t@;
        t.append("M");
        assert forall|k: int| 0 <= k < t@.len() implies #[trigger] t@[k] != '?' by {
            if k < digits.len() {
                assert(is_number_char(digits[k]));
            } else {
                reveal_strlit("M");
                assert(t@[k] == 'M');
            }
        }
        t
    } else if m >= pow10_exec(s + 3) {
        proof {
            lemma_shift_fits(m as int, s as nat, 3);
            lemma_pow10_monotonic((s + 6) as nat, (s + 3 + 31 - decimal_places) as nat);
        }
        let mut t: String = decimal_text(num.mantissa, s + 3, decimal_places);
        let ghost digits = t@;
        t.append("K");
        assert forall|k: int| 0 <= k < t@.len() implies #[trigger] t@[k] != '?' by {
            if k < digits.len() {
                assert(is_number_char(digits[k]));
            } else {
                reveal_strlit("K");
                assert(t@[k] == 'K');
            }
        }
        t
    } else {
        proof {
            lemma_pow10_monotonic((s + 3) as nat, (s + 31 - decimal_places) as nat);
        }
        let t: String = decimal_text(num.mantissa, s, decimal_places);
        assert forall|k: int| 0 <= k < t@.len() implies #[trigger] t@[k] != '?' by {
            assert(is_number_char(t@[k]));
        }
        t
    }
}

} // verus!
