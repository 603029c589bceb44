//! Scores as numbers: the number that a bit pattern stands for, its
//! hundredfold, and its decimal text with a fixed number of decimals.
//!
//! Everything here is exact integer arithmetic on the parts of the bit
//! pattern. A finite score is its significand times a power of two;
//! rounding is to the nearest value that can be represented, and to the one
//! with an even last digit where two are equally near.

use vstd::prelude::*;
use crate::detector::{Score, INFINITY_BITS, SIGN_BIT};
use crate::text::{decimal, digit_char, digit_str, two_digit_str, two_digits, u128_to_decimal};

verus! {

/// Two to the power of 23: the weight of the lowest bit of the exponent
/// field.
pub const HIDDEN_BIT: u32 = 0x80_0000;

/// Two to the power of 24: the first significand that needs 25 bits.
pub const SIGNIFICAND_LIMIT: u32 = 0x100_0000;

/// Two to the power of `n`.
pub open spec fn two_to(n: nat) -> nat
    decreases n,
{
    if n == 0 {
        1
    } else {
        2 * two_to((n - 1) as nat)
    }
}

/// `num / den` rounded to the nearest whole number, to the even one of
/// two that are equally near.
pub open spec fn rounded_quotient(num: nat, den: nat) -> nat {
    let q = num / den;
    let r = num % den;
    if 2 * r > den || (2 * r == den && q % 2 == 1) {
        q + 1
    } else {
        q
    }
}

/// The number of times that `p` has to be halved to get below two to the
/// power of 24.
pub open spec fn excess_bits(p: nat) -> nat
    decreases p,
{
    if p < SIGNIFICAND_LIMIT {
        0
    } else {
        1 + excess_bits(p / 2)
    }
}

impl Score {
    /// Whether the score is an infinity.
    pub open spec fn is_infinite(self) -> bool {
        self.magnitude() == INFINITY_BITS
    }

    /// Whether the sign bit is set.
    pub open spec fn is_negative(self) -> bool {
        self.bits >= SIGN_BIT
    }

    /// The exponent field of the bit pattern.
    pub open spec fn exponent_field(self) -> int {
        self.magnitude() / (HIDDEN_BIT as int)
    }

    /// The significand of a finite score: the fraction field, with the
    /// hidden bit before it unless the exponent field is 0.
    pub open spec fn significand(self) -> nat {
        let fraction = self.magnitude() % (HIDDEN_BIT as int);
        if self.exponent_field() == 0 {
            fraction as nat
        } else {
            (HIDDEN_BIT + fraction) as nat
        }
    }

    /// The exponent of a finite score: the score is its significand times
    /// two to this power, with the sign before it.
    pub open spec fn exponent(self) -> int {
        if self.exponent_field() == 0 {
            -149
        } else {
            self.exponent_field() - 150
        }
    }

    /// The finite score with the given sign, significand and exponent, or
    /// the infinity with that sign where the exponent is too large. The
    /// significand is below two to the power of 24, and below two to the
    /// power of 23 only with the least exponent.
    pub open spec fn assembled(negative: bool, significand: nat, exponent: int) -> Score {
        let magnitude: int = if significand < HIDDEN_BIT {
            significand as int
        } else if exponent + 150 >= 255 {
            INFINITY_BITS as int
        } else {
            (exponent + 150) * HIDDEN_BIT + (significand - HIDDEN_BIT)
        };
        Score {
            bits: (if negative {
                magnitude + SIGN_BIT
            } else {
                magnitude
            }) as u32,
        }
    }

    /// The hundredfold of a number, rounded to the nearest score. The
    /// hundredfold of an infinity or a zero is itself.
    pub open spec fn hundredfold(self) -> Score {
        if self.is_infinite() {
            self
        } else {
            let product = self.significand() * 100;
            let shift = excess_bits(product);
            let rounded = rounded_quotient(product, two_to(shift));
            if rounded == SIGNIFICAND_LIMIT {
                Score::assembled(self.is_negative(), HIDDEN_BIT as nat, self.exponent() + shift + 1)
            } else {
                Score::assembled(self.is_negative(), rounded, self.exponent() + shift)
            }
        }
    }

    /// The magnitude of a finite score times `scale`, rounded to the
    /// nearest whole number.
    pub open spec fn scaled(self, scale: nat) -> nat {
        if self.exponent() >= 0 {
            self.significand() * two_to(self.exponent() as nat) * scale
        } else {
            rounded_quotient(self.significand() * scale, two_to((-self.exponent()) as nat))
        }
    }

    /// The decimal text of a score with as many decimals as `scale` has
    /// zeros; `scale` is 10 or 100. What is no number reads "NaN", an
    /// infinity "inf", and a minus sign stands before what has its sign
    /// bit set.
    pub open spec fn fixed_text(self, scale: nat) -> Seq<char> {
        if self.is_nan() {
            "NaN"@
        } else {
            let sign = if self.is_negative() {
                "-"@
            } else {
                Seq::empty()
            };
            if self.is_infinite() {
                sign + "inf"@
            } else {
                let q = self.scaled(scale);
                sign + decimal(q / scale) + "."@ + (if scale == 10 {
                    seq![digit_char(q % scale)]
                } else {
                    two_digits(q % scale)
                })
            }
        }
    }
}

/// The sign bit of a double-precision number.
pub const DOUBLE_SIGN_BIT: u64 = 0x8000_0000_0000_0000;

/// Bit pattern of the double-precision infinity; larger patterns without
/// the sign bit are not numbers.
pub const DOUBLE_INFINITY_BITS: u64 = 0x7FF0_0000_0000_0000;

/// Two to the power of 52: the weight of the lowest bit of the exponent
/// field of a double-precision number.
pub const DOUBLE_HIDDEN_BIT: u64 = 0x10_0000_0000_0000;

/// The whole part of the double-precision number with the bit pattern
/// `bits`, as far as 64 bits hold it: the number without its fraction, 0
/// for what is negative or no number, and the largest value for what is
/// too large.
pub open spec fn whole_part(bits: u64) -> u64 {
    let field = bits / DOUBLE_HIDDEN_BIT;
    let significand = DOUBLE_HIDDEN_BIT + bits % DOUBLE_HIDDEN_BIT;
    if bits >= DOUBLE_SIGN_BIT || bits > DOUBLE_INFINITY_BITS || field < 1023 {
        0
    } else if field >= 1087 {
        u64::MAX
    } else if field >= 1075 {
        (significand as nat * two_to((field - 1075) as nat)) as u64
    } else {
        (significand as nat / two_to((1075 - field) as nat)) as u64
    }
}

/// The whole part of the double-precision number with the bit pattern
/// `bits`.
pub fn whole_of_double(bits: u64) -> (r: u64)
    ensures
        r == whole_part(bits),
{
    let field = bits / DOUBLE_HIDDEN_BIT;
    let significand = DOUBLE_HIDDEN_BIT + bits % DOUBLE_HIDDEN_BIT;
    if bits >= DOUBLE_SIGN_BIT || bits > DOUBLE_INFINITY_BITS || field < 1023 {
        0
    } else if field >= 1087 {
        u64::MAX
    } else if field >= 1075 {
        let factor = power_of_two((field - 1075) as u32);
        proof {
            lemma_two_to_grows((field - 1075) as nat, 11);
            assert(two_to(11) == 0x800) by {
                reveal_with_fuel(two_to, 12);
            }
            assert(significand * factor <= 0x1F_FFFF_FFFF_FFFF * 0x800) by (nonlinear_arith)
                requires
                    0 <= significand <= 0x1F_FFFF_FFFF_FFFF,
                    0 <= factor <= 0x800,
            ;
        }
        significand * factor
    } else {
        significand / power_of_two((1075 - field) as u32)
    }
}

/// Powers of two multiply.
pub proof fn lemma_two_to_adds(a: nat, b: nat)
    ensures
        two_to(a + b) == two_to(a) * two_to(b),
    decreases a,
{
    if a > 0 {
        let less = (a - 1) as nat;
        lemma_two_to_adds(less, b);
        assert(a + b > 0 && ((a + b - 1) as nat) == less + b);
        assert(two_to(a + b) == 2 * two_to(less + b));
        assert(two_to(a) == 2 * two_to(less));
        assert(2 * (two_to(less) * two_to(b)) == (2 * two_to(less)) * two_to(b))
            by (nonlinear_arith);
    } else {
        assert(two_to(0) == 1);
        assert(1 * two_to(b) == two_to(b));
    }
}

/// Powers of two grow.
pub proof fn lemma_two_to_grows(a: nat, b: nat)
    requires
        a <= b,
    ensures
        0 < two_to(a) <= two_to(b),
    decreases b,
{
    if b > a {
        lemma_two_to_grows(a, (b - 1) as nat);
    } else if a > 0 {
        lemma_two_to_grows((a - 1) as nat, (a - 1) as nat);
    }
}

/// The powers of two that the arithmetic here meets.
pub proof fn lemma_two_to_values()
    ensures
        two_to(0) == 1,
        two_to(6) == 0x40,
        two_to(7) == 0x80,
        two_to(32) == 0x1_0000_0000,
        two_to(63) == 0x8000_0000_0000_0000,
        two_to(103) == 0x80_0000_0000_0000_0000_0000_0000,
{
    assert(two_to(6) == 0x40 && two_to(7) == 0x80 && two_to(8) == 0x100) by {
        reveal_with_fuel(two_to, 9);
    }
    lemma_two_to_adds(8, 8);
    assert(two_to(16) == 0x1_0000);
    lemma_two_to_adds(16, 16);
    assert(two_to(32) == 0x1_0000_0000);
    lemma_two_to_adds(32, 32);
    assert(two_to(64) == 0x1_0000_0000_0000_0000);
    assert(two_to(64) == 2 * two_to(63));
    lemma_two_to_adds(64, 32);
    assert(two_to(96) == 0x1_0000_0000_0000_0000_0000_0000);
    lemma_two_to_adds(96, 8);
    assert(two_to(104) == 0x100_0000_0000_0000_0000_0000_0000);
    assert(two_to(104) == 2 * two_to(103));
}

/// Two to the power of `n`, for `n` up to 63.
pub fn power_of_two(n: u32) -> (r: u64)
    requires
        n <= 63,
    ensures
        r == two_to(n as nat),
        1 <= r <= 0x8000_0000_0000_0000,
{
    let mut r: u64 = 1;
    let mut i: u32 = 0;
    while i < n
        invariant
            i <= n <= 63,
            r == two_to(i as nat),
        decreases n - i,
    {
        proof {
            lemma_two_to_grows((i + 1) as nat, 63);
            lemma_two_to_values();
        }
        r = r * 2;
        i = i + 1;
    }
    proof {
        lemma_two_to_grows(n as nat, 63);
        lemma_two_to_values();
    }
    r
}

/// `num / den` rounded to the nearest whole number, to the even one of
/// two that are equally near.
pub fn round_quotient(num: u64, den: u64) -> (r: u64)
    requires
        den > 0,
        num < 0x8000_0000_0000_0000,
    ensures
        r == rounded_quotient(num as nat, den as nat),
{
    let q = num / den;
    let r = num % den;
    let rest = den - r;
    if r > rest || (r == rest && q % 2 == 1) {
        q + 1
    } else {
        q
    }
}

/// The parts of a finite score.
pub struct Parts {
    pub negative: bool,
    pub significand: u32,
    pub exponent: i32,
}

impl Score {
    /// Whether the score is an infinity.
    pub fn infinite(self) -> (r: bool)
        ensures
            r == self.is_infinite(),
    {
        self.bits == INFINITY_BITS || self.bits == INFINITY_BITS + SIGN_BIT
    }

    /// Whether the sign bit is set.
    pub fn negative(self) -> (r: bool)
        ensures
            r == self.is_negative(),
    {
        self.bits >= SIGN_BIT
    }

    /// Takes a score that is a finite number apart.
    pub fn parts(self) -> (r: Parts)
        requires
            !self.is_nan(),
            !self.is_infinite(),
        ensures
            r.negative == self.is_negative(),
            r.significand == self.significand(),
            r.exponent == self.exponent(),
            r.significand < SIGNIFICAND_LIMIT,
            -149 <= r.exponent <= 104,
            r.significand < HIDDEN_BIT ==> r.exponent == -149,
    {
        let negative = self.bits >= SIGN_BIT;
        let magnitude = if negative {
            self.bits - SIGN_BIT
        } else {
            self.bits
        };
        let field = magnitude / HIDDEN_BIT;
        let fraction = magnitude % HIDDEN_BIT;
        if field == 0 {
            Parts { negative, significand: fraction, exponent: -149 }
        } else {
            Parts { negative, significand: HIDDEN_BIT + fraction, exponent: field as i32 - 150 }
        }
    }

    /// Puts a score together from its parts.
    pub fn assemble(negative: bool, significand: u32, exponent: i32) -> (r: Score)
        requires
            significand < SIGNIFICAND_LIMIT,
            -149 <= exponent <= 200,
        ensures
            r == Score::assembled(negative, significand as nat, exponent as int),
    {
        let magnitude: u32 = if significand < HIDDEN_BIT {
            significand
        } else if exponent + 150 >= 255 {
            INFINITY_BITS
        } else {
            ((exponent + 150) as u32) * HIDDEN_BIT + (significand - HIDDEN_BIT)
        };
        if negative {
            Score { bits: magnitude + SIGN_BIT }
        } else {
            Score { bits: magnitude }
        }
    }

    /// The hundredfold of the score, rounded to the nearest score. What is
    /// no number stays no number.
    pub fn times_hundred(self) -> (r: Score)
        ensures
            !self.is_nan() ==> r == self.hundredfold(),
            self.is_nan() ==> r.is_nan(),
    {
        if self.not_a_number() || self.infinite() {
            return self;
        }
        let parts = self.parts();
        let product: u64 = (parts.significand as u64) * 100;
        let mut top: u64 = product;
        let mut power: u64 = 1;
        let mut shift: u32 = 0;
        while top >= SIGNIFICAND_LIMIT as u64
            invariant
                product < 0x8000_0000,
                power == two_to(shift as nat),
                1 <= power <= 128,
                shift <= 7,
                top == product / power,
                excess_bits(product as nat) == shift + excess_bits(top as nat),
            decreases top,
        {
            proof {
                vstd::arithmetic::div_mod::lemma_fundamental_div_mod(product as int, power as int);
                vstd::arithmetic::div_mod::lemma_mod_bound(product as int, power as int);
                assert(power < 128) by (nonlinear_arith)
                    requires
                        product == power * top + product % power,
                        0 <= product % power,
                        top >= 0x100_0000,
                        product < 0x8000_0000,
                        power >= 1,
                ;
                vstd::arithmetic::div_mod::lemma_div_denominator(product as int, power as int, 2);
                assert(power * 2 == 2 * power);
                assert(two_to((shift + 1) as nat) == 2 * two_to(shift as nat));
                lemma_shift_below_seven(shift as nat, power as nat);
            }
            top = top / 2;
            power = power * 2;
            shift = shift + 1;
        }
        let rounded = round_quotient(product, power);
        if rounded == SIGNIFICAND_LIMIT as u64 {
            Score::assemble(parts.negative, HIDDEN_BIT, parts.exponent + shift as i32 + 1)
        } else {
            Score::assemble(parts.negative, rounded as u32, parts.exponent + shift as i32)
        }
    }

    /// The whole part and the decimals of the magnitude of a finite score,
    /// rounded to as many decimals as `scale` has zeros.
    pub fn fixed_parts(self, scale: u64) -> (r: (u128, u64))
        requires
            !self.is_nan(),
            !self.is_infinite(),
            scale == 10 || scale == 100,
        ensures
            r.0 == self.scaled(scale as nat) / (scale as nat),
            r.1 == self.scaled(scale as nat) % (scale as nat),
    {
        let parts = self.parts();
        if parts.exponent >= 0 {
            let mut whole: u128 = parts.significand as u128;
            let mut i: i32 = 0;
            proof {
                assert(two_to(0) == 1);
                assert(parts.significand * two_to(0) == parts.significand);
            }
            while i < parts.exponent
                invariant
                    0 <= i <= parts.exponent <= 104,
                    parts.significand < SIGNIFICAND_LIMIT,
                    whole == parts.significand * two_to(i as nat),
                decreases parts.exponent - i,
            {
                proof {
                    lemma_two_to_grows(i as nat, 103);
                    lemma_two_to_values();
                    assert(parts.significand * two_to(i as nat) <= 0xFF_FFFF * two_to(103))
                        by (nonlinear_arith)
                        requires
                            0 <= parts.significand <= 0xFF_FFFF,
                            0 <= two_to(i as nat) <= two_to(103),
                    ;
                    assert(two_to((i + 1) as nat) == 2 * two_to(i as nat));
                    assert(parts.significand * (2 * two_to(i as nat)) == 2 * (parts.significand
                        * two_to(i as nat))) by (nonlinear_arith);
                }
                whole = whole * 2;
                i = i + 1;
            }
            proof {
                let n = whole as nat;
                if scale == 10 {
                    assert(self.scaled(10) == n * 10);
                    assert((n * 10) / 10 == n && (n * 10) % 10 == 0);
                } else {
                    assert(self.scaled(100) == n * 100);
                    assert((n * 100) / 100 == n && (n * 100) % 100 == 0);
                }
            }
            (whole, 0)
        } else {
            let shift: u32 = (-parts.exponent) as u32;
            let num: u64 = (parts.significand as u64) * scale;
            let q: u64 = if shift >= 32 {
                proof {
                    lemma_two_to_grows(32, shift as nat);
                    lemma_two_to_values();
                    let den = two_to(shift as nat);
                    vstd::arithmetic::div_mod::lemma_small_mod(num as nat, den);
                    vstd::arithmetic::div_mod::lemma_basic_div(num as int, den as int);
                }
                0
            } else {
                round_quotient(num, power_of_two(shift))
            };
            (((q / scale) as u128), q % scale)
        }
    }

    /// Renders the score with one decimal, where `scale` is 10, or with two,
    /// where it is 100.
    pub fn render_fixed(self, scale: u64) -> (s: String)
        requires
            scale == 10 || scale == 100,
        ensures
            s@ == self.fixed_text(scale as nat),
    {
        if self.not_a_number() {
            return String::from_str("NaN");
        }
        let mut s = if self.negative() {
            String::from_str("-")
        } else {
            String::new()
        };
        if self.infinite() {
            s.append("inf");
            return s;
        }
        let (whole, fraction) = self.fixed_parts(scale);
        let digits = u128_to_decimal(whole);
        s.append(digits.as_str());
        s.append(".");
        if scale == 10 {
            s.append(digit_str(fraction as u8));
        } else {
            let decimals = two_digit_str(fraction as u8);
            s.append(decimals.as_str());
        }
        s
    }

    /// Renders the score with one decimal.
    pub fn render_tenths(self) -> (s: String)
        ensures
            s@ == self.fixed_text(10),
    {
        self.render_fixed(10)
    }

    /// Renders the score with two decimals.
    pub fn render_hundredths(self) -> (s: String)
        ensures
            s@ == self.fixed_text(100),
    {
        self.render_fixed(100)
    }
}

/// A power of two below 128 is at most 64, and its exponent below 7.
proof fn lemma_shift_below_seven(shift: nat, power: nat)
    requires
        power == two_to(shift),
        power < 128,
    ensures
        shift < 7,
        power <= 64,
{
    lemma_two_to_values();
    if shift >= 7 {
        lemma_two_to_grows(7, shift);
    } else {
        lemma_two_to_grows(shift, 6);
    }
}

} // verus!
