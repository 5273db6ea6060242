use vstd::prelude::*;
use crate::hexstr::dec_chars_of;
use crate::hexstr::digit_char_of;

verus! {

/// `2^64`, the weight of the upper half of a 128-bit limb.
pub open spec fn pow2_64() -> int {
    0x1_0000_0000_0000_0000
}

/// `2^128`, the weight of the upper limb of a 256-bit integer.
pub open spec fn pow2_128() -> int {
    0x1_0000_0000_0000_0000_0000_0000_0000_0000int
}

/// An unsigned 256-bit integer held as two 128-bit limbs.
#[derive(Clone, Copy, Debug, PartialEq, Eq)]
pub struct Uint256 {
    pub hi: u128,
    pub lo: u128,
}

impl Uint256 {
    /// The integer this pair of limbs denotes.
    pub open spec fn value(self) -> int {
        self.hi * pow2_128() + self.lo
    }

    pub fn new(hi: u128, lo: u128) -> (r: Uint256)
        ensures
            r.hi == hi,
            r.lo == lo,
    {
        Uint256 { hi, lo }
    }

    /// Whether the value fits in the lower limb alone.
    pub fn fits_u128(&self) -> (r: bool)
        ensures
            r == (self.value() < pow2_128()),
            r ==> self.value() == self.lo,
    {
        proof {
            if self.hi != 0 {
                assert(self.hi * pow2_128() >= pow2_128()) by (nonlinear_arith)
                    requires
                        self.hi >= 1,
                ;
            }
        }
        self.hi == 0
    }

    /// Divides by ten, returning the quotient and the last decimal digit.
    fn divmod10(&self) -> (r: (Uint256, u8))
        ensures
            10 * r.0.value() + r.1 == self.value(),
            r.1 < 10,
            self.value() > 0 ==> r.0.value() < self.value(),
    {
        let q_hi: u128 = self.hi / 10;
        let r_hi: u128 = self.hi % 10;
        let lo_hi: u128 = self.lo / 18446744073709551616;
        let lo_lo: u128 = self.lo % 18446744073709551616;
        let a: u128 = r_hi * 18446744073709551616 + lo_hi;
        let q1: u128 = a / 10;
        let r1: u128 = a % 10;
        let b: u128 = r1 * 18446744073709551616 + lo_lo;
        let q2: u128 = b / 10;
        let r2: u128 = b % 10;
        let q_lo: u128 = q1 * 18446744073709551616 + q2;
        let q = Uint256 { hi: q_hi, lo: q_lo };
        proof {
            assert(10 * q.value() + r2 == self.value()) by {
                assert(self.hi == 10 * q_hi + r_hi);
                assert(self.lo == lo_hi * pow2_64() + lo_lo);
                assert(a == 10 * q1 + r1);
                assert(b == 10 * q2 + r2);
            };
            if self.value() > 0 {
                assert(q.value() < self.value());
            }
        }
        (q, r2 as u8)
    }

    /// The decimal text of the value, without leading zeros.
    pub fn to_dec_string(&self) -> (r: String)
        ensures
            r@ == dec_chars_of(self.value() as nat),
    {
        if self.hi == 0 && self.lo == 0 {
            let out = String::from_str("0");
            proof {
                reveal_strlit("0");
                assert(out@ =~= dec_chars_of(self.value() as nat));
            }
            return out;
        }
        let mut digits: Vec<u8> = Vec::new();
        let mut cur: Uint256 = *self;
        let ghost n0: nat = self.value() as nat;
        proof {
            assert(cur.value() > 0) by (nonlinear_arith)
                requires
                    cur.hi >= 1 || cur.lo >= 1,
                    cur.value() == cur.hi * pow2_128() + cur.lo,
            ;
        }
        while cur.hi != 0 || cur.lo != 0
            invariant
                cur.value() > 0 <==> (cur.hi != 0 || cur.lo != 0),
                forall|j: int| 0 <= j < digits@.len() ==> #[trigger] digits@[j] < 10,
                cur.value() > 0 ==> dec_chars_of(n0) =~= dec_chars_of(cur.value() as nat)
                    + digits_reversed(digits@),
                cur.value() == 0 ==> dec_chars_of(n0) =~= digits_reversed(digits@),
            decreases cur.value(),
        {
            let (q, d) = cur.divmod10();
            let ghost old_digits = digits@;
            digits.push(d);
            proof {
                assert(digits_reversed(digits@) =~= seq![digit_char_of(d as int)]
                    + digits_reversed(old_digits));
                if q.value() > 0 {
                    assert(cur.value() >= 10);
                    assert(dec_chars_of(cur.value() as nat) =~= dec_chars_of(q.value() as nat)
                        + seq![digit_char_of(d as int)]);
                    assert(dec_chars_of(q.value() as nat) + digits_reversed(digits@)
                        =~= (dec_chars_of(q.value() as nat) + seq![digit_char_of(d as int)])
                        + digits_reversed(old_digits));
                    assert(dec_chars_of(n0) =~= dec_chars_of(q.value() as nat)
                        + digits_reversed(digits@));
                } else {
                    assert(cur.value() < 10);
                    assert(dec_chars_of(cur.value() as nat) =~= seq![digit_char_of(d as int)]);
                    assert(dec_chars_of(n0) =~= digits_reversed(digits@));
                }
                assert(q.value() > 0 <==> (q.hi != 0 || q.lo != 0)) by (nonlinear_arith)
                    requires
                        q.value() == q.hi * pow2_128() + q.lo,
                ;
            }
            cur = q;
        }
        let mut out = String::new();
        let mut i: usize = digits.len();
        while i > 0
            invariant
                i <= digits@.len(),
                forall|j: int| 0 <= j < digits@.len() ==> #[trigger] digits@[j] < 10,
                out@ =~= digits_reversed(digits@).take(digits@.len() - i),
            decreases i,
        {
            i -= 1;
            crate::hexstr::push_digit(&mut out, digits[i]);
            proof {
                assert(out@ =~= digits_reversed(digits@).take(digits@.len() - i));
            }
        }
        proof {
            assert(out@ =~= digits_reversed(digits@));
        }
        out
    }
}

/// The digits, least significant first, read back most significant first.
pub open spec fn digits_reversed(ds: Seq<u8>) -> Seq<char> {
    Seq::new(ds.len(), |i: int| digit_char_of(ds[ds.len() - 1 - i] as int))
}

/// A human-scaled quantity: the exact rational `mantissa / 10^scale`.
#[derive(Clone, Copy, Debug, PartialEq, Eq, Structural)]
pub struct Decimal {
    pub mantissa: u128,
    pub scale: u8,
}

impl Decimal {
    pub fn new(mantissa: u128, scale: u8) -> (r: Decimal)
        ensures
            r.mantissa == mantissa,
            r.scale == scale,
    {
        Decimal { mantissa, scale }
    }
}

/// Scaling by a token's decimal count: the base-unit amount `raw` becomes the
/// exact quantity `raw / 10^decimals`, kept as mantissa and scale. Only values
/// whose mantissa fits 128 bits can be held.
pub open spec fn scaled_spec(raw: Uint256, decimals: u8) -> Decimal {
    Decimal { mantissa: raw.lo, scale: decimals }
}

/// Whether `raw` is small enough for its mantissa to be held exactly.
pub open spec fn representable(raw: Uint256) -> bool {
    raw.value() < pow2_128()
}

/// Converts a base-unit amount to its human scale; fails only on overflow.
pub fn scale_amount(raw: Uint256, decimals: u8) -> (r: Option<Decimal>)
    ensures
        r is Some <==> representable(raw),
        r matches Some(d) ==> d == scaled_spec(raw, decimals) && d.mantissa == raw.value(),
{
    if raw.fits_u128() {
        Some(Decimal { mantissa: raw.lo, scale: decimals })
    } else {
        None
    }
}

} // verus!
