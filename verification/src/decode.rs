use vstd::prelude::*;
use crate::address::Address;
use crate::amount::Uint256;
use crate::amount::pow2_128;
use crate::hexstr::all_hex_digits;
use crate::hexstr::dec_chars_of;
use crate::hexstr::hex_0x_of;
use crate::hexstr::hex_0x_string_of;
use crate::hexstr::hex_bytes_of_str;
use crate::hexstr::hex_decoded;
use crate::order_details::DetailsView;
use crate::order_details::OrderDetails;

verus! {

// The opaque payload is the ABI encoding of an exclusive Dutch order: a
// leading offset word, then the order tuple. The tuple head holds, in order,
// the offset of the info block, the decay start and end times, the exclusive
// filler, the exclusivity override, the three words of the input leg, and the
// offset of the output array. The info block holds the reactor, the swapper,
// the nonce, the deadline, the additional-validation contract, and the offset
// of the additional-validation bytes. Every word is 32 bytes, big-endian;
// addresses sit in the low 20 bytes of their word; offsets count from the
// start of the enclosing tuple.

/// The value of a big-endian run of bytes.
pub open spec fn be_value(s: Seq<u8>) -> nat
    decreases s.len(),
{
    if s.len() == 0 {
        0
    } else {
        (be_value(s.drop_last()) * 256 + s.last()) as nat
    }
}

/// `256^n`, the weight of a byte `n` places from the end.
pub open spec fn pow256(n: nat) -> nat
    decreases n,
{
    if n == 0 {
        1
    } else {
        256 * pow256((n - 1) as nat)
    }
}

/// The 32-byte word at a byte offset; meaningful when it lies inside `b`.
pub open spec fn word_at(b: Seq<u8>, off: int) -> nat {
    be_value(b.subrange(off, off + 32))
}

proof fn lemma_pow256_16()
    ensures
        pow256(16) == pow2_128(),
{
    reveal_with_fuel(pow256, 17);
}

proof fn lemma_pow256_pos(n: nat)
    ensures
        pow256(n) >= 1,
    decreases n,
{
    if n > 0 {
        lemma_pow256_pos((n - 1) as nat);
    }
}

proof fn lemma_pow256_le(a: nat, b: nat)
    requires
        a <= b,
    ensures
        pow256(a) <= pow256(b),
    decreases b,
{
    if a < b {
        lemma_pow256_le(a, (b - 1) as nat);
        lemma_pow256_pos((b - 1) as nat);
    }
}

proof fn lemma_be_value_append(a: Seq<u8>, c: Seq<u8>)
    ensures
        be_value(a + c) == be_value(a) * pow256(c.len()) + be_value(c),
    decreases c.len(),
{
    if c.len() == 0 {
        assert(a + c =~= a);
        assert(pow256(0) == 1);
        assert(be_value(c) == 0);
        assert(be_value(a) * 1 == be_value(a)) by (nonlinear_arith);
    } else {
        let c0 = c.drop_last();
        lemma_be_value_append(a, c0);
        assert((a + c).drop_last() =~= a + c0);
        assert((a + c).last() == c.last());
        assert(pow256(c.len()) == 256 * pow256(c0.len()));
        assert(be_value(a + c) == be_value(a + c0) * 256 + c.last());
        assert(be_value(c) == be_value(c0) * 256 + c.last());
        assert((be_value(a) * pow256(c0.len()) + be_value(c0)) * 256 + c.last() == be_value(a)
            * (256 * pow256(c0.len())) + (be_value(c0) * 256 + c.last())) by (nonlinear_arith);
        assert(be_value(a + c) == be_value(a) * pow256(c.len()) + be_value(c));
    }
}

/// Reads sixteen bytes, big-endian.
fn read_u128(b: &Vec<u8>, off: usize) -> (r: u128)
    requires
        off + 16 <= b@.len(),
    ensures
        r == be_value(b@.subrange(off as int, off + 16)),
{
    let n: usize = b.len();
    let mut acc: u128 = 0;
    let mut j: usize = 0;
    while j < 16
        invariant
            off + 16 <= b@.len(),
            n == b@.len(),
            j <= 16,
            acc == be_value(b@.subrange(off as int, off + j)),
            acc < pow256(j as nat),
        decreases 16 - j,
    {
        proof {
            lemma_pow256_le(j as nat, 15);
            lemma_pow256_16();
            assert(pow256(16) == 256 * pow256(15));
            assert(b@.subrange(off as int, off + j + 1).drop_last() =~= b@.subrange(
                off as int,
                off + j,
            ));
        }
        acc = acc * 256 + (b[off + j] as u128);
        j += 1;
    }
    proof {
        assert(b@.subrange(off as int, off + 16) =~= b@.subrange(off as int, off + 16));
    }
    acc
}

/// Reads one whole word as a 256-bit integer.
fn read_uint256(b: &Vec<u8>, off: usize) -> (r: Uint256)
    requires
        off + 32 <= b@.len(),
    ensures
        r.value() == word_at(b@, off as int),
{
    let _n: usize = b.len();
    let hi = read_u128(b, off);
    let lo = read_u128(b, off + 16);
    proof {
        let whole = b@.subrange(off as int, off + 32);
        let a = b@.subrange(off as int, off + 16);
        let c = b@.subrange(off + 16, off + 32);
        assert(whole =~= a + c);
        lemma_be_value_append(a, c);
        lemma_pow256_16();
    }
    Uint256 { hi, lo }
}

/// Reads one word that must fit in 64 bits; fails when it does not.
fn read_u64_word(b: &Vec<u8>, off: usize) -> (r: Option<u64>)
    requires
        off + 32 <= b@.len(),
    ensures
        r is Some <==> word_at(b@, off as int) < 0x1_0000_0000_0000_0000,
        r matches Some(v) ==> v == word_at(b@, off as int),
{
    let w = read_uint256(b, off);
    proof {
        if w.hi >= 1 {
            assert(w.hi * pow2_128() >= pow2_128()) by (nonlinear_arith)
                requires
                    w.hi >= 1,
            ;
        }
    }
    if w.hi == 0 && w.lo < 18446744073709551616 {
        Some(w.lo as u64)
    } else {
        None
    }
}

/// Reads the address held in the low twenty bytes of a word.
fn read_address(b: &Vec<u8>, off: usize) -> (r: Address)
    requires
        off + 32 <= b@.len(),
    ensures
        r@ == b@.subrange(off + 12, off + 32),
{
    let n: usize = b.len();
    let mut bytes: [u8; 20] = [0; 20];
    let mut j: usize = 0;
    while j < 20
        invariant
            off + 32 <= b@.len(),
            n == b@.len(),
            j <= 20,
            forall|k: int| 0 <= k < j ==> bytes@[k] == b@[off + 12 + k],
        decreases 20 - j,
    {
        bytes[j] = b[off + 12 + j];
        j += 1;
    }
    let r = Address { bytes };
    proof {
        assert(r@ =~= b@.subrange(off + 12, off + 32));
    }
    r
}

/// A payload whose offsets, lengths and word-sized fields all lie where the
/// layout above demands. Only such payloads decode.
pub open spec fn details_wellformed(b: Seq<u8>) -> bool {
    let n = b.len() as int;
    &&& n <= 0x1000_0000
    &&& n >= 32
    &&& ({
        let p = word_at(b, 0) as int;
        &&& p + 288 <= n
        &&& word_at(b, p + 32) < 0x1_0000_0000_0000_0000
        &&& word_at(b, p + 64) < 0x1_0000_0000_0000_0000
        &&& word_at(b, p + 128) < 0x1_0000_0000_0000_0000
        &&& ({
            let q = p + word_at(b, p) as int;
            &&& q + 192 <= n
            &&& word_at(b, q + 96) < 0x1_0000_0000_0000_0000
            &&& ({
                let d = q + word_at(b, q + 160) as int;
                &&& d + 32 <= n
                &&& d + 32 + word_at(b, d) <= n
            })
        })
        &&& ({
            let o = p + word_at(b, p + 256) as int;
            &&& o + 32 <= n
            &&& o + 32 + 128 * word_at(b, o) <= n
        })
    })
}

/// What a well-formed payload decodes to.
pub open spec fn details_view_of(b: Seq<u8>) -> DetailsView {
    let p = word_at(b, 0) as int;
    let q = p + word_at(b, p) as int;
    let d = q + word_at(b, q + 160) as int;
    DetailsView {
        decay_start_time: word_at(b, p + 32) as u64,
        decay_end_time: word_at(b, p + 64) as u64,
        exclusive_filler: hex_0x_of(b.subrange(p + 108, p + 128)),
        exclusivity_override_bps: word_at(b, p + 128) as u64,
        reactor: hex_0x_of(b.subrange(q + 12, q + 32)),
        swapper: hex_0x_of(b.subrange(q + 44, q + 64)),
        nonce: dec_chars_of(word_at(b, q + 64)),
        deadline: word_at(b, q + 96) as u64,
        additional_validation_contract: hex_0x_of(b.subrange(q + 140, q + 160)),
        additional_validation_data: hex_0x_of(
            b.subrange(d + 32, d + 32 + word_at(b, d)),
        ),
    }
}

/// The text with a leading `0x` removed, when one is there.
pub open spec fn strip_0x(s: Seq<char>) -> Seq<char> {
    if s.len() >= 2 && s[0] == '0' && s[1] == 'x' {
        s.skip(2)
    } else {
        s
    }
}

/// What the opaque payload text decodes to: the hex digits as bytes, read by
/// the layout above; absent when the text is not hex or the layout does not
/// fit.
pub open spec fn decode_payload_spec(s: Seq<char>) -> Option<DetailsView> {
    let h = strip_0x(s);
    if h.len() % 2 == 0 && all_hex_digits(h) && details_wellformed(hex_decoded(h)) {
        Some(details_view_of(hex_decoded(h)))
    } else {
        None
    }
}

/// Decodes a well-formed payload; fails exactly on a malformed one.
fn decode_bytes(b: &Vec<u8>) -> (r: Option<OrderDetails>)
    ensures
        r is Some <==> details_wellformed(b@),
        r matches Some(d) ==> d@ == details_view_of(b@),
{
    let n: usize = b.len();
    if n > 0x1000_0000 || n < 32 {
        return None;
    }
    let p_word = match read_u64_word(b, 0) {
        Some(v) => v,
        None => {
            return None;
        },
    };
    if p_word > n as u64 {
        return None;
    }
    let p: usize = p_word as usize;
    if n - p < 288 {
        return None;
    }
    let decay_start = match read_u64_word(b, p + 32) {
        Some(v) => v,
        None => {
            return None;
        },
    };
    let decay_end = match read_u64_word(b, p + 64) {
        Some(v) => v,
        None => {
            return None;
        },
    };
    let filler = read_address(b, p + 96);
    let bps = match read_u64_word(b, p + 128) {
        Some(v) => v,
        None => {
            return None;
        },
    };
    // The info block.
    let info_rel = match read_u64_word(b, p) {
        Some(v) => v,
        None => {
            return None;
        },
    };
    if info_rel > n as u64 {
        return None;
    }
    let q: usize = p + info_rel as usize;
    if q > n || n - q < 192 {
        return None;
    }
    let reactor = read_address(b, q);
    let swapper = read_address(b, q + 32);
    let nonce = read_uint256(b, q + 64);
    let deadline = match read_u64_word(b, q + 96) {
        Some(v) => v,
        None => {
            return None;
        },
    };
    let avc = read_address(b, q + 128);
    let data_rel = match read_u64_word(b, q + 160) {
        Some(v) => v,
        None => {
            return None;
        },
    };
    if data_rel > n as u64 {
        return None;
    }
    let d_off: usize = q + data_rel as usize;
    if d_off > n || n - d_off < 32 {
        return None;
    }
    let dlen = match read_u64_word(b, d_off) {
        Some(v) => v,
        None => {
            return None;
        },
    };
    if dlen > (n - d_off - 32) as u64 {
        return None;
    }
    let dlen_us: usize = dlen as usize;
    // The output array only has to lie inside the payload.
    let out_rel = match read_u64_word(b, p + 256) {
        Some(v) => v,
        None => {
            return None;
        },
    };
    if out_rel > n as u64 {
        return None;
    }
    let o: usize = p + out_rel as usize;
    if o > n || n - o < 32 {
        return None;
    }
    let count = match read_u64_word(b, o) {
        Some(v) => v,
        None => {
            return None;
        },
    };
    if count > ((n - o - 32) / 128) as u64 {
        proof {
            assert(128 * word_at(b@, o as int) > n - o - 32);
        }
        return None;
    }
    proof {
        assert(128 * word_at(b@, o as int) <= n - o - 32);
        assert(details_wellformed(b@));
    }
    let data_slice: &[u8] = &b.as_slice()[d_off + 32..d_off + 32 + dlen_us];
    let details = OrderDetails {
        decay_start_time: decay_start,
        decay_end_time: decay_end,
        exclusive_filler: filler.to_hex(),
        exclusivity_override_bps: bps,
        reactor: reactor.to_hex(),
        swapper: swapper.to_hex(),
        nonce: nonce.to_dec_string(),
        deadline,
        additional_validation_contract: avc.to_hex(),
        additional_validation_data: hex_0x_string_of(data_slice),
    };
    Some(details)
}

/// Decodes an order's opaque payload text; absent when the text is not hex
/// or its layout is malformed.
pub fn decode_payload(s: &str) -> (r: Option<OrderDetails>)
    ensures
        r is Some <==> decode_payload_spec(s@) is Some,
        r matches Some(d) ==> decode_payload_spec(s@) == Some(d@),
{
    let n_chars: usize = s.unicode_len();
    let stripped: &str = if n_chars >= 2 {
        let c0 = s.get_char(0);
        let c1 = s.get_char(1);
        if c0 == '0' && c1 == 'x' {
            s.substring_char(2, n_chars)
        } else {
            s
        }
    } else {
        s
    };
    proof {
        assert(stripped@ =~= strip_0x(s@));
    }
    let b = match hex_bytes_of_str(stripped) {
        Some(v) => v,
        None => {
            return None;
        },
    };
    decode_bytes(&b)
}

} // verus!
