//! Canonical text form of an identifier: the 160-bit value written big-endian
//! in base62 over the alphabet `0-9 A-Z a-z`, always exactly 27 characters
//! (zero-padded on the left). The alphabet is in ASCII order, so the
//! lexicographic order of canonical texts matches the numeric order of the
//! identifiers, and so creation-time order, coarse to the second.
//!
//! Decoding accepts exactly the strings of 27 alphabet characters; as in the
//! storage layer this crate follows, a value wider than 160 bits is reduced
//! to its low 160 bits.

use vstd::arithmetic::div_mod::{
    lemma_add_mod_noop, lemma_fundamental_div_mod, lemma_fundamental_div_mod_converse,
    lemma_mod_breakdown, lemma_mul_mod_noop_right, lemma_small_mod,
};
use vstd::prelude::*;
use vstd::string::StrSliceExecFns;

use crate::error::DecodeError;
use crate::id::{id_value, PokemonId};

verus! {

/// The character of a base62 digit value: `0-9`, then `A-Z`, then `a-z`.
pub open spec fn base62_char(d: nat) -> char {
    if d < 10 {
        (d + 48) as char
    } else if d < 36 {
        (d + 55) as char
    } else {
        (d + 61) as char
    }
}

/// Whether a character belongs to the base62 alphabet.
pub open spec fn is_base62_char(c: char) -> bool {
    (48 <= c as int && c as int <= 57) || (65 <= c as int && c as int <= 90) || (97 <= c as int
        && c as int <= 122)
}

/// Whether every character of a text belongs to the base62 alphabet.
pub open spec fn all_base62(s: Seq<char>) -> bool {
    forall|i: int| 0 <= i < s.len() ==> is_base62_char(s[i])
}

/// The digit value of a base62 alphabet character.
pub open spec fn digit_of(c: char) -> nat {
    if 48 <= c as int && c as int <= 57 {
        (c as int - 48) as nat
    } else if 65 <= c as int && c as int <= 90 {
        (c as int - 55) as nat
    } else {
        (c as int - 61) as nat
    }
}

/// The number a base62 text denotes, most significant digit first.
pub open spec fn decode_value(s: Seq<char>) -> nat
    decreases s.len(),
{
    if s.len() == 0 {
        0
    } else {
        decode_value(s.drop_last()) * 62 + digit_of(s.last())
    }
}

/// The last `k` base62 digits of `n`, most significant first.
pub open spec fn canonical_seq(n: nat, k: nat) -> Seq<char>
    decreases k,
{
    if k == 0 {
        Seq::empty()
    } else {
        canonical_seq(n / 62, (k - 1) as nat).push(base62_char(n % 62))
    }
}

/// The canonical text of an identifier: its 160-bit value in 27 base62
/// digits. Deterministic and total; every identifier has exactly one
/// canonical text.
pub open spec fn canonical_text_of(id: PokemonId) -> Seq<char> {
    canonical_seq(id_value(id), 27)
}

/// The identifier whose 160-bit value is the low 160 bits of `n`.
pub open spec fn id_of_nat(n: nat) -> PokemonId {
    PokemonId {
        timestamp: ((n / 0x100000000000000000000000000000000nat) % 0x100000000) as u32,
        payload_hi: ((n / 0x10000000000000000) % 0x10000000000000000) as u64,
        payload_lo: (n % 0x10000000000000000) as u64,
    }
}

/// 62 to the power `k`.
pub open spec fn pow62(k: nat) -> nat
    decreases k,
{
    if k == 0 {
        1
    } else {
        62 * pow62((k - 1) as nat)
    }
}

/// The value of `id_of_nat(n)` is `n` reduced to 160 bits.
pub proof fn lemma_id_of_nat_value(n: nat)
    ensures
        id_value(id_of_nat(n)) == n % 0x10000000000000000000000000000000000000000nat,
{
    lemma_mod_breakdown(
        n as int,
        0x100000000000000000000000000000000int,
        0x100000000,
    );
    lemma_mod_breakdown(n as int, 0x10000000000000000, 0x10000000000000000);
}

/// Two identifiers with the same 160-bit value are the same identifier.
pub proof fn lemma_id_value_injective(a: PokemonId, b: PokemonId)
    requires
        id_value(a) == id_value(b),
    ensures
        a == b,
{
    lemma_id_fields_from_value(a);
    lemma_id_fields_from_value(b);
}

/// Each field of an identifier can be read back from its 160-bit value.
proof fn lemma_id_fields_from_value(a: PokemonId)
    ensures
        a.payload_lo == id_value(a) % 0x10000000000000000,
        a.payload_hi == (id_value(a) / 0x10000000000000000) % 0x10000000000000000,
        a.timestamp == id_value(a) / 0x100000000000000000000000000000000nat,
{
    let v = id_value(a) as int;
    lemma_fundamental_div_mod_converse(
        v,
        0x10000000000000000,
        a.timestamp * 0x10000000000000000 + a.payload_hi,
        a.payload_lo as int,
    );
    lemma_fundamental_div_mod_converse(
        v / 0x10000000000000000,
        0x10000000000000000,
        a.timestamp as int,
        a.payload_hi as int,
    );
}

/// A canonical digit sequence has the requested length and stays inside the
/// base62 alphabet.
pub proof fn lemma_canonical_seq_wf(n: nat, k: nat)
    ensures
        canonical_seq(n, k).len() == k,
        all_base62(canonical_seq(n, k)),
    decreases k,
{
    if k > 0 {
        lemma_canonical_seq_wf(n / 62, (k - 1) as nat);
        lemma_base62_char_value(n % 62);
        assert forall|i: int| 0 <= i < k implies is_base62_char(canonical_seq(n, k)[i]) by {
            if i < k - 1 {
                assert(canonical_seq(n, k)[i] == canonical_seq(n / 62, (k - 1) as nat)[i]);
            }
        }
    }
}

/// A digit below 62 maps into the alphabet and back to itself.
proof fn lemma_base62_char_value(d: nat)
    requires
        d < 62,
    ensures
        is_base62_char(base62_char(d)),
        digit_of(base62_char(d)) == d,
{
}

/// A power of 62 is positive.
proof fn lemma_pow62_pos(k: nat)
    ensures
        pow62(k) >= 1,
    decreases k,
{
    if k > 0 {
        lemma_pow62_pos((k - 1) as nat);
    }
}

/// Decoding the last `k` digits of `n` yields `n` modulo 62^k.
pub proof fn lemma_decode_canonical(n: nat, k: nat)
    ensures
        decode_value(canonical_seq(n, k)) == n % pow62(k),
    decreases k,
{
    if k == 0 {
        lemma_small_mod(0, 1);
        assert(n % pow62(0) == n % 1) by {
            assert(pow62(0) == 1);
        }
        assert(n % 1 == 0) by {
            lemma_fundamental_div_mod(n as int, 1);
        }
    } else {
        let km1 = (k - 1) as nat;
        lemma_decode_canonical(n / 62, km1);
        let prefix = canonical_seq(n / 62, km1);
        let whole = canonical_seq(n, k);
        assert(whole == prefix.push(base62_char(n % 62)));
        assert(whole.drop_last() =~= prefix);
        assert(whole.last() == base62_char(n % 62));
        lemma_base62_char_value(n % 62);
        assert(decode_value(whole) == ((n / 62) % pow62(km1)) * 62 + n % 62);
        lemma_pow62_pos(km1);
        lemma_mod_breakdown(n as int, 62, pow62(km1) as int);
        assert(pow62(k) == 62 * pow62(km1));
    }
}

/// Law: the canonical text codec is lossless. For every identifier, the
/// canonical text is 27 alphabet characters, and decoding it yields the
/// identifier again.
pub proof fn lemma_canonical_round_trip(id: PokemonId)
    ensures
        canonical_text_of(id).len() == 27,
        all_base62(canonical_text_of(id)),
        id_of_nat(decode_value(canonical_text_of(id))) == id,
{
    let v = id_value(id);
    lemma_canonical_seq_wf(v, 27);
    lemma_decode_canonical(v, 27);
    crate::id::lemma_id_value_bound(id);
    assert(pow62(27) == 2480707824361381849652170924082266893544595652608nat) by {
        reveal_with_fuel(pow62, 28);
    }
    lemma_small_mod(v, pow62(27));
    assert(decode_value(canonical_text_of(id)) == v);
    lemma_id_of_nat_value(v);
    lemma_small_mod(v, 0x10000000000000000000000000000000000000000nat);
    lemma_id_value_injective(id_of_nat(v), id);
}

/// Whether text `a` sorts strictly before text `b` of the same length:
/// they agree up to some position at which `a` holds the smaller character.
pub open spec fn lex_less(a: Seq<char>, b: Seq<char>) -> bool {
    exists|i: int|
        0 <= i < a.len() && i < b.len() && (forall|j: int| 0 <= j < i ==> a[j] == b[j]) && (a[i]
            as int) < (b[i] as int)
}

/// The alphabet is in ASCII order: a smaller digit gets a smaller
/// character.
proof fn lemma_base62_char_monotone(d1: nat, d2: nat)
    requires
        d1 < d2 < 62,
    ensures
        (base62_char(d1) as int) < (base62_char(d2) as int),
{
}

/// The digit strings of two values below 62^k, compared digit by digit,
/// sort as the values do.
proof fn lemma_canonical_seq_ordered(n1: nat, n2: nat, k: nat)
    requires
        n1 < n2 < pow62(k),
    ensures
        lex_less(canonical_seq(n1, k), canonical_seq(n2, k)),
    decreases k,
{
    lemma_canonical_seq_wf(n1, k);
    lemma_canonical_seq_wf(n2, k);
    if k == 0 {
        assert(false);
    } else {
        let km1 = (k - 1) as nat;
        let q1 = n1 / 62;
        let q2 = n2 / 62;
        let a = canonical_seq(n1, k);
        let b = canonical_seq(n2, k);
        lemma_fundamental_div_mod(n1 as int, 62);
        lemma_fundamental_div_mod(n2 as int, 62);
        lemma_canonical_seq_wf(q1, km1);
        lemma_canonical_seq_wf(q2, km1);
        if q1 == q2 {
            assert(n1 % 62 < n2 % 62);
            lemma_base62_char_monotone(n1 % 62, n2 % 62);
            assert(forall|j: int| 0 <= j < k - 1 ==> a[j] == b[j]);
            assert((a[k - 1] as int) < (b[k - 1] as int));
            assert(lex_less(a, b));
        } else {
            assert(q1 < q2);
            assert(q2 < pow62(km1)) by {
                assert(n2 < 62 * pow62(km1));
                assert(62 * q2 <= n2);
            }
            lemma_canonical_seq_ordered(q1, q2, km1);
            let i = choose|i: int|
                0 <= i < canonical_seq(q1, km1).len() && i < canonical_seq(q2, km1).len() && (
                forall|j: int|
                    0 <= j < i ==> canonical_seq(q1, km1)[j] == canonical_seq(q2, km1)[j]) && (
                canonical_seq(q1, km1)[i] as int) < (canonical_seq(q2, km1)[i] as int);
            assert(forall|j: int| 0 <= j < i ==> a[j] == b[j]);
            assert((a[i] as int) < (b[i] as int));
            assert(lex_less(a, b));
        }
    }
}

/// Law: canonical texts sort as the identifiers' 160-bit values do, and so
/// as their creation timestamps, coarse to the second: an identifier made
/// in an earlier second sorts strictly before one made in a later second,
/// whatever the random payloads.
pub proof fn lemma_canonical_text_time_ordered(a: PokemonId, b: PokemonId)
    requires
        a.timestamp < b.timestamp,
    ensures
        lex_less(canonical_text_of(a), canonical_text_of(b)),
{
    assert(id_value(a) < id_value(b)) by {
        assert((a.timestamp as nat) * 0x100000000000000000000000000000000nat + (
        0x100000000000000000000000000000000nat - 1) < ((a.timestamp + 1) as nat)
            * 0x100000000000000000000000000000000nat);
        assert(((a.timestamp + 1) as nat) * 0x100000000000000000000000000000000nat <= (
        b.timestamp as nat) * 0x100000000000000000000000000000000nat);
    }
    crate::id::lemma_id_value_bound(b);
    assert(pow62(27) == 2480707824361381849652170924082266893544595652608nat) by {
        reveal_with_fuel(pow62, 28);
    }
    lemma_canonical_seq_ordered(id_value(a), id_value(b), 27);
}

/// Splits a 160-bit value into its quotient and remainder by 62, working
/// limb by limb from the most significant end.
fn div_rem_62(id: &PokemonId) -> (r: (PokemonId, u8))
    ensures
        id_value(*id) == 62 * id_value(r.0) + r.1,
        r.1 < 62,
{
    let t = id.timestamp;
    let h = id.payload_hi;
    let l = id.payload_lo;
    let q0: u32 = t / 62;
    let r0: u32 = t % 62;
    let cur1: u128 = (r0 as u128) * 0x10000000000000000 + (h as u128);
    proof {
        lemma_fundamental_div_mod(cur1 as int, 62);
        assert(cur1 < 62 * 0x10000000000000000);
    }
    let q1: u64 = (cur1 / 62) as u64;
    let r1: u64 = (cur1 % 62) as u64;
    let cur2: u128 = (r1 as u128) * 0x10000000000000000 + (l as u128);
    proof {
        lemma_fundamental_div_mod(cur2 as int, 62);
        assert(cur2 < 62 * 0x10000000000000000);
    }
    let q2: u64 = (cur2 / 62) as u64;
    let r2: u8 = (cur2 % 62) as u8;
    let q = PokemonId { timestamp: q0, payload_hi: q1, payload_lo: q2 };
    proof {
        let big: int = 0x100000000000000000000000000000000int;
        let mid: int = 0x10000000000000000;
        assert(t == 62 * q0 + r0);
        assert(cur1 == 62 * q1 + r1);
        assert(cur2 == 62 * q2 + r2);
        assert(id_value(*id) == (t as int) * big + (h as int) * mid + (l as int));
        assert((t as int) * big == (62 * q0 + r0) * big);
        assert((r0 as int) * big + (h as int) * mid == ((r0 as int) * mid + h) * mid);
        assert(((r0 as int) * mid + h) * mid == (cur1 as int) * mid);
        assert((cur1 as int) * mid == (62 * q1 + r1) * mid);
        assert((r1 as int) * mid + (l as int) == cur2);
        assert(id_value(*id) == 62 * ((q0 as int) * big + (q1 as int) * mid + (q2 as int))
            + r2);
    }
    (q, r2)
}

/// Multiplies a 160-bit value by 62, adds a digit, and keeps the low 160
/// bits, working limb by limb from the least significant end.
fn times62_plus(id: &PokemonId, d: u8) -> (r: PokemonId)
    requires
        d < 62,
    ensures
        r == id_of_nat((62 * id_value(*id) + d) as nat),
{
    let t = id.timestamp;
    let h = id.payload_hi;
    let l = id.payload_lo;
    let cur_lo: u128 = (l as u128) * 62 + (d as u128);
    let new_lo: u64 = (cur_lo % 0x10000000000000000) as u64;
    let carry_lo: u64 = (cur_lo / 0x10000000000000000) as u64;
    let cur_hi: u128 = (h as u128) * 62 + (carry_lo as u128);
    let new_hi: u64 = (cur_hi % 0x10000000000000000) as u64;
    let carry_hi: u64 = (cur_hi / 0x10000000000000000) as u64;
    let cur_ts: u64 = (t as u64) * 62 + carry_hi;
    let new_ts: u32 = (cur_ts % 0x100000000) as u32;
    proof {
        let big: int = 0x100000000000000000000000000000000int;
        let mid: int = 0x10000000000000000;
        let n: int = 62 * id_value(*id) + d;
        lemma_fundamental_div_mod(cur_lo as int, mid);
        lemma_fundamental_div_mod(cur_hi as int, mid);
        lemma_fundamental_div_mod(cur_ts as int, 0x100000000);
        assert(cur_lo == (carry_lo as int) * mid + new_lo);
        assert(cur_hi == (carry_hi as int) * mid + new_hi);
        assert(cur_ts == (cur_ts as int / 0x100000000) * 0x100000000 + new_ts);
        assert(n == 62 * ((t as int) * big + (h as int) * mid + (l as int)) + d);
        assert(62 * ((t as int) * big) == (62 * (t as int)) * big);
        assert(62 * ((h as int) * mid) == (62 * (h as int)) * mid);
        assert(n == (62 * (t as int)) * big + (62 * (h as int)) * mid + (cur_lo as int));
        assert(n == (62 * (t as int)) * big + ((62 * (h as int)) + (carry_lo as int)) * mid + (
        new_lo as int));
        assert(n == (62 * (t as int)) * big + (cur_hi as int) * mid + (new_lo as int));
        assert((cur_hi as int) * mid == ((carry_hi as int) * mid + new_hi) * mid);
        assert(n == ((62 * (t as int)) + (carry_hi as int)) * big + (new_hi as int) * mid + (
        new_lo as int));
        assert(n == (cur_ts as int) * big + (new_hi as int) * mid + (new_lo as int));
        // Read each limb of `n` back with the uniqueness of division.
        lemma_fundamental_div_mod_converse(
            n,
            mid,
            (cur_ts as int) * mid + new_hi,
            new_lo as int,
        );
        lemma_fundamental_div_mod_converse(n / mid, mid, cur_ts as int, new_hi as int);
        lemma_fundamental_div_mod_converse(
            n,
            big,
            cur_ts as int,
            (new_hi as int) * mid + new_lo,
        );
        assert(id_of_nat(n as nat).payload_lo == new_lo);
        assert(id_of_nat(n as nat).payload_hi == new_hi);
        assert(id_of_nat(n as nat).timestamp == new_ts);
    }
    PokemonId { timestamp: new_ts, payload_hi: new_hi, payload_lo: new_lo }
}

/// The ASCII byte of a base62 digit value.
fn base62_byte(d: u8) -> (b: u8)
    requires
        d < 62,
    ensures
        b as char == base62_char(d as nat),
        b < 128,
{
    if d < 10 {
        d + 48
    } else if d < 36 {
        d + 55
    } else {
        d + 61
    }
}

/// The digit value of a character, or `None` outside the base62 alphabet.
fn char_digit(c: char) -> (r: Option<u8>)
    ensures
        r is Some <==> is_base62_char(c),
        r matches Some(d) ==> d < 62 && d as nat == digit_of(c),
{
    let v = c as u32;
    if 48 <= v && v <= 57 {
        Some((v - 48) as u8)
    } else if 65 <= v && v <= 90 {
        Some((v - 55) as u8)
    } else if 97 <= v && v <= 122 {
        Some((v - 61) as u8)
    } else {
        None
    }
}

/// Relies on `String::from_utf8`: a vector of ASCII bytes is valid UTF-8 and
/// parses to the string of exactly those characters.
#[verifier::external_body]
fn ascii_to_string(bytes: Vec<u8>) -> (r: String)
    requires
        forall|i: int| 0 <= i < bytes@.len() ==> bytes@[i] < 128,
    ensures
        r@.len() == bytes@.len(),
        forall|i: int| 0 <= i < bytes@.len() ==> r@[i] == bytes@[i] as char,
{
    match String::from_utf8(bytes) {
        Ok(s) => s,
        Err(_) => String::new(),
    }
}

impl PokemonId {
    /// The canonical fixed-length base62 text of this identifier: a
    /// deterministic, total encoding; every identifier has exactly one.
    /// This text, not the raw bytes, is what structured output carries.
    pub fn to_canonical_text(&self) -> (r: String)
        ensures
            r@ == canonical_text_of(*self),
            r@.len() == 27,
    {
        let mut cur = *self;
        let mut digits: Vec<u8> = Vec::new();
        let mut i: usize = 0;
        proof {
            lemma_canonical_seq_wf(id_value(*self), 27);
        }
        while i < 27
            invariant
                i <= 27,
                digits@.len() == i,
                forall|j: int| 0 <= j < i ==> digits@[j] < 128,
                canonical_seq(id_value(*self), 27) =~= canonical_seq(
                    id_value(cur),
                    (27 - i) as nat,
                ) + digits@.map_values(|b: u8| b as char),
            decreases 27 - i,
        {
            let (q, d) = div_rem_62(&cur);
            let b = base62_byte(d);
            let ghost before = digits@;
            digits.insert(0, b);
            proof {
                let v = id_value(cur);
                lemma_fundamental_div_mod_converse(
                    v as int,
                    62,
                    id_value(q) as int,
                    d as int,
                );
                assert(id_value(q) == v / 62 && d as nat == v % 62);
                let k = (27 - i) as nat;
                assert(canonical_seq(v, k) == canonical_seq(v / 62, (k - 1) as nat).push(
                    base62_char(v % 62),
                ));
                assert(digits@ =~= seq![b] + before);
                assert(digits@.map_values(|x: u8| x as char) =~= seq![b as char]
                    + before.map_values(|x: u8| x as char));
                assert(canonical_seq(id_value(q), (k - 1) as nat).push(b as char)
                    + before.map_values(|x: u8| x as char) =~= canonical_seq(
                    id_value(q),
                    (k - 1) as nat,
                ) + digits@.map_values(|x: u8| x as char));
                assert(canonical_seq(id_value(*self), 27) =~= canonical_seq(
                    id_value(q),
                    (26 - i) as nat,
                ) + digits@.map_values(|x: u8| x as char));
            }
            cur = q;
            i += 1;
        }
        proof {
            assert(canonical_seq(id_value(cur), 0) =~= Seq::<char>::empty());
            assert(canonical_text_of(*self) =~= digits@.map_values(|b: u8| b as char));
        }
        let r = ascii_to_string(digits);
        proof {
            assert(r@ =~= canonical_text_of(*self));
        }
        r
    }

    /// Decodes a canonical base62 text back into an identifier. Exactly the
    /// texts of 27 alphabet characters succeed: any other length is
    /// `InvalidLength`, a character outside the alphabet is
    /// `InvalidAlphabet`, and malformed input never panics.
    pub fn from_canonical_text(s: &str) -> (r: Result<PokemonId, DecodeError>)
        ensures
            s@.len() != 27 ==> r == Err::<PokemonId, DecodeError>(DecodeError::InvalidLength),
            s@.len() == 27 && !all_base62(s@) ==> r == Err::<PokemonId, DecodeError>(
                DecodeError::InvalidAlphabet,
            ),
            s@.len() == 27 && all_base62(s@) ==> r == Ok::<PokemonId, DecodeError>(
                id_of_nat(decode_value(s@)),
            ),
    {
        if s.unicode_len() != 27 {
            return Err(DecodeError::InvalidLength);
        }
        let mut cur = PokemonId { timestamp: 0, payload_hi: 0, payload_lo: 0 };
        let mut i: usize = 0;
        while i < 27
            invariant
                s@.len() == 27,
                i <= 27,
                forall|j: int| 0 <= j < i ==> is_base62_char(s@[j]),
                id_value(cur) == decode_value(s@.take(i as int))
                    % 0x10000000000000000000000000000000000000000nat,
            decreases 27 - i,
        {
            let c = s.get_char(i);
            let d = match char_digit(c) {
                Some(d) => d,
                None => {
                    return Err(DecodeError::InvalidAlphabet);
                },
            };
            let next = times62_plus(&cur, d);
            proof {
                let m: int = 0x10000000000000000000000000000000000000000int;
                let prev: int = decode_value(s@.take(i as int)) as int;
                let dd: int = d as int;
                lemma_id_of_nat_value((62 * id_value(cur) + d) as nat);
                // 62 * (prev % m) + d and 62 * prev + d agree modulo m.
                lemma_mul_mod_noop_right(62, prev, m);
                lemma_add_mod_noop(62 * (prev % m), dd, m);
                lemma_add_mod_noop(62 * prev, dd, m);
                lemma_small_mod(d as nat, m as nat);
                assert((62 * (prev % m) + dd) % m == (62 * prev + dd) % m);
                assert(s@.take(i + 1).drop_last() =~= s@.take(i as int));
                assert(s@.take(i + 1).last() == s@[i as int]);
                assert(decode_value(s@.take(i + 1)) == decode_value(s@.take(i as int)) * 62
                    + digit_of(s@[i as int]));
            }
            cur = next;
            i += 1;
        }
        proof {
            assert(s@.take(27) =~= s@);
            lemma_id_of_nat_value(decode_value(s@));
            lemma_id_value_injective(cur, id_of_nat(decode_value(s@)));
        }
        Ok(cur)
    }
}

} // verus!
