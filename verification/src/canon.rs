//! Canonical serialization of a [`NoncePayload`].
//!
//! The holder signs the exact byte sequence produced here, and the verifier
//! reproduces it byte for byte before checking the signature: compact JSON
//! with the fields in declaration order
//! (`{"nonce":{"id":...,"issued_at":...},"message":...}`), strings escaped
//! byte-wise over their UTF-8 encoding (`\"`, `\\`, `\b`, `\t`, `\n`, `\f`,
//! `\r`, and `\u00xx` for the remaining control bytes), and the timestamp in
//! plain decimal.

use vstd::prelude::*;

use vstd::utf8::encode_utf8;

use crate::types::{NoncePayload, NoncePayloadView};

verus! {

/// Lowercase hexadecimal digit for a value below 16.
pub open spec fn hex_digit(v: u8) -> u8 {
    if v < 10 {
        (0x30 + v) as u8
    } else {
        (0x57 + v) as u8
    }
}

/// How one byte of a string's UTF-8 encoding appears inside a JSON string
/// literal.
pub open spec fn escape_byte(b: u8) -> Seq<u8> {
    if b == 0x22 {
        seq![0x5cu8, 0x22u8]
    } else if b == 0x5c {
        seq![0x5cu8, 0x5cu8]
    } else if b == 0x08 {
        seq![0x5cu8, 0x62u8]
    } else if b == 0x09 {
        seq![0x5cu8, 0x74u8]
    } else if b == 0x0a {
        seq![0x5cu8, 0x6eu8]
    } else if b == 0x0c {
        seq![0x5cu8, 0x66u8]
    } else if b == 0x0d {
        seq![0x5cu8, 0x72u8]
    } else if b < 0x20 {
        seq![0x5cu8, 0x75u8, 0x30u8, 0x30u8, hex_digit(b / 16), hex_digit(b % 16)]
    } else {
        seq![b]
    }
}

/// The escaped form of a whole byte sequence.
pub open spec fn json_escaped(s: Seq<u8>) -> Seq<u8>
    decreases s.len(),
{
    if s.len() == 0 {
        Seq::empty()
    } else {
        escape_byte(s[0]) + json_escaped(s.drop_first())
    }
}

/// A JSON string literal: quotes around the escaped UTF-8 encoding.
pub open spec fn json_string(s: Seq<char>) -> Seq<u8> {
    seq![0x22u8] + json_escaped(encode_utf8(s)) + seq![0x22u8]
}

/// The decimal digits of a natural number, most significant first.
pub open spec fn dec_digits(n: nat) -> Seq<u8>
    decreases n,
{
    if n < 10 {
        seq![(0x30 + n) as u8]
    } else {
        dec_digits(n / 10).push((0x30 + n % 10) as u8)
    }
}

/// A JSON integer: decimal digits, with a leading minus sign if negative.
pub open spec fn dec_int(v: int) -> Seq<u8> {
    if v < 0 {
        seq![0x2du8] + dec_digits((-v) as nat)
    } else {
        dec_digits(v as nat)
    }
}

/// The bytes `{"nonce":{"id":`.
pub open spec fn id_prefix() -> Seq<u8> {
    seq![
        0x7bu8,
        0x22u8,
        0x6eu8,
        0x6fu8,
        0x6eu8,
        0x63u8,
        0x65u8,
        0x22u8,
        0x3au8,
        0x7bu8,
        0x22u8,
        0x69u8,
        0x64u8,
        0x22u8,
        0x3au8,
    ]
}

/// The bytes `,"issued_at":`.
pub open spec fn issued_at_infix() -> Seq<u8> {
    seq![
        0x2cu8,
        0x22u8,
        0x69u8,
        0x73u8,
        0x73u8,
        0x75u8,
        0x65u8,
        0x64u8,
        0x5fu8,
        0x61u8,
        0x74u8,
        0x22u8,
        0x3au8,
    ]
}

/// The bytes `},"message":`.
pub open spec fn message_infix() -> Seq<u8> {
    seq![
        0x7du8,
        0x2cu8,
        0x22u8,
        0x6du8,
        0x65u8,
        0x73u8,
        0x73u8,
        0x61u8,
        0x67u8,
        0x65u8,
        0x22u8,
        0x3au8,
    ]
}

/// The canonical byte serialization of a payload: what the holder signs and
/// the verifier checks the signature over.
pub open spec fn canonical_json(p: NoncePayloadView) -> Seq<u8> {
    id_prefix() + json_string(p.nonce.id) + issued_at_infix() + dec_int(p.nonce.issued_at)
        + message_infix() + json_string(p.message) + seq![0x7du8]
}

/// Escaping distributes over concatenation.
proof fn lemma_json_escaped_concat(a: Seq<u8>, b: Seq<u8>)
    ensures
        json_escaped(a + b) == json_escaped(a) + json_escaped(b),
    decreases a.len(),
{
    if a.len() == 0 {
        assert(a + b =~= b);
        assert(json_escaped(a) + json_escaped(b) =~= json_escaped(b));
    } else {
        assert((a + b).drop_first() =~= a.drop_first() + b);
        lemma_json_escaped_concat(a.drop_first(), b);
        assert(json_escaped(a + b) =~= json_escaped(a) + json_escaped(b));
    }
}

/// Escaping one more byte appends that byte's escaped form.
proof fn lemma_json_escaped_snoc(s: Seq<u8>, i: int)
    requires
        0 <= i < s.len(),
    ensures
        json_escaped(s.take(i + 1)) == json_escaped(s.take(i)) + escape_byte(s[i]),
{
    let single = seq![s[i]];
    assert(s.take(i + 1) =~= s.take(i) + single);
    lemma_json_escaped_concat(s.take(i), single);
    assert(single.drop_first() =~= Seq::<u8>::empty());
    assert(json_escaped(Seq::<u8>::empty()) =~= Seq::<u8>::empty());
    assert(json_escaped(single) =~= escape_byte(s[i]));
}

/// Appends the escaped form of one byte.
fn push_escaped_byte(out: &mut Vec<u8>, b: u8)
    ensures
        final(out)@ == old(out)@ + escape_byte(b),
{
    if b == 0x22 {
        out.push(0x5c);
        out.push(0x22);
    } else if b == 0x5c {
        out.push(0x5c);
        out.push(0x5c);
    } else if b == 0x08 {
        out.push(0x5c);
        out.push(0x62);
    } else if b == 0x09 {
        out.push(0x5c);
        out.push(0x74);
    } else if b == 0x0a {
        out.push(0x5c);
        out.push(0x6e);
    } else if b == 0x0c {
        out.push(0x5c);
        out.push(0x66);
    } else if b == 0x0d {
        out.push(0x5c);
        out.push(0x72);
    } else if b < 0x20 {
        let hi = b / 16;
        let lo = b % 16;
        out.push(0x5c);
        out.push(0x75);
        out.push(0x30);
        out.push(0x30);
        out.push(if hi < 10 { 0x30 + hi } else { 0x57 + hi });
        out.push(if lo < 10 { 0x30 + lo } else { 0x57 + lo });
    } else {
        out.push(b);
    }
    assert(out@ =~= old(out)@ + escape_byte(b));
}

/// Appends a JSON string literal holding `s`.
fn write_json_string(out: &mut Vec<u8>, s: &str)
    ensures
        final(out)@ == old(out)@ + json_string(s@),
{
    let bytes = s.as_bytes();
    out.push(0x22);
    let mut i: usize = 0;
    while i < bytes.len()
        invariant
            i <= bytes@.len(),
            bytes@ == encode_utf8(s@),
            out@ == old(out)@ + seq![0x22u8] + json_escaped(bytes@.take(i as int)),
        decreases bytes@.len() - i,
    {
        let b = bytes[i];
        push_escaped_byte(out, b);
        proof {
            lemma_json_escaped_snoc(bytes@, i as int);
            assert(out@ =~= old(out)@ + seq![0x22u8] + json_escaped(bytes@.take(i + 1)));
        }
        i = i + 1;
    }
    out.push(0x22);
    proof {
        assert(bytes@.take(bytes@.len() as int) =~= bytes@);
        assert(out@ =~= old(out)@ + json_string(s@));
    }
}

/// Appends the decimal digits of `n`.
fn write_dec_u64(out: &mut Vec<u8>, n: u64)
    ensures
        final(out)@ == old(out)@ + dec_digits(n as nat),
    decreases n,
{
    if n < 10 {
        out.push(0x30 + (n as u8));
        assert(out@ =~= old(out)@ + dec_digits(n as nat));
    } else {
        write_dec_u64(out, n / 10);
        out.push(0x30 + ((n % 10) as u8));
        assert(out@ =~= old(out)@ + dec_digits(n as nat));
    }
}

/// Appends the decimal form of `v`, minus sign included if negative.
fn write_dec_i64(out: &mut Vec<u8>, v: i64)
    ensures
        final(out)@ == old(out)@ + dec_int(v as int),
{
    if v >= 0 {
        write_dec_u64(out, v as u64);
    } else {
        out.push(0x2d);
        let mag = (-(v as i128)) as u64;
        assert(mag as nat == (-(v as int)) as nat);
        write_dec_u64(out, mag);
        assert(out@ =~= old(out)@ + dec_int(v as int));
    }
}

/// Appends [`id_prefix`].
fn write_id_prefix(out: &mut Vec<u8>)
    ensures
        final(out)@ == old(out)@ + id_prefix(),
{
    out.push(0x7b);
    out.push(0x22);
    out.push(0x6e);
    out.push(0x6f);
    out.push(0x6e);
    out.push(0x63);
    out.push(0x65);
    out.push(0x22);
    out.push(0x3a);
    out.push(0x7b);
    out.push(0x22);
    out.push(0x69);
    out.push(0x64);
    out.push(0x22);
    out.push(0x3a);
    assert(out@ =~= old(out)@ + id_prefix());
}

/// Appends [`issued_at_infix`].
fn write_issued_at_infix(out: &mut Vec<u8>)
    ensures
        final(out)@ == old(out)@ + issued_at_infix(),
{
    out.push(0x2c);
    out.push(0x22);
    out.push(0x69);
    out.push(0x73);
    out.push(0x73);
    out.push(0x75);
    out.push(0x65);
    out.push(0x64);
    out.push(0x5f);
    out.push(0x61);
    out.push(0x74);
    out.push(0x22);
    out.push(0x3a);
    assert(out@ =~= old(out)@ + issued_at_infix());
}

/// Appends [`message_infix`].
fn write_message_infix(out: &mut Vec<u8>)
    ensures
        final(out)@ == old(out)@ + message_infix(),
{
    out.push(0x7d);
    out.push(0x2c);
    out.push(0x22);
    out.push(0x6d);
    out.push(0x65);
    out.push(0x73);
    out.push(0x73);
    out.push(0x61);
    out.push(0x67);
    out.push(0x65);
    out.push(0x22);
    out.push(0x3a);
    assert(out@ =~= old(out)@ + message_infix());
}

/// The canonical byte serialization of `payload`: the exact bytes whose
/// Ed25519 signature the pipeline checks, and which a holder must sign.
pub fn canonical_bytes(payload: &NoncePayload) -> (r: Vec<u8>)
    ensures
        r@ == canonical_json(payload@),
{
    let mut out: Vec<u8> = Vec::new();
    write_id_prefix(&mut out);
    write_json_string(&mut out, payload.nonce.id.as_str());
    assert(out@ =~= id_prefix() + json_string(payload.nonce.id@));
    write_issued_at_infix(&mut out);
    assert(out@ =~= id_prefix() + json_string(payload.nonce.id@) + issued_at_infix());
    write_dec_i64(&mut out, payload.nonce.issued_at);
    assert(out@ =~= id_prefix() + json_string(payload.nonce.id@) + issued_at_infix() + dec_int(
        payload.nonce.issued_at as int,
    ));
    write_message_infix(&mut out);
    write_json_string(&mut out, payload.message.as_str());
    out.push(0x7d);
    assert(out@ =~= canonical_json(payload@));
    out
}

} // verus!
