//! Wire-payload encoding and decoding.
//!
//! The wire format is MessagePack as the `rmp_serde` crate writes it:
//! compact binary, with field names preserved so a reader without the
//! source type can still inspect fields. The calls into that crate and
//! into `serde_json` stand behind trusted wrappers here; where a result
//! cannot be written out in a few lines it is given a name, so the
//! callers' contracts stay exact.

use vstd::prelude::*;

verus! {

/// Whether `s` parses as a JSON document that the wire encoding accepts.
pub uninterp spec fn json_valid(s: Seq<char>) -> bool;

/// The MessagePack bytes of the JSON document `s`.
pub uninterp spec fn msgpack_of_json(s: Seq<char>) -> Seq<u8>;

/// The MessagePack bytes of a signed 64-bit integer.
pub uninterp spec fn msgpack_of_i64(v: i64) -> Seq<u8>;

/// The MessagePack bytes of a four-byte colour array.
pub uninterp spec fn msgpack_of_rgba(c: Seq<u8>) -> Seq<u8>;

/// The big-endian bytes of a 64-bit value, most significant first.
pub open spec fn be_bytes_u64(v: u64) -> Seq<u8> {
    seq![
        ((v / 0x100000000000000u64) % 256) as u8,
        ((v / 0x1000000000000u64) % 256) as u8,
        ((v / 0x10000000000u64) % 256) as u8,
        ((v / 0x100000000u64) % 256) as u8,
        ((v / 0x1000000u64) % 256) as u8,
        ((v / 0x10000u64) % 256) as u8,
        ((v / 0x100u64) % 256) as u8,
        (v % 256) as u8,
    ]
}

/// The MessagePack bytes of the 64-bit float with the given bit pattern:
/// the f64 marker byte followed by the pattern in big-endian order.
pub open spec fn msgpack_of_f64_bits(bits: u64) -> Seq<u8> {
    seq![0xcbu8] + be_bytes_u64(bits)
}

/// The MessagePack bytes of a two-float point, each float given as a bit
/// pattern: a two-element array of f64 values.
pub open spec fn msgpack_of_point_bits(x: u64, y: u64) -> Seq<u8> {
    seq![0x92u8] + msgpack_of_f64_bits(x) + msgpack_of_f64_bits(y)
}

/// Whether `b` is a MessagePack payload that decodes and renders as JSON.
pub uninterp spec fn payload_decodes(b: Seq<u8>) -> bool;

/// The JSON rendering of the MessagePack payload `b`.
pub uninterp spec fn json_repr_of(b: Seq<u8>) -> Seq<char>;

/// Relies on serde_json::from_str::<serde_json::Value> to accept exactly the
/// valid JSON documents, and on rmp_serde::to_vec_named to encode the parsed
/// value as a field-name-preserving MessagePack map; both results depend on
/// the text alone.
#[verifier::external_body]
pub fn json_to_msgpack(s: &str) -> (r: Option<Vec<u8>>)
    ensures
        r is Some <==> json_valid(s@),
        r matches Some(v) ==> v@ == msgpack_of_json(s@),
{
    match serde_json::from_str::<serde_json::Value>(s) {
        Ok(value) => rmp_serde::to_vec_named(&value).ok(),
        Err(_) => None,
    }
}

/// Relies on rmp::encode::write_bool (via rmp_serde::to_vec): a bool is one
/// marker byte, 0xc3 for true and 0xc2 for false.
#[verifier::external_body]
pub fn bool_to_msgpack(v: bool) -> (r: Vec<u8>)
    ensures
        v ==> r@ == seq![0xc3u8],
        !v ==> r@ == seq![0xc2u8],
{
    rmp_serde::to_vec(&v).unwrap_or_default()
}

/// Relies on rmp_serde::to_vec for i64: the bytes depend on the value alone.
#[verifier::external_body]
pub fn i64_to_msgpack(v: i64) -> (r: Vec<u8>)
    ensures
        r@ == msgpack_of_i64(v),
{
    rmp_serde::to_vec(&v).unwrap_or_default()
}

/// Append the big-endian bytes of `v`.
fn push_be_bytes(out: &mut Vec<u8>, v: u64)
    ensures
        final(out)@ == old(out)@ + be_bytes_u64(v),
{
    out.push(((v / 0x100000000000000u64) % 256) as u8);
    out.push(((v / 0x1000000000000u64) % 256) as u8);
    out.push(((v / 0x10000000000u64) % 256) as u8);
    out.push(((v / 0x100000000u64) % 256) as u8);
    out.push(((v / 0x1000000u64) % 256) as u8);
    out.push(((v / 0x10000u64) % 256) as u8);
    out.push(((v / 0x100u64) % 256) as u8);
    out.push((v % 256) as u8);
    proof {
        assert(out@ =~= old(out)@ + be_bytes_u64(v));
    }
}

/// Encode the 64-bit float with the given bit pattern.
pub fn f64_bits_to_msgpack(bits: u64) -> (r: Vec<u8>)
    ensures
        r@ == msgpack_of_f64_bits(bits),
{
    let mut out: Vec<u8> = Vec::new();
    out.push(0xcbu8);
    push_be_bytes(&mut out, bits);
    proof {
        assert(out@ =~= msgpack_of_f64_bits(bits));
    }
    out
}

/// Relies on rmp_serde::to_vec for [u8; 4]: the bytes depend on the four
/// components alone.
#[verifier::external_body]
pub fn rgba_to_msgpack(c: &[u8; 4]) -> (r: Vec<u8>)
    ensures
        r@ == msgpack_of_rgba(c@),
{
    rmp_serde::to_vec(c).unwrap_or_default()
}

/// Encode a two-float point, each float given as a bit pattern.
pub fn point_bits_to_msgpack(x: u64, y: u64) -> (r: Vec<u8>)
    ensures
        r@ == msgpack_of_point_bits(x, y),
{
    let mut out: Vec<u8> = Vec::new();
    out.push(0x92u8);
    out.push(0xcbu8);
    push_be_bytes(&mut out, x);
    out.push(0xcbu8);
    push_be_bytes(&mut out, y);
    proof {
        assert(out@ =~= msgpack_of_point_bits(x, y));
    }
    out
}

/// Relies on rmp_serde::from_slice::<rmpv::Value> to decode MessagePack and
/// on serde_json::to_string to render the decoded value; both depend on the
/// payload bytes alone, and the result is Some exactly when both steps
/// succeed.
#[verifier::external_body]
pub fn decode_payload_json(bytes: &[u8]) -> (r: Option<String>)
    ensures
        r is Some <==> payload_decodes(bytes@),
        r matches Some(s) ==> s@ == json_repr_of(bytes@),
{
    match rmp_serde::from_slice::<rmpv::Value>(bytes) {
        Ok(value) => serde_json::to_string(&value).ok(),
        Err(_) => None,
    }
}

/// Whether `b` decodes as a MessagePack map from field names to values
/// that fit in a byte.
pub uninterp spec fn u8_map_ok(b: Seq<u8>) -> bool;

/// The decoded field map of `b`, as (name, value) pairs in the map's
/// sorted key order.
pub uninterp spec fn u8_map_of(b: Seq<u8>) -> Seq<(Seq<char>, u8)>;

/// Relies on rmp_serde::from_slice::<BTreeMap<String, u8>>: decodes a
/// field-name-keyed map whose values fit in a byte, or fails; the map and
/// its sorted iteration order depend on the payload bytes alone.
#[verifier::external_body]
pub fn decode_u8_fields(bytes: &[u8]) -> (r: Option<Vec<(String, u8)>>)
    ensures
        r is Some <==> u8_map_ok(bytes@),
        r matches Some(v) ==> v.deep_view() == u8_map_of(bytes@),
{
    match rmp_serde::from_slice::<std::collections::BTreeMap<String, u8>>(bytes) {
        Ok(m) => Some(m.into_iter().collect()),
        Err(_) => None,
    }
}

/// One application value that can travel over a plug: the closed set of
/// payload kinds the control panel publishes. Floats are carried as IEEE 754
/// bit patterns; the caller converts at the boundary.
pub enum PlugValue {
    /// A zero-length payload: an event or ping with no data.
    Empty,
    Bool(bool),
    WholeNumber(i64),
    /// A 64-bit float, as its bit pattern.
    FloatBits(u64),
    /// 8-bit RGBA colour.
    Colour([u8; 4]),
    /// A 2D point of two 64-bit floats, as bit patterns.
    PointBits(u64, u64),
    /// A free-form JSON document, kept as text.
    Json(String),
}

/// The wire bytes of a value, or `None` when the value is a JSON text that
/// does not parse.
pub open spec fn encoded_payload(v: PlugValue) -> Option<Seq<u8>> {
    match v {
        PlugValue::Empty => Some(Seq::<u8>::empty()),
        PlugValue::Bool(b) => Some(if b {
            seq![0xc3u8]
        } else {
            seq![0xc2u8]
        }),
        PlugValue::WholeNumber(n) => Some(msgpack_of_i64(n)),
        PlugValue::FloatBits(bits) => Some(msgpack_of_f64_bits(bits)),
        PlugValue::Colour(c) => Some(msgpack_of_rgba(c@)),
        PlugValue::PointBits(x, y) => Some(msgpack_of_point_bits(x, y)),
        PlugValue::Json(s) => if json_valid(s@) {
            Some(msgpack_of_json(s@))
        } else {
            None
        },
    }
}

/// Encode one application value for the wire; fails exactly on invalid JSON.
pub fn encode_value(v: &PlugValue) -> (r: Option<Vec<u8>>)
    ensures
        match encoded_payload(*v) {
            Some(bytes) => r matches Some(out) && out@ == bytes,
            None => r is None,
        },
{
    match v {
        PlugValue::Empty => Some(Vec::new()),
        PlugValue::Bool(b) => Some(bool_to_msgpack(*b)),
        PlugValue::WholeNumber(n) => Some(i64_to_msgpack(*n)),
        PlugValue::FloatBits(bits) => Some(f64_bits_to_msgpack(*bits)),
        PlugValue::Colour(c) => Some(rgba_to_msgpack(c)),
        PlugValue::PointBits(x, y) => Some(point_bits_to_msgpack(*x, *y)),
        PlugValue::Json(s) => json_to_msgpack(s.as_str()),
    }
}

} // verus!
