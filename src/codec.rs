//! The value format: one header byte, then the UTF-16 little-endian code units
//! of a compact JSON text.
use crate::error::CherryDbError;
use vstd::prelude::*;

verus! {

#[verifier::external_type_specification]
#[verifier::external_body]
pub struct ExValue(serde_json::Value);

#[verifier::external_type_specification]
#[verifier::external_body]
pub struct ExJsonError(serde_json::Error);

/// The text that a sequence of UTF-16 code units spells, or `None` where the
/// units are not valid UTF-16 (an unpaired surrogate).
pub uninterp spec fn utf16_text(units: Seq<u16>) -> Option<Seq<char>>;

/// The JSON document that a text parses to, or `None` where it is not JSON.
pub uninterp spec fn parsed_json(text: Seq<char>) -> Option<serde_json::Value>;

/// The compact (no whitespace) JSON text of a document.
pub uninterp spec fn compact_text(v: serde_json::Value) -> Seq<char>;

/// The fields of a document that is a JSON object; `None` for any other value.
pub uninterp spec fn json_object(v: serde_json::Value) -> Option<Map<Seq<char>, serde_json::Value>>;

/// The characters of a document that is a JSON string; `None` for any other value.
pub uninterp spec fn json_str(v: serde_json::Value) -> Option<Seq<char>>;

/// Relies on `String::from_utf16`: it succeeds exactly on valid UTF-16 and
/// returns the text that the units spell.
#[verifier::external_body]
fn text_from_utf16(units: &[u16]) -> (r: Option<String>)
    ensures
        match r {
            Some(t) => utf16_text(units@) == Some(t@),
            None => utf16_text(units@) is None,
        },
{
    String::from_utf16(units).ok()
}

/// Relies on `str::encode_utf16`: the units it yields are valid UTF-16 and spell
/// the text back.
#[verifier::external_body]
fn utf16_units(s: &str) -> (r: Vec<u16>)
    ensures
        utf16_text(r@) == Some(s@),
{
    s.encode_utf16().collect()
}

/// Relies on `serde_json::from_str` into a `serde_json::Value`: it succeeds
/// exactly on JSON text.
#[verifier::external_body]
fn parse_json(s: &str) -> (r: Result<serde_json::Value, serde_json::Error>)
    ensures
        match r {
            Ok(v) => parsed_json(s@) == Some(v),
            Err(_) => parsed_json(s@) is None,
        },
{
    serde_json::from_str(s)
}

/// Relies on `Display` of `serde_json::Value`, which writes compact JSON.
#[verifier::external_body]
pub(crate) fn json_text(v: &serde_json::Value) -> (r: String)
    ensures
        r@ == compact_text(*v),
{
    v.to_string()
}

/// Relies on `Display` of `serde_json::Error`, for the message of a parse error.
#[verifier::external_body]
fn json_error_message(e: &serde_json::Error) -> String {
    e.to_string()
}

/// Relies on `serde_json::Value::get` with a `&str` key: the field of that name
/// of an object; `None` for a missing field or a value that is no object.
#[verifier::external_body]
pub(crate) fn object_field<'a>(v: &'a serde_json::Value, key: &str) -> (r: Option<&'a serde_json::Value>)
    ensures
        match json_object(*v) {
            Some(m) => if m.contains_key(key@) {
                r matches Some(f) && *f == m[key@]
            } else {
                r is None
            },
            None => r is None,
        },
{
    v.get(key)
}

/// Relies on `serde_json::Value::as_str`: the characters of a JSON string.
#[verifier::external_body]
pub(crate) fn string_of(v: &serde_json::Value) -> (r: Option<&str>)
    ensures
        match json_str(*v) {
            Some(s) => r matches Some(t) && t@ == s,
            None => r is None,
        },
{
    v.as_str()
}

/// Relies on `IndexMut<&str>` of `serde_json::Value`: on an object it sets the
/// field `key` to the JSON string `s`, adding it where it is missing, and
/// leaves the other fields alone.
#[verifier::external_body]
pub(crate) fn set_string_field(v: &mut serde_json::Value, key: &str, s: String)
    requires
        json_object(*old(v)) is Some,
    ensures
        json_object(*final(v)) is Some,
        json_object(*final(v))->Some_0.dom() == json_object(*old(v))->Some_0.dom().insert(key@),
        json_str(json_object(*final(v))->Some_0[key@]) == Some(s@),
        forall|k: Seq<char>|
            k != key@ && #[trigger] json_object(*old(v))->Some_0.contains_key(k)
                ==> json_object(*final(v))->Some_0[k] == json_object(*old(v))->Some_0[k],
{
    v[key] = serde_json::Value::String(s);
}

/// Parses a JSON text, turning a parse failure into `JsonError`.
pub(crate) fn parse_json_text(s: &str) -> (r: Result<serde_json::Value, CherryDbError>)
    ensures
        match parsed_json(s@) {
            Some(v) => r == Ok::<serde_json::Value, CherryDbError>(v),
            None => matches!(r, Err(CherryDbError::JsonError(_))),
        },
{
    match parse_json(s) {
        Ok(v) => Ok(v),
        Err(e) => Err(CherryDbError::JsonError(json_error_message(&e))),
    }
}

/// The code units of a little-endian payload: byte `2i` is the low half of
/// unit `i`, byte `2i + 1` the high half.
pub open spec fn le_units(p: Seq<u8>) -> Seq<u16> {
    Seq::new(p.len() / 2, |i: int| (p[2 * i] as int + 256 * p[2 * i + 1] as int) as u16)
}

/// The text that a store value carries: `None` where the value is empty, its
/// payload after the header byte has an odd length, or the payload is not
/// valid UTF-16.
pub open spec fn payload_text(b: Seq<u8>) -> Option<Seq<char>> {
    if b.len() == 0 || (b.len() - 1) % 2 != 0 {
        None
    } else {
        utf16_text(le_units(b.drop_first()))
    }
}

/// The document that a store value decodes to, if any.
pub open spec fn decoded(b: Seq<u8>) -> Option<serde_json::Value> {
    match payload_text(b) {
        Some(t) => parsed_json(t),
        None => None,
    }
}

/// Decoding a value framed as `encode_json_to_bytes` frames a document hands
/// the JSON parser exactly the compact text of that document: the header byte,
/// the little-endian pairs and the UTF-16 step lose nothing.
pub proof fn lemma_decode_after_encode(v: serde_json::Value, b: Seq<u8>)
    requires
        b.len() >= 1,
        b[0] == 0,
        payload_text(b) == Some(compact_text(v)),
    ensures
        decoded(b) == parsed_json(compact_text(v)),
{
}

/// Decodes a store value: drops the header byte (whatever it holds), reads the
/// rest as UTF-16 LE and parses the text as JSON. Bad framing or UTF-16 gives
/// `EncodingError`, bad JSON gives `JsonError`.
pub fn decode_utf16_le_bytes(bytes: &[u8]) -> (r: Result<serde_json::Value, CherryDbError>)
    ensures
        match payload_text(bytes@) {
            None => matches!(r, Err(CherryDbError::EncodingError(_))),
            Some(t) => match parsed_json(t) {
                Some(v) => r == Ok::<serde_json::Value, CherryDbError>(v),
                None => matches!(r, Err(CherryDbError::JsonError(_))),
            },
        },
        r is Ok <==> decoded(bytes@) is Some,
        r matches Ok(v) ==> decoded(bytes@) == Some(v),
{
    if bytes.len() == 0 {
        return Err(CherryDbError::EncodingError("Empty bytes".to_string()));
    }
    let n: usize = bytes.len() - 1;
    if n % 2 != 0 {
        return Err(CherryDbError::EncodingError("Invalid UTF-16 data length".to_string()));
    }
    let ghost payload = bytes@.drop_first();
    let mut units: Vec<u16> = Vec::new();
    let mut i: usize = 0;
    while i < n / 2
        invariant
            n == bytes@.len() - 1,
            n % 2 == 0,
            payload == bytes@.drop_first(),
            i <= n / 2,
            units@ == le_units(payload).take(i as int),
        decreases n / 2 - i,
    {
        let lo = bytes[1 + 2 * i];
        let hi = bytes[2 + 2 * i];
        let u: u16 = lo as u16 + (hi as u16) * 256;
        units.push(u);
        i = i + 1;
        assert(units@ =~= le_units(payload).take(i as int));
    }
    assert(units@ =~= le_units(payload));
    let text = match text_from_utf16(units.as_slice()) {
        Some(t) => t,
        None => {
            return Err(CherryDbError::EncodingError("Invalid UTF-16 data".to_string()));
        },
    };
    parse_json_text(text.as_str())
}

/// Encodes a document as a store value: a zero header byte, then the UTF-16 LE
/// units of the document's compact JSON text.
pub fn encode_json_to_bytes(json: &serde_json::Value) -> (r: Vec<u8>)
    ensures
        r@.len() >= 1,
        r@[0] == 0,
        payload_text(r@) == Some(compact_text(*json)),
{
    let text = json_text(json);
    let units = utf16_units(text.as_str());
    let mut out: Vec<u8> = Vec::new();
    out.push(0u8);
    let mut i: usize = 0;
    while i < units.len()
        invariant
            i <= units@.len(),
            out@.len() == 1 + 2 * i,
            out@[0] == 0,
            le_units(out@.drop_first()) == units@.take(i as int),
        decreases units.len() - i,
    {
        let u = units[i];
        let lo: u8 = (u % 256) as u8;
        let hi: u8 = (u / 256) as u8;
        let ghost before = out@;
        out.push(lo);
        out.push(hi);
        i = i + 1;
        assert(out@.drop_first() =~= before.drop_first() + seq![lo, hi]);
        assert forall|k: int| 0 <= k < i implies #[trigger] le_units(out@.drop_first())[k]
            == units@.take(i as int)[k] by {
            if k < i - 1 {
                assert(le_units(before.drop_first())[k] == units@.take(i - 1)[k]);
            }
        }
        assert(le_units(out@.drop_first()) =~= units@.take(i as int));
    }
    assert(units@.take(units@.len() as int) =~= units@);
    out
}

} // verus!
