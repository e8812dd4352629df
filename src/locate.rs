//! Scanning the store's entries, finding the one that holds the server list,
//! and building the value that replaces it.
use crate::codec::{
    compact_text, decode_utf16_le_bytes, decoded, encode_json_to_bytes, json_object, json_str,
    object_field, payload_text, set_string_field, string_of,
};
use crate::error::CherryDbError;
use crate::types::{DatabaseEntry, StoreEntry, StoreWrite};
use vstd::prelude::*;

verus! {

/// The name of the parent document's field that holds the server list.
pub open spec fn mcp_key() -> Seq<char> {
    seq!['m', 'c', 'p']
}

/// The text of a document's `"mcp"` field, where the document is an object
/// and that field is a JSON string.
pub open spec fn mcp_text(v: serde_json::Value) -> Option<Seq<char>> {
    match json_object(v) {
        Some(m) => if m.contains_key(mcp_key()) {
            json_str(m[mcp_key()])
        } else {
            None
        },
        None => None,
    }
}

/// Whether a scanned entry decoded to a document with an `"mcp"` string field.
pub open spec fn holds_config(e: DatabaseEntry) -> bool {
    e.json_data matches Some(v) && mcp_text(v) is Some
}

/// `next` is `parent` with its `"mcp"` field set to the string `text`, every
/// other field kept as it was.
pub open spec fn with_mcp_text(
    parent: serde_json::Value,
    text: Seq<char>,
    next: serde_json::Value,
) -> bool {
    &&& json_object(parent) is Some
    &&& json_object(next) is Some
    &&& json_object(next)->Some_0.dom() == json_object(parent)->Some_0.dom().insert(mcp_key())
    &&& json_str(json_object(next)->Some_0[mcp_key()]) == Some(text)
    &&& forall|k: Seq<char>|
        k != mcp_key() && #[trigger] json_object(parent)->Some_0.contains_key(k)
            ==> json_object(next)->Some_0[k] == json_object(parent)->Some_0[k]
}

/// Two rewrites in a row keep every field of the first document but `"mcp"`,
/// add no field but `"mcp"`, and leave in `"mcp"` the text of the second.
pub proof fn lemma_rewrites_keep_other_fields(
    p0: serde_json::Value,
    t1: Seq<char>,
    p1: serde_json::Value,
    t2: Seq<char>,
    p2: serde_json::Value,
)
    requires
        with_mcp_text(p0, t1, p1),
        with_mcp_text(p1, t2, p2),
    ensures
        json_object(p2)->Some_0.dom() == json_object(p0)->Some_0.dom().insert(mcp_key()),
        json_str(json_object(p2)->Some_0[mcp_key()]) == Some(t2),
        forall|k: Seq<char>|
            k != mcp_key() && #[trigger] json_object(p0)->Some_0.contains_key(k)
                ==> json_object(p2)->Some_0[k] == json_object(p0)->Some_0[k],
{
    assert(json_object(p2)->Some_0.dom() =~= json_object(p0)->Some_0.dom().insert(mcp_key()));
    assert forall|k: Seq<char>|
        k != mcp_key() && #[trigger] json_object(p0)->Some_0.contains_key(k)
            implies json_object(p2)->Some_0[k] == json_object(p0)->Some_0[k] by {
        assert(json_object(p1)->Some_0.contains_key(k));
    }
}

/// The entry that holds the server list: its key, its parent document, and
/// the text of the document's `"mcp"` field.
pub struct LocatedConfig {
    key: Vec<u8>,
    parent: serde_json::Value,
    nested: String,
}

impl LocatedConfig {
    #[verifier::type_invariant]
    spec fn inv(self) -> bool {
        mcp_text(self.parent) == Some(self.nested@)
    }

    pub closed spec fn spec_key(self) -> Seq<u8> {
        self.key@
    }

    pub closed spec fn spec_parent(self) -> serde_json::Value {
        self.parent
    }

    pub closed spec fn spec_nested(self) -> Seq<char> {
        self.nested@
    }

    /// The key of the entry.
    pub fn key(&self) -> (r: &Vec<u8>)
        ensures
            r@ == self.spec_key(),
    {
        &self.key
    }

    /// The parent document that the entry's value decoded to.
    pub fn parent(&self) -> (r: &serde_json::Value)
        ensures
            *r == self.spec_parent(),
    {
        &self.parent
    }

    /// The text of the `"mcp"` field: the nested document, still as JSON text.
    pub fn nested(&self) -> (r: &String)
        ensures
            r@ == self.spec_nested(),
            mcp_text(self.spec_parent()) == Some(r@),
    {
        proof {
            use_type_invariant(self);
        }
        &self.nested
    }

    /// Builds the value that replaces the entry: the parent document with its
    /// `"mcp"` field set to `text` and every other field kept, encoded for the
    /// store, under the entry's own key.
    pub fn rewrite(self, text: String) -> (w: StoreWrite)
        ensures
            w.key@ == self.spec_key(),
            w.value@.len() >= 1,
            w.value@[0] == 0,
            exists|next: serde_json::Value|
                with_mcp_text(self.spec_parent(), text@, next) && payload_text(w.value@) == Some(
                    compact_text(next),
                ),
    {
        proof {
            use_type_invariant(&self);
        }
        let LocatedConfig { key, parent, nested: _ } = self;
        let ghost p0 = parent;
        let mut doc = parent;
        let ghost text_view = text@;
        set_string_field(&mut doc, "mcp", text);
        proof {
            reveal_strlit("mcp");
            assert("mcp"@ =~= mcp_key());
            assert(with_mcp_text(p0, text_view, doc));
        }
        let value = encode_json_to_bytes(&doc);
        let w = StoreWrite { key, value };
        assert(with_mcp_text(self.spec_parent(), text@, doc));
        w
    }
}

/// Decodes every entry's value where it decodes. An entry whose value does not
/// decode is kept, with no document attached.
pub fn scan_entries(raw: Vec<StoreEntry>) -> (r: Vec<DatabaseEntry>)
    ensures
        r@.len() == raw@.len(),
        forall|i: int|
            0 <= i < r@.len() ==> {
                &&& (#[trigger] r@[i]).key@ == raw@[i].key@
                &&& r@[i].value@ == raw@[i].value@
                &&& r@[i].json_data == decoded(raw@[i].value@)
            },
{
    let mut input = raw;
    let ghost orig = input@;
    let mut out: Vec<DatabaseEntry> = Vec::new();
    while input.len() > 0
        invariant
            out@.len() + input@.len() == orig.len(),
            input@ == orig.subrange(out@.len() as int, orig.len() as int),
            forall|i: int|
                0 <= i < out@.len() ==> {
                    &&& (#[trigger] out@[i]).key@ == orig[i].key@
                    &&& out@[i].value@ == orig[i].value@
                    &&& out@[i].json_data == decoded(orig[i].value@)
                },
        decreases input.len(),
    {
        let entry = input.remove(0);
        let json_data = match decode_utf16_le_bytes(entry.value.as_slice()) {
            Ok(v) => Some(v),
            Err(_) => None,
        };
        out.push(DatabaseEntry { key: entry.key, value: entry.value, json_data });
    }
    out
}

/// Tells whether a scanned entry holds the server list, and gives the text of
/// its `"mcp"` field when it does.
fn config_text(entry: &DatabaseEntry) -> (r: Option<String>)
    ensures
        r is Some <==> holds_config(*entry),
        r matches Some(t) ==> mcp_text(entry.json_data->Some_0) == Some(t@),
{
    proof {
        reveal_strlit("mcp");
        assert("mcp"@ =~= mcp_key());
    }
    match &entry.json_data {
        Some(doc) => match object_field(doc, "mcp") {
            Some(field) => match string_of(field) {
                Some(s) => Some(s.to_owned()),
                None => None,
            },
            None => None,
        },
        None => None,
    }
}

/// Finds the first entry, in scan order, whose document has an `"mcp"` string
/// field. Fails with `ConfigNotFound` where no entry has one.
pub fn find_mcp_config_internal(entries: Vec<DatabaseEntry>) -> (r: Result<
    LocatedConfig,
    CherryDbError,
>)
    ensures
        r is Ok <==> exists|i: int| 0 <= i < entries@.len() && holds_config(#[trigger] entries@[i]),
        r is Err ==> r == Err::<LocatedConfig, CherryDbError>(CherryDbError::ConfigNotFound),
        r matches Ok(loc) ==> exists|i: int|
            0 <= i < entries@.len() && holds_config(#[trigger] entries@[i]) && (forall|j: int|
                0 <= j < i ==> !holds_config(#[trigger] entries@[j])) && loc.spec_key()
                == entries@[i].key@ && loc.spec_parent() == entries@[i].json_data->Some_0
                && mcp_text(loc.spec_parent()) == Some(loc.spec_nested()),
{
    let mut list = entries;
    let ghost orig = list@;
    let mut i: usize = 0;
    while i < list.len()
        invariant
            list@ == orig,
            i <= list@.len(),
            orig == entries@,
            forall|j: int| 0 <= j < i ==> !holds_config(#[trigger] orig[j]),
        decreases list.len() - i,
    {
        match config_text(&list[i]) {
            Some(nested) => {
                let entry = list.remove(i);
                assert(entry == orig[i as int]);
                let parent = match entry.json_data {
                    Some(v) => v,
                    None => {
                        return Err(CherryDbError::ConfigNotFound);
                    },
                };
                let loc = LocatedConfig { key: entry.key, parent, nested };
                assert(holds_config(orig[i as int]));
                assert(loc.spec_key() == orig[i as int].key@);
                assert(loc.spec_parent() == orig[i as int].json_data->Some_0);
                return Ok(loc);
            },
            None => {},
        }
        i = i + 1;
    }
    Err(CherryDbError::ConfigNotFound)
}

} // verus!
