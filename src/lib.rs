//! Reads and rewrites the MCP server list that Cherry Studio keeps inside one
//! value of its LevelDB store.
//!
//! A store value is a header byte followed by UTF-16 little-endian text of a
//! JSON document (the parent document). Its `"mcp"` field holds, as a JSON
//! string, a second document with the list of servers. The library decodes
//! values, locates the entry that holds the list, and builds the one value that
//! has to be written back, leaving every other field of the parent document as
//! it was. Opening the store and putting the value are left to the caller.

mod codec;
mod error;
mod locate;
mod manager;
mod servers;
mod types;

pub use codec::{
    compact_text, decode_utf16_le_bytes, decoded, encode_json_to_bytes, json_object, json_str,
    le_units, lemma_decode_after_encode, parsed_json, payload_text, utf16_text,
};
pub use error::CherryDbError;
pub use locate::{
    find_mcp_config_internal, holds_config, lemma_rewrites_keep_other_fields, mcp_key, mcp_text,
    scan_entries, with_mcp_text, LocatedConfig,
};
pub use manager::{entry_holds_config, first_holder, CherryDbManager, DefaultCherryDbManager};
pub use servers::{
    as_requests, contains_id, count_id, has_id, ids_unique, lemma_count_has_id,
    lemma_remove_absent, lemma_unique_count, lemma_upsert_replaces, lemma_without_id_drops,
    lemma_without_id_len, retain_other_ids, to_requests, upsert_server, upserted, without_id,
};
pub use types::{
    request_of, response_of, DatabaseEntry, McpConfigRequest, McpConfigResponse,
    ServerListResponse, ServerRequest, ServerResponse, StoreEntry, StoreWrite,
};
