//! The operations over the server list, from the store's entries to the one
//! value to write back.
//!
//! Every operation starts from a fresh scan of the entries that the caller read
//! from the store; nothing is kept between calls. The caller turns the nested
//! document's text into records and back, and puts the resulting value into
//! the store. Nothing here locks the store: two writers at once are the
//! store's own concern.
use crate::codec::{compact_text, decoded, parse_json_text, parsed_json, payload_text};
use crate::error::CherryDbError;
use crate::locate::{
    find_mcp_config_internal, holds_config, mcp_text, scan_entries, with_mcp_text, LocatedConfig,
};
use crate::servers::{
    as_requests, contains_id, has_id, lemma_count_has_id, lemma_without_id_len, retain_other_ids,
    to_requests, upsert_server, upserted, without_id,
};
use crate::types::{
    response_of, McpConfigRequest, McpConfigResponse, ServerListResponse, ServerRequest,
    StoreEntry, StoreWrite,
};
use vstd::prelude::*;

verus! {

/// Whether a raw store entry decodes to a document with an `"mcp"` string
/// field.
pub open spec fn entry_holds_config(e: StoreEntry) -> bool {
    decoded(e.value@) matches Some(v) && mcp_text(v) is Some
}

/// Entry `i` is the first of `s` that holds the server list.
pub open spec fn first_holder(s: Seq<StoreEntry>, i: int) -> bool {
    &&& 0 <= i < s.len()
    &&& entry_holds_config(s[i])
    &&& forall|j: int| 0 <= j < i ==> !entry_holds_config(#[trigger] s[j])
}

/// The operations on the server list that Cherry Studio keeps in its store.
pub trait CherryDbManager {
    /// Scans the entries, in the store's order, and locates the first one whose
    /// value decodes to a document with an `"mcp"` string field. Entries that do
    /// not decode are passed over. Fails with `ConfigNotFound` where none has
    /// the field, and with `JsonError` where the field's text is not JSON.
    fn read_mcp_config(&self, entries: Vec<StoreEntry>) -> (r: Result<LocatedConfig, CherryDbError>)
        ensures
            (forall|i: int| 0 <= i < entries@.len() ==> !entry_holds_config(#[trigger] entries@[i]))
                ==> r == Err::<LocatedConfig, CherryDbError>(CherryDbError::ConfigNotFound),
            forall|i: int| #[trigger]
                first_holder(entries@, i) ==> {
                    let doc = decoded(entries@[i].value@)->Some_0;
                    match parsed_json(mcp_text(doc)->Some_0) {
                        None => matches!(r, Err(CherryDbError::JsonError(_))),
                        Some(_) => r matches Ok(loc) && loc.spec_key() == entries@[i].key@
                            && loc.spec_parent() == doc && loc.spec_nested() == mcp_text(
                            doc,
                        )->Some_0,
                    }
                },
    ;

    /// Builds the value that replaces the located entry: its document with the
    /// `"mcp"` field set to `nested_text`, all other fields kept, encoded, under
    /// the entry's key.
    fn write_mcp_config(&self, located: LocatedConfig, nested_text: String) -> (w: StoreWrite)
        ensures
            w.key@ == located.spec_key(),
            w.value@.len() >= 1,
            w.value@[0] == 0,
            exists|next: serde_json::Value|
                with_mcp_text(located.spec_parent(), nested_text@, next) && payload_text(w.value@)
                    == Some(compact_text(next)),
    ;

    /// The records with their count.
    fn list_servers(&self, config: McpConfigResponse) -> (r: ServerListResponse)
        ensures
            r.servers@ == config.servers@,
            r.total_count == config.servers@.len(),
    ;

    /// The list to write after adding `server`: every record with its
    /// identifier dropped, then `server` appended.
    fn add_server(&self, config: McpConfigResponse, server: ServerRequest) -> (r: McpConfigRequest)
        ensures
            r.servers@ == as_requests(upserted(config.servers@, response_of(server))),
    ;

    /// The list to write after removing every record with identifier
    /// `server_id`; `ServerNotFound` where no record has it, and then there is
    /// nothing to write.
    fn remove_server(&self, config: McpConfigResponse, server_id: &str) -> (r: Result<
        McpConfigRequest,
        CherryDbError,
    >)
        ensures
            has_id(config.servers@, server_id@) ==> (r matches Ok(req) && req.servers@
                == as_requests(without_id(config.servers@, server_id@))),
            !has_id(config.servers@, server_id@) ==> (r matches Err(
                CherryDbError::ServerNotFound(s),
            ) && s@ == server_id@),
    ;

    /// Whether some record has identifier `server_id`.
    fn server_exists(&self, config: &McpConfigResponse, server_id: &str) -> (r: bool)
        ensures
            r == has_id(config.servers@, server_id@),
    ;
}

/// The manager that Cherry Studio's store layout calls for.
#[derive(Debug, Clone, Copy)]
pub struct DefaultCherryDbManager;

impl DefaultCherryDbManager {
    /// A manager; it holds no state.
    pub fn new() -> (r: Self) {
        DefaultCherryDbManager
    }
}

impl CherryDbManager for DefaultCherryDbManager {
    fn read_mcp_config(&self, entries: Vec<StoreEntry>) -> (r: Result<LocatedConfig, CherryDbError>) {
        let ghost raw = entries@;
        let scanned = scan_entries(entries);
        assert forall|i: int| 0 <= i < raw.len() implies holds_config(#[trigger] scanned@[i])
            == entry_holds_config(raw[i]) by {}
        let found = find_mcp_config_internal(scanned);
        proof {
            if exists|i: int| 0 <= i < raw.len() && entry_holds_config(#[trigger] raw[i]) {
                let i = choose|i: int| 0 <= i < raw.len() && entry_holds_config(#[trigger] raw[i]);
                assert(holds_config(scanned@[i]));
            }
        }
        let loc = match found {
            Ok(loc) => loc,
            Err(e) => {
                return Err(e);
            },
        };
        let ghost i = choose|i: int|
            0 <= i < scanned@.len() && holds_config(#[trigger] scanned@[i]) && (forall|j: int|
                0 <= j < i ==> !holds_config(#[trigger] scanned@[j])) && loc.spec_key()
                == scanned@[i].key@ && loc.spec_parent() == scanned@[i].json_data->Some_0
                && mcp_text(loc.spec_parent()) == Some(loc.spec_nested());
        proof {
            assert(entry_holds_config(raw[i]));
            assert forall|j: int| 0 <= j < i implies !entry_holds_config(#[trigger] raw[j]) by {
                assert(!holds_config(scanned@[j]));
            }
            assert(first_holder(raw, i));
            assert forall|k: int| #[trigger] first_holder(raw, k) implies k == i by {
                if k < i {
                    assert(!entry_holds_config(raw[k]));
                } else if k > i {
                    assert(!entry_holds_config(raw[i]));
                }
            }
        }
        let checked = parse_json_text(loc.nested().as_str());
        match checked {
            Ok(_) => Ok(loc),
            Err(e) => Err(e),
        }
    }

    fn write_mcp_config(&self, located: LocatedConfig, nested_text: String) -> (w: StoreWrite) {
        located.rewrite(nested_text)
    }

    fn list_servers(&self, config: McpConfigResponse) -> (r: ServerListResponse) {
        let total_count = config.servers.len();
        ServerListResponse { servers: config.servers, total_count }
    }

    fn add_server(&self, config: McpConfigResponse, server: ServerRequest) -> (r: McpConfigRequest) {
        let servers = upsert_server(config.servers, server);
        McpConfigRequest { servers: to_requests(servers) }
    }

    fn remove_server(&self, config: McpConfigResponse, server_id: &str) -> (r: Result<
        McpConfigRequest,
        CherryDbError,
    >) {
        let id = server_id.to_owned();
        let ghost before = config.servers@;
        let original_len = config.servers.len();
        let kept = retain_other_ids(config.servers, &id);
        proof {
            lemma_without_id_len(before, id@);
            lemma_count_has_id(before, id@);
        }
        if kept.len() == original_len {
            return Err(CherryDbError::ServerNotFound(id));
        }
        Ok(McpConfigRequest { servers: to_requests(kept) })
    }

    fn server_exists(&self, config: &McpConfigResponse, server_id: &str) -> (r: bool) {
        let id = server_id.to_owned();
        contains_id(&config.servers, &id)
    }
}

} // verus!
