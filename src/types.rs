//! Server records, the documents built from them, and the store entries that
//! the library reads and writes.
use std::collections::HashMap;
use vstd::prelude::*;

verus! {

/// A server record as a caller hands it in (transport `stdio`, `sse` or
/// `streamableHttp`). The optional fields are those of the transport.
#[derive(Debug, Clone, PartialEq, Eq)]
pub struct ServerRequest {
    pub id: String,
    pub is_active: bool,
    pub server_type: String,
    pub name: String,
    pub command: Option<String>,
    pub args: Option<Vec<String>>,
    pub env: Option<HashMap<String, String>>,
    pub base_url: Option<String>,
    pub headers: Option<HashMap<String, String>>,
    pub long_running: Option<bool>,
}

/// A server record as it is read back from the store; the same fields as
/// [`ServerRequest`].
#[derive(Debug, Clone, PartialEq, Eq)]
pub struct ServerResponse {
    pub id: String,
    pub is_active: bool,
    pub server_type: String,
    pub name: String,
    pub command: Option<String>,
    pub args: Option<Vec<String>>,
    pub env: Option<HashMap<String, String>>,
    pub base_url: Option<String>,
    pub headers: Option<HashMap<String, String>>,
    pub long_running: Option<bool>,
}

/// A full server list to be written.
#[derive(Debug, Clone)]
pub struct McpConfigRequest {
    pub servers: Vec<ServerRequest>,
}

/// The server list as it was read.
#[derive(Debug, Clone)]
pub struct McpConfigResponse {
    pub servers: Vec<ServerResponse>,
}

/// The server list with its length.
#[derive(Debug, Clone)]
pub struct ServerListResponse {
    pub servers: Vec<ServerResponse>,
    pub total_count: usize,
}

/// One key/value pair as the store holds it.
#[derive(Debug, Clone, PartialEq, Eq)]
pub struct StoreEntry {
    pub key: Vec<u8>,
    pub value: Vec<u8>,
}

/// A store entry with the document its value decodes to, where it decodes.
#[derive(Debug)]
pub struct DatabaseEntry {
    pub key: Vec<u8>,
    pub value: Vec<u8>,
    pub json_data: Option<serde_json::Value>,
}

/// The one value to put into the store, and under which key.
#[derive(Debug, Clone, PartialEq, Eq)]
pub struct StoreWrite {
    pub key: Vec<u8>,
    pub value: Vec<u8>,
}

/// A request record read as a response record, field for field.
pub open spec fn response_of(req: ServerRequest) -> ServerResponse {
    ServerResponse {
        id: req.id,
        is_active: req.is_active,
        server_type: req.server_type,
        name: req.name,
        command: req.command,
        args: req.args,
        env: req.env,
        base_url: req.base_url,
        headers: req.headers,
        long_running: req.long_running,
    }
}

/// A response record read as a request record, field for field.
pub open spec fn request_of(resp: ServerResponse) -> ServerRequest {
    ServerRequest {
        id: resp.id,
        is_active: resp.is_active,
        server_type: resp.server_type,
        name: resp.name,
        command: resp.command,
        args: resp.args,
        env: resp.env,
        base_url: resp.base_url,
        headers: resp.headers,
        long_running: resp.long_running,
    }
}

impl From<ServerRequest> for ServerResponse {
    fn from(req: ServerRequest) -> (r: ServerResponse) {
        ServerResponse {
            id: req.id,
            is_active: req.is_active,
            server_type: req.server_type,
            name: req.name,
            command: req.command,
            args: req.args,
            env: req.env,
            base_url: req.base_url,
            headers: req.headers,
            long_running: req.long_running,
        }
    }
}

impl vstd::std_specs::convert::FromSpecImpl<ServerRequest> for ServerResponse {
    open spec fn obeys_from_spec() -> bool {
        true
    }

    open spec fn from_spec(req: ServerRequest) -> ServerResponse {
        response_of(req)
    }
}

impl From<ServerResponse> for ServerRequest {
    fn from(resp: ServerResponse) -> (r: ServerRequest) {
        ServerRequest {
            id: resp.id,
            is_active: resp.is_active,
            server_type: resp.server_type,
            name: resp.name,
            command: resp.command,
            args: resp.args,
            env: resp.env,
            base_url: resp.base_url,
            headers: resp.headers,
            long_running: resp.long_running,
        }
    }
}

impl vstd::std_specs::convert::FromSpecImpl<ServerResponse> for ServerRequest {
    open spec fn obeys_from_spec() -> bool {
        true
    }

    open spec fn from_spec(resp: ServerResponse) -> ServerRequest {
        request_of(resp)
    }
}

} // verus!
