//! The agent's configuration snapshot.
//!
//! A snapshot is immutable after load: a reload produces a whole new value,
//! never an in-place edit, so concurrently running handlers can share it
//! read-only.  Loading, parsing and key registration happen outside the
//! engine and hand it plain values.

use vstd::prelude::*;

use crate::text::{dec_digits, u64_to_string};

verus! {

/// Configuration as the engine reads it.
pub struct AgentConfig {
    /// Public identifier of this node, assigned at registration.
    pub public_id: u64,
    /// Passcode proving ownership of `public_id`.
    pub private_key: Vec<u8>,
    /// Endpoint of the coordinating service's duplex channel.
    pub websocket_address: String,
    /// Endpoint of the coordinating service's request interface.
    pub server_address: String,
    /// Directory holding the backing file of every share.
    pub file_store_location: String,
    /// Where the share store keeps its records.
    pub database_location: String,
    /// How many times one upload may be attempted before it is abandoned.
    pub max_upload_attempts: u64,
    /// Advisory upper bound on the size of a shared file.
    pub size_limit_bytes: u64,
    /// Configured pause between reconnect attempts, in minutes.
    pub reconnect_delay_minutes: u64,
}

/// Mathematical model of a configuration snapshot.
pub struct ConfigModel {
    pub public_id: u64,
    pub private_key: Seq<u8>,
    pub websocket_address: Seq<char>,
    pub server_address: Seq<char>,
    pub file_store_location: Seq<char>,
    pub database_location: Seq<char>,
    pub max_upload_attempts: u64,
    pub size_limit_bytes: u64,
    pub reconnect_delay_minutes: u64,
}

impl AgentConfig {
    /// Copy the configured passcode, so a handler can answer an
    /// authentication request while the snapshot stays shared.
    pub fn passcode_copy(&self) -> (r: Vec<u8>)
        ensures
            r@ == self.private_key@,
    {
        let mut r: Vec<u8> = Vec::new();
        let mut i: usize = 0;
        while i < self.private_key.len()
            invariant
                i <= self.private_key.len(),
                r@ =~= self.private_key@.subrange(0, i as int),
            decreases self.private_key.len() - i,
        {
            r.push(self.private_key[i]);
            i = i + 1;
        }
        proof {
            assert(r@ =~= self.private_key@);
        }
        r
    }
}

/// The link under which another user can fetch a share from this node:
/// the server address, this node's public id and the file id.
pub fn generate_link_url(config: &AgentConfig, file_id: u32) -> (r: String)
    ensures
        r@ == config.server_address@ + "/agents/"@ + dec_digits(config.public_id as nat)
            + "/files/"@ + dec_digits(file_id as nat),
{
    let mut r = config.server_address.as_str().to_owned();
    r.append("/agents/");
    let pub_digits = u64_to_string(config.public_id);
    r.append(pub_digits.as_str());
    r.append("/files/");
    let file_digits = u64_to_string(file_id as u64);
    r.append(file_digits.as_str());
    r
}

/// The two service addresses derived from a host name: the request
/// interface under `http`, the duplex channel under `ws`, each with an
/// `s` appended to its scheme when the host speaks TLS.
pub fn host_urls(hostname: &str, tls: bool) -> (r: (String, String))
    ensures
        tls ==> r.0@ == "https://"@ + hostname@ && r.1@ == "wss://"@ + hostname@,
        !tls ==> r.0@ == "http://"@ + hostname@ && r.1@ == "ws://"@ + hostname@,
{
    let mut server = if tls {
        String::from_str("https://")
    } else {
        String::from_str("http://")
    };
    let mut ws = if tls {
        String::from_str("wss://")
    } else {
        String::from_str("ws://")
    };
    server.append(hostname);
    ws.append(hostname);
    (server, ws)
}

impl View for AgentConfig {
    type V = ConfigModel;

    open spec fn view(&self) -> ConfigModel {
        ConfigModel {
            public_id: self.public_id,
            private_key: self.private_key@,
            websocket_address: self.websocket_address@,
            server_address: self.server_address@,
            file_store_location: self.file_store_location@,
            database_location: self.database_location@,
            max_upload_attempts: self.max_upload_attempts,
            size_limit_bytes: self.size_limit_bytes,
            reconnect_delay_minutes: self.reconnect_delay_minutes,
        }
    }
}

} // verus!
