//! Typed protocol messages exchanged with the coordinating service.
//!
//! The wire encoding itself belongs to the message codec, an external
//! collaborator: the engine only ever sees decoded messages.  The set of
//! variants is closed apart from `Unsupported`, which stands for any frame
//! the codec understands but this engine does not act on.

use vstd::prelude::*;

verus! {

/// The kinds of typed error replies the protocol knows.
#[derive(Clone, Copy, Debug, PartialEq, Eq, Structural)]
pub enum ErrorKind {
    /// The requested file id is not registered on this node.
    FileDoesntExist,
    /// Any error kind the engine does not interpret.
    Unknown,
}

/// One decoded protocol message.  Messages are immutable value types with
/// no identity beyond their content.
pub enum ProtocolMessage {
    /// Ask this node to stream file `file_id` to `upload_url`.
    UploadTo { file_id: u32, upload_url: String },
    /// Ask for the metadata of file `file_id`; `upload_id` is echoed back.
    MetadataReq { file_id: u32, upload_id: u64 },
    /// Reply to `MetadataReq`, mirroring the stored share.
    MetadataRes {
        file_id: u32,
        exp: u64,
        crt: u64,
        file_size: u64,
        username: String,
        file_name: String,
        upload_id: u64,
    },
    /// Ask this node to authenticate itself.
    AuthReq { public_id: u64 },
    /// Reply to `AuthReq` carrying the configured passcode.
    AuthRes { public_id: u64, passcode: Vec<u8> },
    /// Liveness probe.
    StatusReq { public_id: u64, upload_id: u64 },
    /// Reply to `StatusReq`.
    StatusRes {
        public_id: u64,
        ready: bool,
        uptime: u64,
        upload_id: u64,
        message: Option<String>,
    },
    /// Plain acknowledgement; logged, never answered.
    Okay,
    /// Typed error, inbound or outbound.
    Error { kind: ErrorKind, reason: Option<String> },
    /// Catch-all for decodable frames the engine ignores.
    Unsupported,
}

/// Mathematical model of a protocol message, with strings and byte vectors
/// as sequences.
pub enum MessageModel {
    UploadTo { file_id: u32, upload_url: Seq<char> },
    MetadataReq { file_id: u32, upload_id: u64 },
    MetadataRes {
        file_id: u32,
        exp: u64,
        crt: u64,
        file_size: u64,
        username: Seq<char>,
        file_name: Seq<char>,
        upload_id: u64,
    },
    AuthReq { public_id: u64 },
    AuthRes { public_id: u64, passcode: Seq<u8> },
    StatusReq { public_id: u64, upload_id: u64 },
    StatusRes {
        public_id: u64,
        ready: bool,
        uptime: u64,
        upload_id: u64,
        message: Option<Seq<char>>,
    },
    Okay,
    Error { kind: ErrorKind, reason: Option<Seq<char>> },
    Unsupported,
}

impl View for ProtocolMessage {
    type V = MessageModel;

    open spec fn view(&self) -> MessageModel {
        match self {
            ProtocolMessage::UploadTo { file_id, upload_url } => MessageModel::UploadTo {
                file_id: *file_id,
                upload_url: upload_url@,
            },
            ProtocolMessage::MetadataReq { file_id, upload_id } => MessageModel::MetadataReq {
                file_id: *file_id,
                upload_id: *upload_id,
            },
            ProtocolMessage::MetadataRes {
                file_id,
                exp,
                crt,
                file_size,
                username,
                file_name,
                upload_id,
            } => MessageModel::MetadataRes {
                file_id: *file_id,
                exp: *exp,
                crt: *crt,
                file_size: *file_size,
                username: username@,
                file_name: file_name@,
                upload_id: *upload_id,
            },
            ProtocolMessage::AuthReq { public_id } => MessageModel::AuthReq {
                public_id: *public_id,
            },
            ProtocolMessage::AuthRes { public_id, passcode } => MessageModel::AuthRes {
                public_id: *public_id,
                passcode: passcode@,
            },
            ProtocolMessage::StatusReq { public_id, upload_id } => MessageModel::StatusReq {
                public_id: *public_id,
                upload_id: *upload_id,
            },
            ProtocolMessage::StatusRes { public_id, ready, uptime, upload_id, message } => (
                MessageModel::StatusRes {
                    public_id: *public_id,
                    ready: *ready,
                    uptime: *uptime,
                    upload_id: *upload_id,
                    message: match message {
                        Some(s) => Some(s@),
                        None => None,
                    },
                }
            ),
            ProtocolMessage::Okay => MessageModel::Okay,
            ProtocolMessage::Error { kind, reason } => MessageModel::Error {
                kind: *kind,
                reason: match reason {
                    Some(s) => Some(s@),
                    None => None,
                },
            },
            ProtocolMessage::Unsupported => MessageModel::Unsupported,
        }
    }
}

} // verus!
