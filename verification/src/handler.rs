//! The message handler: the pure mapping from one inbound protocol message
//! to at most one reply.
//!
//! A handler may need the share store's answer for one file id.  The store
//! lives outside the engine, so the caller first asks `needs_share_lookup`,
//! performs the lookup, and then hands the result to `handle_message`,
//! which is verified for every possible lookup outcome.

use vstd::prelude::*;

use crate::config::{AgentConfig, ConfigModel};
use crate::protocol::{ErrorKind, MessageModel, ProtocolMessage};
use crate::share::{Share, ShareModel};

verus! {

/// What the dispatcher must do once a message has been handled.
pub enum HandlerAction {
    /// Send this reply back through the response channel.
    Reply(ProtocolMessage),
    /// The message needs no answer.
    NoReply,
    /// Hand the named share to the upload executor; success is implicit,
    /// so no reply is sent.
    StartUpload { file_id: u32, upload_url: String },
}

/// Mathematical model of a handler action.
pub enum ActionModel {
    Reply(MessageModel),
    NoReply,
    StartUpload { file_id: u32, upload_url: Seq<char> },
}

impl View for HandlerAction {
    type V = ActionModel;

    open spec fn view(&self) -> ActionModel {
        match self {
            HandlerAction::Reply(m) => ActionModel::Reply(m@),
            HandlerAction::NoReply => ActionModel::NoReply,
            HandlerAction::StartUpload { file_id, upload_url } => ActionModel::StartUpload {
                file_id: *file_id,
                upload_url: upload_url@,
            },
        }
    }
}

/// The lookup result a handler works from, at the model level.
pub open spec fn lookup_model(lookup: Option<Share>) -> Option<ShareModel> {
    match lookup {
        Some(s) => Some(s@),
        None => None,
    }
}

/// The typed error reply for a file id this node does not hold.
pub open spec fn file_missing_reply() -> MessageModel {
    MessageModel::Error { kind: ErrorKind::FileDoesntExist, reason: None }
}

/// What the handler answers, as a function of the message, the
/// configuration snapshot and the share store's answer.
pub open spec fn handler_model(
    m: MessageModel,
    cfg: ConfigModel,
    lookup: Option<ShareModel>,
) -> ActionModel {
    match m {
        MessageModel::UploadTo { file_id, upload_url } => match lookup {
            Some(_) => ActionModel::StartUpload { file_id, upload_url },
            None => ActionModel::Reply(file_missing_reply()),
        },
        MessageModel::MetadataReq { file_id: _, upload_id } => match lookup {
            Some(s) => ActionModel::Reply(
                MessageModel::MetadataRes {
                    file_id: s.file_id,
                    exp: s.exp,
                    crt: s.crt,
                    file_size: s.file_size,
                    username: s.user_name,
                    file_name: s.file_name,
                    upload_id,
                },
            ),
            None => ActionModel::Reply(file_missing_reply()),
        },
        MessageModel::AuthReq { public_id } => ActionModel::Reply(
            MessageModel::AuthRes { public_id, passcode: cfg.private_key },
        ),
        MessageModel::StatusReq { public_id: _, upload_id } => ActionModel::Reply(
            MessageModel::StatusRes {
                public_id: cfg.public_id,
                ready: true,
                uptime: 0,
                upload_id,
                message: Some("Ready to upload"@),
            },
        ),
        _ => ActionModel::NoReply,
    }
}

/// Which file id, if any, must be fetched from the share store before
/// `handle_message` can run on `m`.
pub fn needs_share_lookup(m: &ProtocolMessage) -> (r: Option<u32>)
    ensures
        match m@ {
            MessageModel::UploadTo { file_id, .. } => r == Some(file_id),
            MessageModel::MetadataReq { file_id, .. } => r == Some(file_id),
            _ => r is None,
        },
{
    match m {
        ProtocolMessage::UploadTo { file_id, .. } => Some(*file_id),
        ProtocolMessage::MetadataReq { file_id, .. } => Some(*file_id),
        _ => None,
    }
}

/// Map one inbound message to its action.
///
/// `lookup` is the share store's answer for the id that
/// `needs_share_lookup` named, and is ignored for messages that need no
/// lookup.  A store failure is the caller's to report: it never reaches
/// this function.
pub fn handle_message(m: ProtocolMessage, config: &AgentConfig, lookup: Option<Share>) -> (r:
    HandlerAction)
    ensures
        r@ == handler_model(m@, config@, lookup_model(lookup)),
{
    match m {
        ProtocolMessage::UploadTo { file_id, upload_url } => match lookup {
            Some(_) => HandlerAction::StartUpload { file_id, upload_url },
            None => HandlerAction::Reply(file_missing_error()),
        },
        ProtocolMessage::MetadataReq { file_id: _, upload_id } => match lookup {
            Some(s) => HandlerAction::Reply(
                ProtocolMessage::MetadataRes {
                    file_id: s.file_id,
                    exp: s.exp,
                    crt: s.crt,
                    file_size: s.file_size,
                    username: s.user_name,
                    file_name: s.file_name,
                    upload_id,
                },
            ),
            None => HandlerAction::Reply(file_missing_error()),
        },
        ProtocolMessage::AuthReq { public_id } => HandlerAction::Reply(
            ProtocolMessage::AuthRes { public_id, passcode: config.passcode_copy() },
        ),
        ProtocolMessage::StatusReq { public_id: _, upload_id } => HandlerAction::Reply(
            ProtocolMessage::StatusRes {
                public_id: config.public_id,
                ready: true,
                uptime: 0,
                upload_id,
                message: Some(String::from_str("Ready to upload")),
            },
        ),
        _ => HandlerAction::NoReply,
    }
}

/// Build the typed error reply for an unknown file id.
fn file_missing_error() -> (r: ProtocolMessage)
    ensures
        r@ == file_missing_reply(),
{
    ProtocolMessage::Error { kind: ErrorKind::FileDoesntExist, reason: None }
}

/// A metadata request is answered from the stored share alone: a known id
/// yields a `MetadataRes` whose fields exactly mirror the share, with the
/// request's `upload_id` echoed; an unknown id yields the typed
/// `FileDoesntExist` error.
pub proof fn lemma_metadata_mirrors_store(
    cfg: ConfigModel,
    file_id: u32,
    upload_id: u64,
    lookup: Option<ShareModel>,
)
    ensures
        lookup is None ==> handler_model(
            MessageModel::MetadataReq { file_id, upload_id },
            cfg,
            lookup,
        ) == ActionModel::Reply(file_missing_reply()),
        forall|s: ShareModel|
            lookup == Some(s) ==> handler_model(
                MessageModel::MetadataReq { file_id, upload_id },
                cfg,
                lookup,
            ) == ActionModel::Reply(
                MessageModel::MetadataRes {
                    file_id: s.file_id,
                    exp: s.exp,
                    crt: s.crt,
                    file_size: s.file_size,
                    username: s.user_name,
                    file_name: s.file_name,
                    upload_id,
                },
            ),
{
}

/// An upload request for an unknown file id yields the typed
/// `FileDoesntExist` error, and the upload executor is started only when
/// the store knows the id: no handler action reaches the executor
/// otherwise.
pub proof fn lemma_unknown_upload_never_starts(
    cfg: ConfigModel,
    file_id: u32,
    upload_url: Seq<char>,
)
    ensures
        handler_model(MessageModel::UploadTo { file_id, upload_url }, cfg, None)
            == ActionModel::Reply(file_missing_reply()),
        forall|lookup: Option<ShareModel>|
            (#[trigger] handler_model(
                MessageModel::UploadTo { file_id, upload_url },
                cfg,
                lookup,
            )) matches ActionModel::StartUpload { .. } ==> lookup is Some,
{
}

} // verus!
