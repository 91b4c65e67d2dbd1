//! Behavioural tests of the dispatch engine: the session state machine,
//! the message handler, the upload retry policy, the expiry sweep and the
//! reconnect backoff.

use riptide_agent::handler::{handle_message, needs_share_lookup, HandlerAction};
use riptide_agent::session::{FrameEvent, Session, SessionAction};
use riptide_agent::supervisor::{
    delay_after_session, orchestrator_step, reconnect_backoff_ms, OrchestratorEvent,
    OrchestratorStep, MIN_RECONNECT_DELAY_MS,
};
use riptide_agent::sweeper::partition_expired;
use riptide_agent::upload::UploadState;
use riptide_agent::{AgentConfig, ErrorKind, ProtocolMessage, SessionEnd, Share};

fn test_config() -> AgentConfig {
    AgentConfig {
        public_id: 77,
        private_key: vec![1, 2, 3, 4],
        websocket_address: String::from("wss://central.example"),
        server_address: String::from("https://central.example"),
        file_store_location: String::from("/srv/store"),
        database_location: String::from("/srv/store/riptide.db"),
        max_upload_attempts: 3,
        size_limit_bytes: 1_000_000,
        reconnect_delay_minutes: 1,
    }
}

fn test_share() -> Share {
    Share {
        file_id: 42,
        crt: 1_000,
        exp: 2_000,
        file_size: 512,
        user_name: String::from("ada"),
        file_name: String::from("notes.txt"),
    }
}

#[test]
fn upload_always_failing_retries_exactly_max() {
    let mut st = UploadState::new(3);
    let mut attempts = 0;
    while st.should_attempt() {
        st.record_attempt(false);
        attempts += 1;
        assert!(attempts <= 3, "retry policy exceeded the attempt bound");
    }
    assert_eq!(attempts, 3);
    assert_eq!(st.attempts_made, 3);
    assert!(st.finished);
    assert!(!st.succeeded);
}

#[test]
fn upload_stops_immediately_on_first_success() {
    let mut st = UploadState::new(5);
    st.record_attempt(false);
    assert!(st.should_attempt());
    st.record_attempt(true);
    assert!(st.finished);
    assert!(st.succeeded);
    assert_eq!(st.attempts_made, 2);
}

#[test]
fn upload_with_bound_one_gives_up_after_one_attempt() {
    let mut st = UploadState::new(1);
    assert!(st.should_attempt());
    st.record_attempt(false);
    assert!(st.finished);
    assert!(!st.succeeded);
    assert_eq!(st.attempts_made, 1);
}

#[test]
fn sweeper_removes_exactly_the_expired_shares() {
    let mut expired_early = test_share();
    expired_early.file_id = 1;
    expired_early.exp = 10;
    let mut at_boundary = test_share();
    at_boundary.file_id = 2;
    at_boundary.exp = 100;
    let mut live = test_share();
    live.file_id = 3;
    live.exp = 5_000;
    let mut expired_late = test_share();
    expired_late.file_id = 4;
    expired_late.exp = 99;

    let shares = vec![expired_early, at_boundary, live, expired_late];
    let (removed, kept) = partition_expired(shares, 100);

    let removed_ids: Vec<u32> = removed.iter().map(|s| s.file_id).collect();
    let kept_ids: Vec<u32> = kept.iter().map(|s| s.file_id).collect();
    assert_eq!(removed_ids, vec![1, 4]);
    assert_eq!(kept_ids, vec![2, 3]);
}

#[test]
fn sweeper_keeps_duplicates_exactly_once_each() {
    let mut a = test_share();
    a.exp = 1;
    let mut b = test_share();
    b.exp = 1;
    let (removed, kept) = partition_expired(vec![a, b], 50);
    assert_eq!(removed.len(), 2);
    assert_eq!(kept.len(), 0);
}

#[test]
fn metadata_req_known_id_mirrors_stored_share() {
    let cfg = test_config();
    let m = ProtocolMessage::MetadataReq { file_id: 42, upload_id: 9 };
    let r = handle_message(m, &cfg, Some(test_share()));
    match r {
        HandlerAction::Reply(ProtocolMessage::MetadataRes {
            file_id,
            exp,
            crt,
            file_size,
            username,
            file_name,
            upload_id,
        }) => {
            assert_eq!(file_id, 42);
            assert_eq!(exp, 2_000);
            assert_eq!(crt, 1_000);
            assert_eq!(file_size, 512);
            assert_eq!(username, "ada");
            assert_eq!(file_name, "notes.txt");
            assert_eq!(upload_id, 9);
        }
        other => panic!("expected a metadata reply, got {:?}", describe(&other)),
    }
}

#[test]
fn metadata_req_unknown_id_yields_file_doesnt_exist() {
    let cfg = test_config();
    let m = ProtocolMessage::MetadataReq { file_id: 7, upload_id: 9 };
    let r = handle_message(m, &cfg, None);
    match r {
        HandlerAction::Reply(ProtocolMessage::Error { kind, reason }) => {
            assert!(matches!(kind, ErrorKind::FileDoesntExist));
            assert!(reason.is_none());
        }
        other => panic!("expected an error reply, got {:?}", describe(&other)),
    }
}

#[test]
fn upload_to_unknown_id_never_starts_the_executor() {
    let cfg = test_config();
    let m = ProtocolMessage::UploadTo {
        file_id: 7,
        upload_url: String::from("https://central.example/upload/abc"),
    };
    let r = handle_message(m, &cfg, None);
    match r {
        HandlerAction::Reply(ProtocolMessage::Error { kind, .. }) => {
            assert!(matches!(kind, ErrorKind::FileDoesntExist));
        }
        HandlerAction::StartUpload { .. } => {
            panic!("the upload executor must not run for an unknown file id")
        }
        other => panic!("expected an error reply, got {:?}", describe(&other)),
    }
}

#[test]
fn upload_to_known_id_starts_the_executor_without_reply() {
    let cfg = test_config();
    let m = ProtocolMessage::UploadTo {
        file_id: 42,
        upload_url: String::from("https://central.example/upload/abc"),
    };
    let r = handle_message(m, &cfg, Some(test_share()));
    match r {
        HandlerAction::StartUpload { file_id, upload_url } => {
            assert_eq!(file_id, 42);
            assert_eq!(upload_url, "https://central.example/upload/abc");
        }
        other => panic!("expected an upload action, got {:?}", describe(&other)),
    }
}

#[test]
fn auth_req_answers_with_configured_passcode() {
    let cfg = test_config();
    let r = handle_message(ProtocolMessage::AuthReq { public_id: 123 }, &cfg, None);
    match r {
        HandlerAction::Reply(ProtocolMessage::AuthRes { public_id, passcode }) => {
            assert_eq!(public_id, 123);
            assert_eq!(passcode, vec![1, 2, 3, 4]);
        }
        other => panic!("expected an auth reply, got {:?}", describe(&other)),
    }
}

#[test]
fn status_req_reports_ready() {
    let cfg = test_config();
    let r = handle_message(
        ProtocolMessage::StatusReq { public_id: 123, upload_id: 8 },
        &cfg,
        None,
    );
    match r {
        HandlerAction::Reply(ProtocolMessage::StatusRes {
            public_id,
            ready,
            uptime,
            upload_id,
            message,
        }) => {
            assert_eq!(public_id, 77);
            assert!(ready);
            assert_eq!(uptime, 0);
            assert_eq!(upload_id, 8);
            assert_eq!(message.as_deref(), Some("Ready to upload"));
        }
        other => panic!("expected a status reply, got {:?}", describe(&other)),
    }
}

#[test]
fn acknowledgements_and_errors_get_no_reply() {
    let cfg = test_config();
    assert!(matches!(
        handle_message(ProtocolMessage::Okay, &cfg, None),
        HandlerAction::NoReply
    ));
    let err = ProtocolMessage::Error {
        kind: ErrorKind::Unknown,
        reason: Some(String::from("remote trouble")),
    };
    assert!(matches!(handle_message(err, &cfg, None), HandlerAction::NoReply));
    assert!(matches!(
        handle_message(ProtocolMessage::Unsupported, &cfg, None),
        HandlerAction::NoReply
    ));
}

#[test]
fn lookup_is_needed_exactly_for_upload_and_metadata() {
    let upload = ProtocolMessage::UploadTo {
        file_id: 5,
        upload_url: String::from("u"),
    };
    let metadata = ProtocolMessage::MetadataReq { file_id: 6, upload_id: 0 };
    assert_eq!(needs_share_lookup(&upload), Some(5));
    assert_eq!(needs_share_lookup(&metadata), Some(6));
    assert_eq!(needs_share_lookup(&ProtocolMessage::Okay), None);
    assert_eq!(
        needs_share_lookup(&ProtocolMessage::AuthReq { public_id: 1 }),
        None
    );
}

#[test]
fn session_spawns_one_task_per_decoded_frame() {
    let mut s = Session::new(8);
    let a = s.on_frame(FrameEvent::Data(Some(ProtocolMessage::Okay)));
    match a {
        SessionAction::Spawn { task_id, .. } => assert_eq!(task_id, 0),
        _ => panic!("expected a spawn action"),
    }
    let b = s.on_frame(FrameEvent::Data(Some(ProtocolMessage::Okay)));
    match b {
        SessionAction::Spawn { task_id, .. } => assert_eq!(task_id, 1),
        _ => panic!("expected a spawn action"),
    }
    assert_eq!(s.pending, vec![0, 1]);
    assert!(!s.ended);
}

#[test]
fn session_answers_ping_with_matching_pong() {
    let mut s = Session::new(8);
    let a = s.on_frame(FrameEvent::Ping(vec![9, 9, 9]));
    match a {
        SessionAction::SendPong(payload) => assert_eq!(payload, vec![9, 9, 9]),
        _ => panic!("expected a pong action"),
    }
    assert!(matches!(s.on_frame(FrameEvent::Pong), SessionAction::Ignore));
    assert!(!s.ended);
}

#[test]
fn session_treats_corrupt_frame_as_fatal() {
    let mut s = Session::new(8);
    match s.on_frame(FrameEvent::Data(None)) {
        SessionAction::End(end) => {
            assert!(end.failed);
            assert!(!end.reconnect_immediately);
        }
        _ => panic!("expected the session to end"),
    }
    assert!(s.ended);
}

#[test]
fn session_close_frame_ends_cleanly_and_reconnects_at_once() {
    let mut s = Session::new(8);
    match s.on_frame(FrameEvent::Close) {
        SessionAction::End(end) => {
            assert!(!end.failed);
            assert!(end.reconnect_immediately);
        }
        _ => panic!("expected the session to end"),
    }
    assert!(s.ended);
}

#[test]
fn replies_leave_in_completion_order_not_arrival_order() {
    // Two messages arrive in order M1, M2; the handler for M2 is fast and
    // completes first, so its reply is pushed first and must be written
    // first.
    let mut s = Session::new(8);
    let m1_reply = ProtocolMessage::MetadataReq { file_id: 1, upload_id: 1 };
    let m2_reply = ProtocolMessage::MetadataReq { file_id: 2, upload_id: 2 };
    assert!(s.push_reply(m2_reply).is_none());
    assert!(s.push_reply(m1_reply).is_none());
    match s.pop_reply() {
        Some(ProtocolMessage::MetadataReq { file_id, .. }) => assert_eq!(file_id, 2),
        _ => panic!("expected the fast handler's reply first"),
    }
    match s.pop_reply() {
        Some(ProtocolMessage::MetadataReq { file_id, .. }) => assert_eq!(file_id, 1),
        _ => panic!("expected the slow handler's reply second"),
    }
    assert!(s.pop_reply().is_none());
}

#[test]
fn full_reply_channel_blocks_instead_of_dropping() {
    let mut s = Session::new(2);
    assert!(s.push_reply(ProtocolMessage::Okay).is_none());
    assert!(s.push_reply(ProtocolMessage::Okay).is_none());
    let rejected = s.push_reply(ProtocolMessage::Okay);
    assert!(matches!(rejected, Some(ProtocolMessage::Okay)));
    assert_eq!(s.replies.len(), 2);
}

#[test]
fn aborting_a_session_leaves_no_task_running() {
    let mut s = Session::new(8);
    for _ in 0..4 {
        let _ = s.on_frame(FrameEvent::Data(Some(ProtocolMessage::Okay)));
    }
    assert_eq!(s.pending.len(), 4);
    let _ = s.on_frame(FrameEvent::ReadError);
    let aborted = s.drain_pending();
    assert_eq!(aborted, vec![0, 1, 2, 3]);
    assert!(s.pending.is_empty());
}

#[test]
fn external_shutdown_ends_the_session() {
    let mut s = Session::new(8);
    let _ = s.on_frame(FrameEvent::Data(Some(ProtocolMessage::Okay)));
    s.abort();
    assert!(s.ended);
    let aborted = s.drain_pending();
    assert_eq!(aborted, vec![0]);
    assert!(s.pending.is_empty());
}

#[test]
fn completing_a_task_removes_only_that_task() {
    let mut s = Session::new(8);
    for _ in 0..3 {
        let _ = s.on_frame(FrameEvent::Data(Some(ProtocolMessage::Okay)));
    }
    s.complete_task(1);
    assert_eq!(s.pending, vec![0, 2]);
    s.complete_task(7);
    assert_eq!(s.pending, vec![0, 2]);
}

#[test]
fn backoff_never_undercuts_floor_or_configuration() {
    assert_eq!(reconnect_backoff_ms(0, MIN_RECONNECT_DELAY_MS), 5_000);
    assert_eq!(reconnect_backoff_ms(1, MIN_RECONNECT_DELAY_MS), 60_000);
    assert_eq!(reconnect_backoff_ms(2, 200_000), 200_000);
    assert_eq!(reconnect_backoff_ms(u64::MAX, 1), u64::MAX);
}

#[test]
fn clean_close_skips_the_backoff() {
    let clean = SessionEnd { failed: false, reconnect_immediately: true };
    let failed = SessionEnd { failed: true, reconnect_immediately: false };
    assert_eq!(delay_after_session(clean, 1), 0);
    assert_eq!(delay_after_session(failed, 1), 60_000);
}

#[test]
fn orchestrator_shuts_down_on_everything_but_a_quiet_check() {
    assert!(matches!(
        orchestrator_step(OrchestratorEvent::Interrupt),
        OrchestratorStep::Shutdown
    ));
    assert!(matches!(
        orchestrator_step(OrchestratorEvent::ReloadRequested),
        OrchestratorStep::Shutdown
    ));
    assert!(matches!(
        orchestrator_step(OrchestratorEvent::SupervisorExited),
        OrchestratorStep::Shutdown
    ));
    assert!(matches!(
        orchestrator_step(OrchestratorEvent::SweeperExited),
        OrchestratorStep::Shutdown
    ));
    assert!(matches!(
        orchestrator_step(OrchestratorEvent::NoReloadRequested),
        OrchestratorStep::Continue
    ));
}

fn describe(a: &HandlerAction) -> &'static str {
    match a {
        HandlerAction::Reply(_) => "a reply",
        HandlerAction::NoReply => "no reply",
        HandlerAction::StartUpload { .. } => "an upload action",
    }
}
