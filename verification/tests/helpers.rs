//! Tests of the supporting pieces: text rendering, the machine
//! identifier, error classification, share requests and query terms.

use riptide_agent::config::{generate_link_url, host_urls};
use riptide_agent::share::{backing_file_path, expiry_after_hours, generate_warnings};
use riptide_agent::text::{format_bytes_to_readable_string, format_time_relative_to_now, u64_to_string};
use riptide_agent::{
    AgentConfig, ComputerIdentifier, DatabaseError, Search, ServerError, Share, ShareError,
    ShareRequest,
};

fn test_config() -> AgentConfig {
    AgentConfig {
        public_id: 77,
        private_key: vec![1, 2, 3, 4],
        websocket_address: String::from("wss://central.example"),
        server_address: String::from("https://central.example"),
        file_store_location: String::from("/srv/store"),
        database_location: String::from("/srv/store/riptide.db"),
        max_upload_attempts: 3,
        size_limit_bytes: 1_000_000,
        reconnect_delay_minutes: 1,
    }
}

fn test_request() -> ShareRequest {
    ShareRequest {
        id: String::from("abc-123"),
        usr: String::from("ada"),
        exp: 5_000,
        restrict_wget: false,
        restrict_website: false,
        name: String::from("notes"),
        size: 512,
        file_type: String::from("txt"),
    }
}

#[test]
fn decimal_rendering_is_exact() {
    assert_eq!(u64_to_string(0), "0");
    assert_eq!(u64_to_string(7), "7");
    assert_eq!(u64_to_string(105), "105");
    assert_eq!(u64_to_string(u64::MAX), "18446744073709551615");
}

#[test]
fn past_times_are_worded_with_ago() {
    assert_eq!(format_time_relative_to_now(990, 1_000), "10 seconds ago");
    assert_eq!(format_time_relative_to_now(1_000 - 120, 1_000), "2 minutes ago");
    assert_eq!(format_time_relative_to_now(1_000_000 - 7_200, 1_000_000), "2 hours ago");
    assert_eq!(
        format_time_relative_to_now(1_000_000 - 3 * 86_400, 1_000_000),
        "3 days ago"
    );
}

#[test]
fn future_times_are_worded_without_ago() {
    assert_eq!(format_time_relative_to_now(1_030, 1_000), "30 seconds");
    assert_eq!(format_time_relative_to_now(1_000 + 5 * 60, 1_000), "5 minutes");
    assert_eq!(format_time_relative_to_now(1_000 + 5 * 3_600, 1_000), "5 hours");
    assert_eq!(format_time_relative_to_now(1_000 + 2 * 86_400, 1_000), "2 days");
}

#[test]
fn byte_counts_are_worded_in_the_largest_unit() {
    assert_eq!(format_bytes_to_readable_string(0), "0.00 B");
    assert_eq!(format_bytes_to_readable_string(500), "500.00 B");
    assert_eq!(format_bytes_to_readable_string(1_536), "1.50 KB");
    assert_eq!(format_bytes_to_readable_string(2_500_000), "2.38 MB");
    assert_eq!(format_bytes_to_readable_string(5_000_000_000), "4.66 GB");
    assert_eq!(format_bytes_to_readable_string(-5), "-5.00 B");
}

#[test]
fn backing_file_paths_join_root_and_id() {
    assert_eq!(backing_file_path("/srv/store", 42), "/srv/store/42");
    assert_eq!(backing_file_path("/srv/store", 0), "/srv/store/0");
}

#[test]
fn share_links_name_agent_and_file() {
    let cfg = test_config();
    assert_eq!(
        generate_link_url(&cfg, 42),
        "https://central.example/agents/77/files/42"
    );
}

#[test]
fn host_urls_follow_the_tls_choice() {
    let (server, ws) = host_urls("central.example", false);
    assert_eq!(server, "http://central.example");
    assert_eq!(ws, "ws://central.example");
    let (server_tls, ws_tls) = host_urls("central.example", true);
    assert_eq!(server_tls, "https://central.example");
    assert_eq!(ws_tls, "wss://central.example");
}

#[test]
fn expiry_is_creation_plus_hours() {
    assert_eq!(expiry_after_hours(1_000, 2), Some(8_200));
    assert_eq!(expiry_after_hours(0, 0), Some(0));
    assert_eq!(expiry_after_hours(u64::MAX, 1), None);
}

#[test]
fn oversized_files_earn_one_warning() {
    let mut share = Share {
        file_id: 1,
        crt: 0,
        exp: 10,
        file_size: 512,
        user_name: String::from("ada"),
        file_name: String::from("notes.txt"),
    };
    assert!(generate_warnings(&share, 1_000).is_empty());
    share.file_size = 2_000;
    let warnings = generate_warnings(&share, 1_000);
    assert_eq!(warnings.len(), 1);
    assert_eq!(
        warnings[0],
        "this file is greater than the recommended size limit."
    );
}

#[test]
fn shares_expire_strictly_after_their_deadline() {
    let share = Share {
        file_id: 1,
        crt: 0,
        exp: 100,
        file_size: 1,
        user_name: String::from("ada"),
        file_name: String::from("n"),
    };
    assert!(!share.is_expired(99));
    assert!(!share.is_expired(100));
    assert!(share.is_expired(101));
}

#[test]
fn machine_identifier_hash_is_deterministic_for_fixed_facts() {
    let mut a = ComputerIdentifier {
        language: String::from("en-NZ"),
        device_name: String::from("workshop"),
        platform: String::from("Linux"),
        operating_system: String::from("Debian"),
        name: String::from("ada"),
        time: 1_234,
    };
    let mut b = ComputerIdentifier {
        language: String::from("en-NZ"),
        device_name: String::from("workshop"),
        platform: String::from("Linux"),
        operating_system: String::from("Debian"),
        name: String::from("ada"),
        time: 1_234,
    };
    assert_eq!(a.get_hash(None), b.get_hash(None));
    assert_ne!(a.get_hash(None), b.get_hash(Some(9_999)));
    assert_eq!(b.time, 9_999);
}

#[test]
fn machine_identifier_reads_the_environment() {
    let id = ComputerIdentifier::from_environment(5);
    assert_eq!(id.time, 5);
}

#[test]
fn http_failures_classify_by_status_code() {
    let rejected = ServerError::from_status(Some(400), String::from("bad request body"));
    match &rejected {
        ServerError::RequestError(text) => assert_eq!(text, "bad request body"),
        _ => panic!("a 400 must classify as a rejected request"),
    }
    assert_eq!(rejected.description(), "bad request body");

    let missing = ServerError::from_status(Some(404), String::from("ignored"));
    assert!(matches!(missing, ServerError::NotFoundError));
    assert_eq!(missing.description(), "Unable to contact server.");

    let unreachable = ServerError::from_status(None, String::from("ignored"));
    assert!(matches!(unreachable, ServerError::NotFoundError));

    let parse = ServerError::ParseError(String::from("bad json"));
    assert_eq!(parse.description(), "bad json");
}

#[test]
fn database_errors_word_themselves() {
    assert_eq!(DatabaseError::DoesNotExist.message(), "not found in database");
    assert_eq!(
        DatabaseError::SqlError(String::from("locked")).message(),
        "an sql error occured when interfacing with the database: locked"
    );
}

#[test]
fn search_terms_quote_text_but_not_ids() {
    assert_eq!(Search::Id(17).get_search_term(), "id = 17");
    assert_eq!(
        Search::Uuid(String::from("abc-123")).get_search_term(),
        "uuid = 'abc-123'"
    );
}

#[test]
fn valid_requests_pass_validation() {
    let req = test_request();
    assert!(req.validate(4_000).is_ok());
    assert!(req.validate(5_000).is_ok());
}

#[test]
fn contradictory_restrictions_are_rejected_first() {
    let req = test_request()
        .set_restrict_wget(true)
        .set_restrict_website(true)
        .set_exp(&0);
    match req.validate(4_000) {
        Err(e) => {
            assert!(matches!(e, ShareError::RestrictionError));
            assert_eq!(
                e.description(),
                "Cannot set both restrict_wget and restrict_website at the same time!"
            );
        }
        Ok(()) => panic!("contradictory restrictions must be rejected"),
    }
}

#[test]
fn past_expiry_is_rejected() {
    let req = test_request().set_exp(&100);
    match req.validate(4_000) {
        Err(e) => {
            assert!(matches!(e, ShareError::TimeError));
            assert_eq!(e.description(), "Expiry time set in the past.");
        }
        Ok(()) => panic!("a past expiry must be rejected"),
    }
}

#[test]
fn share_errors_word_themselves() {
    assert_eq!(
        ShareError::FileExtensionError.description(),
        "Failed to parse file extension."
    );
    assert_eq!(
        ShareError::FileNameError.description(),
        "Failed to parse file name."
    );
    assert_eq!(
        ShareError::FileSizeError(String::from("Too Large!")).description(),
        "Too Large!"
    );
    assert_eq!(
        ShareError::FileExistError(String::from("File doesn't exist!")).description(),
        "File doesn't exist!"
    );
    assert_eq!(
        ShareError::HardLinkError(String::from("link failed")).description(),
        "link failed"
    );
}

#[test]
fn request_builders_replace_single_fields() {
    let req = test_request()
        .set_usr("grace")
        .set_name("report")
        .set_size(&2_048)
        .set_exp(&9_000);
    assert_eq!(req.usr, "grace");
    assert_eq!(req.name, "report");
    assert_eq!(req.size, 2_048);
    assert_eq!(req.exp, 9_000);
    assert_eq!(req.get_id(), "abc-123");
}
