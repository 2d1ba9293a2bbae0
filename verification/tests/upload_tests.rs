use dbx_client::chunks::chunk_plan;
use dbx_client::orchestrator::UploadAction;
use dbx_client::orchestrator::UploadError;
use dbx_client::orchestrator::UploadOrchestrator;
use dbx_client::protocol::Upload;
use dbx_client::protocol::WriteMode;
use dbx_client::MAX_BODY_SIZE;
use dbx_client::MAX_FILE_SIZE;

/// Drives one whole upload against a fake gateway that hands back `sid` as
/// the session id.  Returns the list of wire operations issued, and for a
/// session upload the session id carried by the finish call.
fn drive_upload(total: u64, sid: &str) -> (Vec<&'static str>, Option<String>) {
    let orch = match UploadOrchestrator::new(total) {
        Ok(o) => o,
        Err(_) => panic!("file admitted by the caller was rejected"),
    };
    let mut calls: Vec<&'static str> = Vec::new();
    if orch.is_single_shot() {
        match orch.simple_action(Upload::new("/f".to_string())) {
            UploadAction::Simple { .. } => calls.push("simple"),
            _ => panic!("single-shot path issued a session request"),
        }
        (calls, None)
    } else {
        match orch.start_action() {
            UploadAction::Start { .. } => calls.push("start"),
            _ => panic!("session path did not open with a start"),
        }
        let mut cursor = orch.start_cursor(sid.to_string());
        while orch.needs_append(&cursor) {
            match orch.append_action(&cursor) {
                UploadAction::Append { .. } => calls.push("append"),
                _ => panic!("append step issued a different request"),
            }
            cursor = orch.advance(cursor);
        }
        match orch.finish_action(cursor, Upload::new("/f".to_string())) {
            UploadAction::Finish { arg, .. } => {
                calls.push("finish");
                (calls, Some(arg.cursor.session_id))
            }
            _ => panic!("session did not close with a finish"),
        }
    }
}

#[test]
fn test_single_shot_exactly_one_request() {
    let (calls, sid) = drive_upload(1000, "unused");
    assert_eq!(calls, vec!["simple"]);
    assert!(sid.is_none());
    let plan = chunk_plan(1000);
    assert_eq!(plan, vec![1000]);
}

#[test]
fn test_empty_file_single_shot() {
    let (calls, _) = drive_upload(0, "unused");
    assert_eq!(calls, vec!["simple"]);
    assert_eq!(chunk_plan(0), vec![0]);
}

#[test]
fn test_boundary_exact_body_size_is_single_shot() {
    let (calls, _) = drive_upload(MAX_BODY_SIZE, "unused");
    assert_eq!(calls, vec!["simple"]);
    let orch = UploadOrchestrator::new(MAX_BODY_SIZE).unwrap();
    match orch.simple_action(Upload::new("/f".to_string())) {
        UploadAction::Simple { window, .. } => {
            assert_eq!(window.start, 0);
            assert_eq!(window.len, MAX_BODY_SIZE);
        }
        _ => panic!("boundary file left the single-shot path"),
    }
}

#[test]
fn test_boundary_one_byte_over_body_size() {
    let total = MAX_BODY_SIZE + 1;
    let orch = UploadOrchestrator::new(total).unwrap();
    assert!(!orch.is_single_shot());
    match orch.start_action() {
        UploadAction::Start { window } => {
            assert_eq!(window.start, 0);
            assert_eq!(window.len, MAX_BODY_SIZE);
        }
        _ => panic!("session path did not open with a start"),
    }
    let cursor = orch.start_cursor("sid".to_string());
    assert_eq!(cursor.offset, MAX_BODY_SIZE);
    assert!(!orch.needs_append(&cursor));
    match orch.finish_action(cursor, Upload::new("/f".to_string())) {
        UploadAction::Finish { window, .. } => {
            assert_eq!(window.start, MAX_BODY_SIZE);
            assert_eq!(window.len, 1);
        }
        _ => panic!("session did not close with a finish"),
    }
}

#[test]
fn test_boundary_two_full_bodies_zero_appends() {
    let total = 2 * MAX_BODY_SIZE;
    let (calls, _) = drive_upload(total, "sid");
    assert_eq!(calls, vec!["start", "finish"]);
    let orch = UploadOrchestrator::new(total).unwrap();
    let cursor = orch.start_cursor("sid".to_string());
    assert!(!orch.needs_append(&cursor));
    match orch.finish_action(cursor, Upload::new("/f".to_string())) {
        UploadAction::Finish { window, .. } => {
            assert_eq!(window.start, MAX_BODY_SIZE);
            assert_eq!(window.len, MAX_BODY_SIZE);
            assert!(window.len > 0);
        }
        _ => panic!("session did not close with a finish"),
    }
}

#[test]
fn test_file_too_large_rejected_before_any_request() {
    match UploadOrchestrator::new(MAX_FILE_SIZE + 1) {
        Err(e) => assert_eq!(e, UploadError::FileTooLarge),
        Ok(_) => panic!("an oversized file was admitted"),
    }
    assert!(UploadOrchestrator::new(MAX_FILE_SIZE).is_ok());
}

#[test]
fn test_chunk_plan_sums_to_total() {
    for total in [
        MAX_BODY_SIZE + 1,
        2 * MAX_BODY_SIZE,
        2 * MAX_BODY_SIZE + 1,
        300_000_000,
        MAX_FILE_SIZE,
    ] {
        let plan = chunk_plan(total);
        assert!(!plan.is_empty());
        let sum: u64 = plan.iter().sum();
        assert_eq!(sum, total);
        for (i, &c) in plan.iter().enumerate() {
            assert!(c <= MAX_BODY_SIZE);
            if i + 1 < plan.len() {
                assert_eq!(c, MAX_BODY_SIZE);
            }
        }
        assert!(*plan.last().unwrap() > 0);
    }
}

#[test]
fn test_cursor_offsets_advance_by_full_bodies() {
    let total = 300_000_000;
    let orch = UploadOrchestrator::new(total).unwrap();
    let mut cursor = orch.start_cursor("sid".to_string());
    assert_eq!(cursor.offset, MAX_BODY_SIZE);
    let mut previous = cursor.offset;
    while orch.needs_append(&cursor) {
        let _ = orch.append_action(&cursor);
        cursor = orch.advance(cursor);
        assert_eq!(cursor.offset, previous + MAX_BODY_SIZE);
        previous = cursor.offset;
    }
    assert!(cursor.offset + MAX_BODY_SIZE >= total);
}

#[test]
fn test_scenario_three_hundred_million_bytes() {
    let total: u64 = 300_000_000;
    assert_eq!(chunk_plan(total), vec![140_000_000, 140_000_000, 20_000_000]);

    let orch = UploadOrchestrator::new(total).unwrap();
    match orch.start_action() {
        UploadAction::Start { window } => {
            assert_eq!(window.start, 0);
            assert_eq!(window.len, 140_000_000);
        }
        _ => panic!("session path did not open with a start"),
    }
    let cursor = orch.start_cursor("sid".to_string());
    assert_eq!(cursor.offset, 140_000_000);
    assert!(orch.needs_append(&cursor));
    match orch.append_action(&cursor) {
        UploadAction::Append { arg, window } => {
            assert_eq!(arg.cursor.offset, 140_000_000);
            assert_eq!(arg.cursor.session_id, "sid");
            assert_eq!(window.start, 140_000_000);
            assert_eq!(window.len, 140_000_000);
        }
        _ => panic!("append step issued a different request"),
    }
    let cursor = orch.advance(cursor);
    assert_eq!(cursor.offset, 280_000_000);
    assert!(!orch.needs_append(&cursor));
    match orch.finish_action(cursor, Upload::new("/f".to_string())) {
        UploadAction::Finish { arg, window } => {
            assert_eq!(arg.cursor.offset, 280_000_000);
            assert_eq!(arg.cursor.session_id, "sid");
            assert_eq!(arg.commit.path, "/f");
            assert!(matches!(arg.commit.mode, WriteMode::Overwrite));
            assert!(arg.commit.mute);
            assert_eq!(window.start, 280_000_000);
            assert_eq!(window.len, 20_000_000);
        }
        _ => panic!("session did not close with a finish"),
    }
}

#[test]
fn test_two_runs_make_independent_sessions() {
    let total = 300_000_000;
    let (calls_one, sid_one) = drive_upload(total, "session-one");
    let (calls_two, sid_two) = drive_upload(total, "session-two");
    assert_eq!(calls_one, vec!["start", "append", "finish"]);
    assert_eq!(calls_two, vec!["start", "append", "finish"]);
    let sid_one = sid_one.unwrap();
    let sid_two = sid_two.unwrap();
    assert_eq!(sid_one, "session-one");
    assert_eq!(sid_two, "session-two");
    assert_ne!(sid_one, sid_two);
}

#[test]
fn test_window_truncates_at_end_of_file() {
    let orch = UploadOrchestrator::new(150_000_000).unwrap();
    let w = orch.window_at(140_000_000);
    assert_eq!(w.start, 140_000_000);
    assert_eq!(w.len, 10_000_000);
    let w = orch.window_at(0);
    assert_eq!(w.len, MAX_BODY_SIZE);
    let w = orch.window_at(150_000_000);
    assert_eq!(w.len, 0);
}

#[test]
fn test_error_kinds_are_distinct() {
    let kinds = [
        UploadError::FileTooLarge,
        UploadError::Io,
        UploadError::Transport,
        UploadError::Protocol,
    ];
    for (i, a) in kinds.iter().enumerate() {
        for (j, b) in kinds.iter().enumerate() {
            if i == j {
                assert_eq!(a, b);
            } else {
                assert_ne!(a, b);
            }
        }
    }
}
