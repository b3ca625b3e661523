use ios_drop::drag_drop::{
    enter_session, exit_session, extract_file_urls_from_session, get_drop_state,
    is_drop_active, load_file_urls_async, local_path_text, perform_drop, placeholder_text,
    record_loaded_file, set_drop_active, take_pending_paths, update_session, DragItem,
    DropAction, DropSession, DropSessionState, UIDropOperation,
};
use ios_drop::external_paths::ExternalPaths;
use ios_drop::file_drop::FileDropEvent;
use ios_drop::geometry::{Pixels, Point};

fn point(x: f32, y: f32) -> Point<Pixels> {
    Point::new(Pixels::from_bits(x.to_bits()), Pixels::from_bits(y.to_bits()))
}

fn file_item(name: Option<&[u8]>, local: Option<&[u8]>) -> DragItem {
    DragItem {
        has_provider: true,
        has_file_url: true,
        suggested_name: name.map(|n| n.to_vec()),
        local_path: local.map(|p| p.to_vec()),
    }
}

fn sample_session() -> DropSession {
    DropSession {
        items: Some(vec![
            file_item(Some(b"a.txt"), Some(b"/files/a.txt")),
            DragItem {
                has_provider: false,
                has_file_url: true,
                suggested_name: Some(b"ghost".to_vec()),
                local_path: Some(b"/files/ghost".to_vec()),
            },
            DragItem {
                has_provider: true,
                has_file_url: false,
                suggested_name: Some(b"image.png".to_vec()),
                local_path: Some(b"/files/image.png".to_vec()),
            },
            file_item(Some(&[0xff, 0xfe]), Some(b"")),
            file_item(None, Some(&[0xc3, 0x28])),
            file_item(Some("caf\u{e9}.txt".as_bytes()), Some("/files/caf\u{e9}.txt".as_bytes())),
        ]),
    }
}

fn taken(state: &mut DropSessionState) -> Option<Vec<String>> {
    take_pending_paths(state).map(|p| p.into_vec())
}

#[test]
fn drop_operation_raw_values() {
    assert_eq!(UIDropOperation::Cancel.raw_value(), 0);
    assert_eq!(UIDropOperation::Forbidden.raw_value(), 1);
    assert_eq!(UIDropOperation::Copy.raw_value(), 2);
    assert_eq!(UIDropOperation::Move.raw_value(), 3);
}

#[test]
fn new_state_is_inactive_and_empty() {
    let mut state = DropSessionState::new();
    assert!(!is_drop_active(&state));
    assert!(taken(&mut state).is_none());
}

#[test]
fn active_flag_reads_last_write() {
    let mut state = DropSessionState::new();
    set_drop_active(&mut state, true);
    assert!(is_drop_active(&state));
    set_drop_active(&mut state, false);
    assert!(!is_drop_active(&state));
}

#[test]
fn get_drop_state_creates_once() {
    let mut slot: Option<DropSessionState> = None;
    set_drop_active(get_drop_state(&mut slot), true);
    assert!(slot.is_some());
    assert!(is_drop_active(get_drop_state(&mut slot)));
}

#[test]
fn local_path_text_drops_empty() {
    assert_eq!(local_path_text(Some("/x".to_string())), Some("/x".to_string()));
    assert_eq!(local_path_text(Some(String::new())), None);
    assert_eq!(local_path_text(None), None);
}

#[test]
fn placeholder_text_falls_back_to_unknown() {
    assert_eq!(placeholder_text(Some("b.txt".to_string())), "b.txt");
    assert_eq!(placeholder_text(None), "unknown");
}

#[test]
fn extract_keeps_valid_local_paths_in_order() {
    let paths = extract_file_urls_from_session(&sample_session());
    assert_eq!(paths, vec!["/files/a.txt".to_string(), "/files/caf\u{e9}.txt".to_string()]);
}

#[test]
fn extract_without_session_is_empty() {
    assert!(extract_file_urls_from_session(&DropSession { items: None }).is_empty());
}

#[test]
fn load_requests_file_items_in_order() {
    let mut state = DropSessionState::new();
    let (generation, requests) = load_file_urls_async(&mut state, sample_session());
    assert_eq!(generation, 0);
    assert_eq!(requests, vec![0, 3, 4, 5]);
    let (next, _) = load_file_urls_async(&mut state, sample_session());
    assert_eq!(next, 1);
}

#[test]
fn load_without_session_requests_nothing() {
    let mut state = DropSessionState::new();
    let (_, requests) = load_file_urls_async(&mut state, DropSession { items: None });
    assert!(requests.is_empty());
}

#[test]
fn paths_are_stored_once_every_file_has_loaded() {
    let mut state = DropSessionState::new();
    let (generation, _) = load_file_urls_async(&mut state, sample_session());
    assert!(!record_loaded_file(&mut state, generation, 5, Some(b"".to_vec())));
    assert!(!record_loaded_file(&mut state, generation, 0, Some(b"/tmp/a.txt".to_vec())));
    assert!(!record_loaded_file(&mut state, generation, 3, None));
    assert!(taken(&mut state).is_none());
    assert!(record_loaded_file(&mut state, generation, 4, Some(vec![0xff])));
    assert_eq!(
        taken(&mut state),
        Some(vec![
            "/tmp/a.txt".to_string(),
            "unknown".to_string(),
            "caf\u{e9}.txt".to_string(),
        ])
    );
    assert!(taken(&mut state).is_none());
}

#[test]
fn unawaited_results_are_ignored() {
    let mut state = DropSessionState::new();
    let (first, _) = load_file_urls_async(&mut state, sample_session());
    let only_file = DropSession { items: Some(vec![file_item(Some(b"b.txt"), None)]) };
    let (second, requests) = load_file_urls_async(&mut state, only_file);
    assert_eq!(requests, vec![0]);
    assert!(!record_loaded_file(&mut state, first, 0, Some(b"/old".to_vec())));
    assert!(!record_loaded_file(&mut state, second, 7, Some(b"/nowhere".to_vec())));
    assert!(taken(&mut state).is_none());
    assert!(record_loaded_file(&mut state, second, 0, None));
    assert!(!record_loaded_file(&mut state, second, 0, Some(b"/again".to_vec())));
    assert_eq!(taken(&mut state), Some(vec!["b.txt".to_string()]));
}

#[test]
fn failed_load_without_name_gives_no_path() {
    let mut state = DropSessionState::new();
    let session = DropSession { items: Some(vec![file_item(None, None)]) };
    let (generation, requests) = load_file_urls_async(&mut state, session);
    assert_eq!(requests, vec![0]);
    assert!(record_loaded_file(&mut state, generation, 0, None));
    assert!(taken(&mut state).is_none());
}

#[test]
fn load_without_file_items_clears_pending() {
    let mut state = DropSessionState::new();
    let session = DropSession { items: Some(vec![file_item(Some(b"b.txt"), None)]) };
    let (generation, _) = load_file_urls_async(&mut state, session);
    assert!(record_loaded_file(&mut state, generation, 0, None));
    let no_files = DropSession {
        items: Some(vec![DragItem {
            has_provider: true,
            has_file_url: false,
            suggested_name: None,
            local_path: None,
        }]),
    };
    let (_, requests) = load_file_urls_async(&mut state, no_files);
    assert!(requests.is_empty());
    assert!(taken(&mut state).is_none());
}

#[test]
fn load_without_session_keeps_pending() {
    let mut state = DropSessionState::new();
    let session = DropSession { items: Some(vec![file_item(Some(b"b.txt"), None)]) };
    let (generation, _) = load_file_urls_async(&mut state, session);
    assert!(record_loaded_file(&mut state, generation, 0, None));
    let _ = load_file_urls_async(&mut state, DropSession { items: None });
    assert_eq!(taken(&mut state), Some(vec!["b.txt".to_string()]));
}

#[test]
fn enter_activates_and_reports_local_paths() {
    let mut state = DropSessionState::new();
    let (event, generation, requests) = enter_session(&mut state, point(5.0, 6.0), sample_session());
    assert!(is_drop_active(&state));
    assert_eq!(generation, 0);
    assert_eq!(requests, vec![0, 3, 4, 5]);
    match event {
        FileDropEvent::Entered { position, paths } => {
            assert_eq!(position, point(5.0, 6.0));
            assert_eq!(paths.into_vec(), vec!["/files/a.txt".to_string(), "/files/caf\u{e9}.txt".to_string()]);
        }
        _ => panic!("expected an Entered event"),
    }
    assert!(taken(&mut state).is_none());
}

#[test]
fn update_proposes_copy() {
    let (event, op) = update_session(point(1.0, 2.0));
    assert_eq!(op, UIDropOperation::Copy);
    assert!(matches!(event, FileDropEvent::Pending { position } if position == point(1.0, 2.0)));
}

#[test]
fn drop_submits_marks_inactive_then_exits() {
    let actions = perform_drop(point(3.0, 4.0));
    assert_eq!(actions.len(), 3);
    assert!(matches!(&actions[0], DropAction::Dispatch(FileDropEvent::Submit { position }) if *position == point(3.0, 4.0)));
    assert!(matches!(&actions[1], DropAction::MarkActive(false)));
    assert!(matches!(&actions[2], DropAction::Dispatch(FileDropEvent::Exited)));
}

#[test]
fn exit_marks_inactive_and_keeps_loading() {
    let mut state = DropSessionState::new();
    let (_, generation, _) = enter_session(&mut state, point(0.0, 0.0), sample_session());
    let exit = exit_session(&mut state);
    for index in [0, 3, 4, 5] {
        record_loaded_file(&mut state, generation, index, None);
    }
    assert!(matches!(exit, FileDropEvent::Exited));
    assert!(!is_drop_active(&state));
    assert!(taken(&mut state).is_some());
}

#[test]
fn external_paths_round_trip() {
    let paths = vec!["/a".to_string(), "/b".to_string(), "/c".to_string()];
    assert_eq!(ExternalPaths::from_vec(paths.clone()).into_vec(), paths);
}
