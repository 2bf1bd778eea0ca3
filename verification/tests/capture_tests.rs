use frameanchor::capture::{
    capture_json_file, capture_json_path, captures_dir, game_capture_session_name, game_capture_verdict, is_blacklisted,
    is_candidate,
};
use frameanchor::capture_flow::CsvCheck;

/// The lower-cased file name of the running executable, as the host would report it.
fn self_exe_name() -> String {
    "capture_tests-3f9a2c.exe".to_string()
}

fn candidate(args: (u32, u32, &str, &str, bool, bool, bool, bool, i32, i32)) -> bool {
    let (self_pid, pid, title, exe, visible, tool, cloaked, minimized, w, h) = args;
    is_candidate(self_pid, pid, title, exe, visible, tool, cloaked, minimized, w, h, &self_exe_name())
}

#[test]
fn candidate_matrix_accepts_normal_game_window() {
    assert!(candidate((1, 42, "Cyberpunk 2077", "cyberpunk2077.exe", true, false, false, false, 1920, 1080)));
}

#[test]
fn candidate_matrix_minimized_bypasses_size_floor() {
    assert!(candidate((1, 42, "鬥陣特攻", "overwatch.exe", true, false, false, true, 199, 31)));
    assert!(!candidate((1, 42, "Toast", "game.exe", true, false, false, false, 199, 31)));
    assert!(!candidate((1, 42, "鬥陣特攻", "overwatch.exe", false, false, false, true, 199, 31)));
    assert!(!candidate((1, 42, "鬥陣特攻", "explorer.exe", true, false, false, true, 199, 31)));
}

#[test]
fn blacklist_covers_current_exe_name() {
    let self_name = self_exe_name();
    assert!(!self_name.is_empty());
    assert!(is_blacklisted(&self_name, &self_name));
    assert!(is_blacklisted(&self_name.to_uppercase(), &self_name));
}

#[test]
fn candidate_matrix_rejects_noise() {
    assert!(!candidate((42, 42, "PaceDock", "pacedock.exe", true, false, false, false, 800, 600)));
    assert!(!candidate((1, 7, "Settings", "explorer.exe", true, false, false, false, 1200, 800)));
    assert!(!candidate((1, 7, "x", "MSEdgeWebView2.exe", true, false, false, false, 1200, 800)));
    assert!(!candidate((1, 9, "Game", "game.exe", false, false, false, false, 1200, 800)));
    assert!(!candidate((1, 9, "Game", "game.exe", true, true, false, false, 1200, 800)));
    assert!(!candidate((1, 9, "Game", "game.exe", true, false, true, false, 1200, 800)));
    assert!(!candidate((1, 9, "  ", "game.exe", true, false, false, false, 1200, 800)));
    assert!(!candidate((1, 9, "Toast", "game.exe", true, false, false, false, 300, 200)));
    assert!(!candidate((1, 0, "Game", "game.exe", true, false, false, false, 1200, 800)));
}

#[test]
fn blank_titles_include_unicode_white_space_and_size_floor_is_inclusive() {
    assert!(!is_candidate(1, 9, "\u{3000}\t\u{a0}", "game.exe", true, false, false, false, 1200, 800, "frameanchor.exe"));
    assert!(is_candidate(1, 9, " g ", "game.exe", true, false, false, false, 320, 320, "frameanchor.exe"));
    assert!(!is_candidate(1, 9, "Game", "FrameAnchor.EXE", true, false, false, false, 1200, 800, "frameanchor.exe"));
}

#[test]
fn game_capture_verdict_orders_its_checks() {
    assert_eq!(game_capture_verdict(true, true, Some(3), 5, true, CsvCheck::Missing).as_deref(), Some("cancelled"));
    assert_eq!(
        game_capture_verdict(false, true, Some(3), 5, true, CsvCheck::Missing).as_deref(),
        Some("BENCHMARK_PRESENTMON_TIMEOUT")
    );
    assert_eq!(
        game_capture_verdict(false, false, Some(3), 5, true, CsvCheck::Missing).as_deref(),
        Some("BENCHMARK_PRESENTMON_FAILED")
    );
    assert_eq!(
        game_capture_verdict(false, false, Some(0), 5, true, CsvCheck::Missing).as_deref(),
        Some("BENCHMARK_CAPTURE_OVERFLOW")
    );
    assert_eq!(
        game_capture_verdict(false, false, None, 0, true, CsvCheck::Missing).as_deref(),
        Some("BENCHMARK_CAPTURE_ETW_LOST")
    );
    assert_eq!(
        game_capture_verdict(false, false, None, 0, false, CsvCheck::Empty).as_deref(),
        Some("BENCHMARK_CAPTURE_EMPTY")
    );
    assert_eq!(game_capture_verdict(false, false, None, 0, false, CsvCheck::Complete), None);
}

#[test]
fn capture_store_paths() {
    assert_eq!(captures_dir(r"C:\Users\u\AppData\Roaming\PaceDock"), r"C:\Users\u\AppData\Roaming\PaceDock\captures");
    assert_eq!(captures_dir(r"C:\cfg\"), r"C:\cfg\captures");
    assert_eq!(game_capture_session_name("abc"), "PaceDock-capture-abc");
}

#[test]
fn capture_json_path_validates_uuid() {
    let dir = r"C:\Users\u\AppData\Roaming\FrameAnchor";
    assert!(capture_json_path(dir, "../../evil").is_err());
    assert!(capture_json_path(dir, "not-a-uuid").is_err());
    let id = uuid::Uuid::new_v4().to_string();
    let path = capture_json_path(dir, &id).unwrap();
    assert!(path.ends_with(&format!("{id}.json")));
}

#[test]
fn capture_json_file_stays_in_the_store() {
    assert_eq!(
        capture_json_file(r"D:\data", "0f8fad5b-d9cb-469f-a165-70867728950e", true).unwrap(),
        r"D:\data\captures\0f8fad5b-d9cb-469f-a165-70867728950e.json"
    );
    assert_eq!(
        capture_json_file(r"D:\data", "..\\x", false).unwrap_err().as_str(),
        "BENCHMARK_INVALID_SESSION_ID"
    );
}

#[test]
fn capture_ids_take_every_uuid_form_and_nothing_else() {
    let ok = [
        "550e8400e29b41d4a716446655440000",
        "550e8400-e29b-41d4-a716-446655440000",
        "550E8400-E29B-41D4-A716-446655440000",
        "{550e8400-e29b-41d4-a716-446655440000}",
        "urn:uuid:550e8400-e29b-41d4-a716-446655440000",
        "URN:UUID:550e8400-e29b-41d4-a716-446655440000",
    ];
    for id in ok {
        assert!(capture_json_path(r"C:\cfg", id).is_ok(), "{id}");
    }
    let bad = [
        "550e8400-e29b-41d4-a716-44665544000g",
        "550e8400e29b-41d4-a716-4466554400000",
        "[550e8400-e29b-41d4-a716-446655440000]",
        "urn:uuix:550e8400-e29b-41d4-a716-446655440000",
        "550e8400-e29b-41d4-a716-4466554400",
        "..\\..\\x",
    ];
    for id in bad {
        assert!(capture_json_path(r"C:\cfg", id).is_err(), "{id}");
    }
}
