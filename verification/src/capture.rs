//! In-game capture: which windows are measurable games, and the capture store.
use vstd::prelude::*;
use crate::capture_flow::{CsvCheck, integrity_verdict, assess_capture_integrity};
use crate::codes::{ErrorCode, code_text};
use crate::text::{concat, eq_ignore_ascii_case, eq_ignore_ascii_case_spec, join_path, joined};

verus! {

/// A measurable game window.
#[derive(Clone, Debug, PartialEq, Eq)]
pub struct GameWindow {
    pub pid: u32,
    pub title: String,
    pub exe_name: String,
}

/// Progress of a capture: `capturing`, `parsing`, `done` or `cancelled`.
#[derive(Clone, Debug)]
pub struct GameCaptureProgress {
    pub capture_id: String,
    pub stage: String,
    pub percentage: u32,
}

/// Smallest outer size (physical pixels) of a candidate window that is not
/// minimized: smaller ones are notifications and tool windows.
pub const MIN_WINDOW_SIZE: i32 = 320;

/// Shell, system and own processes that are never games.
pub open spec fn exe_blacklist() -> Seq<Seq<char>> {
    seq![
        "pacedock.exe"@,
        "msedgewebview2.exe"@,
        "explorer.exe"@,
        "applicationframehost.exe"@,
        "searchhost.exe"@,
        "shellexperiencehost.exe"@,
        "startmenuexperiencehost.exe"@,
        "textinputhost.exe"@,
        "widgets.exe"@,
        "runtimebroker.exe"@,
    ]
}

/// Whether an executable name is excluded: on the list, or the name of the
/// running program itself (a renamed build), ASCII case ignored.
pub open spec fn spec_blacklisted(exe: Seq<char>, self_exe: Seq<char>) -> bool {
    (exists|i: int| 0 <= i < exe_blacklist().len() && eq_ignore_ascii_case_spec(#[trigger] exe_blacklist()[i], exe))
        || eq_ignore_ascii_case_spec(self_exe, exe)
}

/// Whether `exe` is excluded (see [`spec_blacklisted`]); `self_exe_name` is the
/// file name of the running program.
pub fn is_blacklisted(exe: &str, self_exe_name: &str) -> (r: bool)
    ensures
        r == spec_blacklisted(exe@, self_exe_name@),
{
    let list: [&str; 10] = [
        "pacedock.exe",
        "msedgewebview2.exe",
        "explorer.exe",
        "applicationframehost.exe",
        "searchhost.exe",
        "shellexperiencehost.exe",
        "startmenuexperiencehost.exe",
        "textinputhost.exe",
        "widgets.exe",
        "runtimebroker.exe",
    ];
    assert(forall|i: int| 0 <= i < 10 ==> #[trigger] list@[i]@ == exe_blacklist()[i]);
    let mut i: usize = 0;
    while i < 10
        invariant
            0 <= i <= 10,
            forall|j: int| 0 <= j < 10 ==> #[trigger] list@[j]@ == exe_blacklist()[j],
            forall|j: int| 0 <= j < i ==> !eq_ignore_ascii_case_spec(#[trigger] exe_blacklist()[j], exe@),
        decreases 10 - i,
    {
        if eq_ignore_ascii_case(list[i], exe) {
            assert(eq_ignore_ascii_case_spec(exe_blacklist()[i as int], exe@));
            return true;
        }
        i = i + 1;
    }
    eq_ignore_ascii_case(self_exe_name, exe)
}

/// Unicode `White_Space` (what `char::is_whitespace` and `str::trim` use).
pub open spec fn white_space(c: char) -> bool {
    let u = c as u32;
    (0x09 <= u && u <= 0x0d) || u == 0x20 || u == 0x85 || u == 0xa0 || u == 0x1680
        || (0x2000 <= u && u <= 0x200a) || u == 0x2028 || u == 0x2029 || u == 0x202f || u == 0x205f
        || u == 0x3000
}

/// Whether a title is blank: empty once trimmed (only white space).
pub open spec fn blank(title: Seq<char>) -> bool {
    forall|i: int| 0 <= i < title.len() ==> white_space(#[trigger] title[i])
}

fn is_white_space(c: char) -> (r: bool)
    ensures
        r == white_space(c),
{
    let u = c as u32;
    (0x09 <= u && u <= 0x0d) || u == 0x20 || u == 0x85 || u == 0xa0 || u == 0x1680
        || (0x2000 <= u && u <= 0x200a) || u == 0x2028 || u == 0x2029 || u == 0x202f || u == 0x205f
        || u == 0x3000
}

fn is_blank(title: &str) -> (r: bool)
    ensures
        r == blank(title@),
{
    let n = title.unicode_len();
    let mut i: usize = 0;
    while i < n
        invariant
            n == title@.len(),
            0 <= i <= n,
            forall|k: int| 0 <= k < i ==> white_space(#[trigger] title@[k]),
        decreases n - i,
    {
        if !is_white_space(title.get_char(i)) {
            return false;
        }
        i = i + 1;
    }
    true
}

/// Whether a window is a measurable game: another process (not pid 0),
/// visible, neither a tool window nor cloaked, with a non-blank title, at
/// least [`MIN_WINDOW_SIZE`] each way unless minimized (a minimized window
/// reports a tiny restore rectangle), and not an excluded executable.
pub open spec fn spec_candidate(
    self_pid: u32,
    pid: u32,
    title: Seq<char>,
    exe: Seq<char>,
    visible: bool,
    tool_window: bool,
    cloaked: bool,
    minimized: bool,
    width: i32,
    height: i32,
    self_exe: Seq<char>,
) -> bool {
    &&& pid != self_pid && pid != 0
    &&& visible && !tool_window && !cloaked
    &&& !blank(title)
    &&& minimized || (width >= MIN_WINDOW_SIZE && height >= MIN_WINDOW_SIZE)
    &&& !spec_blacklisted(exe, self_exe)
}

/// Whether a window is a measurable game (see [`spec_candidate`]).
pub fn is_candidate(
    self_pid: u32,
    pid: u32,
    title: &str,
    exe: &str,
    visible: bool,
    tool_window: bool,
    cloaked: bool,
    minimized: bool,
    width: i32,
    height: i32,
    self_exe_name: &str,
) -> (r: bool)
    ensures
        r == spec_candidate(self_pid, pid, title@, exe@, visible, tool_window, cloaked, minimized, width,
            height, self_exe_name@),
{
    if pid == self_pid || pid == 0 {
        return false;
    }
    if !visible || tool_window || cloaked {
        return false;
    }
    if is_blank(title) {
        return false;
    }
    if !minimized && (width < MIN_WINDOW_SIZE || height < MIN_WINDOW_SIZE) {
        return false;
    }
    !is_blacklisted(exe, self_exe_name)
}

/// Directory of the capture store: `captures` under `config_dir`.
pub fn captures_dir(config_dir: &str) -> (p: String)
    ensures
        p@ == joined(config_dir@, "captures"@),
{
    join_path(config_dir, "captures")
}

/// An ASCII hexadecimal digit: `0-9`, `a-f` or `A-F`.
pub open spec fn hex_digit(c: char) -> bool {
    (48 <= c as u32 <= 57) || (97 <= c as u32 <= 102) || (65 <= c as u32 <= 70)
}

/// The hyphenated form: 36 characters, hyphens at 8, 13, 18 and 23, hex
/// digits elsewhere.
pub open spec fn hyphenated_uuid(s: Seq<char>) -> bool {
    &&& s.len() == 36
    &&& forall|i: int| 0 <= i < 36 ==> if i == 8 || i == 13 || i == 18 || i == 23 {
        s[i] == '-'
    } else {
        hex_digit(#[trigger] s[i])
    }
}

/// `c` equals the ASCII character `e`, ASCII case ignored.
pub open spec fn same_ignoring_case(c: char, e: char) -> bool {
    c == e || (65 <= c as u32 <= 90 && c as u32 + 32 == e as u32)
}

/// Whether `text` is a UUID as `uuid::Uuid::parse_str` reads one: 32 hex
/// digits; the hyphenated form; the hyphenated form in braces (38
/// characters); or `urn:uuid:` (ASCII case ignored) and the hyphenated form
/// (45 characters).
pub open spec fn uuid_parses(text: Seq<char>) -> bool {
    ||| text.len() == 32 && (forall|i: int| 0 <= i < 32 ==> hex_digit(#[trigger] text[i]))
    ||| hyphenated_uuid(text)
    ||| text.len() == 38 && text[0] == '{' && text[37] == '}' && hyphenated_uuid(text.subrange(1, 37))
    ||| text.len() == 45 && hyphenated_uuid(text.subrange(9, 45))
        && (forall|i: int| 0 <= i < 9 ==> same_ignoring_case(#[trigger] text[i], "urn:uuid:"@[i]))
}

/// Calls `uuid::Uuid::parse_str`. Trusted: the text parses exactly when it
/// has one of the forms of [`uuid_parses`], as the crate's parser
/// (`try_parse`: 32, 36, 38 or 45 bytes) reads them.
#[verifier::external_body]
fn parse_uuid(text: &str) -> (r: bool)
    ensures
        r == uuid_parses(text@),
{
    uuid::Uuid::parse_str(text).is_ok()
}

/// The record file of capture `id` under the capture store of `config_dir`,
/// given whether `id` is a UUID: any other id is refused as an invalid
/// session id (it could name a path outside the store).
pub fn capture_json_file(config_dir: &str, id: &str, id_is_uuid: bool) -> (r: Result<String, ErrorCode>)
    ensures
        !id_is_uuid ==> r == Err::<String, ErrorCode>(ErrorCode::BenchmarkInvalidSessionId),
        id_is_uuid ==> (r matches Ok(p) && p@ == joined(joined(config_dir@, "captures"@), id@ + ".json"@)),
{
    if !id_is_uuid {
        return Err(ErrorCode::BenchmarkInvalidSessionId);
    }
    let dir = captures_dir(config_dir);
    let name = concat(id, ".json");
    Ok(join_path(dir.as_str(), name.as_str()))
}

/// The record file of capture `id` (see [`capture_json_file`]).
pub fn capture_json_path(config_dir: &str, id: &str) -> (r: Result<String, ErrorCode>)
    ensures
        !uuid_parses(id@) ==> r == Err::<String, ErrorCode>(ErrorCode::BenchmarkInvalidSessionId),
        uuid_parses(id@) ==> (r matches Ok(p) && p@ == joined(joined(config_dir@, "captures"@), id@ + ".json"@)),
{
    let valid = parse_uuid(id);
    capture_json_file(config_dir, id, valid)
}

/// The verdict of a game capture once PresentMon stopped: a cancel is
/// `cancelled`, a timeout `PRESENTMON_TIMEOUT`, a non-zero exit
/// `PRESENTMON_FAILED`; then the integrity of the output decides (see
/// [`integrity_verdict`]); `None` is a usable capture.
pub open spec fn spec_game_capture_verdict(cancelled: bool, timed_out: bool, exit_code: Option<i32>, overflowed: u64, etw_lost: bool, csv: CsvCheck) -> Option<Seq<char>> {
    if cancelled {
        Some("cancelled"@)
    } else if timed_out {
        Some(code_text(ErrorCode::BenchmarkPresentmonTimeout))
    } else if exit_code matches Some(c) && c != 0 {
        Some(code_text(ErrorCode::BenchmarkPresentmonFailed))
    } else {
        match integrity_verdict(overflowed, etw_lost, csv) {
            Some((c, _)) => Some(code_text(c)),
            None => None,
        }
    }
}

/// The verdict of a game capture (see [`spec_game_capture_verdict`]).
pub fn game_capture_verdict(cancelled: bool, timed_out: bool, exit_code: Option<i32>, overflowed: u64, etw_lost: bool, csv: CsvCheck) -> (r: Option<String>)
    ensures
        match spec_game_capture_verdict(cancelled, timed_out, exit_code, overflowed, etw_lost, csv) {
            Some(e) => r matches Some(x) && x@ == e,
            None => r is None,
        },
{
    if cancelled {
        return Some("cancelled".to_owned());
    }
    if timed_out {
        return Some(ErrorCode::BenchmarkPresentmonTimeout.as_str().to_owned());
    }
    match exit_code {
        Some(c) => if c != 0 {
            return Some(ErrorCode::BenchmarkPresentmonFailed.as_str().to_owned());
        },
        None => {},
    }
    match assess_capture_integrity(overflowed, etw_lost, csv) {
        Some((c, _)) => Some(c.as_str().to_owned()),
        None => None,
    }
}

/// The ETW session of a game capture: `PaceDock-capture-<id>`.
pub fn game_capture_session_name(id: &str) -> (s: String)
    ensures
        s@ == "PaceDock-capture-"@ + id@,
{
    concat("PaceDock-capture-", id)
}

} // verus!
