use frameanchor::workload::{parse_options, wide, Options};

fn s(v: &[&str]) -> Vec<String> {
    v.iter().map(|x| x.to_string()).collect()
}

#[test]
fn workload_options_from_arguments() {
    let o = parse_options(&s(&[]));
    assert_eq!(o, Options { fullscreen: true, width: 640, height: 480, fps_cap: 0, triple_buffer: false });
    let o = parse_options(&s(&["--fullscreen=0", "--width=1280", "--height=720", "--fps-cap=2000", "--triple-buffer=1"]));
    assert_eq!(o, Options { fullscreen: false, width: 1280, height: 720, fps_cap: 2000, triple_buffer: true });
    let o = parse_options(&s(&["--width=abc", "--height=+900", "--fps-cap=99999999999", "noise", "--x=1", "--fullscreen=false"]));
    assert_eq!(o, Options { fullscreen: true, width: 640, height: 900, fps_cap: 0, triple_buffer: false });
    let o = parse_options(&s(&["--width=800", "--width=", "--fps-cap=-1", "--triple-buffer=0=1"]));
    assert_eq!(o, Options { fullscreen: true, width: 640, height: 480, fps_cap: 0, triple_buffer: true });
}

#[test]
fn wide_strings_are_nul_terminated_utf16() {
    assert_eq!(wide("FrameD3D9"), "FrameD3D9".encode_utf16().chain(std::iter::once(0)).collect::<Vec<u16>>());
    assert_eq!(wide(""), vec![0]);
    assert_eq!(wide("a😀"), vec![0x61, 0xD83D, 0xDE00, 0]);
}
