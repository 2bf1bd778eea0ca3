use frameanchor::assets::{check_hash, load, verify, AssetError, DigestCheck, D3D9_WORKLOAD_FILE, PRESENTMON_FILE};
use frameanchor::codes::ErrorCode;
use std::path::Path;

const ABC_SHA256: &str = "ba7816bf8f01cfea414140de5dae2223b00361a396177a9cb410ff61f20015ad";

#[test]
fn verify_passes_on_vendored_resources() {
    let dir = Path::new("resources/benchmark");
    if !dir.join(D3D9_WORKLOAD_FILE).exists() {
        println!("vendored d3d9 workload missing (not built); skipping");
        return;
    }
    let assets = load(&dir.to_string_lossy());
    verify(&Vec::new(), &assets.d3d9_workload, None, None, true).unwrap();
}

#[test]
fn load_joins_tool_names_under_the_directory() {
    let a = load(r"C:\app\resources\benchmark");
    assert_eq!(a.presentmon, r"C:\app\resources\benchmark\PresentMon-2.5.1-x64.exe");
    assert_eq!(a.vulkan_workload, r"C:\app\resources\benchmark\lava-triangle.exe");
    assert_eq!(a.d3d9_workload, r"C:\app\resources\benchmark\d3d9-workload.exe");
    assert_eq!(load("").presentmon, PRESENTMON_FILE);
}

#[test]
fn check_hash_accepts_match_and_reports_missing_and_mismatch() {
    assert!(check_hash("p.exe", ABC_SHA256, Some(b"abc")).is_ok());
    match check_hash("p.exe", ABC_SHA256, None) {
        Err(AssetError::Missing(p)) => assert_eq!(p, "p.exe"),
        other => panic!("expected Missing, got {other:?}"),
    }
    match check_hash("p.exe", ABC_SHA256, Some(b"tampered-bytes")) {
        Err(e @ AssetError::HashMismatch(_)) => {
            assert_eq!(e.code(), ErrorCode::BenchmarkAssetsHashMismatch);
            if let AssetError::HashMismatch(d) = e {
                assert!(d.starts_with("p.exe（應為 ba7816bf"));
                assert!(d.ends_with("）"));
            }
        }
        other => panic!("expected HashMismatch, got {other:?}"),
    }
}

#[test]
fn verify_stops_at_first_failure_and_requires_d3d9() {
    let checks = vec![
        DigestCheck { path: "a".into(), want: ABC_SHA256.into(), contents: Some(b"abc".to_vec()) },
        DigestCheck { path: "b".into(), want: ABC_SHA256.into(), contents: None },
        DigestCheck { path: "c".into(), want: ABC_SHA256.into(), contents: Some(b"x".to_vec()) },
    ];
    match verify(&checks, "d3d9.exe", None, None, true) {
        Err(AssetError::Missing(p)) => assert_eq!(p, "b"),
        other => panic!("expected Missing(b), got {other:?}"),
    }
    let ok = vec![DigestCheck { path: "a".into(), want: ABC_SHA256.into(), contents: Some(b"abc".to_vec()) }];
    assert!(verify(&ok, "d3d9.exe", None, None, true).is_ok());
    let err = verify(&ok, "d3d9.exe", None, None, false).unwrap_err();
    assert_eq!(err.code(), ErrorCode::BenchmarkAssetsMissing);
    assert!(matches!(err, AssetError::MissingD3D9(ref p) if p == "d3d9.exe"));
    assert!(verify(&ok, "d3d9.exe", Some(ABC_SHA256), Some(b"abc"), false).is_ok());
    assert!(matches!(verify(&ok, "d3d9.exe", Some(ABC_SHA256), Some(b"abd"), true), Err(AssetError::HashMismatch(_))));
}

fn builtin_checks(dir: &str, presentmon: Option<&[u8]>, vulkan: Option<&[u8]>) -> Vec<DigestCheck> {
    let a = load(dir);
    vec![
        DigestCheck { path: a.presentmon, want: ABC_SHA256.into(), contents: presentmon.map(|b| b.to_vec()) },
        DigestCheck { path: a.vulkan_workload, want: ABC_SHA256.into(), contents: vulkan.map(|b| b.to_vec()) },
    ]
}

#[test]
fn verify_fails_clearly_on_missing_asset() {
    let dir = r"C:\res\missing";
    let err = verify(&builtin_checks(dir, None, None), &load(dir).d3d9_workload, None, None, false).unwrap_err();
    assert!(matches!(err, AssetError::Missing(ref p) if p.ends_with("PresentMon-2.5.1-x64.exe")));
    assert!(err.message().contains("資源缺失"), "err={}", err.message());
    assert_eq!(err.code(), ErrorCode::BenchmarkAssetsMissing);
}

#[test]
fn verify_fails_on_hash_mismatch() {
    let dir = r"C:\res\mismatch";
    let err = verify(&builtin_checks(dir, Some(b"tampered-bytes"), None), &load(dir).d3d9_workload, None, None, false)
        .unwrap_err();
    assert!(matches!(err, AssetError::HashMismatch(_)));
    assert!(err.message().contains("hash 不符"), "err={}", err.message());
    assert_eq!(err.code(), ErrorCode::BenchmarkAssetsHashMismatch);
}

#[test]
fn verify_requires_d3d9_workload_present() {
    let dir = r"C:\res\nod3d9";
    let d3d9 = load(dir).d3d9_workload;
    let err = verify(&builtin_checks(dir, Some(b"abc"), Some(b"abc")), &d3d9, None, None, false).unwrap_err();
    assert!(matches!(err, AssetError::MissingD3D9(ref p) if p.contains("d3d9-workload")));
    assert_eq!(err.code(), ErrorCode::BenchmarkAssetsMissing);
}

#[test]
fn asset_messages_name_the_file() {
    assert_eq!(AssetError::Missing("a.exe".into()).message(), "資源缺失: a.exe");
    assert_eq!(AssetError::HashMismatch("b.exe".into()).message(), "資源 hash 不符: b.exe");
    assert_eq!(
        AssetError::MissingD3D9("d3d9-workload.exe".into()).message(),
        "資源缺失: d3d9-workload.exe（請先 npm run build:benchmark-assets）"
    );
}
