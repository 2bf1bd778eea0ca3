//! The bundled benchmark tools and their integrity check.
//!
//! PresentMon and the Vulkan workload are checked against SHA-256 digests
//! embedded in the program (the copy of the manifest beside the files is
//! writable and is no trust root); the D3D9 workload against its build-time
//! digest when there is one, else only for presence.
use vstd::prelude::*;
use crate::codes::{ErrorCode, code_text};
use crate::digest::{hex, sha256, sha256_hex};
use crate::text::{concat, join_path, joined, same_text};

verus! {

/// PresentMon, under the resource directory.
pub const PRESENTMON_FILE: &'static str = "PresentMon-2.5.1-x64.exe";
/// The liblava Vulkan workload, under the resource directory.
pub const VULKAN_WORKLOAD_FILE: &'static str = "lava-triangle.exe";
/// The D3D9 workload, under the resource directory.
pub const D3D9_WORKLOAD_FILE: &'static str = "d3d9-workload.exe";

/// Paths of every outside tool a benchmark runs.
#[derive(Clone, Debug)]
pub struct BenchmarkAssets {
    pub presentmon: String,
    pub vulkan_workload: String,
    pub d3d9_workload: String,
}

/// The tool paths under the resource directory `dir` (the files need not exist
/// yet; [`verify`] checks them).
pub fn load(dir: &str) -> (a: BenchmarkAssets)
    ensures
        a.presentmon@ == joined(dir@, "PresentMon-2.5.1-x64.exe"@),
        a.vulkan_workload@ == joined(dir@, "lava-triangle.exe"@),
        a.d3d9_workload@ == joined(dir@, "d3d9-workload.exe"@),
{
    BenchmarkAssets {
        presentmon: join_path(dir, PRESENTMON_FILE),
        vulkan_workload: join_path(dir, VULKAN_WORKLOAD_FILE),
        d3d9_workload: join_path(dir, D3D9_WORKLOAD_FILE),
    }
}

/// Why the tools failed the check, with the path or a detail message.
#[derive(Clone, Debug)]
pub enum AssetError {
    /// A file with an embedded digest is missing or unreadable.
    Missing(String),
    /// A file's digest differs from the embedded one.
    HashMismatch(String),
    /// The D3D9 workload is missing.
    MissingD3D9(String),
}

impl AssetError {
    /// The stable code: `BENCHMARK_ASSETS_HASH_MISMATCH` for a mismatch,
    /// `BENCHMARK_ASSETS_MISSING` otherwise.
    pub fn code(&self) -> (c: ErrorCode)
        ensures
            c == (if self is HashMismatch {
                ErrorCode::BenchmarkAssetsHashMismatch
            } else {
                ErrorCode::BenchmarkAssetsMissing
            }),
    {
        match self {
            AssetError::HashMismatch(_) => ErrorCode::BenchmarkAssetsHashMismatch,
            _ => ErrorCode::BenchmarkAssetsMissing,
        }
    }
}

/// The message of an asset error: `資源缺失: <file>`, `資源 hash 不符: <file>`,
/// or, for the D3D9 workload, `資源缺失: <file>（請先 npm run build:benchmark-assets）`.
pub open spec fn asset_message(e: AssetError) -> Seq<char> {
    match e {
        AssetError::Missing(f) => "資源缺失: "@ + f@,
        AssetError::HashMismatch(f) => "資源 hash 不符: "@ + f@,
        AssetError::MissingD3D9(f) => "資源缺失: "@ + f@ + "（請先 npm run build:benchmark-assets）"@,
    }
}

impl AssetError {
    /// The message shown for this error (see [`asset_message`]).
    pub fn message(&self) -> (m: String)
        ensures
            m@ == asset_message(*self),
    {
        match self {
            AssetError::Missing(f) => concat("資源缺失: ", f.as_str()),
            AssetError::HashMismatch(f) => concat("資源 hash 不符: ", f.as_str()),
            AssetError::MissingD3D9(f) => {
                let head = concat("資源缺失: ", f.as_str());
                concat(head.as_str(), "（請先 npm run build:benchmark-assets）")
            },
        }
    }
}

/// The mismatch detail: `<path>（應為 <want>，實際 <got>）`.
pub open spec fn mismatch_detail(path: Seq<char>, want: Seq<char>, got: Seq<char>) -> Seq<char> {
    path + "（應為 "@ + want + "，實際 "@ + got + "）"@
}

/// The outcome of checking one file: unreadable (`contents` is `None`) is
/// `Missing(path)`; a digest other than `want` is `HashMismatch` with the
/// detail; otherwise success.
pub open spec fn hash_outcome(path: Seq<char>, want: Seq<char>, contents: Option<Seq<u8>>) -> Result<(), (bool, Seq<char>)> {
    match contents {
        None => Err((false, path)),
        Some(bytes) => if hex(sha256(bytes)) != want {
            Err((true, mismatch_detail(path, want, hex(sha256(bytes)))))
        } else {
            Ok(())
        },
    }
}

/// The view of a check result: `(is_mismatch, detail)` on failure.
pub open spec fn asset_result_view(r: Result<(), AssetError>) -> Result<(), (bool, Seq<char>)> {
    match r {
        Ok(()) => Ok(()),
        Err(AssetError::HashMismatch(d)) => Err((true, d@)),
        Err(AssetError::Missing(d)) => Err((false, d@)),
        Err(AssetError::MissingD3D9(d)) => Err((false, d@)),
    }
}

/// Checks one file's contents (read by the caller; `None` when it could not be
/// read) against the expected lowercase hex digest.
pub fn check_hash(path: &str, want_hash: &str, contents: Option<&[u8]>) -> (r: Result<(), AssetError>)
    ensures
        asset_result_view(r) == hash_outcome(path@, want_hash@, match contents {
            Some(b) => Some(b@),
            None => None,
        }),
        r matches Err(e) ==> !(e is MissingD3D9),
{
    let bytes = match contents {
        None => return Err(AssetError::Missing(path.to_owned())),
        Some(b) => b,
    };
    let got = sha256_hex(bytes);
    if !same_text(got.as_str(), want_hash) {
        let a = concat(path, "（應為 ");
        let b = concat(a.as_str(), want_hash);
        let c = concat(b.as_str(), "，實際 ");
        let d = concat(c.as_str(), got.as_str());
        let e = concat(d.as_str(), "）");
        return Err(AssetError::HashMismatch(e));
    }
    Ok(())
}

/// One embedded digest to check: the file's path, the expected digest and the
/// contents read (`None` when unreadable).
pub struct DigestCheck {
    pub path: String,
    pub want: String,
    pub contents: Option<Vec<u8>>,
}

/// The view of a check's contents.
pub open spec fn contents_view(c: Option<Vec<u8>>) -> Option<Seq<u8>> {
    match c {
        Some(v) => Some(v@),
        None => None,
    }
}

/// The outcome of the embedded-digest checks from index `i` on: the first
/// failure, or success.
pub open spec fn checks_outcome(checks: Seq<DigestCheck>, i: int) -> Result<(), (bool, Seq<char>)>
    decreases checks.len() - i,
{
    if i < 0 || i >= checks.len() {
        Ok(())
    } else {
        match hash_outcome(checks[i].path@, checks[i].want@, contents_view(checks[i].contents)) {
            Err(e) => Err(e),
            Ok(()) => checks_outcome(checks, i + 1),
        }
    }
}

/// Verifies all tools: every embedded digest in order (the first failure is
/// returned); then the D3D9 workload against its build-time digest when there
/// is one, else it must exist (`MissingD3D9` with its path otherwise).
pub fn verify(
    checks: &Vec<DigestCheck>,
    d3d9_path: &str,
    d3d9_digest: Option<&str>,
    d3d9_contents: Option<&[u8]>,
    d3d9_exists: bool,
) -> (r: Result<(), AssetError>)
    ensures
        checks_outcome(checks@, 0) matches Err(e) ==> asset_result_view(r) == Err::<(), (bool, Seq<char>)>(e)
            && !(r->Err_0 is MissingD3D9),
        checks_outcome(checks@, 0) is Ok ==> match d3d9_digest {
            Some(want) => asset_result_view(r) == hash_outcome(d3d9_path@, want@, match d3d9_contents {
                Some(b) => Some(b@),
                None => None,
            }) && (r matches Err(e) ==> !(e is MissingD3D9)),
            None => if d3d9_exists {
                r is Ok
            } else {
                r matches Err(AssetError::MissingD3D9(p)) && p@ == d3d9_path@
            },
        },
{
    let mut i: usize = 0;
    while i < checks.len()
        invariant
            0 <= i <= checks@.len(),
            checks_outcome(checks@, 0) == checks_outcome(checks@, i as int),
        decreases checks@.len() - i,
    {
        let c = &checks[i];
        let contents = match &c.contents {
            Some(v) => Some(v.as_slice()),
            None => None,
        };
        let r = check_hash(c.path.as_str(), c.want.as_str(), contents);
        if r.is_err() {
            return r;
        }
        i = i + 1;
    }
    match d3d9_digest {
        Some(want) => check_hash(d3d9_path, want, d3d9_contents),
        None => if d3d9_exists {
            Ok(())
        } else {
            Err(AssetError::MissingD3D9(d3d9_path.to_owned()))
        },
    }
}

} // verus!
