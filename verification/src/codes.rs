//! Stable error codes (looked up by the front end's i18n `errors.*` table).
use vstd::prelude::*;

verus! {

/// A stable error code. `as_str` gives the wire spelling.
#[derive(Clone, Copy, Debug, PartialEq, Eq, Structural)]
pub enum ErrorCode {
    GpuApplyFailed,
    BenchmarkSessionIncompatible,
    BenchmarkCsvInvalid,
    GpuNotFound,
    GpuBasicDisplayDisabled,
    BenchmarkRecoveryRequired,
    BenchmarkInvalidConfig,
    BenchmarkAlreadyRunning,
    GpuRestartFailed,
    BenchmarkEnvUnstable,
    BenchmarkWindowIntegrity,
    BenchmarkStorageFailed,
    GpuRestoreFailed,
    BenchmarkPresentmonFailed,
    BenchmarkWorkloadFailed,
    BenchmarkEquivalentValidationRequired,
    BenchmarkCaptureOverflow,
    BenchmarkAssetsMissing,
    BenchmarkSessionNotCompleted,
    BenchmarkRunnerPanic,
    BenchmarkReliabilityNotPassed,
    BenchmarkEquivalentReferenceChanged,
    BenchmarkCaptureMissing,
    BenchmarkNotEquivalent,
    BenchmarkEquivalentLpInvalid,
    BenchmarkCaptureEmpty,
    BenchmarkPresentmonTimeout,
    BenchmarkEquivalentNoReference,
    BenchmarkAssetsHashMismatch,
    GpuRegistryFailed,
    BenchmarkSessionNotFound,
    BenchmarkInvalidSessionId,
    BenchmarkCaptureEtwLost,
}

/// The wire spelling of each code (the variant name in SCREAMING_SNAKE_CASE).
pub open spec fn code_text(c: ErrorCode) -> Seq<char> {
    match c {
        ErrorCode::GpuApplyFailed => "GPU_APPLY_FAILED"@,
        ErrorCode::BenchmarkSessionIncompatible => "BENCHMARK_SESSION_INCOMPATIBLE"@,
        ErrorCode::BenchmarkCsvInvalid => "BENCHMARK_CSV_INVALID"@,
        ErrorCode::GpuNotFound => "GPU_NOT_FOUND"@,
        ErrorCode::GpuBasicDisplayDisabled => "GPU_BASIC_DISPLAY_DISABLED"@,
        ErrorCode::BenchmarkRecoveryRequired => "BENCHMARK_RECOVERY_REQUIRED"@,
        ErrorCode::BenchmarkInvalidConfig => "BENCHMARK_INVALID_CONFIG"@,
        ErrorCode::BenchmarkAlreadyRunning => "BENCHMARK_ALREADY_RUNNING"@,
        ErrorCode::GpuRestartFailed => "GPU_RESTART_FAILED"@,
        ErrorCode::BenchmarkEnvUnstable => "BENCHMARK_ENV_UNSTABLE"@,
        ErrorCode::BenchmarkWindowIntegrity => "BENCHMARK_WINDOW_INTEGRITY"@,
        ErrorCode::BenchmarkStorageFailed => "BENCHMARK_STORAGE_FAILED"@,
        ErrorCode::GpuRestoreFailed => "GPU_RESTORE_FAILED"@,
        ErrorCode::BenchmarkPresentmonFailed => "BENCHMARK_PRESENTMON_FAILED"@,
        ErrorCode::BenchmarkWorkloadFailed => "BENCHMARK_WORKLOAD_FAILED"@,
        ErrorCode::BenchmarkEquivalentValidationRequired => "BENCHMARK_EQUIVALENT_VALIDATION_REQUIRED"@,
        ErrorCode::BenchmarkCaptureOverflow => "BENCHMARK_CAPTURE_OVERFLOW"@,
        ErrorCode::BenchmarkAssetsMissing => "BENCHMARK_ASSETS_MISSING"@,
        ErrorCode::BenchmarkSessionNotCompleted => "BENCHMARK_SESSION_NOT_COMPLETED"@,
        ErrorCode::BenchmarkRunnerPanic => "BENCHMARK_RUNNER_PANIC"@,
        ErrorCode::BenchmarkReliabilityNotPassed => "BENCHMARK_RELIABILITY_NOT_PASSED"@,
        ErrorCode::BenchmarkEquivalentReferenceChanged => "BENCHMARK_EQUIVALENT_REFERENCE_CHANGED"@,
        ErrorCode::BenchmarkCaptureMissing => "BENCHMARK_CAPTURE_MISSING"@,
        ErrorCode::BenchmarkNotEquivalent => "BENCHMARK_NOT_EQUIVALENT"@,
        ErrorCode::BenchmarkEquivalentLpInvalid => "BENCHMARK_EQUIVALENT_LP_INVALID"@,
        ErrorCode::BenchmarkCaptureEmpty => "BENCHMARK_CAPTURE_EMPTY"@,
        ErrorCode::BenchmarkPresentmonTimeout => "BENCHMARK_PRESENTMON_TIMEOUT"@,
        ErrorCode::BenchmarkEquivalentNoReference => "BENCHMARK_EQUIVALENT_NO_REFERENCE"@,
        ErrorCode::BenchmarkAssetsHashMismatch => "BENCHMARK_ASSETS_HASH_MISMATCH"@,
        ErrorCode::GpuRegistryFailed => "GPU_REGISTRY_FAILED"@,
        ErrorCode::BenchmarkSessionNotFound => "BENCHMARK_SESSION_NOT_FOUND"@,
        ErrorCode::BenchmarkInvalidSessionId => "BENCHMARK_INVALID_SESSION_ID"@,
        ErrorCode::BenchmarkCaptureEtwLost => "BENCHMARK_CAPTURE_ETW_LOST"@,
    }
}

impl ErrorCode {
    /// The stable string of this code.
    pub fn as_str(&self) -> (s: &'static str)
        ensures
            s@ == code_text(*self),
    {
        match self {
            ErrorCode::GpuApplyFailed => "GPU_APPLY_FAILED",
            ErrorCode::BenchmarkSessionIncompatible => "BENCHMARK_SESSION_INCOMPATIBLE",
            ErrorCode::BenchmarkCsvInvalid => "BENCHMARK_CSV_INVALID",
            ErrorCode::GpuNotFound => "GPU_NOT_FOUND",
            ErrorCode::GpuBasicDisplayDisabled => "GPU_BASIC_DISPLAY_DISABLED",
            ErrorCode::BenchmarkRecoveryRequired => "BENCHMARK_RECOVERY_REQUIRED",
            ErrorCode::BenchmarkInvalidConfig => "BENCHMARK_INVALID_CONFIG",
            ErrorCode::BenchmarkAlreadyRunning => "BENCHMARK_ALREADY_RUNNING",
            ErrorCode::GpuRestartFailed => "GPU_RESTART_FAILED",
            ErrorCode::BenchmarkEnvUnstable => "BENCHMARK_ENV_UNSTABLE",
            ErrorCode::BenchmarkWindowIntegrity => "BENCHMARK_WINDOW_INTEGRITY",
            ErrorCode::BenchmarkStorageFailed => "BENCHMARK_STORAGE_FAILED",
            ErrorCode::GpuRestoreFailed => "GPU_RESTORE_FAILED",
            ErrorCode::BenchmarkPresentmonFailed => "BENCHMARK_PRESENTMON_FAILED",
            ErrorCode::BenchmarkWorkloadFailed => "BENCHMARK_WORKLOAD_FAILED",
            ErrorCode::BenchmarkEquivalentValidationRequired => "BENCHMARK_EQUIVALENT_VALIDATION_REQUIRED",
            ErrorCode::BenchmarkCaptureOverflow => "BENCHMARK_CAPTURE_OVERFLOW",
            ErrorCode::BenchmarkAssetsMissing => "BENCHMARK_ASSETS_MISSING",
            ErrorCode::BenchmarkSessionNotCompleted => "BENCHMARK_SESSION_NOT_COMPLETED",
            ErrorCode::BenchmarkRunnerPanic => "BENCHMARK_RUNNER_PANIC",
            ErrorCode::BenchmarkReliabilityNotPassed => "BENCHMARK_RELIABILITY_NOT_PASSED",
            ErrorCode::BenchmarkEquivalentReferenceChanged => "BENCHMARK_EQUIVALENT_REFERENCE_CHANGED",
            ErrorCode::BenchmarkCaptureMissing => "BENCHMARK_CAPTURE_MISSING",
            ErrorCode::BenchmarkNotEquivalent => "BENCHMARK_NOT_EQUIVALENT",
            ErrorCode::BenchmarkEquivalentLpInvalid => "BENCHMARK_EQUIVALENT_LP_INVALID",
            ErrorCode::BenchmarkCaptureEmpty => "BENCHMARK_CAPTURE_EMPTY",
            ErrorCode::BenchmarkPresentmonTimeout => "BENCHMARK_PRESENTMON_TIMEOUT",
            ErrorCode::BenchmarkEquivalentNoReference => "BENCHMARK_EQUIVALENT_NO_REFERENCE",
            ErrorCode::BenchmarkAssetsHashMismatch => "BENCHMARK_ASSETS_HASH_MISMATCH",
            ErrorCode::GpuRegistryFailed => "GPU_REGISTRY_FAILED",
            ErrorCode::BenchmarkSessionNotFound => "BENCHMARK_SESSION_NOT_FOUND",
            ErrorCode::BenchmarkInvalidSessionId => "BENCHMARK_INVALID_SESSION_ID",
            ErrorCode::BenchmarkCaptureEtwLost => "BENCHMARK_CAPTURE_ETW_LOST",
        }
    }
}

} // verus!
