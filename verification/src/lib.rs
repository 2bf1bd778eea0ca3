//! FrameAnchor GPU interrupt-affinity tuning: the decision logic of the
//! benchmark, apply and recovery pipeline, with its contracts.
pub mod codes;
pub mod calibration;
pub mod topology;
pub mod model;
pub mod physical;
pub mod bits;
pub mod sorting;
pub mod text;
pub mod runner;
pub mod gpu;
pub mod recovery;
pub mod apply;
pub mod restore;
pub mod msi;
pub mod gate;
pub mod digest;
pub mod assets;
pub mod command;
pub mod fingerprint;
pub mod etw;
pub mod capture;
pub mod env;
pub mod csv;
pub mod capture_flow;
pub mod quick;
pub mod session_state;
pub mod workload;
pub mod autostart;
pub mod core_apply;
pub mod cleanup;
pub mod watch;
pub mod step;
