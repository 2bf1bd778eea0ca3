//! Command lines of the processes a benchmark runs: the workload and PresentMon.
use vstd::prelude::*;
use crate::assets::BenchmarkAssets;
use crate::model::{BenchmarkConfig, WorkloadKind, string_views};
use crate::text::{dec, decimal, with_number, starts_with};

verus! {

/// The Vulkan workload's cap option.
pub open spec fn fps_cap_prefix() -> Seq<char> {
    "--fps_cap="@
}

/// The arguments of `args` (by view) that do not set the cap, in order.
pub open spec fn without_cap(args: Seq<Seq<char>>) -> Seq<Seq<char>>
    decreases args.len(),
{
    if args.len() == 0 {
        Seq::empty()
    } else if fps_cap_prefix().is_prefix_of(args.last()) {
        without_cap(args.drop_last())
    } else {
        without_cap(args.drop_last()).push(args.last())
    }
}

/// `args` with every `--fps_cap=` argument removed and `--fps_cap=<cap>`
/// appended.
pub fn with_fps_cap(args: &Vec<String>, cap: u32) -> (out: Vec<String>)
    ensures
        string_views(out@) == without_cap(string_views(args@)).push(fps_cap_prefix() + dec(cap as nat)),
{
    let mut out: Vec<String> = Vec::new();
    let mut i: usize = 0;
    while i < args.len()
        invariant
            0 <= i <= args@.len(),
            string_views(out@) == without_cap(string_views(args@.take(i as int))),
        decreases args@.len() - i,
    {
        let keep = !starts_with(args[i].as_str(), "--fps_cap=");
        let ghost before = out@;
        if keep {
            out.push(args[i].clone());
        }
        proof {
            let t = args@.take(i + 1);
            assert(string_views(t).drop_last() =~= string_views(args@.take(i as int)));
            assert(string_views(t).last() == args@[i as int]@);
            if keep {
                assert(string_views(out@) =~= string_views(before).push(args@[i as int]@));
            } else {
                assert(out@ == before);
            }
        }
        i = i + 1;
    }
    proof {
        assert(args@.take(args@.len() as int) =~= args@);
    }
    let ghost before = out@;
    out.push(with_number("--fps_cap=", cap as u64));
    assert(string_views(out@) =~= string_views(before).push(fps_cap_prefix() + dec(cap as nat)));
    out
}

/// `0` or `1` for a flag (the D3D9 workload parses `<0|1>`).
pub open spec fn flag_digit(b: bool) -> Seq<char> {
    if b { "1"@ } else { "0"@ }
}

/// The D3D9 workload's arguments.
pub open spec fn d3d9_args(c: BenchmarkConfig, cap: u32) -> Seq<Seq<char>> {
    seq![
        "--fullscreen="@ + flag_digit(c.fullscreen),
        "--width="@ + dec(c.width as nat),
        "--height="@ + dec(c.height as nat),
        "--fps-cap="@ + dec(cap as nat),
        "--triple-buffer="@ + flag_digit(c.triple_buffer),
    ]
}

/// The executable and arguments of the workload: the Vulkan workload with the
/// configured arguments and the cap set to `fps_cap`, or the D3D9 workload with
/// window size, cap and buffering options.
pub fn workload_command(assets: &BenchmarkAssets, config: &BenchmarkConfig, fps_cap: u32) -> (r: (String, Vec<String>))
    ensures
        config.workload == WorkloadKind::Vulkan ==> r.0@ == assets.vulkan_workload@
            && string_views(r.1@) == without_cap(string_views(config.vulkan_args@)).push(fps_cap_prefix() + dec(fps_cap as nat)),
        config.workload == WorkloadKind::D3D9 ==> r.0@ == assets.d3d9_workload@
            && string_views(r.1@) == d3d9_args(*config, fps_cap),
{
    match config.workload {
        WorkloadKind::Vulkan => (assets.vulkan_workload.clone(), with_fps_cap(&config.vulkan_args, fps_cap)),
        WorkloadKind::D3D9 => {
            let mut args: Vec<String> = Vec::new();
            args.push(with_number("--fullscreen=", if config.fullscreen { 1 } else { 0 }));
            args.push(with_number("--width=", config.width as u64));
            args.push(with_number("--height=", config.height as u64));
            args.push(with_number("--fps-cap=", fps_cap as u64));
            args.push(with_number("--triple-buffer=", if config.triple_buffer { 1 } else { 0 }));
            proof {
                reveal_strlit("1");
                reveal_strlit("0");
                assert(dec(1) =~= "1"@);
                assert(dec(0) =~= "0"@);
                assert(string_views(args@) =~= d3d9_args(*config, fps_cap));
            }
            (assets.d3d9_workload.clone(), args)
        },
    }
}

/// The PresentMon arguments: a dedicated ETW session, filtered to the workload
/// process, GPU and input tracking off, timed capture with termination, v1
/// metrics and the circular buffer size.
pub open spec fn presentmon_args(sample_secs: u32, buffer: u32, pid: u32, csv: Seq<char>, session_name: Seq<char>) -> Seq<Seq<char>> {
    seq![
        "--session_name"@,
        session_name,
        "--stop_existing_session"@,
        "--no_console_stats"@,
        "--no_track_gpu"@,
        "--no_track_input"@,
        "--process_id"@,
        dec(pid as nat),
        "--output_file"@,
        csv,
        "--timed"@,
        dec(sample_secs as nat),
        "--terminate_after_timed"@,
        "--v1_metrics"@,
        "--set_circular_buffer_size"@,
        dec(buffer as nat),
    ]
}

/// The PresentMon command line (see [`presentmon_args`]).
pub fn presentmon_command(sample_secs: u32, buffer: u32, pid: u32, csv: &str, session_name: &str) -> (v: Vec<String>)
    ensures
        string_views(v@) == presentmon_args(sample_secs, buffer, pid, csv@, session_name@),
{
    let mut v: Vec<String> = Vec::new();
    v.push("--session_name".to_owned());
    v.push(session_name.to_owned());
    v.push("--stop_existing_session".to_owned());
    v.push("--no_console_stats".to_owned());
    v.push("--no_track_gpu".to_owned());
    v.push("--no_track_input".to_owned());
    v.push("--process_id".to_owned());
    v.push(decimal(pid as u64));
    v.push("--output_file".to_owned());
    v.push(csv.to_owned());
    v.push("--timed".to_owned());
    v.push(decimal(sample_secs as u64));
    v.push("--terminate_after_timed".to_owned());
    v.push("--v1_metrics".to_owned());
    v.push("--set_circular_buffer_size".to_owned());
    v.push(decimal(buffer as u64));
    assert(string_views(v@) =~= presentmon_args(sample_secs, buffer, pid, csv@, session_name@));
    v
}

} // verus!
