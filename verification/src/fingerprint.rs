//! The CPU fingerprint that decides whether a stored session still fits this
//! machine: SHA-256 over a canonical text of the CPU identity and topology.
use vstd::prelude::*;
use vstd::utf8::encode_utf8;
use crate::digest::{hex, sha256, sha256_hex};
use crate::model::CpuIdentity;
use crate::text::{concat, dec, with_number};
use crate::topology::{PhysicalCore, Topology};

verus! {

/// Decimal numbers joined by commas.
pub open spec fn comma_joined(v: Seq<u32>) -> Seq<char>
    decreases v.len(),
{
    if v.len() == 0 {
        Seq::empty()
    } else if v.len() == 1 {
        dec(v[0] as nat)
    } else {
        comma_joined(v.drop_last()) + ","@ + dec(v.last() as nat)
    }
}

/// One core's line: `<efficiency class>:<lp>,<lp>,...` and a newline.
pub open spec fn core_line(c: PhysicalCore) -> Seq<char> {
    dec(c.efficiency_class as nat) + ":"@ + comma_joined(c.lp_indices@) + "\n"@
}

/// The lines of the cores, in order.
pub open spec fn core_lines(cores: Seq<PhysicalCore>) -> Seq<char>
    decreases cores.len(),
{
    if cores.len() == 0 {
        Seq::empty()
    } else {
        core_lines(cores.drop_last()) + core_line(cores.last())
    }
}

/// The canonical text: `arch=..;family=..;model=..;stepping=..;lp=..;` then
/// one line per physical core.
pub open spec fn canonical_text(topo: Topology, cpu: CpuIdentity) -> Seq<char> {
    "arch="@ + dec(cpu.architecture as nat) + ";family="@ + dec(cpu.family as nat) + ";model="@
        + dec(cpu.model as nat) + ";stepping="@ + dec(cpu.stepping as nat) + ";lp="@
        + dec(topo.total_lp as nat) + ";"@ + core_lines(topo.physical_cores@)
}

fn joined_lps(v: &Vec<u32>) -> (s: String)
    ensures
        s@ == comma_joined(v@),
{
    let mut s = String::new();
    let mut i: usize = 0;
    proof {
        assert(v@.take(0) =~= Seq::<u32>::empty());
    }
    while i < v.len()
        invariant
            0 <= i <= v@.len(),
            s@ == comma_joined(v@.take(i as int)),
        decreases v@.len() - i,
    {
        let ghost before = s@;
        if i == 0 {
            s = crate::text::decimal(v[i] as u64);
        } else {
            let with_comma = concat(s.as_str(), ",");
            s = with_number(with_comma.as_str(), v[i] as u64);
        }
        proof {
            let t = v@.take(i + 1);
            assert(t.drop_last() =~= v@.take(i as int));
            assert(t.last() == v@[i as int]);
            if i == 0 {
                assert(t.len() == 1);
            }
        }
        i = i + 1;
    }
    proof {
        assert(v@.take(v@.len() as int) =~= v@);
    }
    s
}

/// The canonical text of a CPU identity and topology (see [`canonical_text`]).
pub fn canonical(topo: &Topology, cpu: &CpuIdentity) -> (s: String)
    ensures
        s@ == canonical_text(*topo, *cpu),
{
    let a = with_number("arch=", cpu.architecture as u64);
    let b = concat(a.as_str(), ";family=");
    let b = with_number(b.as_str(), cpu.family as u64);
    let c = concat(b.as_str(), ";model=");
    let c = with_number(c.as_str(), cpu.model as u64);
    let d = concat(c.as_str(), ";stepping=");
    let d = with_number(d.as_str(), cpu.stepping as u64);
    let e = concat(d.as_str(), ";lp=");
    let e = with_number(e.as_str(), topo.total_lp as u64);
    let mut s = concat(e.as_str(), ";");
    let ghost head = s@;
    let cores = &topo.physical_cores;
    let mut i: usize = 0;
    proof {
        assert(cores@.take(0) =~= Seq::<PhysicalCore>::empty());
        assert(s@ =~= head + core_lines(cores@.take(0)));
    }
    while i < cores.len()
        invariant
            0 <= i <= cores@.len(),
            s@ == head + core_lines(cores@.take(i as int)),
        decreases cores@.len() - i,
    {
        let core = &cores[i];
        let l = with_number("", core.efficiency_class as u64);
        let l = concat(l.as_str(), ":");
        let lps = joined_lps(&core.lp_indices);
        let l = concat(l.as_str(), lps.as_str());
        let l = concat(l.as_str(), "\n");
        let ghost before = s@;
        s = concat(s.as_str(), l.as_str());
        proof {
            let t = cores@.take(i + 1);
            assert(t.drop_last() =~= cores@.take(i as int));
            assert(t.last() == cores@[i as int]);
            assert(""@ + dec(core.efficiency_class as nat) =~= dec(core.efficiency_class as nat)) by {
                reveal_strlit("");
            }
            assert(s@ =~= head + core_lines(t));
        }
        i = i + 1;
    }
    proof {
        assert(cores@.take(cores@.len() as int) =~= cores@);
    }
    s
}

/// The CPU fingerprint: lowercase hex SHA-256 of the UTF-8 canonical text.
pub fn cpu_fingerprint_with(topo: &Topology, cpu: &CpuIdentity) -> (fp: String)
    ensures
        fp@ == hex(sha256(encode_utf8(canonical_text(*topo, *cpu)))),
{
    let text = canonical(topo, cpu);
    sha256_hex(text.as_str().as_bytes())
}

} // verus!
