//! CPU topology model: physical cores, their logical processors (LPs), and
//! the processor-group / hybrid flags the candidate rules read.
use vstd::prelude::*;

verus! {

/// One physical core and the LP indices that belong to it (SMT siblings included).
#[derive(Clone, Debug, PartialEq, Eq)]
pub struct PhysicalCore {
    pub id: u32,
    pub lp_indices: Vec<u32>,
    /// Windows efficiency class (higher = faster on hybrid parts).
    pub efficiency_class: u8,
    pub is_p_core: bool,
}

/// One logical processor.
#[derive(Clone, Debug, PartialEq, Eq)]
pub struct LogicalProcessor {
    pub index: u32,
    pub core_id: u32,
    /// Not the first LP of its core.
    pub is_smt_sibling: bool,
}

/// Enumerated processor topology.
#[derive(Clone, Debug, Default, PartialEq, Eq)]
pub struct Topology {
    pub total_lp: u32,
    pub processor_groups: u32,
    pub has_hybrid: bool,
    pub physical_cores: Vec<PhysicalCore>,
    pub logical_processors: Vec<LogicalProcessor>,
}

impl Topology {
    /// The empty topology (no cores, no processor group).
    pub fn empty() -> (t: Topology)
        ensures
            t.total_lp == 0,
            t.processor_groups == 0,
            !t.has_hybrid,
            t.physical_cores@.len() == 0,
            t.logical_processors@.len() == 0,
    {
        Topology {
            total_lp: 0,
            processor_groups: 0,
            has_hybrid: false,
            physical_cores: Vec::new(),
            logical_processors: Vec::new(),
        }
    }
}

/// The LP records of cores `0..n` of a core list, in order.
pub open spec fn lp_records(cores: Seq<(Seq<u32>, u8, bool)>, n: int) -> Seq<(u32, u32, bool)>
    decreases n,
{
    if n <= 0 {
        Seq::empty()
    } else {
        lp_records(cores, n - 1) + Seq::new(
            cores[n - 1].0.len(),
            |j: int| (cores[n - 1].0[j], (n - 1) as u32, j > 0),
        )
    }
}

/// Whether two cores of the list have different efficiency classes.
pub open spec fn mixed_classes(cores: Seq<(Seq<u32>, u8, bool)>) -> bool {
    exists|i: int, j: int|
        0 <= i < cores.len() && 0 <= j < cores.len() && #[trigger] cores[i].1 != #[trigger] cores[j].1
}

/// The plain view of a core tuple list.
pub open spec fn core_tuples(cores: Seq<(Vec<u32>, u8, bool)>) -> Seq<(Seq<u32>, u8, bool)> {
    cores.map_values(|c: (Vec<u32>, u8, bool)| (c.0@, c.1, c.2))
}

/// Builds a single-group topology from `(lp indices, efficiency class, is P-core)`
/// per core: core `i` gets id `i`, each core's first LP is its primary and the
/// rest are SMT siblings, `total_lp` counts the LPs, and the part is hybrid when
/// two cores differ in efficiency class.
pub fn build_topology(cores: Vec<(Vec<u32>, u8, bool)>) -> (t: Topology)
    requires
        cores@.len() < u32::MAX,
        lp_records(core_tuples(cores@), cores@.len() as int).len() <= u32::MAX,
    ensures
        t.processor_groups == 1,
        t.physical_cores@.len() == cores@.len(),
        forall|i: int|
            0 <= i < cores@.len() ==> {
                &&& (#[trigger] t.physical_cores@[i]).id == i
                &&& t.physical_cores@[i].lp_indices@ == cores@[i].0@
                &&& t.physical_cores@[i].efficiency_class == cores@[i].1
                &&& t.physical_cores@[i].is_p_core == cores@[i].2
            },
        t.logical_processors@.len() == lp_records(core_tuples(cores@), cores@.len() as int).len(),
        forall|k: int|
            0 <= k < t.logical_processors@.len() ==> {
                let r = lp_records(core_tuples(cores@), cores@.len() as int)[k];
                &&& (#[trigger] t.logical_processors@[k]).index == r.0
                &&& t.logical_processors@[k].core_id == r.1
                &&& t.logical_processors@[k].is_smt_sibling == r.2
            },
        t.total_lp == t.logical_processors@.len(),
        t.has_hybrid == mixed_classes(core_tuples(cores@)),
{
    let ghost tuples = core_tuples(cores@);
    let mut physical: Vec<PhysicalCore> = Vec::new();
    let mut logical: Vec<LogicalProcessor> = Vec::new();
    let mut i: usize = 0;
    let n = cores.len();
    proof {
        assert(lp_records(tuples, 0) =~= Seq::<(u32, u32, bool)>::empty());
    }
    while i < n
        invariant
            n == cores@.len(),
            tuples == core_tuples(cores@),
            n < u32::MAX,
            lp_records(tuples, n as int).len() <= u32::MAX,
            0 <= i <= n,
            physical@.len() == i,
            forall|a: int|
                0 <= a < i ==> {
                    &&& (#[trigger] physical@[a]).id == a
                    &&& physical@[a].lp_indices@ == cores@[a].0@
                    &&& physical@[a].efficiency_class == cores@[a].1
                    &&& physical@[a].is_p_core == cores@[a].2
                },
            logical@.len() == lp_records(tuples, i as int).len(),
            forall|k: int|
                0 <= k < logical@.len() ==> {
                    let r = lp_records(tuples, i as int)[k];
                    &&& (#[trigger] logical@[k]).index == r.0
                    &&& logical@[k].core_id == r.1
                    &&& logical@[k].is_smt_sibling == r.2
                },
        decreases n - i,
    {
        let lps = &cores[i].0;
        let ghost before = logical@;
        let ghost prefix = lp_records(tuples, i as int);
        proof {
            lemma_lp_records_monotone(tuples, i as int + 1, n as int);
            assert(lp_records(tuples, i as int + 1) == prefix + Seq::new(
                tuples[i as int].0.len(),
                |j: int| (tuples[i as int].0[j], i as u32, j > 0),
            ));
        }
        let mut j: usize = 0;
        while j < lps.len()
            invariant
                lps@ == cores@[i as int].0@,
                tuples == core_tuples(cores@),
                0 <= i < n,
                n == cores@.len(),
                n < u32::MAX,
                prefix == lp_records(tuples, i as int),
                before.len() == prefix.len(),
                lp_records(tuples, i as int + 1).len() <= u32::MAX,
                lp_records(tuples, i as int + 1) == prefix + Seq::new(
                    tuples[i as int].0.len(),
                    |j: int| (tuples[i as int].0[j], i as u32, j > 0),
                ),
                0 <= j <= lps@.len(),
                logical@.len() == before.len() + j,
                forall|k: int| 0 <= k < before.len() ==> #[trigger] logical@[k] == before[k],
                forall|k: int|
                    0 <= k < before.len() ==> {
                        let r = prefix[k];
                        &&& (#[trigger] before[k]).index == r.0
                        &&& before[k].core_id == r.1
                        &&& before[k].is_smt_sibling == r.2
                    },
                forall|q: int|
                    0 <= q < j ==> {
                        &&& (#[trigger] logical@[before.len() + q]).index == lps@[q]
                        &&& logical@[before.len() + q].core_id == i
                        &&& logical@[before.len() + q].is_smt_sibling == (q > 0)
                    },
            decreases lps@.len() - j,
        {
            logical.push(LogicalProcessor { index: lps[j], core_id: i as u32, is_smt_sibling: j > 0 });
            j = j + 1;
        }
        proof {
            let next = lp_records(tuples, i as int + 1);
            assert forall|k: int| 0 <= k < logical@.len() implies {
                let r = next[k];
                &&& (#[trigger] logical@[k]).index == r.0
                &&& logical@[k].core_id == r.1
                &&& logical@[k].is_smt_sibling == r.2
            } by {
                if k >= before.len() {
                    let q = k - before.len();
                    assert(logical@[before.len() + q] == logical@[k]);
                }
            }
        }
        physical.push(PhysicalCore {
            id: i as u32,
            lp_indices: lps.clone(),
            efficiency_class: cores[i].1,
            is_p_core: cores[i].2,
        });
        i = i + 1;
    }
    let mut hybrid = false;
    let mut a: usize = 0;
    while a < n
        invariant
            n == cores@.len(),
            tuples == core_tuples(cores@),
            0 <= a <= n,
            hybrid == (exists|x: int| 0 <= x < a && #[trigger] cores@[x].1 != cores@[0].1),
        decreases n - a,
    {
        if cores[a].1 != cores[0].1 {
            hybrid = true;
        }
        a = a + 1;
    }
    proof {
        if hybrid {
            let x = choose|x: int| 0 <= x < n && #[trigger] cores@[x].1 != cores@[0].1;
            assert(tuples[x].1 != tuples[0].1);
        } else {
            assert forall|x: int, y: int|
                0 <= x < tuples.len() && 0 <= y < tuples.len() implies !(#[trigger] tuples[x].1 != #[trigger] tuples[y].1) by {
                assert(cores@[x].1 == cores@[0].1);
                assert(cores@[y].1 == cores@[0].1);
            }
        }
    }
    let total = logical.len() as u32;
    Topology {
        total_lp: total,
        processor_groups: 1,
        has_hybrid: hybrid,
        physical_cores: physical,
        logical_processors: logical,
    }
}

/// The LP records only grow as more cores are taken.
proof fn lemma_lp_records_monotone(cores: Seq<(Seq<u32>, u8, bool)>, a: int, b: int)
    requires
        0 <= a <= b,
    ensures
        lp_records(cores, a).len() <= lp_records(cores, b).len(),
    decreases b - a,
{
    if a < b {
        lemma_lp_records_monotone(cores, a, b - 1);
    }
}

} // verus!
