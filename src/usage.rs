//! Per-pod CPU samples and their reduction to per-workload means.
//!
//! CPU rates are fixed-point integers in millionths of one core per second.
use vstd::prelude::*;
use crate::owner::{extract_deployment_name, owner_name};

verus! {

/// One fresh CPU sample: a pod name and its CPU rate in micro-cores.
#[derive(Debug)]
pub struct PodSample {
    pub pod: String,
    pub cpu_micros: u64,
}

impl View for PodSample {
    type V = (Seq<char>, u64);

    open spec fn view(&self) -> (Seq<char>, u64) {
        (self.pod@, self.cpu_micros)
    }
}

/// One series of a metrics query result: the value of its `pod` label, if
/// any, and its CPU rate in micro-cores.
#[derive(Debug)]
pub struct SeriesPoint {
    pub pod: Option<String>,
    pub cpu_micros: u64,
}

impl View for SeriesPoint {
    type V = (Option<Seq<char>>, u64);

    open spec fn view(&self) -> (Option<Seq<char>>, u64) {
        (
            match self.pod {
                Some(p) => Some(p@),
                None => None,
            },
            self.cpu_micros,
        )
    }
}

/// A mean CPU rate, kept exactly as a sum of micro-core samples and their count.
#[derive(Clone, Copy, Debug, PartialEq, Eq, Structural)]
pub struct MeanCpu {
    pub total_micros: u128,
    pub samples: u64,
}

/// The aggregated usage of one workload.
#[derive(Debug)]
pub struct WorkloadUsage {
    pub name: String,
    pub cpu: MeanCpu,
}

impl View for WorkloadUsage {
    type V = (Seq<char>, int, int);

    open spec fn view(&self) -> (Seq<char>, int, int) {
        (self.name@, self.cpu.total_micros as int, self.cpu.samples as int)
    }
}

pub open spec fn samples_view(v: Seq<PodSample>) -> Seq<(Seq<char>, u64)> {
    v.map_values(|s: PodSample| s@)
}

pub open spec fn usages_view(v: Seq<WorkloadUsage>) -> Seq<(Seq<char>, int, int)> {
    v.map_values(|u: WorkloadUsage| u@)
}

pub open spec fn names_view(v: Seq<String>) -> Seq<Seq<char>> {
    v.map_values(|s: String| s@)
}

pub open spec fn points_view(v: Seq<SeriesPoint>) -> Seq<(Option<Seq<char>>, u64)> {
    v.map_values(|p: SeriesPoint| p@)
}

/// The index of the last sample of pod `p` in `s`, or -1.
pub open spec fn position_of(s: Seq<(Seq<char>, u64)>, p: Seq<char>) -> int
    decreases s.len(),
{
    if s.len() == 0 {
        -1
    } else if s.last().0 == p {
        s.len() - 1
    } else {
        position_of(s.drop_last(), p)
    }
}

/// The samples of a query result, one per pod label in order of first
/// appearance; a later series of the same pod replaces the earlier value, and
/// a series without a pod label is dropped.
pub open spec fn collected(points: Seq<(Option<Seq<char>>, u64)>) -> Seq<(Seq<char>, u64)>
    decreases points.len(),
{
    if points.len() == 0 {
        seq![]
    } else {
        let prev = collected(points.drop_last());
        let v = points.last().1;
        match points.last().0 {
            None => prev,
            Some(p) => {
                let k = position_of(prev, p);
                if k >= 0 {
                    prev.update(k, (p, v))
                } else {
                    prev.push((p, v))
                }
            },
        }
    }
}

proof fn lemma_position_range(s: Seq<(Seq<char>, u64)>, p: Seq<char>)
    ensures
        -1 <= position_of(s, p) < s.len(),
        position_of(s, p) >= 0 ==> s[position_of(s, p)].0 == p,
    decreases s.len(),
{
    if s.len() > 0 {
        lemma_position_range(s.drop_last(), p);
    }
}

fn find_pod(out: &Vec<PodSample>, p: &String) -> (r: Option<usize>)
    ensures
        match r {
            Some(k) => k as int == position_of(samples_view(out@), p@),
            None => position_of(samples_view(out@), p@) == -1,
        },
{
    let ghost sv = samples_view(out@);
    let mut j: usize = out.len();
    assert(sv.subrange(0, j as int) =~= sv);
    while j > 0
        invariant
            j <= out@.len(),
            sv == samples_view(out@),
            position_of(sv, p@) == position_of(sv.subrange(0, j as int), p@),
        decreases j,
    {
        let ghost sub = sv.subrange(0, j as int);
        assert(sub.drop_last() =~= sv.subrange(0, j - 1));
        assert(sub.last() == out@[j - 1]@);
        if out[j - 1].pod == *p {
            return Some(j - 1);
        }
        j = j - 1;
    }
    None
}

/// The per-pod samples of a query result, as `collected` describes.
pub fn collect_samples(points: &Vec<SeriesPoint>) -> (r: Vec<PodSample>)
    ensures
        samples_view(r@) == collected(points_view(points@)),
{
    let ghost pv = points_view(points@);
    let mut out: Vec<PodSample> = Vec::new();
    let mut i: usize = 0;
    assert(pv.subrange(0, 0) =~= Seq::<(Option<Seq<char>>, u64)>::empty());
    assert(samples_view(out@) =~= Seq::<(Seq<char>, u64)>::empty());
    while i < points.len()
        invariant
            i <= points@.len(),
            pv == points_view(points@),
            samples_view(out@) == collected(pv.subrange(0, i as int)),
        decreases points@.len() - i,
    {
        let ghost pre = pv.subrange(0, i as int + 1);
        assert(pre.drop_last() =~= pv.subrange(0, i as int));
        assert(pre.last() == points@[i as int]@);
        let point = &points[i];
        match &point.pod {
            None => {},
            Some(p) => {
                let ghost before = samples_view(out@);
                proof {
                    lemma_position_range(before, p@);
                }
                let fresh = PodSample { pod: p.clone(), cpu_micros: point.cpu_micros };
                match find_pod(&out, p) {
                    Some(k) => {
                        out.set(k, fresh);
                        assert(samples_view(out@) =~= before.update(k as int, (p@, point.cpu_micros)));
                    },
                    None => {
                        out.push(fresh);
                        assert(samples_view(out@) =~= before.push((p@, point.cpu_micros)));
                    },
                }
            },
        }
        i = i + 1;
    }
    assert(pv.subrange(0, points@.len() as int) =~= pv);
    out
}

/// The CPU that sample `s` contributes to workload `w`.
pub open spec fn contribution(s: (Seq<char>, u64), w: Seq<char>) -> int {
    if owner_name(s.0) == w { s.1 as int } else { 0 }
}

/// Whether sample `s` belongs to workload `w`, as 0 or 1.
pub open spec fn membership(s: (Seq<char>, u64), w: Seq<char>) -> int {
    if owner_name(s.0) == w { 1 } else { 0 }
}

/// Sum of the CPU of the samples whose owner is `w`.
pub open spec fn matching_total(samples: Seq<(Seq<char>, u64)>, w: Seq<char>) -> int
    decreases samples.len(),
{
    if samples.len() == 0 {
        0
    } else {
        matching_total(samples.drop_last(), w) + contribution(samples.last(), w)
    }
}

/// Number of samples whose owner is `w`.
pub open spec fn matching_count(samples: Seq<(Seq<char>, u64)>, w: Seq<char>) -> int
    decreases samples.len(),
{
    if samples.len() == 0 {
        0
    } else {
        matching_count(samples.drop_last(), w) + membership(samples.last(), w)
    }
}

/// The usage of each workload of `names`, in that order, as (name, CPU sum,
/// sample count); a workload without samples is left out.
pub open spec fn aggregate_model(samples: Seq<(Seq<char>, u64)>, names: Seq<Seq<char>>) -> Seq<
    (Seq<char>, int, int),
>
    decreases names.len(),
{
    if names.len() == 0 {
        seq![]
    } else {
        let prev = aggregate_model(samples, names.drop_last());
        let w = names.last();
        if matching_count(samples, w) > 0 {
            prev.push((w, matching_total(samples, w), matching_count(samples, w)))
        } else {
            prev
        }
    }
}

proof fn lemma_total_bounded(samples: Seq<(Seq<char>, u64)>, w: Seq<char>)
    ensures
        0 <= matching_count(samples, w) <= samples.len(),
        0 <= matching_total(samples, w) <= matching_count(samples, w) * (u64::MAX as int),
    decreases samples.len(),
{
    if samples.len() > 0 {
        lemma_total_bounded(samples.drop_last(), w);
        let c = matching_count(samples.drop_last(), w);
        assert(c * (u64::MAX as int) + (u64::MAX as int) == (c + 1) * (u64::MAX as int))
            by (nonlinear_arith);
    }
}

proof fn lemma_matching_remove(s: Seq<(Seq<char>, u64)>, k: int, w: Seq<char>)
    requires
        0 <= k < s.len(),
    ensures
        matching_total(s, w) == matching_total(s.remove(k), w) + contribution(s[k], w),
        matching_count(s, w) == matching_count(s.remove(k), w) + membership(s[k], w),
    decreases s.len(),
{
    if k == s.len() - 1 {
        assert(s.remove(k) =~= s.drop_last());
    } else {
        let r = s.remove(k);
        assert(r.drop_last() =~= s.drop_last().remove(k));
        assert(r.last() == s.last());
        lemma_matching_remove(s.drop_last(), k, w);
    }
}

proof fn lemma_matching_permutation(s1: Seq<(Seq<char>, u64)>, s2: Seq<(Seq<char>, u64)>, w: Seq<char>)
    requires
        s1.to_multiset() == s2.to_multiset(),
    ensures
        matching_total(s1, w) == matching_total(s2, w),
        matching_count(s1, w) == matching_count(s2, w),
    decreases s1.len(),
{
    broadcast use vstd::seq_lib::group_to_multiset_ensures;

    if s1.len() == 0 {
        assert(s1.to_multiset().len() == s1.len());
        assert(s2.to_multiset().len() == s2.len());
    } else {
        let x = s1.last();
        let rest = s1.drop_last();
        assert(rest.push(x) =~= s1);
        assert(s1.to_multiset().count(x) > 0);
        assert(s2.contains(x));
        let k = choose|k: int| 0 <= k < s2.len() && s2[k] == x;
        let r2 = s2.remove(k);
        assert(r2.to_multiset() =~= rest.to_multiset());
        lemma_matching_permutation(rest, r2, w);
        lemma_matching_remove(s2, k, w);
    }
}

/// Aggregation is a function of the set of samples: the same samples, in any
/// order, give every workload the same sum and count.
pub proof fn lemma_aggregate_order_independent(
    s1: Seq<(Seq<char>, u64)>,
    s2: Seq<(Seq<char>, u64)>,
    names: Seq<Seq<char>>,
)
    requires
        s1.to_multiset() == s2.to_multiset(),
    ensures
        aggregate_model(s1, names) == aggregate_model(s2, names),
    decreases names.len(),
{
    if names.len() > 0 {
        lemma_aggregate_order_independent(s1, s2, names.drop_last());
        lemma_matching_permutation(s1, s2, names.last());
    }
}

/// A sample whose derived owner is not one of `names` leaves every
/// workload's aggregate as it was.
pub proof fn lemma_unmatched_sample_ignored(
    samples: Seq<(Seq<char>, u64)>,
    names: Seq<Seq<char>>,
    extra: (Seq<char>, u64),
)
    requires
        !names.contains(owner_name(extra.0)),
    ensures
        aggregate_model(samples.push(extra), names) == aggregate_model(samples, names),
    decreases names.len(),
{
    if names.len() > 0 {
        let w = names.last();
        assert(names.contains(w));
        assert forall|x: Seq<char>| names.drop_last().contains(x) implies names.contains(x) by {
            let i = choose|i: int| 0 <= i < names.drop_last().len() && names.drop_last()[i] == x;
            assert(names[i] == x);
        }
        lemma_unmatched_sample_ignored(samples, names.drop_last(), extra);
        assert(samples.push(extra).drop_last() =~= samples);
    }
}

fn owners_of(samples: &Vec<PodSample>) -> (r: Vec<String>)
    ensures
        r@.len() == samples@.len(),
        forall|k: int| 0 <= k < r@.len() ==> #[trigger] r@[k]@ == owner_name(samples@[k].pod@),
{
    let mut r: Vec<String> = Vec::new();
    let mut i: usize = 0;
    while i < samples.len()
        invariant
            i <= samples@.len(),
            r@.len() == i,
            forall|k: int| 0 <= k < i ==> #[trigger] r@[k]@ == owner_name(samples@[k].pod@),
        decreases samples@.len() - i,
    {
        let o = extract_deployment_name(samples[i].pod.as_str());
        r.push(o);
        i = i + 1;
    }
    r
}

fn usage_of(samples: &Vec<PodSample>, owners: &Vec<String>, w: &String) -> (r: MeanCpu)
    requires
        owners@.len() == samples@.len(),
        forall|k: int| 0 <= k < owners@.len() ==> #[trigger] owners@[k]@ == owner_name(samples@[k].pod@),
    ensures
        r.total_micros as int == matching_total(samples_view(samples@), w@),
        r.samples as int == matching_count(samples_view(samples@), w@),
{
    let ghost sv = samples_view(samples@);
    let mut total: u128 = 0;
    let mut count: u64 = 0;
    let mut i: usize = 0;
    assert(sv.subrange(0, 0) =~= Seq::<(Seq<char>, u64)>::empty());
    while i < samples.len()
        invariant
            i <= samples@.len(),
            sv == samples_view(samples@),
            owners@.len() == samples@.len(),
            forall|k: int| 0 <= k < owners@.len() ==> #[trigger] owners@[k]@ == owner_name(samples@[k].pod@),
            total as int == matching_total(sv.subrange(0, i as int), w@),
            count as int == matching_count(sv.subrange(0, i as int), w@),
        decreases samples@.len() - i,
    {
        proof {
            let pre = sv.subrange(0, i as int + 1);
            assert(pre.drop_last() =~= sv.subrange(0, i as int));
            assert(pre.last() == samples@[i as int]@);
            lemma_total_bounded(sv.subrange(0, i as int), w@);
            let c = count as int;
            assert(c * (u64::MAX as int) + (u64::MAX as int) <= (u64::MAX as int + 1) * (
            u64::MAX as int)) by (nonlinear_arith)
                requires
                    c <= u64::MAX as int - 1,
            ;
        }
        if owners[i] == *w {
            total = total + samples[i].cpu_micros as u128;
            count = count + 1;
        }
        i = i + 1;
    }
    assert(sv.subrange(0, samples@.len() as int) =~= sv);
    MeanCpu { total_micros: total, samples: count }
}

/// Groups the samples by derived owner and reduces each group of a workload
/// in `deployment_names` to its CPU sum and count, in the order of
/// `deployment_names`. Workloads without samples, and samples whose owner is
/// not listed, are left out.
pub fn aggregate(samples: &Vec<PodSample>, deployment_names: &Vec<String>) -> (r: Vec<WorkloadUsage>)
    ensures
        usages_view(r@) == aggregate_model(samples_view(samples@), names_view(deployment_names@)),
        forall|k: int| 0 <= k < r@.len() ==> #[trigger] r@[k].cpu.samples > 0,
{
    let owners = owners_of(samples);
    let ghost sv = samples_view(samples@);
    let ghost nv = names_view(deployment_names@);
    let mut r: Vec<WorkloadUsage> = Vec::new();
    let mut j: usize = 0;
    assert(nv.subrange(0, 0) =~= Seq::<Seq<char>>::empty());
    assert(usages_view(r@) =~= Seq::<(Seq<char>, int, int)>::empty());
    while j < deployment_names.len()
        invariant
            j <= deployment_names@.len(),
            sv == samples_view(samples@),
            nv == names_view(deployment_names@),
            owners@.len() == samples@.len(),
            forall|k: int| 0 <= k < owners@.len() ==> #[trigger] owners@[k]@ == owner_name(samples@[k].pod@),
            usages_view(r@) == aggregate_model(sv, nv.subrange(0, j as int)),
            forall|k: int| 0 <= k < r@.len() ==> #[trigger] r@[k].cpu.samples > 0,
        decreases deployment_names@.len() - j,
    {
        let name = &deployment_names[j];
        let cpu = usage_of(samples, &owners, name);
        proof {
            let pre = nv.subrange(0, j as int + 1);
            assert(pre.drop_last() =~= nv.subrange(0, j as int));
            assert(pre.last() == name@);
        }
        if cpu.samples > 0 {
            let ghost old_r = r@;
            r.push(WorkloadUsage { name: name.clone(), cpu });
            assert(usages_view(r@) =~= usages_view(old_r).push(r@.last()@));
        }
        j = j + 1;
    }
    assert(nv.subrange(0, deployment_names@.len() as int) =~= nv);
    r
}

} // verus!
