//! The reconciliation scheduler as a state machine. The caller performs each
//! action the machine asks for (list, fetch, read, write, sleep) and hands the
//! outcome back as an event; the machine decides what comes next.
use vstd::prelude::*;
use crate::decision::{
    lemma_plan_keeps_floor, plan, plan_scaling, replicas_or_default, ScalingDecision, ScalingThresholds,
    REPLICA_FLOOR,
};
use crate::usage::{aggregate, aggregate_model, names_view, samples_view, usages_view, PodSample, WorkloadUsage};

verus! {

/// Where the machine is within a tick.
#[derive(Clone, Copy, Debug, PartialEq, Eq, Structural)]
pub enum Stage {
    /// Waiting for the workloads of the current namespace.
    Listing,
    /// Waiting for the pod samples of the current namespace.
    Fetching,
    /// Waiting for the fresh replica count of the current workload.
    Reading,
    /// Waiting for the new replica count of the current workload to be written.
    Writing,
    /// Between ticks.
    Sleeping,
}

/// Which scale counter a completed write increments.
#[derive(Clone, Copy, Debug, PartialEq, Eq, Structural)]
pub enum ScaleDirection {
    Up,
    Down,
}

/// What the caller is asked to do next.
#[derive(Debug)]
pub enum Action {
    ListWorkloads { namespace: String },
    FetchUsage { namespace: String },
    ReadReplicas { namespace: String, workload: String },
    SetReplicas { namespace: String, workload: String, replicas: i32 },
    Sleep { seconds: u64 },
}

/// The outcome of the last action.
#[derive(Debug)]
pub enum Event {
    Listed(Vec<String>),
    ListFailed,
    Fetched(Vec<PodSample>),
    FetchFailed,
    ReplicasRead(Option<i32>),
    ReadFailed,
    Replaced,
    ReplaceFailed,
    Woke,
}

/// An action with its strings as character sequences.
pub enum ActionModel {
    ListWorkloads { namespace: Seq<char> },
    FetchUsage { namespace: Seq<char> },
    ReadReplicas { namespace: Seq<char>, workload: Seq<char> },
    SetReplicas { namespace: Seq<char>, workload: Seq<char>, replicas: i32 },
    Sleep { seconds: u64 },
}

/// An event with its strings and samples as sequences.
pub enum EventModel {
    Listed(Seq<Seq<char>>),
    ListFailed,
    Fetched(Seq<(Seq<char>, u64)>),
    FetchFailed,
    ReplicasRead(Option<i32>),
    ReadFailed,
    Replaced,
    ReplaceFailed,
    Woke,
}

impl View for Action {
    type V = ActionModel;

    open spec fn view(&self) -> ActionModel {
        match self {
            Action::ListWorkloads { namespace } => ActionModel::ListWorkloads { namespace: namespace@ },
            Action::FetchUsage { namespace } => ActionModel::FetchUsage { namespace: namespace@ },
            Action::ReadReplicas { namespace, workload } => ActionModel::ReadReplicas {
                namespace: namespace@,
                workload: workload@,
            },
            Action::SetReplicas { namespace, workload, replicas } => ActionModel::SetReplicas {
                namespace: namespace@,
                workload: workload@,
                replicas: *replicas,
            },
            Action::Sleep { seconds } => ActionModel::Sleep { seconds: *seconds },
        }
    }
}

impl View for Event {
    type V = EventModel;

    open spec fn view(&self) -> EventModel {
        match self {
            Event::Listed(names) => EventModel::Listed(names_view(names@)),
            Event::ListFailed => EventModel::ListFailed,
            Event::Fetched(samples) => EventModel::Fetched(samples_view(samples@)),
            Event::FetchFailed => EventModel::FetchFailed,
            Event::ReplicasRead(r) => EventModel::ReplicasRead(*r),
            Event::ReadFailed => EventModel::ReadFailed,
            Event::Replaced => EventModel::Replaced,
            Event::ReplaceFailed => EventModel::ReplaceFailed,
            Event::Woke => EventModel::Woke,
        }
    }
}

/// The abstract state of the scheduler.
pub struct ReconcilerModel {
    pub namespaces: Seq<Seq<char>>,
    pub thresholds: ScalingThresholds,
    pub stage: Stage,
    pub ns_index: int,
    pub workloads: Seq<Seq<char>>,
    pub usages: Seq<(Seq<char>, int, int)>,
    pub usage_index: int,
    pub pending: ScalingDecision,
}

/// The replica count a scaling decision writes.
pub open spec fn target_replicas(d: ScalingDecision) -> i32 {
    match d {
        ScalingDecision::ScaleUp(n) => n,
        ScalingDecision::ScaleDown(n) => n,
        ScalingDecision::NoOp => 0,
    }
}

pub open spec fn direction_of(d: ScalingDecision) -> Option<ScaleDirection> {
    match d {
        ScalingDecision::ScaleUp(_) => Some(ScaleDirection::Up),
        ScalingDecision::ScaleDown(_) => Some(ScaleDirection::Down),
        ScalingDecision::NoOp => None,
    }
}

impl ReconcilerModel {
    pub open spec fn wf(self) -> bool {
        &&& self.stage != Stage::Sleeping ==> 0 <= self.ns_index < self.namespaces.len()
        &&& (self.stage == Stage::Reading || self.stage == Stage::Writing) ==> 0 <= self.usage_index
            < self.usages.len()
        &&& self.stage == Stage::Writing ==> self.pending != ScalingDecision::NoOp
        &&& forall|k: int| 0 <= k < self.usages.len() ==> #[trigger] self.usages[k].2 > 0
    }

    /// The state in which namespace `k` starts; past the last namespace the tick ends.
    pub open spec fn begin_namespace(self, k: int) -> ReconcilerModel {
        ReconcilerModel {
            namespaces: self.namespaces,
            thresholds: self.thresholds,
            stage: if k < self.namespaces.len() { Stage::Listing } else { Stage::Sleeping },
            ns_index: if k < self.namespaces.len() { k } else { 0 },
            workloads: seq![],
            usages: seq![],
            usage_index: 0,
            pending: ScalingDecision::NoOp,
        }
    }

    /// The state in which workload usage `k` is handled; past the last one the
    /// next namespace starts.
    pub open spec fn next_usage(self, k: int) -> ReconcilerModel {
        if k < self.usages.len() {
            ReconcilerModel { stage: Stage::Reading, usage_index: k, pending: ScalingDecision::NoOp, ..self }
        } else {
            self.begin_namespace(self.ns_index + 1)
        }
    }

    /// The action the caller is asked to perform in this state.
    pub open spec fn action(self) -> ActionModel {
        match self.stage {
            Stage::Listing => ActionModel::ListWorkloads { namespace: self.namespaces[self.ns_index] },
            Stage::Fetching => ActionModel::FetchUsage { namespace: self.namespaces[self.ns_index] },
            Stage::Reading => ActionModel::ReadReplicas {
                namespace: self.namespaces[self.ns_index],
                workload: self.usages[self.usage_index].0,
            },
            Stage::Writing => ActionModel::SetReplicas {
                namespace: self.namespaces[self.ns_index],
                workload: self.usages[self.usage_index].0,
                replicas: target_replicas(self.pending),
            },
            Stage::Sleeping => ActionModel::Sleep { seconds: self.thresholds.interval_secs },
        }
    }

    /// The state after event `e`, and the scale counter to increment. A failed
    /// call abandons the rest of the namespace for this tick; an event that
    /// does not answer the pending action changes nothing.
    pub open spec fn next(self, e: EventModel) -> (ReconcilerModel, Option<ScaleDirection>) {
        match (self.stage, e) {
            (Stage::Listing, EventModel::Listed(names)) => (
                ReconcilerModel { stage: Stage::Fetching, workloads: names, ..self },
                None,
            ),
            (Stage::Fetching, EventModel::Fetched(samples)) => (
                ReconcilerModel {
                    usages: aggregate_model(samples, self.workloads),
                    ..self
                }.next_usage(0),
                None,
            ),
            (Stage::Reading, EventModel::ReplicasRead(read)) => {
                let u = self.usages[self.usage_index];
                let d = plan(read, u.1, u.2, self.thresholds);
                if d == ScalingDecision::NoOp {
                    (self.next_usage(self.usage_index + 1), None)
                } else {
                    (ReconcilerModel { stage: Stage::Writing, pending: d, ..self }, None)
                }
            },
            (Stage::Writing, EventModel::Replaced) => (
                self.next_usage(self.usage_index + 1),
                direction_of(self.pending),
            ),
            (Stage::Listing, EventModel::ListFailed) => (self.begin_namespace(self.ns_index + 1), None),
            (Stage::Fetching, EventModel::FetchFailed) => (self.begin_namespace(self.ns_index + 1), None),
            (Stage::Reading, EventModel::ReadFailed) => (self.begin_namespace(self.ns_index + 1), None),
            (Stage::Writing, EventModel::ReplaceFailed) => (
                self.begin_namespace(self.ns_index + 1),
                None,
            ),
            (Stage::Sleeping, EventModel::Woke) => (self.begin_namespace(0), None),
            _ => (self, None),
        }
    }
}

/// The state in which the first tick starts.
pub open spec fn initial_model(namespaces: Seq<Seq<char>>, thresholds: ScalingThresholds) -> ReconcilerModel {
    let idle = ReconcilerModel {
        namespaces,
        thresholds,
        stage: Stage::Sleeping,
        ns_index: 0,
        workloads: seq![],
        usages: seq![],
        usage_index: 0,
        pending: ScalingDecision::NoOp,
    };
    idle.begin_namespace(0)
}

/// A write is only ever asked for right after a fresh read of the workload's
/// replica count: its target is the policy applied to that read, and when the
/// read count is not negative the target keeps the replica floor.
pub proof fn lemma_write_follows_fresh_read(m: ReconcilerModel, e: EventModel)
    requires
        m.wf(),
        m.stage != Stage::Writing,
        m.next(e).0.stage == Stage::Writing,
    ensures
        m.stage == Stage::Reading,
        e is ReplicasRead,
        m.next(e).0.pending == plan(
            e->ReplicasRead_0,
            m.usages[m.usage_index].1,
            m.usages[m.usage_index].2,
            m.thresholds,
        ),
        replicas_or_default(e->ReplicasRead_0) >= 0 ==> target_replicas(m.next(e).0.pending)
            >= REPLICA_FLOOR,
{
    match (m.stage, e) {
        (Stage::Reading, EventModel::ReplicasRead(read)) => {
            let u = m.usages[m.usage_index];
            if replicas_or_default(read) >= 0 {
                lemma_plan_keeps_floor(read, u.1, u.2, m.thresholds);
            }
        },
        _ => {},
    }
}

/// The scheduler's state: the configured namespaces and thresholds, and the
/// position within the current tick.
pub struct Reconciler {
    pub namespaces: Vec<String>,
    pub thresholds: ScalingThresholds,
    pub stage: Stage,
    pub ns_index: usize,
    pub workloads: Vec<String>,
    pub usages: Vec<WorkloadUsage>,
    pub usage_index: usize,
    pub pending: ScalingDecision,
}

impl View for Reconciler {
    type V = ReconcilerModel;

    open spec fn view(&self) -> ReconcilerModel {
        ReconcilerModel {
            namespaces: names_view(self.namespaces@),
            thresholds: self.thresholds,
            stage: self.stage,
            ns_index: self.ns_index as int,
            workloads: names_view(self.workloads@),
            usages: usages_view(self.usages@),
            usage_index: self.usage_index as int,
            pending: self.pending,
        }
    }
}

impl Reconciler {
    proof fn lemma_lengths(&self)
        ensures
            self@.namespaces.len() == self.namespaces@.len(),
            self@.usages.len() == self.usages@.len(),
            forall|k: int| 0 <= k < self.usages@.len() ==> #[trigger] self@.usages[k] == self.usages@[k]@,
    {
    }

    /// A scheduler at the start of its first tick.
    pub fn new(namespaces: Vec<String>, thresholds: ScalingThresholds) -> (r: Reconciler)
        ensures
            r@ == initial_model(names_view(namespaces@), thresholds),
            r@.wf(),
    {
        let mut r = Reconciler {
            namespaces,
            thresholds,
            stage: Stage::Sleeping,
            ns_index: 0,
            workloads: Vec::new(),
            usages: Vec::new(),
            usage_index: 0,
            pending: ScalingDecision::NoOp,
        };
        r.begin_namespace(0);
        r
    }

    fn begin_namespace(&mut self, k: usize)
        requires
            k <= old(self).namespaces@.len(),
        ensures
            final(self)@ == old(self)@.begin_namespace(k as int),
            final(self)@.wf(),
    {
        if k < self.namespaces.len() {
            self.stage = Stage::Listing;
            self.ns_index = k;
        } else {
            self.stage = Stage::Sleeping;
            self.ns_index = 0;
        }
        self.workloads = Vec::new();
        self.usages = Vec::new();
        self.usage_index = 0;
        self.pending = ScalingDecision::NoOp;
        assert(names_view(self.workloads@) =~= Seq::<Seq<char>>::empty());
        assert(usages_view(self.usages@) =~= Seq::<(Seq<char>, int, int)>::empty());
    }

    fn next_usage(&mut self, k: usize)
        requires
            k <= old(self).usages@.len(),
            old(self).ns_index < old(self).namespaces@.len(),
            forall|j: int| 0 <= j < old(self)@.usages.len() ==> #[trigger] old(self)@.usages[j].2 > 0,
        ensures
            final(self)@ == old(self)@.next_usage(k as int),
            final(self)@.wf(),
    {
        if k < self.usages.len() {
            self.stage = Stage::Reading;
            self.usage_index = k;
            self.pending = ScalingDecision::NoOp;
        } else {
            self.skip_namespace();
        }
    }

    /// Moves on to the workload after the current one.
    fn next_workload(&mut self)
        requires
            old(self).usage_index < old(self).usages@.len(),
            old(self).ns_index < old(self).namespaces@.len(),
            forall|j: int| 0 <= j < old(self)@.usages.len() ==> #[trigger] old(self)@.usages[j].2 > 0,
        ensures
            final(self)@ == old(self)@.next_usage(old(self).usage_index + 1),
            final(self)@.wf(),
    {
        let n = self.usages.len();
        let next = if self.usage_index < n { self.usage_index + 1 } else { n };
        self.next_usage(next);
    }

    /// Moves on to the namespace after the current one.
    fn skip_namespace(&mut self)
        requires
            old(self).ns_index < old(self).namespaces@.len(),
        ensures
            final(self)@ == old(self)@.begin_namespace(old(self).ns_index + 1),
            final(self)@.wf(),
    {
        let n = self.namespaces.len();
        let next = if self.ns_index < n { self.ns_index + 1 } else { n };
        self.begin_namespace(next);
    }

    /// The action the caller is asked to perform now.
    pub fn current_action(&self) -> (r: Action)
        requires
            self@.wf(),
        ensures
            r@ == self@.action(),
    {
        match self.stage {
            Stage::Listing => Action::ListWorkloads { namespace: self.namespaces[self.ns_index].clone() },
            Stage::Fetching => Action::FetchUsage { namespace: self.namespaces[self.ns_index].clone() },
            Stage::Reading => Action::ReadReplicas {
                namespace: self.namespaces[self.ns_index].clone(),
                workload: self.usages[self.usage_index].name.clone(),
            },
            Stage::Writing => {
                let replicas = match self.pending {
                    ScalingDecision::ScaleUp(n) => n,
                    ScalingDecision::ScaleDown(n) => n,
                    ScalingDecision::NoOp => 0,
                };
                Action::SetReplicas {
                    namespace: self.namespaces[self.ns_index].clone(),
                    workload: self.usages[self.usage_index].name.clone(),
                    replicas,
                }
            },
            Stage::Sleeping => Action::Sleep { seconds: self.thresholds.interval_secs },
        }
    }

    /// Takes the outcome of the last action, moves to the next state, and
    /// returns the next action together with the scale counter that a
    /// completed write increments.
    pub fn step(&mut self, event: Event) -> (r: (Action, Option<ScaleDirection>))
        requires
            old(self)@.wf(),
        ensures
            (final(self)@, r.1) == old(self)@.next(event@),
            final(self)@.wf(),
            r.0@ == final(self)@.action(),
    {
        proof {
            self.lemma_lengths();
        }
        let mut counted: Option<ScaleDirection> = None;
        match event {
            Event::Listed(names) => {
                if self.stage == Stage::Listing {
                    self.stage = Stage::Fetching;
                    self.workloads = names;
                }
            },
            Event::Fetched(samples) => {
                if self.stage == Stage::Fetching {
                    self.usages = aggregate(&samples, &self.workloads);
                    self.next_usage(0);
                }
            },
            Event::ReplicasRead(read) => {
                if self.stage == Stage::Reading {
                    let cpu = self.usages[self.usage_index].cpu;
                    let d = plan_scaling(read, cpu, &self.thresholds);
                    if d == ScalingDecision::NoOp {
                        self.next_workload();
                    } else {
                        self.stage = Stage::Writing;
                        self.pending = d;
                    }
                }
            },
            Event::Replaced => {
                if self.stage == Stage::Writing {
                    counted = match self.pending {
                        ScalingDecision::ScaleUp(_) => Some(ScaleDirection::Up),
                        ScalingDecision::ScaleDown(_) => Some(ScaleDirection::Down),
                        ScalingDecision::NoOp => None,
                    };
                    self.next_workload();
                }
            },
            Event::ListFailed => {
                if self.stage == Stage::Listing {
                    self.skip_namespace();
                }
            },
            Event::FetchFailed => {
                if self.stage == Stage::Fetching {
                    self.skip_namespace();
                }
            },
            Event::ReadFailed => {
                if self.stage == Stage::Reading {
                    self.skip_namespace();
                }
            },
            Event::ReplaceFailed => {
                if self.stage == Stage::Writing {
                    self.skip_namespace();
                }
            },
            Event::Woke => {
                if self.stage == Stage::Sleeping {
                    self.begin_namespace(0);
                }
            },
        }
        (self.current_action(), counted)
    }
}

} // verus!
