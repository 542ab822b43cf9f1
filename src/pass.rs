use vstd::prelude::*;

use crate::records::{
    CloudFlareDNSListResponseResult, CloudFlareUpdateDNSRequest, Protocol, UpdateRequestView,
    UpdateTarget,
};
use crate::reconcile::{pending_updates, planned_updates};

verus! {

/// Where a pass stands.
#[derive(Debug, Clone, Copy, PartialEq, Eq, Structural)]
pub enum PassStage {
    /// The current address is not known yet.
    ResolvingIp,
    /// The records of the current target are to be listed.
    Listing,
    /// The current target's pending updates are being issued.
    Updating,
    /// Every target has been reconciled.
    Finished,
    /// The address or a listing could not be had; nothing more is done.
    Aborted,
}

/// The outcome of the network call that a pass asked for.
#[derive(Debug, Clone)]
pub enum PassEvent {
    IpResolved(String),
    IpFailed,
    RecordsListed(Vec<CloudFlareDNSListResponseResult>),
    ListFailed,
    UpdateSucceeded,
    UpdateFailed,
}

/// What the runner of a pass is to do next.
#[derive(Debug, Clone)]
pub enum PassAction {
    /// Find the current public address.
    ResolveIp,
    /// List the records of a zone with the given type and name.
    ListRecords { zone_id: String, record_type: Protocol, domain: String },
    /// Send an update of one record of a zone.
    UpdateRecord { zone_id: String, request: CloudFlareUpdateDNSRequest },
    /// The pass is over.
    Finished,
    /// The pass was given up.
    Aborted,
}

/// One reconciliation of every target against one resolved address.
pub struct ReconcilePass {
    targets: Vec<UpdateTarget>,
    address: String,
    stage: PassStage,
    target_index: usize,
    pending: Vec<CloudFlareUpdateDNSRequest>,
    pending_index: usize,
}

/// The state of a pass as values.
pub struct PassView {
    pub targets: Seq<UpdateTarget>,
    pub address: Seq<char>,
    pub stage: PassStage,
    pub target_index: int,
    pub pending: Seq<UpdateRequestView>,
    pub pending_index: int,
}

impl View for ReconcilePass {
    type V = PassView;

    closed spec fn view(&self) -> PassView {
        PassView {
            targets: self.targets@,
            address: self.address@,
            stage: self.stage,
            target_index: self.target_index as int,
            pending: self.pending@.map_values(|q: CloudFlareUpdateDNSRequest| q@),
            pending_index: self.pending_index as int,
        }
    }
}

/// The state in which a pass starts.
pub open spec fn initial(targets: Seq<UpdateTarget>) -> PassView {
    PassView {
        targets,
        address: Seq::empty(),
        stage: PassStage::ResolvingIp,
        target_index: 0,
        pending: Seq::empty(),
        pending_index: 0,
    }
}

/// Moves on to target `i`, or finishes when there is none.
pub open spec fn enter_target(s: PassView, i: int) -> PassView {
    PassView {
        stage: if i < s.targets.len() { PassStage::Listing } else { PassStage::Finished },
        target_index: i,
        pending: Seq::empty(),
        pending_index: 0,
        ..s
    }
}

/// Gives the pass up.
pub open spec fn abort(s: PassView) -> PassView {
    PassView { stage: PassStage::Aborted, ..s }
}

/// The state that follows `s` on event `e`. An event that does not answer
/// the stage's call leaves the state as it is.
pub open spec fn step(s: PassView, e: PassEvent) -> PassView {
    match s.stage {
        PassStage::ResolvingIp => match e {
            PassEvent::IpResolved(a) => enter_target(PassView { address: a@, ..s }, 0),
            PassEvent::IpFailed => abort(s),
            _ => s,
        },
        PassStage::Listing => match e {
            PassEvent::RecordsListed(rs) => {
                let p = planned_updates(s.address, s.targets[s.target_index], rs@);
                if p.len() == 0 {
                    enter_target(s, s.target_index + 1)
                } else {
                    PassView { stage: PassStage::Updating, pending: p, pending_index: 0, ..s }
                }
            },
            PassEvent::ListFailed => abort(s),
            _ => s,
        },
        PassStage::Updating => match e {
            PassEvent::UpdateSucceeded | PassEvent::UpdateFailed => {
                if s.pending_index + 1 < s.pending.len() {
                    PassView { pending_index: s.pending_index + 1, ..s }
                } else {
                    enter_target(s, s.target_index + 1)
                }
            },
            _ => s,
        },
        PassStage::Finished | PassStage::Aborted => s,
    }
}

/// The state after the events `es`, in order, starting from `s`.
pub open spec fn run(s: PassView, es: Seq<PassEvent>) -> PassView
    decreases es.len(),
{
    if es.len() == 0 {
        s
    } else {
        step(run(s, es.drop_last()), es.last())
    }
}

/// Whether `a` is the action that state `s` calls for.
pub open spec fn calls_for(s: PassView, a: PassAction) -> bool {
    match s.stage {
        PassStage::ResolvingIp => a is ResolveIp,
        PassStage::Listing => {
            let t = s.targets[s.target_index];
            match a {
                PassAction::ListRecords { zone_id, record_type, domain } => zone_id@
                    == t.zone_id@ && record_type == t.record_type && domain@ == t.domain@,
                _ => false,
            }
        },
        PassStage::Updating => match a {
            PassAction::UpdateRecord { zone_id, request } => zone_id@
                == s.targets[s.target_index].zone_id@ && request@ == s.pending[s.pending_index],
            _ => false,
        },
        PassStage::Finished => a is Finished,
        PassStage::Aborted => a is Aborted,
    }
}

/// The states that a pass can be in.
pub open spec fn well_formed(s: PassView) -> bool {
    &&& 0 <= s.target_index <= s.targets.len()
    &&& 0 <= s.pending_index
    &&& (s.stage is Listing ==> s.target_index < s.targets.len())
    &&& (s.stage is Updating ==> s.target_index < s.targets.len() && s.pending_index
        < s.pending.len())
}

impl ReconcilePass {
    pub open spec fn wf(&self) -> bool {
        well_formed(self@)
    }

    /// A pass over `targets`, in their order, that has not started.
    pub fn new(targets: Vec<UpdateTarget>) -> (p: Self)
        ensures
            p.wf(),
            p@ == initial(targets@),
    {
        let p = ReconcilePass {
            targets,
            address: String::new(),
            stage: PassStage::ResolvingIp,
            target_index: 0,
            pending: Vec::new(),
            pending_index: 0,
        };
        assert(p@.pending =~= Seq::<UpdateRequestView>::empty());
        p
    }

    /// Where the pass stands.
    pub fn stage(&self) -> (r: PassStage)
        ensures
            r == self@.stage,
    {
        self.stage
    }

    /// The action that the pass calls for now.
    pub fn next_action(&self) -> (a: PassAction)
        requires
            self.wf(),
        ensures
            calls_for(self@, a),
    {
        match self.stage {
            PassStage::ResolvingIp => PassAction::ResolveIp,
            PassStage::Listing => {
                let t = &self.targets[self.target_index];
                PassAction::ListRecords {
                    zone_id: t.zone_id.clone(),
                    record_type: t.record_type,
                    domain: t.domain.clone(),
                }
            },
            PassStage::Updating => {
                let t = &self.targets[self.target_index];
                let q = &self.pending[self.pending_index];
                PassAction::UpdateRecord {
                    zone_id: t.zone_id.clone(),
                    request: CloudFlareUpdateDNSRequest {
                        content: q.content.clone(),
                        name: q.name.clone(),
                        ttype: q.ttype.clone(),
                        id: q.id.clone(),
                    },
                }
            },
            PassStage::Finished => PassAction::Finished,
            PassStage::Aborted => PassAction::Aborted,
        }
    }

    fn enter_target(&mut self, i: usize)
        requires
            i <= old(self)@.targets.len(),
        ensures
            final(self)@ == enter_target(old(self)@, i as int),
            final(self).wf(),
    {
        self.stage = if i < self.targets.len() {
            PassStage::Listing
        } else {
            PassStage::Finished
        };
        self.target_index = i;
        self.pending = Vec::new();
        self.pending_index = 0;
        assert(self@.pending =~= Seq::<UpdateRequestView>::empty());
    }

    /// Takes in the outcome of the last action.
    pub fn handle(&mut self, e: PassEvent)
        requires
            old(self).wf(),
        ensures
            final(self).wf(),
            final(self)@ == step(old(self)@, e),
    {
        match self.stage {
            PassStage::ResolvingIp => match e {
                PassEvent::IpResolved(a) => {
                    self.address = a;
                    self.enter_target(0);
                },
                PassEvent::IpFailed => {
                    self.stage = PassStage::Aborted;
                },
                _ => {},
            },
            PassStage::Listing => match e {
                PassEvent::RecordsListed(rs) => {
                    let p = pending_updates(&self.address, &self.targets[self.target_index], &rs);
                    if p.len() == 0 {
                        assert(self.target_index < self.targets.len());
                        let next = self.target_index + 1;
                        self.enter_target(next);
                    } else {
                        self.pending = p;
                        self.pending_index = 0;
                        self.stage = PassStage::Updating;
                    }
                },
                PassEvent::ListFailed => {
                    self.stage = PassStage::Aborted;
                },
                _ => {},
            },
            PassStage::Updating => match e {
                PassEvent::UpdateSucceeded | PassEvent::UpdateFailed => {
                    if self.pending_index < self.pending.len() - 1 {
                        self.pending_index = self.pending_index + 1;
                    } else {
                        assert(self.target_index < self.targets.len());
                        let next = self.target_index + 1;
                        self.enter_target(next);
                    }
                },
                _ => {},
            },
            PassStage::Finished | PassStage::Aborted => {},
        }
    }
}

/// Whether an update succeeded or failed makes no difference to the pass:
/// the same state follows either way, so the remaining records of the target
/// and the later targets are handled alike after any sequence of events.
pub proof fn lemma_update_outcome_irrelevant(s: PassView, es: Seq<PassEvent>)
    requires
        well_formed(s),
        s.stage is Updating,
    ensures
        step(s, PassEvent::UpdateFailed) == step(s, PassEvent::UpdateSucceeded),
        run(step(s, PassEvent::UpdateFailed), es) == run(step(s, PassEvent::UpdateSucceeded), es),
        step(s, PassEvent::UpdateFailed) == (if s.pending_index + 1 < s.pending.len() {
            PassView { pending_index: s.pending_index + 1, ..s }
        } else {
            enter_target(s, s.target_index + 1)
        }),
{
}

/// A pass whose address could not be resolved is given up before any target
/// is looked at: whatever events follow, it stays aborted and calls for no
/// listing and no update.
pub proof fn lemma_ip_failure_updates_nothing(targets: Seq<UpdateTarget>, es: Seq<PassEvent>)
    ensures
        run(step(initial(targets), PassEvent::IpFailed), es).stage == PassStage::Aborted,
        forall|a: PassAction|
            calls_for(run(step(initial(targets), PassEvent::IpFailed), es), a) ==> a is Aborted,
    decreases es.len(),
{
    if es.len() > 0 {
        lemma_ip_failure_updates_nothing(targets, es.drop_last());
    }
}

/// Every step keeps a pass in a state that it can be in.
pub proof fn lemma_step_well_formed(s: PassView, e: PassEvent)
    requires
        well_formed(s),
    ensures
        well_formed(step(s, e)),
{
}

} // verus!
