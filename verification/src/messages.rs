use vstd::prelude::*;

use crate::status::{status_eq, EntityId, MainStatuses, Status, StatusType};
use crate::statuses::{
    spec_add_poison, spec_apply_secondary, spec_apply_stun, spec_remove_classified,
    spec_remove_main, spec_switch_mounted, Statuses, DEFAULT_POISON_DURATION_MILLIS,
};
use crate::time::ElapsedTime;

verus! {

/// What an apply message carries: a main kind identifier, or a fully
/// built secondary effect instance.
pub enum ApplyStatusComponentPayload {
    MainStatus(MainStatuses),
    SecondaryStatus(Status),
}

/// Deep equality of two apply payloads.
pub open spec fn payload_eq(a: ApplyStatusComponentPayload, b: ApplyStatusComponentPayload) -> bool {
    match (a, b) {
        (
            ApplyStatusComponentPayload::MainStatus(m1),
            ApplyStatusComponentPayload::MainStatus(m2),
        ) => m1 == m2,
        (
            ApplyStatusComponentPayload::SecondaryStatus(s1),
            ApplyStatusComponentPayload::SecondaryStatus(s2),
        ) => status_eq(s1, s2),
        _ => false,
    }
}

/// Well-formedness of the effect a payload carries.
pub open spec fn payload_wf(p: ApplyStatusComponentPayload) -> bool {
    match p {
        ApplyStatusComponentPayload::MainStatus(_) => true,
        ApplyStatusComponentPayload::SecondaryStatus(s) => s.wf(),
    }
}

impl ApplyStatusComponentPayload {
    pub fn from_main_status(m: MainStatuses) -> (r: ApplyStatusComponentPayload)
        ensures
            r == ApplyStatusComponentPayload::MainStatus(m),
    {
        ApplyStatusComponentPayload::MainStatus(m)
    }

    pub fn from_secondary(status: Status) -> (r: ApplyStatusComponentPayload)
        ensures
            r == ApplyStatusComponentPayload::SecondaryStatus(status),
    {
        ApplyStatusComponentPayload::SecondaryStatus(status)
    }

    /// An independent deep copy: a duplicated secondary payload shares no
    /// mutable state with its origin.
    pub fn duplicate(&self) -> (r: ApplyStatusComponentPayload)
        ensures
            payload_eq(r, *self),
            payload_wf(r) == payload_wf(*self),
    {
        match self {
            ApplyStatusComponentPayload::MainStatus(m) => ApplyStatusComponentPayload::MainStatus(
                *m,
            ),
            ApplyStatusComponentPayload::SecondaryStatus(s) => {
                ApplyStatusComponentPayload::SecondaryStatus(s.dupl())
            },
        }
    }
}

/// Pending request to apply an effect to one target.
pub struct ApplyStatusComponent {
    pub source_entity_id: EntityId,
    pub target_entity_id: EntityId,
    pub status: ApplyStatusComponentPayload,
}

impl ApplyStatusComponent {
    pub fn from_main_status(
        source_entity_id: EntityId,
        target_entity_id: EntityId,
        m: MainStatuses,
    ) -> (r: ApplyStatusComponent)
        ensures
            r.source_entity_id == source_entity_id,
            r.target_entity_id == target_entity_id,
            r.status == ApplyStatusComponentPayload::MainStatus(m),
    {
        ApplyStatusComponent {
            source_entity_id,
            target_entity_id,
            status: ApplyStatusComponentPayload::MainStatus(m),
        }
    }

    pub fn from_secondary_status(
        source_entity_id: EntityId,
        target_entity_id: EntityId,
        status: Status,
    ) -> (r: ApplyStatusComponent)
        ensures
            r.source_entity_id == source_entity_id,
            r.target_entity_id == target_entity_id,
            r.status == ApplyStatusComponentPayload::SecondaryStatus(status),
    {
        ApplyStatusComponent {
            source_entity_id,
            target_entity_id,
            status: ApplyStatusComponentPayload::SecondaryStatus(status),
        }
    }
}

/// Pending request to apply an effect to every character inside an area,
/// except one named entity (typically the caster). The collision shape
/// and pose live with the caller: the engine only consumes the verdicts
/// of the shape test, one per candidate.
pub struct ApplyStatusInAreaComponent {
    pub source_entity_id: EntityId,
    pub status: ApplyStatusComponentPayload,
    pub except: Option<EntityId>,
}

/// What a remove message carries: a main kind identifier, or the
/// classification whose secondary effects are all to go.
pub enum RemoveStatusComponentPayload {
    MainStatus(MainStatuses),
    SecondaryStatus(StatusType),
}

/// Pending request to remove effects from one target.
pub struct RemoveStatusComponent {
    pub source_entity_id: EntityId,
    pub target_entity_id: EntityId,
    pub status: RemoveStatusComponentPayload,
}

impl RemoveStatusComponent {
    pub fn from_main_status(
        source_entity_id: EntityId,
        target_entity_id: EntityId,
        m: MainStatuses,
    ) -> (r: RemoveStatusComponent)
        ensures
            r.source_entity_id == source_entity_id,
            r.target_entity_id == target_entity_id,
            r.status == RemoveStatusComponentPayload::MainStatus(m),
    {
        RemoveStatusComponent {
            source_entity_id,
            target_entity_id,
            status: RemoveStatusComponentPayload::MainStatus(m),
        }
    }

    pub fn from_secondary_status(
        source_entity_id: EntityId,
        target_entity_id: EntityId,
        status_type: StatusType,
    ) -> (r: RemoveStatusComponent)
        ensures
            r.source_entity_id == source_entity_id,
            r.target_entity_id == target_entity_id,
            r.status == RemoveStatusComponentPayload::SecondaryStatus(status_type),
    {
        RemoveStatusComponent {
            source_entity_id,
            target_entity_id,
            status: RemoveStatusComponentPayload::SecondaryStatus(status_type),
        }
    }
}

/// Transition an apply message causes on its target's set: Mounted
/// toggles, Stun writes a fresh instance, Poison merges into the reserved
/// slot with the default duration, a secondary payload goes through the
/// stacking policy.
pub open spec fn spec_apply_status(
    pre: Statuses,
    post: Statuses,
    source: EntityId,
    payload: ApplyStatusComponentPayload,
    now: ElapsedTime,
) -> bool {
    match payload {
        ApplyStatusComponentPayload::MainStatus(m) => match m {
            MainStatuses::Mounted => spec_switch_mounted(pre, post),
            MainStatuses::Stun => spec_apply_stun(pre, post),
            MainStatuses::Poison => spec_add_poison(
                pre,
                post,
                source,
                now,
                ElapsedTime((now.0 + DEFAULT_POISON_DURATION_MILLIS) as u32),
            ),
        },
        ApplyStatusComponentPayload::SecondaryStatus(s) => spec_apply_secondary(pre, post, s),
    }
}

/// Applies one status message to its target's set.
pub fn apply_status(target: &mut Statuses, msg: ApplyStatusComponent, now: ElapsedTime)
    requires
        old(target).wf(),
        payload_wf(msg.status),
        now.0 + DEFAULT_POISON_DURATION_MILLIS <= u32::MAX,
    ensures
        final(target).wf(),
        spec_apply_status(*old(target), *final(target), msg.source_entity_id, msg.status, now),
{
    match msg.status {
        ApplyStatusComponentPayload::MainStatus(m) => match m {
            MainStatuses::Mounted => target.switch_mounted(),
            MainStatuses::Stun => target.apply_stun(),
            MainStatuses::Poison => target.add_poison(
                msg.source_entity_id,
                now,
                ElapsedTime(now.0 + DEFAULT_POISON_DURATION_MILLIS),
            ),
        },
        ApplyStatusComponentPayload::SecondaryStatus(s) => target.apply_secondary_status(s),
    }
}

/// Transition a remove message causes on its target's set.
pub open spec fn spec_remove_status(
    pre: Statuses,
    post: Statuses,
    payload: RemoveStatusComponentPayload,
) -> bool {
    match payload {
        RemoveStatusComponentPayload::MainStatus(m) => spec_remove_main(pre, post, m),
        RemoveStatusComponentPayload::SecondaryStatus(t) => spec_remove_classified(pre, post, t),
    }
}

/// Applies one remove message to its target's set; removing what is not
/// there is a valid no-op.
pub fn remove_status(target: &mut Statuses, msg: RemoveStatusComponent)
    requires
        old(target).wf(),
    ensures
        final(target).wf(),
        spec_remove_status(*old(target), *final(target), msg.status),
{
    match msg.status {
        RemoveStatusComponentPayload::MainStatus(m) => target.remove_main_status(m),
        RemoveStatusComponentPayload::SecondaryStatus(t) => target.remove(t),
    }
}

/// One candidate for an area application: a character entity and the
/// verdict of the collision test for its position.
#[derive(Clone, Copy, PartialEq, Eq, Structural, Debug)]
pub struct AreaCandidate {
    pub entity_id: EntityId,
    pub inside_area: bool,
}

/// Whether an area application reaches this candidate: it must stand
/// inside the shape and not be the excluded entity.
pub open spec fn area_covers(c: AreaCandidate, except: Option<EntityId>) -> bool {
    c.inside_area && except != Some(c.entity_id)
}

/// The targets an area application resolves to, in candidate order.
pub open spec fn area_targets_spec(
    candidates: Seq<AreaCandidate>,
    except: Option<EntityId>,
) -> Seq<EntityId>
    decreases candidates.len(),
{
    if candidates.len() == 0 {
        Seq::empty()
    } else {
        area_targets_spec(candidates.drop_last(), except) + if area_covers(
            candidates.last(),
            except,
        ) {
            seq![candidates.last().entity_id]
        } else {
            Seq::empty()
        }
    }
}

/// Resolves the targets of an area message from the collision verdicts.
pub fn resolve_area_targets(
    msg: &ApplyStatusInAreaComponent,
    candidates: &Vec<AreaCandidate>,
) -> (targets: Vec<EntityId>)
    ensures
        targets@ == area_targets_spec(candidates@, msg.except),
{
    let mut targets: Vec<EntityId> = Vec::new();
    let mut i: usize = 0;
    while i < candidates.len()
        invariant
            i <= candidates@.len(),
            targets@ == area_targets_spec(candidates@.take(i as int), msg.except),
        decreases candidates@.len() - i,
    {
        let c = candidates[i];
        let covered = c.inside_area && match msg.except {
            Some(e) => e != c.entity_id,
            None => true,
        };
        if covered {
            targets.push(c.entity_id);
        }
        proof {
            assert(candidates@.take(i as int + 1).drop_last() == candidates@.take(i as int));
            assert(candidates@.take(i as int + 1).last() == candidates@[i as int]);
        }
        i = i + 1;
    }
    proof {
        assert(candidates@.take(candidates@.len() as int) == candidates@);
    }
    targets
}

/// Resolves an area message into one single-target apply message per
/// covered candidate, each carrying an independent copy of the payload.
pub fn apply_status_in_area(
    msg: &ApplyStatusInAreaComponent,
    candidates: &Vec<AreaCandidate>,
) -> (msgs: Vec<ApplyStatusComponent>)
    ensures
        msgs@.len() == area_targets_spec(candidates@, msg.except).len(),
        forall|k: int|
            0 <= k < msgs@.len() ==> {
                &&& (#[trigger] msgs@[k]).source_entity_id == msg.source_entity_id
                &&& msgs@[k].target_entity_id == area_targets_spec(candidates@, msg.except)[k]
                &&& payload_eq(msgs@[k].status, msg.status)
                &&& payload_wf(msgs@[k].status) == payload_wf(msg.status)
            },
{
    let targets = resolve_area_targets(msg, candidates);
    let mut msgs: Vec<ApplyStatusComponent> = Vec::new();
    let mut i: usize = 0;
    while i < targets.len()
        invariant
            i <= targets@.len(),
            targets@ == area_targets_spec(candidates@, msg.except),
            msgs@.len() == i,
            forall|k: int|
                0 <= k < i ==> {
                    &&& (#[trigger] msgs@[k]).source_entity_id == msg.source_entity_id
                    &&& msgs@[k].target_entity_id == targets@[k]
                    &&& payload_eq(msgs@[k].status, msg.status)
                    &&& payload_wf(msgs@[k].status) == payload_wf(msg.status)
                },
        decreases targets@.len() - i,
    {
        let payload = msg.status.duplicate();
        let m = ApplyStatusComponent {
            source_entity_id: msg.source_entity_id,
            target_entity_id: targets[i],
            status: payload,
        };
        msgs.push(m);
        i = i + 1;
    }
    msgs
}

/// Law: when the only candidate inside the shape is the excluded entity,
/// an area application resolves to no targets at all.
pub proof fn lemma_area_exclusion_sole_inside(candidates: Seq<AreaCandidate>, excluded: EntityId)
    requires
        forall|k: int|
            0 <= k < candidates.len() ==> ((#[trigger] candidates[k]).inside_area
                ==> candidates[k].entity_id == excluded),
    ensures
        area_targets_spec(candidates, Some(excluded)) == Seq::<EntityId>::empty(),
    decreases candidates.len(),
{
    if candidates.len() > 0 {
        let prefix = candidates.drop_last();
        assert forall|k: int|
            0 <= k < prefix.len() && (#[trigger] prefix[k]).inside_area
            implies prefix[k].entity_id == excluded by {
            assert(prefix[k] == candidates[k]);
        }
        lemma_area_exclusion_sole_inside(prefix, excluded);
        assert(!area_covers(candidates.last(), Some(excluded)));
        assert(area_targets_spec(candidates, Some(excluded)) =~= Seq::<EntityId>::empty());
    }
}

} // verus!
