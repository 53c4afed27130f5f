use vstd::prelude::*;

use crate::status::{
    emitted_attacks, main_status_slot, update_removes, updated_status, AttackComponent,
    AttackType, EntityId, MainStatuses, MountedStatus, PoisonStatus, Status,
    MAIN_STATUSES_COUNT, POISON_TICK_DAMAGE,
};
use crate::statuses::{
    best_completion, completion_at, spec_add, spec_add_poison, spec_remove_all,
    spec_switch_mounted, Statuses, STATUS_ARRAY_SIZE,
};
use crate::time::ElapsedTime;

verus! {

/// Number of occupied slots of `slots` with index in `[from, to)`.
pub open spec fn count_some_range(slots: Seq<Option<Status>>, from: int, to: int) -> int
    decreases to - from,
{
    if to <= from {
        0
    } else {
        count_some_range(slots, from, to - 1) + if slots[to - 1] is Some {
            1int
        } else {
            0int
        }
    }
}

/// Number of active secondary slots of a set.
pub open spec fn secondary_count(s: Statuses) -> int {
    count_some_range(s.slots(), MAIN_STATUSES_COUNT as int, s.first_free())
}

proof fn lemma_count_some_congruent(
    a: Seq<Option<Status>>,
    b: Seq<Option<Status>>,
    from: int,
    to: int,
)
    requires
        forall|j: int| from <= j < to ==> a[j] == b[j],
    ensures
        count_some_range(a, from, to) == count_some_range(b, from, to),
    decreases to - from,
{
    if to > from {
        lemma_count_some_congruent(a, b, from, to - 1);
    }
}

proof fn lemma_count_some_all_none(slots: Seq<Option<Status>>, from: int, to: int)
    requires
        forall|j: int| from <= j < to ==> #[trigger] slots[j] is None,
    ensures
        count_some_range(slots, from, to) == 0,
    decreases to - from,
{
    if to > from {
        lemma_count_some_all_none(slots, from, to - 1);
    }
}

/// One step of a scripted secondary-slot exercise: a plain append, or a
/// full reset.
pub enum StatusSetOp {
    AddStatus(Status),
    RemoveAllStatuses,
}

/// Whether `op` carries `pre` to `post`.
pub open spec fn op_step(pre: Statuses, post: Statuses, op: StatusSetOp) -> bool {
    match op {
        StatusSetOp::AddStatus(s) => spec_add(pre, post, s),
        StatusSetOp::RemoveAllStatuses => spec_remove_all(pre, post),
    }
}

/// The secondary-slot count a script of operations is owed: each add one
/// more, each reset back to zero.
pub open spec fn net_secondary_count(c0: int, ops: Seq<StatusSetOp>) -> int
    decreases ops.len(),
{
    if ops.len() == 0 {
        c0
    } else {
        match ops.last() {
            StatusSetOp::AddStatus(_) => net_secondary_count(c0, ops.drop_last()) + 1,
            StatusSetOp::RemoveAllStatuses => 0,
        }
    }
}

proof fn lemma_add_step_count(pre: Statuses, post: Statuses, s: Status)
    requires
        pre.shape_wf(),
        pre.first_free() < STATUS_ARRAY_SIZE,
        spec_add(pre, post, s),
    ensures
        post.shape_wf(),
        secondary_count(post) == secondary_count(pre) + 1,
{
    lemma_count_some_congruent(
        post.slots(),
        pre.slots(),
        MAIN_STATUSES_COUNT as int,
        pre.first_free(),
    );
}

proof fn lemma_remove_all_step_count(pre: Statuses, post: Statuses)
    requires
        pre.shape_wf(),
        spec_remove_all(pre, post),
    ensures
        post.shape_wf(),
        secondary_count(post) == 0,
{
    lemma_count_some_all_none(post.slots(), MAIN_STATUSES_COUNT as int, post.first_free());
}

/// Law: over any script of within-capacity adds and full resets, the
/// number of active secondary slots ends at the net of the script, and
/// the high-water mark never exceeds the slot limit.
///
/// `states` is the trajectory: `states[k]` is the set before `ops[k]`.
pub proof fn lemma_add_remove_all_net_count(states: Seq<Statuses>, ops: Seq<StatusSetOp>)
    requires
        states.len() == ops.len() + 1,
        states[0].shape_wf(),
        forall|k: int| 0 <= k < ops.len() ==> #[trigger] op_step(states[k], states[k + 1], ops[k]),
        forall|k: int|
            0 <= k < ops.len() ==> ((#[trigger] ops[k]) is AddStatus ==> states[k].first_free()
                < STATUS_ARRAY_SIZE),
    ensures
        forall|k: int| 0 <= k < states.len() ==> (#[trigger] states[k]).shape_wf(),
        forall|k: int|
            0 <= k < states.len() ==> (#[trigger] states[k]).first_free() <= STATUS_ARRAY_SIZE,
        secondary_count(states.last()) == net_secondary_count(secondary_count(states[0]), ops),
    decreases ops.len(),
{
    if ops.len() == 0 {
        assert(states.last() == states[0]);
    } else {
        let n = ops.len() as int;
        let prefix_states = states.drop_last();
        let prefix_ops = ops.drop_last();
        assert forall|k: int|
            0 <= k < prefix_ops.len() implies #[trigger] op_step(
            prefix_states[k],
            prefix_states[k + 1],
            prefix_ops[k],
        ) by {
            assert(prefix_states[k] == states[k]);
            assert(prefix_states[k + 1] == states[k + 1]);
            assert(prefix_ops[k] == ops[k]);
        }
        assert forall|k: int|
            0 <= k < prefix_ops.len() && (#[trigger] prefix_ops[k]) is AddStatus
            implies prefix_states[k].first_free() < STATUS_ARRAY_SIZE by {
            assert(prefix_states[k] == states[k]);
            assert(prefix_ops[k] == ops[k]);
        }
        assert(prefix_states[0] == states[0]);
        lemma_add_remove_all_net_count(prefix_states, prefix_ops);
        assert(prefix_states.last() == states[n - 1]);
        assert(op_step(states[n - 1], states[n], ops[n - 1]));
        match ops[n - 1] {
            StatusSetOp::AddStatus(s) => {
                lemma_add_step_count(states[n - 1], states[n], s);
            },
            StatusSetOp::RemoveAllStatuses => {
                lemma_remove_all_step_count(states[n - 1], states[n]);
            },
        }
        assert forall|k: int| 0 <= k < states.len() implies (#[trigger] states[k]).shape_wf() by {
            if k < n {
                assert(prefix_states[k] == states[k]);
            }
        }
    }
}

/// Number of poison instances among the slots below `n`.
pub open spec fn poison_count(slots: Seq<Option<Status>>, n: int) -> int
    decreases n,
{
    if n <= 0 {
        0
    } else {
        poison_count(slots, n - 1) + if slots[n - 1] matches Some(s) && s is Poison {
            1int
        } else {
            0int
        }
    }
}

proof fn lemma_poison_count_single_update(
    a: Seq<Option<Status>>,
    b: Seq<Option<Status>>,
    n: int,
    idx: int,
)
    requires
        0 <= idx < n,
        forall|j: int| 0 <= j < n && j != idx ==> a[j] == b[j],
        !(a[idx] matches Some(s) && s is Poison),
        b[idx] matches Some(s) && s is Poison,
    ensures
        poison_count(b, n) == poison_count(a, n) + 1,
    decreases n,
{
    if idx == n - 1 {
        lemma_poison_count_congruent(a, b, n - 1);
    } else {
        lemma_poison_count_single_update(a, b, n - 1, idx);
    }
}

proof fn lemma_poison_count_congruent(a: Seq<Option<Status>>, b: Seq<Option<Status>>, n: int)
    requires
        forall|j: int| 0 <= j < n ==> a[j] == b[j],
    ensures
        poison_count(a, n) == poison_count(b, n),
    decreases n,
{
    if n > 0 {
        lemma_poison_count_congruent(a, b, n - 1);
    }
}

/// Law: reapplying poison merges into the single reserved slot. The
/// resulting expiry is the later of the two requested expiries — a
/// reapplication extends and never shortens — while caster, start and
/// next tick are taken from the latest application. No second poison
/// instance appears anywhere.
pub proof fn lemma_poison_reapply_merges(
    s0: Statuses,
    s1: Statuses,
    s2: Statuses,
    caster1: EntityId,
    caster2: EntityId,
    started1: ElapsedTime,
    started2: ElapsedTime,
    until1: ElapsedTime,
    until2: ElapsedTime,
)
    requires
        s0.slots().len() == STATUS_ARRAY_SIZE,
        s0.slots()[main_status_slot(MainStatuses::Poison)] is None,
        poison_count(s0.slots(), STATUS_ARRAY_SIZE as int) == 0,
        spec_add_poison(s0, s1, caster1, started1, until1),
        spec_add_poison(s1, s2, caster2, started2, until2),
    ensures
        s2.slots()[main_status_slot(MainStatuses::Poison)] == Some(
            Status::Poison(
                PoisonStatus {
                    poison_caster_entity_id: caster2,
                    started: started2,
                    until: if until1.0 >= until2.0 {
                        until1
                    } else {
                        until2
                    },
                    next_damage_at: ElapsedTime((started2.0 + 1000) as u32),
                },
            ),
        ),
        poison_count(s2.slots(), STATUS_ARRAY_SIZE as int) == 1,
        forall|i: int|
            0 <= i < STATUS_ARRAY_SIZE && i != main_status_slot(MainStatuses::Poison)
                ==> #[trigger] s2.slots()[i] == s0.slots()[i],
{
    lemma_poison_count_single_update(
        s0.slots(),
        s2.slots(),
        STATUS_ARRAY_SIZE as int,
        main_status_slot(MainStatuses::Poison),
    );
}

/// Law: applying poison until `t1`, then again until a later `t2`,
/// leaves one poison whose expiry is `t2`.
pub proof fn lemma_poison_reapply_extends(
    s0: Statuses,
    s1: Statuses,
    s2: Statuses,
    caster1: EntityId,
    caster2: EntityId,
    started1: ElapsedTime,
    started2: ElapsedTime,
    t1: ElapsedTime,
    t2: ElapsedTime,
)
    requires
        s0.slots().len() == STATUS_ARRAY_SIZE,
        s0.slots()[main_status_slot(MainStatuses::Poison)] is None,
        poison_count(s0.slots(), STATUS_ARRAY_SIZE as int) == 0,
        spec_add_poison(s0, s1, caster1, started1, t1),
        spec_add_poison(s1, s2, caster2, started2, t2),
        t1.0 < t2.0,
    ensures
        s2.slots()[main_status_slot(MainStatuses::Poison)] matches Some(s) && s matches
            Status::Poison(p) && p.until == t2,
        poison_count(s2.slots(), STATUS_ARRAY_SIZE as int) == 1,
{
    lemma_poison_reapply_merges(
        s0,
        s1,
        s2,
        caster1,
        caster2,
        started1,
        started2,
        t1,
        t2,
    );
}

/// Law: applying poison until `t2`, then again until an earlier `t1`,
/// leaves the expiry at `t2` — a merge never shortens the remaining
/// duration.
pub proof fn lemma_poison_reapply_never_shortens(
    s0: Statuses,
    s1: Statuses,
    s2: Statuses,
    caster1: EntityId,
    caster2: EntityId,
    started1: ElapsedTime,
    started2: ElapsedTime,
    t1: ElapsedTime,
    t2: ElapsedTime,
)
    requires
        s0.slots().len() == STATUS_ARRAY_SIZE,
        s0.slots()[main_status_slot(MainStatuses::Poison)] is None,
        poison_count(s0.slots(), STATUS_ARRAY_SIZE as int) == 0,
        spec_add_poison(s0, s1, caster1, started1, t2),
        spec_add_poison(s1, s2, caster2, started2, t1),
        t1.0 < t2.0,
    ensures
        s2.slots()[main_status_slot(MainStatuses::Poison)] matches Some(s) && s matches
            Status::Poison(p) && p.until == t2,
        poison_count(s2.slots(), STATUS_ARRAY_SIZE as int) == 1,
{
    lemma_poison_reapply_merges(
        s0,
        s1,
        s2,
        caster1,
        caster2,
        started1,
        started2,
        t2,
        t1,
    );
}

/// Law: toggling the Mounted slot twice returns the set to where it
/// started; one toggle while mounted removes the status (that single-call
/// half is `spec_switch_mounted` itself).
pub proof fn lemma_switch_mounted_twice(a: Statuses, b: Statuses, c: Statuses)
    requires
        a.shape_wf(),
        spec_switch_mounted(a, b),
        spec_switch_mounted(b, c),
    ensures
        forall|i: int| 0 <= i < STATUS_ARRAY_SIZE ==> #[trigger] c.slots()[i] == a.slots()[i],
        c.first_free() == a.first_free(),
{
    if a.slots()[0] is Some {
        assert(a.slots()[0] matches Some(s) && s is Mounted);
        assert(a.slots()[0] == Some(Status::Mounted(MountedStatus)));
    }
}

/// Law: an update of a poison whose tick boundary has been crossed but
/// whose expiry has not been reached emits exactly one damage event,
/// attributed to the poison's caster, and keeps the instance with the
/// tick boundary moved one interval on.
pub proof fn lemma_poison_tick_emits_once(p: PoisonStatus, now: ElapsedTime, self_id: EntityId)
    requires
        p.next_damage_at.0 <= now.0 < p.until.0,
        now.0 + 1000 <= u32::MAX,
    ensures
        !update_removes(Status::Poison(p), now),
        emitted_attacks(Status::Poison(p), now, self_id) == seq![
            AttackComponent {
                src_entity: p.poison_caster_entity_id,
                dst_entity: self_id,
                typ: AttackType::Poison(POISON_TICK_DAMAGE),
            },
        ],
        updated_status(Status::Poison(p), now) matches Status::Poison(q) && q.next_damage_at.0
            == now.0 + 1000,
{
}

/// Law: an update of a poison at or past its expiry removes the instance
/// and emits no damage event.
pub proof fn lemma_poison_expired_is_removed(p: PoisonStatus, now: ElapsedTime, self_id: EntityId)
    requires
        p.until.0 <= now.0,
    ensures
        update_removes(Status::Poison(p), now),
        emitted_attacks(Status::Poison(p), now, self_id) == Seq::<AttackComponent>::empty(),
{
}

proof fn lemma_best_completion_props(slots: Seq<Option<Status>>, n: int, now: ElapsedTime)
    ensures
        best_completion(slots, n, now) is None ==> forall|j: int|
            0 <= j < n ==> #[trigger] completion_at(slots[j], now) is None,
        best_completion(slots, n, now) matches Some(c) ==> exists|j: int|
            0 <= j < n && #[trigger] completion_at(slots[j], now) == Some(c),
        best_completion(slots, n, now) matches Some(c) ==> forall|j: int|
            0 <= j < n ==> ((#[trigger] completion_at(slots[j], now)) matches Some(c2) ==> c.0.0
                >= c2.0.0),
    decreases n,
{
    if n > 0 {
        lemma_best_completion_props(slots, n - 1, now);
    }
}

/// Law: with exactly two active effects reporting a completion, whose
/// expiries are `e1 < e2`, the UI countdown reports the fraction that
/// belongs to the later expiry `e2`.
pub proof fn lemma_largest_remaining_picks_later_expiry(
    slots: Seq<Option<Status>>,
    n: int,
    now: ElapsedTime,
    i: int,
    j: int,
    e1: ElapsedTime,
    f1: u64,
    e2: ElapsedTime,
    f2: u64,
)
    requires
        0 <= i < n,
        0 <= j < n,
        i != j,
        completion_at(slots[i], now) == Some((e1, f1)),
        completion_at(slots[j], now) == Some((e2, f2)),
        e1.0 < e2.0,
        forall|k: int|
            0 <= k < n && k != i && k != j ==> #[trigger] completion_at(slots[k], now) is None,
    ensures
        best_completion(slots, n, now) == Some((e2, f2)),
{
    lemma_best_completion_props(slots, n, now);
    match best_completion(slots, n, now) {
        None => {
            assert(completion_at(slots[j], now) is None);
        },
        Some(c) => {
            let w = choose|k: int| 0 <= k < n && #[trigger] completion_at(slots[k], now) == Some(c);
            assert(w == i || w == j);
            assert(c.0.0 >= e2.0);
            if w == i {
                assert(c == (e1, f1));
            }
            assert(c == (e2, f2));
        },
    }
}

} // verus!
