use vstd::prelude::*;

use crate::char_attr::{
    CharAttributeModifierCollector, CharAttributeModifierEntry, CharAttributes, CharOutlook,
    JobId, Percentage, Sex, SpriteEntry, SpriteResource, Sprites,
};
use crate::char_attr::{lookup_sprite, sprite_lookup};
use crate::status::{
    allows_push, classification_of, completion_of, contribs_of, emitted_attacks, main_status_slot,
    render_commands_of, sprite_override_of, stack_policy_of, tint_of, type_key_of, update_removes,
    updated_status, white_color, AttackComponent, AttackOutcome, ApplyForceComponent, EntityId,
    MainStatuses, MountedStatus, PoisonStatus, RenderColor, RenderCommand, Status,
    StatusStackingResult, StatusType, StatusUpdateResult, StunStatus, SystemVariables,
    MAIN_STATUSES_COUNT,
};
use crate::status::{color_mul, filtered_damage};
use crate::time::ElapsedTime;

verus! {

/// Total number of effect slots a character owns.
pub const STATUS_ARRAY_SIZE: usize = 32;

/// How long a poison applied through a plain main-kind message lasts.
pub const DEFAULT_POISON_DURATION_MILLIS: u32 = 15000;

/// The per-character container of active effects.
///
/// The first `MAIN_STATUSES_COUNT` slots are reserved, one per main kind,
/// so each main kind has at most one instance and an O(1) presence check.
/// The remaining slots hold secondary effects in append order below the
/// high-water mark `first_free_index`; the mark only grows on insert and is
/// shrunk past trailing empty slots after an update pass.
pub struct Statuses {
    statuses: Vec<Option<Status>>,
    first_free_index: usize,
    cached_modifier_collector: CharAttributeModifierCollector,
}

impl Statuses {
    /// The slot array, abstractly.
    pub closed spec fn slots(&self) -> Seq<Option<Status>> {
        self.statuses@
    }

    /// The high-water mark: the first never-yet-used secondary slot.
    pub closed spec fn first_free(&self) -> int {
        self.first_free_index as int
    }

    /// The reserved slots hold only their own kind.
    pub open spec fn main_slots_ok(&self) -> bool {
        &&& (self.slots()[main_status_slot(MainStatuses::Mounted)] matches Some(s) ==> s
            is Mounted)
        &&& (self.slots()[main_status_slot(MainStatuses::Stun)] matches Some(s) ==> s is Stun)
        &&& (self.slots()[main_status_slot(MainStatuses::Poison)] matches Some(s) ==> s is Poison)
    }

    /// Structural invariant: slot count, mark bounds, no effect at or past
    /// the mark outside the reserved region, reserved slots well-kinded.
    pub open spec fn shape_wf(&self) -> bool {
        &&& self.slots().len() == STATUS_ARRAY_SIZE
        &&& MAIN_STATUSES_COUNT <= self.first_free() <= STATUS_ARRAY_SIZE
        &&& forall|i: int|
            self.first_free() <= i < STATUS_ARRAY_SIZE ==> #[trigger] self.slots()[i] is None
        &&& self.main_slots_ok()
    }

    /// Full invariant: the shape, plus well-formedness of every stored
    /// effect.
    pub open spec fn wf(&self) -> bool {
        &&& self.shape_wf()
        &&& forall|i: int|
            0 <= i < STATUS_ARRAY_SIZE ==> (#[trigger] self.slots()[i] matches Some(s)
                ==> s.wf())
    }

    pub fn new() -> (r: Statuses)
        ensures
            r.wf(),
            r.slots().len() == STATUS_ARRAY_SIZE,
            r.first_free() == MAIN_STATUSES_COUNT,
            forall|i: int| 0 <= i < STATUS_ARRAY_SIZE ==> #[trigger] r.slots()[i] is None,
    {
        let mut statuses: Vec<Option<Status>> = Vec::new();
        let mut i: usize = 0;
        while i < STATUS_ARRAY_SIZE
            invariant
                i <= STATUS_ARRAY_SIZE,
                statuses@.len() == i,
                forall|j: int| 0 <= j < i ==> #[trigger] statuses@[j] is None,
            decreases STATUS_ARRAY_SIZE - i,
        {
            statuses.push(None);
            i = i + 1;
        }
        Statuses {
            statuses,
            first_free_index: MAIN_STATUSES_COUNT,
            cached_modifier_collector: CharAttributeModifierCollector::new(),
        }
    }

    /// The high-water mark as a runtime value.
    pub fn first_free_index(&self) -> (r: usize)
        ensures
            r == self.first_free(),
    {
        self.first_free_index
    }

    pub fn is_mounted(&self) -> (r: bool)
        requires
            self.shape_wf(),
        ensures
            r == (self.slots()[main_status_slot(MainStatuses::Mounted)] is Some),
    {
        self.statuses[0].is_some()
    }

    pub fn is_stunned(&self) -> (r: bool)
        requires
            self.shape_wf(),
        ensures
            r == (self.slots()[main_status_slot(MainStatuses::Stun)] is Some),
    {
        self.statuses[1].is_some()
    }

    /// Appends a secondary effect at the high-water mark; a full array
    /// rejects the effect and leaves every slot untouched.
    pub fn add(&mut self, status: Status)
        requires
            old(self).wf(),
            status.wf(),
        ensures
            final(self).wf(),
            spec_add(*old(self), *final(self), status),
    {
        if self.first_free_index >= STATUS_ARRAY_SIZE {
            // Capacity exhausted: a non-fatal rejection, the effect is
            // simply not applied.
            return ;
        }
        let idx = self.first_free_index;
        self.statuses[idx] = Some(status);
        self.first_free_index = self.first_free_index + 1;
    }

    /// Clears every slot and resets the high-water mark.
    pub fn remove_all(&mut self)
        requires
            old(self).wf(),
        ensures
            final(self).wf(),
            spec_remove_all(*old(self), *final(self)),
    {
        let mut i: usize = 0;
        while i < self.first_free_index
            invariant
                old(self).wf(),
                i <= old(self).first_free(),
                self.first_free_index == old(self).first_free_index,
                self.statuses@.len() == STATUS_ARRAY_SIZE,
                forall|j: int| 0 <= j < i ==> #[trigger] self.statuses@[j] is None,
                forall|j: int|
                    i <= j < STATUS_ARRAY_SIZE ==> #[trigger] self.statuses@[j] == old(
                        self,
                    ).slots()[j],
            decreases self.first_free_index - i,
        {
            self.statuses[i] = None;
            i = i + 1;
        }
        self.first_free_index = MAIN_STATUSES_COUNT;
    }

    /// Clears every secondary slot whose effect matches the given
    /// classification; main slots and the high-water mark are untouched
    /// (compaction happens during the next update pass).
    pub fn remove(&mut self, status_type: StatusType)
        requires
            old(self).wf(),
        ensures
            final(self).wf(),
            spec_remove_classified(*old(self), *final(self), status_type),
    {
        let mut i: usize = MAIN_STATUSES_COUNT;
        while i < self.first_free_index
            invariant
                old(self).wf(),
                MAIN_STATUSES_COUNT <= i <= STATUS_ARRAY_SIZE,
                self.first_free_index == old(self).first_free_index,
                self.statuses@.len() == STATUS_ARRAY_SIZE,
                forall|j: int|
                    MAIN_STATUSES_COUNT <= j < i ==> #[trigger] self.statuses@[j]
                        == removed_if_classified(old(self).slots()[j], status_type),
                forall|j: int|
                    0 <= j < STATUS_ARRAY_SIZE && !(MAIN_STATUSES_COUNT <= j < i)
                        ==> #[trigger] self.statuses@[j] == old(self).slots()[j],
            decreases self.first_free_index - i,
        {
            let should_remove = match &self.statuses[i] {
                Some(s) => s.typ() == status_type,
                None => false,
            };
            if should_remove {
                self.statuses[i] = None;
            }
            i = i + 1;
        }
    }

    /// Clears the reserved slot of a main kind unconditionally.
    pub fn remove_main_status(&mut self, status: MainStatuses)
        requires
            old(self).wf(),
        ensures
            final(self).wf(),
            spec_remove_main(*old(self), *final(self), status),
    {
        let idx = status.slot_index();
        self.statuses[idx] = None;
    }

    /// Toggles the Mounted reserved slot between empty and present.
    pub fn switch_mounted(&mut self)
        requires
            old(self).wf(),
        ensures
            final(self).wf(),
            spec_switch_mounted(*old(self), *final(self)),
    {
        let is_mounted = self.statuses[0].is_some();
        let value: Option<Status> = if !is_mounted {
            Some(Status::Mounted(MountedStatus))
        } else {
            None
        };
        self.statuses[0] = value;
    }

    /// Writes a fresh poison into its reserved slot. A poison already
    /// active there only ever lengthens the new one: the new expiry is the
    /// later of the two, while caster, start and next tick are taken fresh,
    /// because the new caster must take priority for damage attribution.
    pub fn add_poison(
        &mut self,
        poison_caster_entity_id: EntityId,
        started: ElapsedTime,
        until: ElapsedTime,
    )
        requires
            old(self).wf(),
            started.0 + 1000 <= u32::MAX,
        ensures
            final(self).wf(),
            spec_add_poison(
                *old(self),
                *final(self),
                poison_caster_entity_id,
                started,
                until,
            ),
    {
        let new_until: ElapsedTime = match &self.statuses[2] {
            Some(Status::Poison(p)) => p.until.max(until),
            _ => until,
        };
        self.statuses[2] = Some(
            Status::Poison(
                PoisonStatus {
                    poison_caster_entity_id,
                    started,
                    until: new_until,
                    next_damage_at: started.add_seconds(1),
                },
            ),
        );
    }

    /// Writes a fresh Stun instance into its reserved slot.
    pub fn apply_stun(&mut self)
        requires
            old(self).wf(),
        ensures
            final(self).wf(),
            spec_apply_stun(*old(self), *final(self)),
    {
        self.statuses[1] = Some(Status::Stun(StunStatus));
    }

    /// Adds a secondary effect after consulting the stacking policy: if an
    /// equivalent-kind effect is already active, that effect decides
    /// whether the new instance is appended or dropped.
    pub fn apply_secondary_status(&mut self, status: Status)
        requires
            old(self).wf(),
            status.wf(),
        ensures
            final(self).wf(),
            spec_apply_secondary(*old(self), *final(self), status),
    {
        let key = status.type_key();
        let mut i: usize = 0;
        let mut found: Option<usize> = None;
        while i < self.first_free_index && found.is_none()
            invariant
                self.statuses@ == old(self).statuses@,
                self.first_free_index == old(self).first_free_index,
                old(self).wf(),
                key == type_key_of(status),
                i <= old(self).first_free(),
                match found {
                    Some(j) => {
                        &&& first_same_kind_from(
                            old(self).slots(),
                            old(self).first_free(),
                            key,
                            0,
                        ) == Some(j as int)
                        &&& j < old(self).first_free()
                        &&& (old(self).slots()[j as int] matches Some(s) && type_key_of(s) == key)
                    },
                    None => first_same_kind_from(old(self).slots(), old(self).first_free(), key, 0)
                        == first_same_kind_from(
                        old(self).slots(),
                        old(self).first_free(),
                        key,
                        i as int,
                    ),
                },
            decreases old(self).first_free() - i,
        {
            match &self.statuses[i] {
                Some(s) => {
                    if s.type_key() == key {
                        found = Some(i);
                    }
                },
                None => {},
            }
            i = i + 1;
        }
        match found {
            Some(j) => {
                let policy = match &mut self.statuses[j] {
                    Some(existing) => {
                        let p = existing.stack(&status);
                        p
                    },
                    None => StatusStackingResult::AddTheNewStatus,
                };
                proof {
                    assert(self.statuses@ =~= old(self).statuses@);
                }
                match policy {
                    StatusStackingResult::AddTheNewStatus => self.add(status),
                    StatusStackingResult::DontAddTheNewStatus => {},
                }
            },
            None => {
                self.add(status);
            },
        }
    }
}

impl Statuses {
    /// Advances every active effect once, clears the slots of effects that
    /// report themselves done, then shrinks the high-water mark past
    /// trailing empty slots. Returns whether any slot changed.
    pub fn update(&mut self, self_char_id: EntityId, system_vars: &mut SystemVariables) -> (changed:
        bool)
        requires
            old(self).wf(),
            old(system_vars).time.0 + 1000 <= u32::MAX,
        ensures
            final(self).wf(),
            final(system_vars).time == old(system_vars).time,
            forall|j: int|
                0 <= j < STATUS_ARRAY_SIZE ==> #[trigger] final(self).slots()[j] == updated_slot(
                    old(self).slots()[j],
                    old(system_vars).time,
                ),
            final(self).first_free() <= old(self).first_free(),
            final(self).first_free() == MAIN_STATUSES_COUNT || final(self).slots()[final(self).first_free() - 1] is Some,
            final(system_vars).attacks@ == old(system_vars).attacks@ + emitted_in_range(
                old(self).slots(),
                old(self).first_free(),
                old(system_vars).time,
                self_char_id,
            ),
            changed == (exists|j: int|
                0 <= j < old(self).first_free() && #[trigger] slot_removed_at(
                    old(self).slots()[j],
                    old(system_vars).time,
                )),
    {
        let ghost now = old(system_vars).time;
        let mut changed = false;
        let mut i: usize = 0;
        while i < self.first_free_index
            invariant
                old(self).wf(),
                self.first_free_index == old(self).first_free_index,
                self.statuses@.len() == STATUS_ARRAY_SIZE,
                i <= old(self).first_free(),
                system_vars.time == now,
                now.0 + 1000 <= u32::MAX,
                forall|j: int|
                    0 <= j < i ==> #[trigger] self.statuses@[j] == updated_slot(
                        old(self).slots()[j],
                        now,
                    ),
                forall|j: int|
                    i <= j < STATUS_ARRAY_SIZE ==> #[trigger] self.statuses@[j] == old(
                        self,
                    ).slots()[j],
                system_vars.attacks@ == old(system_vars).attacks@ + emitted_in_range(
                    old(self).slots(),
                    i as int,
                    now,
                    self_char_id,
                ),
                changed == (exists|j: int|
                    0 <= j < i && #[trigger] slot_removed_at(old(self).slots()[j], now)),
            decreases old(self).first_free() - i,
        {
            let mut remove_it = false;
            match &mut self.statuses[i] {
                Some(s) => {
                    let res = s.update(self_char_id, system_vars);
                    match res {
                        StatusUpdateResult::RemoveIt => {
                            remove_it = true;
                        },
                        StatusUpdateResult::KeepIt => {},
                    }
                },
                None => {},
            }
            if remove_it {
                self.statuses[i] = None;
                changed = true;
                proof {
                    assert(slot_removed_at(old(self).slots()[i as int], now));
                }
            }
            i = i + 1;
        }
        proof {
            assert forall|j: int|
                0 <= j < STATUS_ARRAY_SIZE implies #[trigger] self.statuses@[j] == updated_slot(
                old(self).slots()[j],
                now,
            ) by {
                if j >= old(self).first_free() {
                    assert(old(self).slots()[j] is None);
                }
            }
        }
        while self.first_free_index > MAIN_STATUSES_COUNT && self.statuses[self.first_free_index
            - 1].is_none()
            invariant
                MAIN_STATUSES_COUNT <= self.first_free_index <= STATUS_ARRAY_SIZE,
                self.statuses@.len() == STATUS_ARRAY_SIZE,
                forall|j: int|
                    0 <= j < STATUS_ARRAY_SIZE ==> #[trigger] self.statuses@[j] == updated_slot(
                        old(self).slots()[j],
                        now,
                    ),
                forall|j: int|
                    self.first_free_index <= j < STATUS_ARRAY_SIZE ==> #[trigger] self.statuses@[j]
                        is None,
                self.first_free_index <= old(self).first_free_index,
            decreases self.first_free_index,
        {
            self.first_free_index = self.first_free_index - 1;
        }
        changed
    }

    /// Clears and refills the cached accumulator from every active effect
    /// in slot order (main region first), and hands it out.
    pub fn calc_attributes(&mut self) -> (r: &CharAttributeModifierCollector)
        requires
            old(self).wf(),
        ensures
            final(self).wf(),
            final(self).slots() == old(self).slots(),
            final(self).first_free() == old(self).first_free(),
            r.entries@ == contribs_in_range(old(self).slots(), old(self).first_free()),
    {
        self.cached_modifier_collector.clear();
        let mut i: usize = 0;
        while i < self.first_free_index
            invariant
                old(self).wf(),
                self.statuses@ == old(self).statuses@,
                self.first_free_index == old(self).first_free_index,
                i <= old(self).first_free(),
                self.cached_modifier_collector.entries@ == contribs_in_range(
                    old(self).slots(),
                    i as int,
                ),
            decreases old(self).first_free() - i,
        {
            match &self.statuses[i] {
                Some(s) => {
                    s.calc_attribs(&mut self.cached_modifier_collector);
                },
                None => {},
            }
            i = i + 1;
        }
        &self.cached_modifier_collector
    }

    /// The character's base attributes, before any effect modifiers.
    pub fn get_base_attributes(outlook: &CharOutlook) -> (r: CharAttributes)
        ensures
            r == base_attributes_of(*outlook),
    {
        match outlook {
            CharOutlook::Player { .. } => CharAttributes {
                walking_speed: Percentage(100),
                attack_range: Percentage(100),
                attack_speed: Percentage(100),
                attack_damage: 76,
                armor: Percentage(10),
                healing: Percentage(100),
                hp_regen: Percentage(100),
                max_hp: 2000,
                mana_regen: Percentage(100),
            },
            CharOutlook::Monster(_) => CharAttributes {
                walking_speed: Percentage(100),
                attack_range: Percentage(100),
                attack_speed: Percentage(100),
                attack_damage: 76,
                armor: Percentage(0),
                healing: Percentage(100),
                hp_regen: Percentage(100),
                max_hp: 2000,
                mana_regen: Percentage(100),
            },
        }
    }

    /// Starts from opaque white and multiplies in every active effect's
    /// tint, channel-wise.
    pub fn calc_render_color(&self) -> (r: RenderColor)
        requires
            self.wf(),
        ensures
            r == tint_in_range(self.slots(), self.first_free()),
            r.wf(),
    {
        let mut ret = RenderColor::white();
        let mut i: usize = 0;
        while i < self.first_free_index
            invariant
                self.wf(),
                i <= self.first_free(),
                ret == tint_in_range(self.slots(), i as int),
                ret.wf(),
            decreases self.first_free() - i,
        {
            match &self.statuses[i] {
                Some(s) => {
                    let c = s.get_render_color();
                    ret = ret.component_mul(c);
                },
                None => {},
            }
            i = i + 1;
        }
        ret
    }

    /// The base sprite for the job and sex, after every active effect in
    /// slot order had the chance to override it; later slots win.
    pub fn calc_render_sprite(
        &self,
        job_id: JobId,
        head_index: usize,
        sex: Sex,
        sprites: &Sprites,
    ) -> (r: SpriteResource)
        requires
            self.wf(),
            sprite_lookup(sprites.character_sprites@, job_id, sex) is Some,
        ensures
            sprite_lookup(sprites.character_sprites@, job_id, sex) matches Some(base) ==> r
                == sprite_in_range(
                self.slots(),
                self.first_free(),
                job_id,
                sex,
                sprites.mounted_character_sprites@,
                base,
            ),
    {
        let base = lookup_sprite(&sprites.character_sprites, job_id, sex);
        let mut sprite = base.unwrap();
        let ghost base_v = sprite;
        let mut i: usize = 0;
        while i < self.first_free_index
            invariant
                self.wf(),
                i <= self.first_free(),
                sprite == sprite_in_range(
                    self.slots(),
                    i as int,
                    job_id,
                    sex,
                    sprites.mounted_character_sprites@,
                    base_v,
                ),
            decreases self.first_free() - i,
        {
            match &self.statuses[i] {
                Some(s) => {
                    match s.calc_render_sprite(job_id, head_index, sex, sprites) {
                        Some(spr) => {
                            sprite = spr;
                        },
                        None => {},
                    }
                },
                None => {},
            }
            i = i + 1;
        }
        sprite
    }

    /// The fraction shown on the UI countdown: among all active effects
    /// that report a completion, the one ending last wins; ties keep the
    /// earlier slot.
    pub fn calc_largest_remaining_status_time_percent(&self, now: ElapsedTime) -> (r: Option<u64>)
        requires
            self.shape_wf(),
        ensures
            r == match best_completion(self.slots(), self.first_free(), now) {
                Some(c) => Some(c.1),
                None => None,
            },
    {
        let mut ret: Option<(ElapsedTime, u64)> = None;
        let mut i: usize = 0;
        while i < self.first_free_index
            invariant
                self.shape_wf(),
                i <= self.first_free(),
                ret == best_completion(self.slots(), i as int, now),
            decreases self.first_free() - i,
        {
            match &self.statuses[i] {
                Some(s) => {
                    let rem = s.get_status_completion_percent(now);
                    ret = match (rem, ret) {
                        (Some(c), Some(p)) => if c.0.0 > p.0.0 {
                            Some(c)
                        } else {
                            Some(p)
                        },
                        (Some(c), None) => Some(c),
                        (None, p) => p,
                    };
                },
                None => {},
            }
            i = i + 1;
        }
        match ret {
            Some(p) => Some(p.1),
            None => None,
        }
    }

    /// Folds an external force through every active effect: every effect
    /// must allow the push.
    pub fn allow_push(&mut self, push: &ApplyForceComponent) -> (r: bool)
        requires
            old(self).wf(),
        ensures
            final(self).wf(),
            final(self).slots() == old(self).slots(),
            final(self).first_free() == old(self).first_free(),
            r == (forall|j: int|
                0 <= j < old(self).first_free() ==> #[trigger] slot_allows_push(
                    old(self).slots()[j],
                )),
    {
        let mut allow = true;
        let mut i: usize = 0;
        while i < self.first_free_index
            invariant
                old(self).wf(),
                self.statuses@ == old(self).statuses@,
                self.first_free_index == old(self).first_free_index,
                i <= old(self).first_free(),
                allow == (forall|j: int|
                    0 <= j < i ==> #[trigger] slot_allows_push(old(self).slots()[j])),
            decreases old(self).first_free() - i,
        {
            let mut slot_allows = true;
            match &mut self.statuses[i] {
                Some(s) => {
                    let res = s.allow_push(push);
                    slot_allows = res;
                },
                None => {},
            }
            proof {
                assert(self.statuses@ =~= old(self).statuses@);
                assert(slot_allows == slot_allows_push(old(self).slots()[i as int]));
            }
            allow = allow && slot_allows;
            i = i + 1;
        }
        allow
    }

    /// Pipes one incoming damage outcome through every active effect in
    /// slot order.
    pub fn affect_incoming_damage(&mut self, outcome: AttackOutcome) -> (r: AttackOutcome)
        requires
            old(self).wf(),
        ensures
            final(self).wf(),
            final(self).slots() == old(self).slots(),
            final(self).first_free() == old(self).first_free(),
            r == damage_in_range(old(self).slots(), old(self).first_free(), outcome),
    {
        let mut acc = outcome;
        let mut i: usize = 0;
        while i < self.first_free_index
            invariant
                old(self).wf(),
                self.statuses@ == old(self).statuses@,
                self.first_free_index == old(self).first_free_index,
                i <= old(self).first_free(),
                acc == damage_in_range(old(self).slots(), i as int, outcome),
            decreases old(self).first_free() - i,
        {
            match &mut self.statuses[i] {
                Some(s) => {
                    let res = s.affect_incoming_damage(acc);
                    acc = res;
                },
                None => {},
            }
            proof {
                assert(self.statuses@ =~= old(self).statuses@);
            }
            i = i + 1;
        }
        acc
    }

    /// Emits the visual overlays of the active effects, at most one per
    /// runtime effect kind: the first slot of a kind renders, later slots
    /// of the same kind are suppressed.
    pub fn render(&self, render_commands: &mut Vec<RenderCommand>)
        ensures
            final(render_commands)@ == old(render_commands)@ + render_from(
                self.slots(),
                0,
                Seq::empty(),
            ),
    {
        let mut seen: Vec<u64> = Vec::new();
        let mut i: usize = 0;
        while i < self.statuses.len()
            invariant
                i <= self.statuses@.len(),
                old(render_commands)@ + render_from(self.slots(), 0, Seq::empty())
                    == render_commands@ + render_from(self.slots(), i as int, seen@),
            decreases self.statuses@.len() - i,
        {
            match &self.statuses[i] {
                Some(s) => {
                    let key = s.type_key();
                    let already = seen_contains(&seen, key);
                    if !already {
                        s.render(render_commands);
                        seen.push(key);
                    }
                },
                None => {},
            }
            i = i + 1;
        }
    }
}

/// Linear membership test in the list of already-rendered kind keys.
fn seen_contains(seen: &Vec<u64>, key: u64) -> (r: bool)
    ensures
        r == seen@.contains(key),
{
    let mut k: usize = 0;
    while k < seen.len()
        invariant
            k <= seen@.len(),
            forall|m: int| 0 <= m < k ==> seen@[m] != key,
        decreases seen@.len() - k,
    {
        if seen[k] == key {
            return true;
        }
        k = k + 1;
    }
    false
}

/// What one slot looks like after an update pass at `now`.
pub open spec fn updated_slot(slot: Option<Status>, now: ElapsedTime) -> Option<Status> {
    match slot {
        None => None,
        Some(s) => if update_removes(s, now) {
            None
        } else {
            Some(updated_status(s, now))
        },
    }
}

/// Whether the update pass at `now` clears this slot.
pub open spec fn slot_removed_at(slot: Option<Status>, now: ElapsedTime) -> bool {
    match slot {
        Some(s) => update_removes(s, now),
        None => false,
    }
}

/// The damage events the update pass enqueues from the slots below `n`,
/// in slot order.
pub open spec fn emitted_in_range(
    slots: Seq<Option<Status>>,
    n: int,
    now: ElapsedTime,
    self_id: EntityId,
) -> Seq<AttackComponent>
    decreases n,
{
    if n <= 0 {
        Seq::empty()
    } else {
        emitted_in_range(slots, n - 1, now, self_id) + (match slots[n - 1] {
            Some(s) => emitted_attacks(s, now, self_id),
            None => Seq::empty(),
        })
    }
}

/// The attribute-modifier entries the slots below `n` contribute, in slot
/// order.
pub open spec fn contribs_in_range(slots: Seq<Option<Status>>, n: int) -> Seq<
    CharAttributeModifierEntry,
>
    decreases n,
{
    if n <= 0 {
        Seq::empty()
    } else {
        contribs_in_range(slots, n - 1) + (match slots[n - 1] {
            Some(s) => contribs_of(s),
            None => Seq::empty(),
        })
    }
}

/// The combined tint of the slots below `n`: starts at opaque white, each
/// active effect multiplies in channel-wise.
pub open spec fn tint_in_range(slots: Seq<Option<Status>>, n: int) -> RenderColor
    decreases n,
{
    if n <= 0 {
        white_color()
    } else {
        match slots[n - 1] {
            Some(s) => color_mul(tint_in_range(slots, n - 1), tint_of(s)),
            None => tint_in_range(slots, n - 1),
        }
    }
}

/// The completion pair an active slot reports, if any.
pub open spec fn completion_at(slot: Option<Status>, now: ElapsedTime) -> Option<
    (ElapsedTime, u64),
> {
    match slot {
        Some(s) => completion_of(s, now),
        None => None,
    }
}

/// The winning completion pair among the slots below `n`: the latest
/// expiry wins, ties keep the earlier slot.
pub open spec fn best_completion(slots: Seq<Option<Status>>, n: int, now: ElapsedTime) -> Option<
    (ElapsedTime, u64),
>
    decreases n,
{
    if n <= 0 {
        None
    } else {
        let prev = best_completion(slots, n - 1, now);
        match completion_at(slots[n - 1], now) {
            None => prev,
            Some(c) => match prev {
                None => Some(c),
                Some(p) => if c.0.0 > p.0.0 {
                    Some(c)
                } else {
                    Some(p)
                },
            },
        }
    }
}

/// The sprite after the slots below `n` had the chance to override `base`;
/// later slots win.
pub open spec fn sprite_in_range(
    slots: Seq<Option<Status>>,
    n: int,
    job: JobId,
    sex: Sex,
    mounted_table: Seq<SpriteEntry>,
    base: SpriteResource,
) -> SpriteResource
    decreases n,
{
    if n <= 0 {
        base
    } else {
        match slots[n - 1] {
            Some(s) => match sprite_override_of(s, job, sex, mounted_table) {
                Some(sp) => sp,
                None => sprite_in_range(slots, n - 1, job, sex, mounted_table, base),
            },
            None => sprite_in_range(slots, n - 1, job, sex, mounted_table, base),
        }
    }
}

/// Whether one slot lets an external force through.
pub open spec fn slot_allows_push(slot: Option<Status>) -> bool {
    match slot {
        Some(s) => allows_push(s),
        None => true,
    }
}

/// One incoming damage outcome after the slots below `n` rewrote it, in
/// slot order.
pub open spec fn damage_in_range(
    slots: Seq<Option<Status>>,
    n: int,
    outcome: AttackOutcome,
) -> AttackOutcome
    decreases n,
{
    if n <= 0 {
        outcome
    } else {
        match slots[n - 1] {
            Some(s) => filtered_damage(s, damage_in_range(slots, n - 1, outcome)),
            None => damage_in_range(slots, n - 1, outcome),
        }
    }
}

/// The overlay commands emitted from slot `i` on, given the kind keys
/// rendered so far: the first slot of a kind renders, the rest of that
/// kind are suppressed.
pub open spec fn render_from(slots: Seq<Option<Status>>, i: int, seen: Seq<u64>) -> Seq<
    RenderCommand,
>
    decreases slots.len() - i,
{
    if i < 0 || i >= slots.len() {
        Seq::empty()
    } else {
        match slots[i] {
            Some(s) => if !seen.contains(type_key_of(s)) {
                render_commands_of(s) + render_from(slots, i + 1, seen.push(type_key_of(s)))
            } else {
                render_from(slots, i + 1, seen)
            },
            None => render_from(slots, i + 1, seen),
        }
    }
}

/// The base attributes of a character with the given outlook.
pub open spec fn base_attributes_of(outlook: CharOutlook) -> CharAttributes {
    match outlook {
        CharOutlook::Player { .. } => CharAttributes {
            walking_speed: Percentage(100),
            attack_range: Percentage(100),
            attack_speed: Percentage(100),
            attack_damage: 76,
            armor: Percentage(10),
            healing: Percentage(100),
            hp_regen: Percentage(100),
            max_hp: 2000,
            mana_regen: Percentage(100),
        },
        CharOutlook::Monster(_) => CharAttributes {
            walking_speed: Percentage(100),
            attack_range: Percentage(100),
            attack_speed: Percentage(100),
            attack_damage: 76,
            armor: Percentage(0),
            healing: Percentage(100),
            hp_regen: Percentage(100),
            max_hp: 2000,
            mana_regen: Percentage(100),
        },
    }
}

/// The first active slot below `n` holding an effect of runtime kind
/// `key`, searching from index `i` upward.
pub open spec fn first_same_kind_from(
    slots: Seq<Option<Status>>,
    n: int,
    key: u64,
    i: int,
) -> Option<int>
    decreases n - i,
{
    if i < 0 || i >= n {
        None
    } else {
        match slots[i] {
            Some(s) => if type_key_of(s) == key {
                Some(i)
            } else {
                first_same_kind_from(slots, n, key, i + 1)
            },
            None => first_same_kind_from(slots, n, key, i + 1),
        }
    }
}

/// Transition of a successful or rejected `add`.
pub open spec fn spec_add(pre: Statuses, post: Statuses, status: Status) -> bool {
    &&& post.slots().len() == pre.slots().len()
    &&& if pre.first_free() < STATUS_ARRAY_SIZE {
        &&& post.slots()[pre.first_free()] == Some(status)
        &&& forall|i: int|
            0 <= i < pre.slots().len() && i != pre.first_free() ==> #[trigger] post.slots()[i]
                == pre.slots()[i]
        &&& post.first_free() == pre.first_free() + 1
    } else {
        &&& forall|i: int|
            0 <= i < pre.slots().len() ==> #[trigger] post.slots()[i] == pre.slots()[i]
        &&& post.first_free() == pre.first_free()
    }
}

/// Transition of `remove_all`.
pub open spec fn spec_remove_all(pre: Statuses, post: Statuses) -> bool {
    &&& post.slots().len() == pre.slots().len()
    &&& forall|i: int| 0 <= i < post.slots().len() ==> #[trigger] post.slots()[i] is None
    &&& post.first_free() == MAIN_STATUSES_COUNT
}

/// What classified removal leaves in one secondary slot.
pub open spec fn removed_if_classified(slot: Option<Status>, t: StatusType) -> Option<Status> {
    match slot {
        Some(s) => if classification_of(s) == t {
            None
        } else {
            slot
        },
        None => None,
    }
}

/// Transition of `remove(classification)`.
pub open spec fn spec_remove_classified(pre: Statuses, post: Statuses, t: StatusType) -> bool {
    &&& post.slots().len() == pre.slots().len()
    &&& forall|i: int|
        0 <= i < MAIN_STATUSES_COUNT ==> #[trigger] post.slots()[i] == pre.slots()[i]
    &&& forall|i: int|
        MAIN_STATUSES_COUNT <= i < pre.first_free() ==> #[trigger] post.slots()[i]
            == removed_if_classified(pre.slots()[i], t)
    &&& forall|i: int|
        pre.first_free() <= i < pre.slots().len() ==> #[trigger] post.slots()[i]
            == pre.slots()[i]
    &&& post.first_free() == pre.first_free()
}

/// Transition of `remove_main_status`.
pub open spec fn spec_remove_main(pre: Statuses, post: Statuses, m: MainStatuses) -> bool {
    &&& post.slots().len() == pre.slots().len()
    &&& post.slots()[main_status_slot(m)] is None
    &&& forall|i: int|
        0 <= i < pre.slots().len() && i != main_status_slot(m) ==> #[trigger] post.slots()[i]
            == pre.slots()[i]
    &&& post.first_free() == pre.first_free()
}

/// Transition of `switch_mounted`: present becomes empty, empty becomes
/// a fresh Mounted instance.
pub open spec fn spec_switch_mounted(pre: Statuses, post: Statuses) -> bool {
    &&& post.slots().len() == pre.slots().len()
    &&& (pre.slots()[0] is Some ==> post.slots()[0] is None)
    &&& (pre.slots()[0] is None ==> post.slots()[0] == Some(Status::Mounted(MountedStatus)))
    &&& forall|i: int|
        0 < i < pre.slots().len() ==> #[trigger] post.slots()[i] == pre.slots()[i]
    &&& post.first_free() == pre.first_free()
}

/// Transition of `apply_stun`.
pub open spec fn spec_apply_stun(pre: Statuses, post: Statuses) -> bool {
    &&& post.slots().len() == pre.slots().len()
    &&& post.slots()[main_status_slot(MainStatuses::Stun)] == Some(Status::Stun(StunStatus))
    &&& forall|i: int|
        0 <= i < pre.slots().len() && i != main_status_slot(MainStatuses::Stun)
            ==> #[trigger] post.slots()[i] == pre.slots()[i]
    &&& post.first_free() == pre.first_free()
}

/// The expiry a newly applied poison ends up with: never earlier than what
/// an already-active poison had.
pub open spec fn merged_poison_until(pre: Statuses, until: ElapsedTime) -> ElapsedTime {
    match pre.slots()[main_status_slot(MainStatuses::Poison)] {
        Some(Status::Poison(p)) => if p.until.0 >= until.0 {
            p.until
        } else {
            until
        },
        _ => until,
    }
}

/// Transition of `add_poison`.
pub open spec fn spec_add_poison(
    pre: Statuses,
    post: Statuses,
    caster: EntityId,
    started: ElapsedTime,
    until: ElapsedTime,
) -> bool {
    &&& post.slots().len() == pre.slots().len()
    &&& post.slots()[main_status_slot(MainStatuses::Poison)] == Some(
        Status::Poison(
            PoisonStatus {
                poison_caster_entity_id: caster,
                started,
                until: merged_poison_until(pre, until),
                next_damage_at: ElapsedTime((started.0 + 1000) as u32),
            },
        ),
    )
    &&& forall|i: int|
        0 <= i < pre.slots().len() && i != main_status_slot(MainStatuses::Poison)
            ==> #[trigger] post.slots()[i] == pre.slots()[i]
    &&& post.first_free() == pre.first_free()
}

/// Transition of `apply_secondary_status`: the first equivalent-kind
/// active effect decides; with none active the effect is simply added.
pub open spec fn spec_apply_secondary(pre: Statuses, post: Statuses, status: Status) -> bool {
    match first_same_kind_from(pre.slots(), pre.first_free(), type_key_of(status), 0) {
        None => spec_add(pre, post, status),
        Some(j) => match pre.slots()[j] {
            Some(existing) => match stack_policy_of(existing) {
                StatusStackingResult::AddTheNewStatus => spec_add(pre, post, status),
                StatusStackingResult::DontAddTheNewStatus => {
                    &&& post.slots().len() == pre.slots().len()
                    &&& forall|i: int|
                        0 <= i < pre.slots().len() ==> #[trigger] post.slots()[i]
                            == pre.slots()[i]
                    &&& post.first_free() == pre.first_free()
                },
            },
            None => spec_add(pre, post, status),
        },
    }
}

} // verus!
