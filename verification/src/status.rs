use vstd::prelude::*;

use crate::char_attr::{
    CharAttributeModifier, CharAttributeModifierCollector, CharAttributeModifierEntry,
    CharAttribute, JobId, Percentage, Sex, SpriteEntry, SpriteResource, Sprites,
};
use crate::char_attr::{lookup_sprite, sprite_lookup};
use crate::time::{fraction_elapsed_permille, ElapsedTime};

verus! {

/// Opaque identifier of a character entity; the effect engine stores it for
/// attribution (caster, target, exclusion) and compares it for equality.
#[derive(Clone, Copy, PartialEq, Eq, Structural, Debug)]
pub struct EntityId(pub u64);

/// Classification that drives bulk removal and render behaviour.
#[derive(Clone, Copy, PartialEq, Eq, Structural, Debug)]
pub enum StatusType {
    Supportive,
    Harmful,
}

/// Outcome of consulting an active effect's stacking policy when an
/// equivalent-kind effect is applied again.
#[derive(Clone, Copy, PartialEq, Eq, Structural, Debug)]
pub enum StatusStackingResult {
    DontAddTheNewStatus,
    AddTheNewStatus,
}

/// What an effect's per-tick update decided about its own lifetime.
#[derive(Clone, Copy, PartialEq, Eq, Structural, Debug)]
pub enum StatusUpdateResult {
    RemoveIt,
    KeepIt,
}

/// The effect kinds with a permanently reserved slot; the slot index is the
/// kind's position in this list.
#[derive(Clone, Copy, PartialEq, Eq, Structural, Debug)]
pub enum MainStatuses {
    Mounted,
    Stun,
    Poison,
}

pub const MAIN_STATUSES_COUNT: usize = 3;

pub open spec fn main_status_slot(m: MainStatuses) -> int {
    match m {
        MainStatuses::Mounted => 0,
        MainStatuses::Stun => 1,
        MainStatuses::Poison => 2,
    }
}

impl MainStatuses {
    /// The reserved slot of this main kind.
    pub fn slot_index(self) -> (r: usize)
        ensures
            r == main_status_slot(self),
            r < MAIN_STATUSES_COUNT,
    {
        match self {
            MainStatuses::Mounted => 0,
            MainStatuses::Stun => 1,
            MainStatuses::Poison => 2,
        }
    }
}

/// A multiplicative RGBA tint; each channel is in thousandths, 1000 meaning
/// the channel is left unchanged.
#[derive(Clone, Copy, PartialEq, Eq, Structural, Debug)]
pub struct RenderColor {
    pub r: u16,
    pub g: u16,
    pub b: u16,
    pub a: u16,
}

pub open spec fn white_color() -> RenderColor {
    RenderColor { r: 1000, g: 1000, b: 1000, a: 1000 }
}

pub open spec fn mul_channel(a: u16, b: u16) -> u16 {
    ((a * b) / 1000) as u16
}

pub open spec fn color_mul(x: RenderColor, y: RenderColor) -> RenderColor {
    RenderColor {
        r: mul_channel(x.r, y.r),
        g: mul_channel(x.g, y.g),
        b: mul_channel(x.b, y.b),
        a: mul_channel(x.a, y.a),
    }
}

impl RenderColor {
    /// All channels at most 1000: a tint only ever darkens.
    pub open spec fn wf(self) -> bool {
        self.r <= 1000 && self.g <= 1000 && self.b <= 1000 && self.a <= 1000
    }

    /// Opaque white: the neutral element of tint aggregation.
    pub fn white() -> (c: RenderColor)
        ensures
            c == white_color(),
    {
        RenderColor { r: 1000, g: 1000, b: 1000, a: 1000 }
    }

    /// Channel-wise product, in thousandths.
    pub fn component_mul(self, other: RenderColor) -> (c: RenderColor)
        requires
            self.wf(),
            other.wf(),
        ensures
            c == color_mul(self, other),
            c.wf(),
    {
        proof {
            lemma_mul_channel_wf(self.r, other.r);
            lemma_mul_channel_wf(self.g, other.g);
            lemma_mul_channel_wf(self.b, other.b);
            lemma_mul_channel_wf(self.a, other.a);
        }
        RenderColor {
            r: ((self.r as u32 * other.r as u32) / 1000) as u16,
            g: ((self.g as u32 * other.g as u32) / 1000) as u16,
            b: ((self.b as u32 * other.b as u32) / 1000) as u16,
            a: ((self.a as u32 * other.a as u32) / 1000) as u16,
        }
    }
}

proof fn lemma_mul_channel_wf(a: u16, b: u16)
    requires
        a <= 1000,
        b <= 1000,
    ensures
        a * b <= 1000 * 1000,
        mul_channel(a, b) <= 1000,
        mul_channel(a, b) == (a * b) / 1000,
{
    assert(a * b <= 1000 * 1000) by (nonlinear_arith)
        requires
            a <= 1000,
            b <= 1000,
    ;
}

/// Damage the engine deals on behalf of an effect (a ticking poison).
#[derive(Clone, Copy, PartialEq, Eq, Structural, Debug)]
pub enum AttackType {
    Poison(u32),
}

/// A pending damage event, attributed to the effect's caster.
#[derive(Clone, Copy, PartialEq, Eq, Structural, Debug)]
pub struct AttackComponent {
    pub src_entity: EntityId,
    pub dst_entity: EntityId,
    pub typ: AttackType,
}

/// The slice of the world an effect's update step may read and write: the
/// current simulation time, and the sink for follow-on damage events.
pub struct SystemVariables {
    pub time: ElapsedTime,
    pub attacks: Vec<AttackComponent>,
}

/// An external force that tries to move a character.
#[derive(Clone, Copy, PartialEq, Eq, Structural, Debug)]
pub struct ApplyForceComponent {
    pub src_entity: EntityId,
    pub dst_entity: EntityId,
    pub duration_millis: u32,
}

/// The result of the damage calculator for one incoming hit; effects may
/// rewrite it on its way in.
#[derive(Clone, Copy, PartialEq, Eq, Structural, Debug)]
pub struct AttackOutcome {
    pub damage: u32,
}

/// One visual-overlay command an effect emits while active.
#[derive(Clone, Copy, PartialEq, Eq, Structural, Debug)]
pub struct RenderCommand {
    pub kind_key: u64,
    pub started: ElapsedTime,
}

/// Damage dealt by each poison tick.
pub const POISON_TICK_DAMAGE: u32 = 30;

/// Seconds between two poison ticks.
pub const POISON_TICK_INTERVAL_SECONDS: u32 = 1;

#[derive(Clone, Copy, PartialEq, Eq, Structural, Debug)]
pub struct MountedStatus;

#[derive(Clone, Copy, PartialEq, Eq, Structural, Debug)]
pub struct StunStatus;

#[derive(Clone, Copy, PartialEq, Eq, Structural, Debug)]
pub struct PoisonStatus {
    pub poison_caster_entity_id: EntityId,
    pub started: ElapsedTime,
    pub until: ElapsedTime,
    pub next_damage_at: ElapsedTime,
}

/// An externally defined effect kind, described by data: the engine is
/// closed over its built-in variants, and everything a secondary effect may
/// do is captured by these fields.
pub struct SecondaryStatus {
    /// Distinguishes secondary effect kinds from one another, for stacking
    /// and render dedup.
    pub kind_id: u32,
    pub typ: StatusType,
    pub can_move: bool,
    pub can_cast: bool,
    pub color: RenderColor,
    /// Render scale in thousandths; 1000 draws the character unscaled.
    pub size_permille: u16,
    pub sprite_override: Option<SpriteResource>,
    pub started: ElapsedTime,
    /// `(started, until)` of the effect's natural end, if it has one; the
    /// effect expires once `until` is reached.
    pub completion: Option<(ElapsedTime, ElapsedTime)>,
    /// Attribute modifiers this effect contributes on every aggregation.
    pub modifiers: Vec<CharAttributeModifierEntry>,
    /// If present, incoming damage is scaled by this many thousandths.
    pub incoming_damage_permille: Option<u16>,
    pub allow_push: bool,
    pub stacking: StatusStackingResult,
    /// Whether the effect draws a visual overlay while active.
    pub has_overlay: bool,
}

/// One active effect instance. The built-in main kinds have a variant each;
/// every externally defined kind is a `Secondary` value.
pub enum Status {
    Mounted(MountedStatus),
    Stun(StunStatus),
    Poison(PoisonStatus),
    Secondary(SecondaryStatus),
}

/// Deep equality of two effect instances: identical current state, with no
/// shared mutable storage implied.
pub open spec fn status_eq(a: Status, b: Status) -> bool {
    match (a, b) {
        (Status::Secondary(x), Status::Secondary(y)) => {
            x.kind_id == y.kind_id && x.typ == y.typ && x.can_move == y.can_move && x.can_cast
                == y.can_cast && x.color == y.color && x.size_permille == y.size_permille
                && x.sprite_override == y.sprite_override && x.started == y.started && x.completion
                == y.completion && x.modifiers@ == y.modifiers@ && x.incoming_damage_permille
                == y.incoming_damage_permille && x.allow_push == y.allow_push && x.stacking
                == y.stacking && x.has_overlay == y.has_overlay
        },
        _ => a == b,
    }
}

/// The walking-speed bonus the Mounted effect contributes. It is applied
/// directly on the base moving speed, since main slots aggregate first.
pub open spec fn mounted_speed_entry() -> CharAttributeModifierEntry {
    CharAttributeModifierEntry {
        attribute: CharAttribute::WalkingSpeed,
        modifier: CharAttributeModifier::IncreaseByPercentage(Percentage(200)),
        from: ElapsedTime(0),
        until: ElapsedTime(0),
    }
}

pub open spec fn poison_tint() -> RenderColor {
    RenderColor { r: 500, g: 1000, b: 500, a: 1000 }
}

/// Classification of an effect.
pub open spec fn classification_of(s: Status) -> StatusType {
    match s {
        Status::Mounted(_) => StatusType::Supportive,
        Status::Stun(_) => StatusType::Harmful,
        Status::Poison(_) => StatusType::Harmful,
        Status::Secondary(x) => x.typ,
    }
}

/// Whether the affected character may still move.
pub open spec fn movable_under(s: Status) -> bool {
    match s {
        Status::Stun(_) => false,
        Status::Secondary(x) => x.can_move,
        _ => true,
    }
}

/// Whether the affected character may still be targeted by further casts.
pub open spec fn castable_under(s: Status) -> bool {
    match s {
        Status::Stun(_) => false,
        Status::Secondary(x) => x.can_cast,
        _ => true,
    }
}

pub open spec fn tint_of(s: Status) -> RenderColor {
    match s {
        Status::Poison(_) => poison_tint(),
        Status::Secondary(x) => x.color,
        _ => white_color(),
    }
}

pub open spec fn render_size_of(s: Status) -> u16 {
    match s {
        Status::Secondary(x) => x.size_permille,
        _ => 1000,
    }
}

/// The attribute modifiers an effect pushes into the shared accumulator.
pub open spec fn contribs_of(s: Status) -> Seq<CharAttributeModifierEntry> {
    match s {
        Status::Mounted(_) => seq![mounted_speed_entry()],
        Status::Secondary(x) => x.modifiers@,
        _ => Seq::empty(),
    }
}

/// The sprite an effect substitutes for the character's base sprite, if any.
pub open spec fn sprite_override_of(
    s: Status,
    job: JobId,
    sex: Sex,
    mounted_table: Seq<SpriteEntry>,
) -> Option<SpriteResource> {
    match s {
        Status::Mounted(_) => sprite_lookup(mounted_table, job, sex),
        Status::Secondary(x) => x.sprite_override,
        _ => None,
    }
}

/// Whether the effect's update step at time `now` removes the effect.
pub open spec fn update_removes(s: Status, now: ElapsedTime) -> bool {
    match s {
        Status::Poison(p) => p.until.0 <= now.0,
        Status::Secondary(x) => match x.completion {
            Some(c) => c.1.0 <= now.0,
            None => false,
        },
        _ => false,
    }
}

/// The state an effect that is kept has after its update step at `now`.
pub open spec fn updated_status(s: Status, now: ElapsedTime) -> Status {
    match s {
        Status::Poison(p) => if p.next_damage_at.0 <= now.0 {
            Status::Poison(
                PoisonStatus {
                    poison_caster_entity_id: p.poison_caster_entity_id,
                    started: p.started,
                    until: p.until,
                    next_damage_at: ElapsedTime((now.0 + 1000) as u32),
                },
            )
        } else {
            s
        },
        _ => s,
    }
}

/// The damage events an effect's update step at `now` enqueues.
pub open spec fn emitted_attacks(s: Status, now: ElapsedTime, self_id: EntityId) -> Seq<
    AttackComponent,
> {
    match s {
        Status::Poison(p) => if p.until.0 > now.0 && p.next_damage_at.0 <= now.0 {
            seq![
                AttackComponent {
                    src_entity: p.poison_caster_entity_id,
                    dst_entity: self_id,
                    typ: AttackType::Poison(POISON_TICK_DAMAGE),
                },
            ]
        } else {
            Seq::empty()
        },
        _ => Seq::empty(),
    }
}

/// How an effect rewrites the outcome of one incoming hit.
pub open spec fn filtered_damage(s: Status, outcome: AttackOutcome) -> AttackOutcome {
    match s {
        Status::Secondary(x) => match x.incoming_damage_permille {
            Some(f) => AttackOutcome { damage: ((outcome.damage * f) / 1000) as u32 },
            None => outcome,
        },
        _ => outcome,
    }
}

/// Whether an effect lets an external force move the character.
pub open spec fn allows_push(s: Status) -> bool {
    match s {
        Status::Secondary(x) => x.allow_push,
        _ => true,
    }
}

/// The end time and elapsed fraction an effect reports for UI countdowns.
pub open spec fn completion_of(s: Status, now: ElapsedTime) -> Option<(ElapsedTime, u64)> {
    match s {
        Status::Poison(p) => Some(
            (p.until, fraction_elapsed_permille(now, p.started, p.until) as u64),
        ),
        Status::Secondary(x) => match x.completion {
            Some(c) => Some((c.1, fraction_elapsed_permille(now, c.0, c.1) as u64)),
            None => None,
        },
        _ => None,
    }
}

/// The stacking decision an active effect makes when an equivalent-kind
/// effect is applied again.
pub open spec fn stack_policy_of(s: Status) -> StatusStackingResult {
    match s {
        Status::Mounted(_) => StatusStackingResult::DontAddTheNewStatus,
        Status::Stun(_) => StatusStackingResult::DontAddTheNewStatus,
        Status::Poison(_) => StatusStackingResult::AddTheNewStatus,
        Status::Secondary(x) => x.stacking,
    }
}

/// A key that identifies an effect's runtime kind: built-in variants get a
/// key each, and every secondary kind gets a distinct key of its own.
pub open spec fn type_key_of(s: Status) -> u64 {
    match s {
        Status::Mounted(_) => 0,
        Status::Stun(_) => 1,
        Status::Poison(_) => 2,
        Status::Secondary(x) => ((3 + x.kind_id) as u64),
    }
}

/// The visual-overlay commands an effect emits while active.
pub open spec fn render_commands_of(s: Status) -> Seq<RenderCommand> {
    match s {
        Status::Poison(p) => seq![RenderCommand { kind_key: type_key_of(s), started: p.started }],
        Status::Secondary(x) => if x.has_overlay {
            seq![RenderCommand { kind_key: type_key_of(s), started: x.started }]
        } else {
            Seq::empty()
        },
        _ => Seq::empty(),
    }
}

/// Copies a modifier list into fresh storage.
fn copy_modifier_entries(v: &Vec<CharAttributeModifierEntry>) -> (r: Vec<
    CharAttributeModifierEntry,
>)
    ensures
        r@ == v@,
{
    let mut r: Vec<CharAttributeModifierEntry> = Vec::new();
    let mut i: usize = 0;
    while i < v.len()
        invariant
            0 <= i <= v.len(),
            r@ == v@.take(i as int),
        decreases v.len() - i,
    {
        r.push(v[i]);
        proof {
            assert(v@.take(i as int + 1) == v@.take(i as int).push(v@[i as int]));
        }
        i = i + 1;
    }
    proof {
        assert(v@.take(v@.len() as int) == v@);
    }
    r
}

impl Status {
    /// Well-formedness of the stored data: tints only darken, damage
    /// filters only reduce.
    pub open spec fn wf(self) -> bool {
        match self {
            Status::Secondary(x) => x.color.wf() && (match x.incoming_damage_permille {
                Some(f) => f <= 1000,
                None => true,
            }),
            _ => true,
        }
    }

    /// An independent copy with identical current state; message payloads
    /// are duplicated through this so that no mutable state is shared.
    pub fn dupl(&self) -> (r: Status)
        ensures
            status_eq(r, *self),
            r.wf() == self.wf(),
            classification_of(r) == classification_of(*self),
            type_key_of(r) == type_key_of(*self),
    {
        match self {
            Status::Mounted(m) => Status::Mounted(*m),
            Status::Stun(st) => Status::Stun(*st),
            Status::Poison(p) => Status::Poison(*p),
            Status::Secondary(x) => Status::Secondary(
                SecondaryStatus {
                    kind_id: x.kind_id,
                    typ: x.typ,
                    can_move: x.can_move,
                    can_cast: x.can_cast,
                    color: x.color,
                    size_permille: x.size_permille,
                    sprite_override: x.sprite_override,
                    started: x.started,
                    completion: x.completion,
                    modifiers: copy_modifier_entries(&x.modifiers),
                    incoming_damage_permille: x.incoming_damage_permille,
                    allow_push: x.allow_push,
                    stacking: x.stacking,
                    has_overlay: x.has_overlay,
                },
            ),
        }
    }

    pub fn typ(&self) -> (r: StatusType)
        ensures
            r == classification_of(*self),
    {
        match self {
            Status::Mounted(_) => StatusType::Supportive,
            Status::Stun(_) => StatusType::Harmful,
            Status::Poison(_) => StatusType::Harmful,
            Status::Secondary(x) => x.typ,
        }
    }

    pub fn can_target_move(&self) -> (r: bool)
        ensures
            r == movable_under(*self),
    {
        match self {
            Status::Stun(_) => false,
            Status::Secondary(x) => x.can_move,
            _ => true,
        }
    }

    pub fn can_target_cast(&self) -> (r: bool)
        ensures
            r == castable_under(*self),
    {
        match self {
            Status::Stun(_) => false,
            Status::Secondary(x) => x.can_cast,
            _ => true,
        }
    }

    pub fn get_render_color(&self) -> (r: RenderColor)
        ensures
            r == tint_of(*self),
            self.wf() ==> r.wf(),
    {
        match self {
            Status::Poison(_) => RenderColor { r: 500, g: 1000, b: 500, a: 1000 },
            Status::Secondary(x) => x.color,
            _ => RenderColor::white(),
        }
    }

    pub fn get_render_size(&self) -> (r: u16)
        ensures
            r == render_size_of(*self),
    {
        match self {
            Status::Secondary(x) => x.size_permille,
            _ => 1000,
        }
    }

    /// Pushes this effect's attribute modifiers into the accumulator.
    pub fn calc_attribs(&self, modifiers: &mut CharAttributeModifierCollector)
        ensures
            final(modifiers).entries@ == old(modifiers).entries@ + contribs_of(*self),
    {
        match self {
            Status::Mounted(_) => {
                modifiers.change_walking_speed(
                    CharAttributeModifier::IncreaseByPercentage(Percentage(200)),
                    ElapsedTime(0),
                    ElapsedTime(0),
                );
                proof {
                    assert(modifiers.entries@ == old(modifiers).entries@ + contribs_of(*self));
                }
            },
            Status::Secondary(x) => {
                let mut i: usize = 0;
                while i < x.modifiers.len()
                    invariant
                        0 <= i <= x.modifiers.len(),
                        modifiers.entries@ == old(modifiers).entries@ + x.modifiers@.take(i as int),
                    decreases x.modifiers.len() - i,
                {
                    let e = x.modifiers[i];
                    modifiers.add_modifier(e.attribute, e.modifier, e.from, e.until);
                    proof {
                        assert(x.modifiers@.take(i as int + 1) == x.modifiers@.take(i as int).push(
                            x.modifiers@[i as int],
                        ));
                    }
                    i = i + 1;
                }
                proof {
                    assert(x.modifiers@.take(x.modifiers@.len() as int) == x.modifiers@);
                }
            },
            _ => {
                proof {
                    assert(old(modifiers).entries@ + Seq::<CharAttributeModifierEntry>::empty()
                        == old(modifiers).entries@);
                }
            },
        }
    }

    /// The sprite this effect substitutes for the base sprite, if any.
    pub fn calc_render_sprite(
        &self,
        job_id: JobId,
        head_index: usize,
        sex: Sex,
        sprites: &Sprites,
    ) -> (r: Option<SpriteResource>)
        ensures
            r == sprite_override_of(*self, job_id, sex, sprites.mounted_character_sprites@),
    {
        let _ = head_index;
        match self {
            Status::Mounted(_) => lookup_sprite(&sprites.mounted_character_sprites, job_id, sex),
            Status::Secondary(x) => x.sprite_override,
            _ => None,
        }
    }

    /// Advances this effect's timers at `system_vars.time`, possibly
    /// enqueueing damage events, and reports whether the effect is done.
    pub fn update(&mut self, self_char_id: EntityId, system_vars: &mut SystemVariables) -> (r:
        StatusUpdateResult)
        requires
            old(system_vars).time.0 + 1000 <= u32::MAX,
        ensures
            final(system_vars).time == old(system_vars).time,
            (r is RemoveIt) == update_removes(*old(self), old(system_vars).time),
            *final(self) == if update_removes(*old(self), old(system_vars).time) {
                *old(self)
            } else {
                updated_status(*old(self), old(system_vars).time)
            },
            final(system_vars).attacks@ == old(system_vars).attacks@ + emitted_attacks(
                *old(self),
                old(system_vars).time,
                self_char_id,
            ),
    {
        match self {
            Status::Poison(p) => {
                if p.until.0 <= system_vars.time.0 {
                    StatusUpdateResult::RemoveIt
                } else {
                    if p.next_damage_at.0 <= system_vars.time.0 {
                        let attack = AttackComponent {
                            src_entity: p.poison_caster_entity_id,
                            dst_entity: self_char_id,
                            typ: AttackType::Poison(POISON_TICK_DAMAGE),
                        };
                        system_vars.attacks.push(attack);
                        p.next_damage_at = system_vars.time.add_seconds(
                            POISON_TICK_INTERVAL_SECONDS,
                        );
                    } else {
                        proof {
                            assert(system_vars.attacks@ == old(system_vars).attacks@ + Seq::<
                                AttackComponent,
                            >::empty());
                        }
                    }
                    StatusUpdateResult::KeepIt
                }
            },
            Status::Secondary(x) => {
                let expired = match x.completion {
                    Some(c) => c.1.0 <= system_vars.time.0,
                    None => false,
                };
                proof {
                    assert(system_vars.attacks@ == old(system_vars).attacks@ + Seq::<
                        AttackComponent,
                    >::empty());
                }
                if expired {
                    StatusUpdateResult::RemoveIt
                } else {
                    StatusUpdateResult::KeepIt
                }
            },
            _ => {
                proof {
                    assert(system_vars.attacks@ == old(system_vars).attacks@ + Seq::<
                        AttackComponent,
                    >::empty());
                }
                StatusUpdateResult::KeepIt
            },
        }
    }

    /// Rewrites one incoming damage outcome on its way in.
    pub fn affect_incoming_damage(&mut self, outcome: AttackOutcome) -> (r: AttackOutcome)
        requires
            old(self).wf(),
        ensures
            *final(self) == *old(self),
            r == filtered_damage(*old(self), outcome),
    {
        match self {
            Status::Secondary(x) => match x.incoming_damage_permille {
                Some(f) => {
                    proof {
                        lemma_damage_scale_bound(outcome.damage, f);
                    }
                    AttackOutcome {
                        damage: ((outcome.damage as u64 * f as u64) / 1000) as u32,
                    }
                },
                None => outcome,
            },
            _ => outcome,
        }
    }

    /// Whether this effect lets an external force move the character.
    pub fn allow_push(&mut self, push: &ApplyForceComponent) -> (r: bool)
        ensures
            *final(self) == *old(self),
            r == allows_push(*old(self)),
    {
        let _ = push;
        match self {
            Status::Secondary(x) => x.allow_push,
            _ => true,
        }
    }

    /// Emits this effect's visual-overlay commands.
    pub fn render(&self, render_commands: &mut Vec<RenderCommand>)
        ensures
            final(render_commands)@ == old(render_commands)@ + render_commands_of(*self),
    {
        match self {
            Status::Poison(p) => {
                let key = self.type_key();
                render_commands.push(RenderCommand { kind_key: key, started: p.started });
            },
            Status::Secondary(x) => {
                if x.has_overlay {
                    let key = self.type_key();
                    render_commands.push(RenderCommand { kind_key: key, started: x.started });
                } else {
                    proof {
                        assert(render_commands@ == old(render_commands)@ + Seq::<
                            RenderCommand,
                        >::empty());
                    }
                }
            },
            _ => {
                proof {
                    assert(render_commands@ == old(render_commands)@ + Seq::<
                        RenderCommand,
                    >::empty());
                }
            },
        }
    }

    /// The end time and elapsed fraction (in thousandths) for UI countdown,
    /// for effects with a natural end.
    pub fn get_status_completion_percent(&self, now: ElapsedTime) -> (r: Option<
        (ElapsedTime, u64),
    >)
        ensures
            r == completion_of(*self, now),
    {
        match self {
            Status::Poison(p) => Some((p.until, now.percentage_between(p.started, p.until))),
            Status::Secondary(x) => match x.completion {
                Some(c) => Some((c.1, now.percentage_between(c.0, c.1))),
                None => None,
            },
            _ => None,
        }
    }

    /// The stacking policy consulted when an equivalent-kind effect is
    /// applied while this one is active.
    pub fn stack(&mut self, other: &Status) -> (r: StatusStackingResult)
        ensures
            *final(self) == *old(self),
            r == stack_policy_of(*old(self)),
    {
        let _ = other;
        match self {
            Status::Mounted(_) => StatusStackingResult::DontAddTheNewStatus,
            Status::Stun(_) => StatusStackingResult::DontAddTheNewStatus,
            Status::Poison(_) => StatusStackingResult::AddTheNewStatus,
            Status::Secondary(x) => x.stacking,
        }
    }

    /// The runtime-kind key used for stacking lookups and render dedup.
    pub fn type_key(&self) -> (r: u64)
        ensures
            r == type_key_of(*self),
    {
        match self {
            Status::Mounted(_) => 0,
            Status::Stun(_) => 1,
            Status::Poison(_) => 2,
            Status::Secondary(x) => 3 + x.kind_id as u64,
        }
    }
}

proof fn lemma_damage_scale_bound(damage: u32, f: u16)
    ensures
        damage * f <= 0xffff_ffff * 0xffff,
{
    assert(damage * f <= 0xffff_ffff * 0xffff) by (nonlinear_arith)
        requires
            damage <= 0xffff_ffff,
            f <= 0xffff,
    ;
}

} // verus!
