use vstd::prelude::*;

use crate::time::ElapsedTime;

verus! {

/// A percentage value; `Percentage(100)` means 100%.
#[derive(Clone, Copy, PartialEq, Eq, Structural, Debug)]
pub struct Percentage(pub i32);

/// The character attributes an effect can modify.
#[derive(Clone, Copy, PartialEq, Eq, Structural, Debug)]
pub enum CharAttribute {
    WalkingSpeed,
    AttackRange,
    AttackSpeed,
    AttackDamage,
    Armor,
    Healing,
    HpRegen,
    MaxHp,
    ManaRegen,
}

/// How a single modifier changes its attribute.
#[derive(Clone, Copy, PartialEq, Eq, Structural, Debug)]
pub enum CharAttributeModifier {
    IncreaseByPercentage(Percentage),
    DecreaseByPercentage(Percentage),
}

/// One pending modification of one attribute, valid during `[from, until]`.
#[derive(Clone, Copy, PartialEq, Eq, Structural, Debug)]
pub struct CharAttributeModifierEntry {
    pub attribute: CharAttribute,
    pub modifier: CharAttributeModifier,
    pub from: ElapsedTime,
    pub until: ElapsedTime,
}

/// Accumulator the active effects push their attribute modifiers into.
/// A `Statuses` set owns one and reuses it across aggregation calls.
pub struct CharAttributeModifierCollector {
    pub entries: Vec<CharAttributeModifierEntry>,
}

impl CharAttributeModifierCollector {
    pub fn new() -> (r: CharAttributeModifierCollector)
        ensures
            r.entries@ == Seq::<CharAttributeModifierEntry>::empty(),
    {
        CharAttributeModifierCollector { entries: Vec::new() }
    }

    pub fn clear(&mut self)
        ensures
            final(self).entries@ == Seq::<CharAttributeModifierEntry>::empty(),
    {
        self.entries.clear();
    }

    pub fn add_modifier(
        &mut self,
        attribute: CharAttribute,
        modifier: CharAttributeModifier,
        from: ElapsedTime,
        until: ElapsedTime,
    )
        ensures
            final(self).entries@ == old(self).entries@.push(
                CharAttributeModifierEntry { attribute, modifier, from, until },
            ),
    {
        self.entries.push(CharAttributeModifierEntry { attribute, modifier, from, until });
    }

    pub fn change_walking_speed(
        &mut self,
        modifier: CharAttributeModifier,
        from: ElapsedTime,
        until: ElapsedTime,
    )
        ensures
            final(self).entries@ == old(self).entries@.push(
                CharAttributeModifierEntry {
                    attribute: CharAttribute::WalkingSpeed,
                    modifier,
                    from,
                    until,
                },
            ),
    {
        self.add_modifier(CharAttribute::WalkingSpeed, modifier, from, until);
    }
}

/// The aggregate base attributes of a character.
#[derive(Clone, Copy, PartialEq, Eq, Structural, Debug)]
pub struct CharAttributes {
    pub walking_speed: Percentage,
    pub attack_range: Percentage,
    pub attack_speed: Percentage,
    pub attack_damage: u32,
    pub armor: Percentage,
    pub healing: Percentage,
    pub hp_regen: Percentage,
    pub max_hp: u32,
    pub mana_regen: Percentage,
}

/// Identifier of a playable job (class); the job table itself lives with
/// the asset system, the effect engine only compares identifiers.
#[derive(Clone, Copy, PartialEq, Eq, Structural, Debug)]
pub struct JobId(pub u32);

/// Identifier of a monster kind.
#[derive(Clone, Copy, PartialEq, Eq, Structural, Debug)]
pub struct MonsterId(pub u32);

#[derive(Clone, Copy, PartialEq, Eq, Structural, Debug)]
pub enum Sex {
    Male,
    Female,
}

/// How a character looks; decides its base attributes and base sprite.
#[derive(Clone, Copy, PartialEq, Eq, Structural, Debug)]
pub enum CharOutlook {
    Player { job_id: JobId, head_index: usize, sex: Sex },
    Monster(MonsterId),
}

/// Handle to a loaded sprite; the resource itself lives with the asset
/// system, the effect engine only selects which handle to draw.
#[derive(Clone, Copy, PartialEq, Eq, Structural, Debug)]
pub struct SpriteResource(pub u64);

/// One row of a sprite table: the sprites of one job, by sex.
#[derive(Clone, Copy, PartialEq, Eq, Structural, Debug)]
pub struct SpriteEntry {
    pub job_id: JobId,
    pub male: SpriteResource,
    pub female: SpriteResource,
}

/// The sprite tables the render queries read from.
pub struct Sprites {
    pub character_sprites: Vec<SpriteEntry>,
    pub mounted_character_sprites: Vec<SpriteEntry>,
}

pub open spec fn sprite_of(entry: SpriteEntry, sex: Sex) -> SpriteResource {
    match sex {
        Sex::Male => entry.male,
        Sex::Female => entry.female,
    }
}

/// First entry for `job` at or after index `i`, if any.
pub open spec fn sprite_lookup_from(
    entries: Seq<SpriteEntry>,
    job: JobId,
    sex: Sex,
    i: int,
) -> Option<SpriteResource>
    decreases entries.len() - i,
{
    if i < 0 || i >= entries.len() {
        None
    } else if entries[i].job_id == job {
        Some(sprite_of(entries[i], sex))
    } else {
        sprite_lookup_from(entries, job, sex, i + 1)
    }
}

/// The sprite a table assigns to `job` and `sex`: the first matching row.
pub open spec fn sprite_lookup(
    entries: Seq<SpriteEntry>,
    job: JobId,
    sex: Sex,
) -> Option<SpriteResource> {
    sprite_lookup_from(entries, job, sex, 0)
}

/// Linear scan of a sprite table for the first row of `job`.
pub fn lookup_sprite(entries: &Vec<SpriteEntry>, job: JobId, sex: Sex) -> (r: Option<
    SpriteResource,
>)
    ensures
        r == sprite_lookup(entries@, job, sex),
{
    let mut i: usize = 0;
    while i < entries.len()
        invariant
            0 <= i <= entries.len(),
            sprite_lookup(entries@, job, sex) == sprite_lookup_from(entries@, job, sex, i as int),
        decreases entries.len() - i,
    {
        if entries[i].job_id == job {
            return Some(if matches!(sex, Sex::Male) {
                entries[i].male
            } else {
                entries[i].female
            });
        }
        i = i + 1;
    }
    None
}

} // verus!
