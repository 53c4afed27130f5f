use status_effects::char_attr::{
    CharAttribute, CharAttributeModifier, CharOutlook, JobId, MonsterId, Percentage, Sex,
    SpriteEntry, SpriteResource, Sprites,
};
use status_effects::messages::{
    apply_status, apply_status_in_area, remove_status, resolve_area_targets,
    ApplyStatusComponent, ApplyStatusComponentPayload, ApplyStatusInAreaComponent, AreaCandidate,
    RemoveStatusComponent,
};
use status_effects::status::{
    AttackComponent, AttackOutcome, AttackType, ApplyForceComponent, EntityId, MainStatuses,
    RenderColor, RenderCommand, SecondaryStatus, Status, StatusStackingResult, StatusType,
    SystemVariables,
};
use status_effects::statuses::Statuses;
use status_effects::time::ElapsedTime;

fn entity(n: u64) -> EntityId {
    EntityId(n)
}

fn plain_secondary(kind_id: u32) -> SecondaryStatus {
    SecondaryStatus {
        kind_id,
        typ: StatusType::Harmful,
        can_move: true,
        can_cast: true,
        color: RenderColor { r: 1000, g: 1000, b: 1000, a: 1000 },
        size_permille: 1000,
        sprite_override: None,
        started: ElapsedTime(0),
        completion: None,
        modifiers: Vec::new(),
        incoming_damage_permille: None,
        allow_push: true,
        stacking: StatusStackingResult::AddTheNewStatus,
        has_overlay: false,
    }
}

fn sys_at(millis: u32) -> SystemVariables {
    SystemVariables { time: ElapsedTime(millis), attacks: Vec::new() }
}

// Capacity accounting over adds and resets: the active secondary count
// follows the net of the script and the mark stays within the limit.
#[test]
fn add_and_remove_all_net_count() {
    let mut set = Statuses::new();
    assert_eq!(set.first_free_index(), 3);
    for k in 0..5 {
        set.add(Status::Secondary(plain_secondary(k)));
    }
    assert_eq!(set.first_free_index(), 8);
    set.remove_all();
    assert_eq!(set.first_free_index(), 3);
    for k in 0..2 {
        set.add(Status::Secondary(plain_secondary(k)));
    }
    assert_eq!(set.first_free_index(), 5);
}

#[test]
fn capacity_overflow_rejected_without_corruption() {
    let mut set = Statuses::new();
    for k in 0..29 {
        set.add(Status::Secondary(plain_secondary(k)));
    }
    assert_eq!(set.first_free_index(), 32);
    // One more must be rejected and leave every slot as it was.
    let mut tinted = plain_secondary(99);
    tinted.color = RenderColor { r: 0, g: 0, b: 0, a: 0 };
    set.add(Status::Secondary(tinted));
    assert_eq!(set.first_free_index(), 32);
    // The rejected effect's tint is nowhere to be seen.
    let c = set.calc_render_color();
    assert_eq!(c, RenderColor { r: 1000, g: 1000, b: 1000, a: 1000 });
}

#[test]
fn poison_reapply_extends_expiry() {
    let mut set = Statuses::new();
    set.add_poison(entity(7), ElapsedTime(1000), ElapsedTime(5000));
    set.add_poison(entity(8), ElapsedTime(1000), ElapsedTime(8000));
    // Merged expiry is 8000: at 5000 the poison still lives...
    let mut sv = sys_at(5000);
    set.update(entity(1), &mut sv);
    assert!(set.calc_largest_remaining_status_time_percent(ElapsedTime(5000)).is_some());
    // ...and only an update at 8000 removes it.
    let mut sv2 = sys_at(8000);
    let changed = set.update(entity(1), &mut sv2);
    assert!(changed);
    assert!(set.calc_largest_remaining_status_time_percent(ElapsedTime(8000)).is_none());
}

#[test]
fn poison_reapply_never_shortens_expiry() {
    let mut set = Statuses::new();
    set.add_poison(entity(7), ElapsedTime(1000), ElapsedTime(8000));
    set.add_poison(entity(8), ElapsedTime(1000), ElapsedTime(5000));
    // The merge kept 8000: an update at 5000 must not remove it.
    let mut sv = sys_at(5000);
    let changed = set.update(entity(1), &mut sv);
    assert!(!changed);
    assert!(set.calc_largest_remaining_status_time_percent(ElapsedTime(5000)).is_some());
    let mut sv2 = sys_at(8000);
    assert!(set.update(entity(1), &mut sv2));
}

#[test]
fn switch_mounted_is_a_toggle() {
    let mut set = Statuses::new();
    assert!(!set.is_mounted());
    set.switch_mounted();
    assert!(set.is_mounted());
    // Called while mounted it removes the status...
    set.switch_mounted();
    assert!(!set.is_mounted());
    // ...so two calls return the slot to empty.
}

#[test]
fn render_tint_of_no_effects_is_opaque_white() {
    let set = Statuses::new();
    assert_eq!(set.calc_render_color(), RenderColor { r: 1000, g: 1000, b: 1000, a: 1000 });
}

#[test]
fn render_tint_multiplies_channelwise() {
    let mut set = Statuses::new();
    let mut greenish = plain_secondary(1);
    greenish.color = RenderColor { r: 500, g: 1000, b: 500, a: 1000 };
    let mut reddish = plain_secondary(2);
    reddish.color = RenderColor { r: 1000, g: 500, b: 1000, a: 1000 };
    set.add(Status::Secondary(greenish));
    set.add(Status::Secondary(reddish));
    assert_eq!(set.calc_render_color(), RenderColor { r: 500, g: 500, b: 500, a: 1000 });
}

#[test]
fn poison_tick_emits_one_damage_event() {
    let mut set = Statuses::new();
    // next tick is at started + 1000 = 2000.
    set.add_poison(entity(7), ElapsedTime(1000), ElapsedTime(9000));
    let mut sv = sys_at(2500);
    let changed = set.update(entity(42), &mut sv);
    assert!(!changed);
    assert_eq!(sv.attacks.len(), 1);
    assert_eq!(
        sv.attacks[0],
        AttackComponent {
            src_entity: entity(7),
            dst_entity: entity(42),
            typ: AttackType::Poison(30),
        }
    );
    // The next tick moved to 3500: an update at 3000 emits nothing.
    let mut sv2 = sys_at(3000);
    set.update(entity(42), &mut sv2);
    assert_eq!(sv2.attacks.len(), 0);
    // And at 3600 exactly one more.
    let mut sv3 = sys_at(3600);
    set.update(entity(42), &mut sv3);
    assert_eq!(sv3.attacks.len(), 1);
}

#[test]
fn poison_removed_once_expired() {
    let mut set = Statuses::new();
    set.add_poison(entity(7), ElapsedTime(1000), ElapsedTime(4000));
    let mut sv = sys_at(4000);
    let changed = set.update(entity(42), &mut sv);
    assert!(changed);
    // No damage is emitted by the removing update.
    assert_eq!(sv.attacks.len(), 0);
    assert!(set.calc_largest_remaining_status_time_percent(ElapsedTime(4000)).is_none());
}

#[test]
fn largest_remaining_fraction_belongs_to_later_expiry() {
    let mut set = Statuses::new();
    let mut early = plain_secondary(1);
    early.completion = Some((ElapsedTime(0), ElapsedTime(5000)));
    let mut late = plain_secondary(2);
    late.completion = Some((ElapsedTime(1000), ElapsedTime(9000)));
    set.add(Status::Secondary(early));
    set.add(Status::Secondary(late));
    // At 3000 the later effect is 2000/8000 = 250 thousandths in.
    assert_eq!(
        set.calc_largest_remaining_status_time_percent(ElapsedTime(3000)),
        Some(250)
    );
}

#[test]
fn largest_remaining_fraction_of_empty_set_is_none() {
    let set = Statuses::new();
    assert_eq!(set.calc_largest_remaining_status_time_percent(ElapsedTime(500)), None);
}

#[test]
fn area_application_excludes_sole_inside_entity() {
    let msg = ApplyStatusInAreaComponent {
        source_entity_id: entity(1),
        status: ApplyStatusComponentPayload::from_main_status(MainStatuses::Stun),
        except: Some(entity(5)),
    };
    let candidates = vec![AreaCandidate { entity_id: entity(5), inside_area: true }];
    let targets = resolve_area_targets(&msg, &candidates);
    assert_eq!(targets.len(), 0);
    let msgs = apply_status_in_area(&msg, &candidates);
    assert_eq!(msgs.len(), 0);
}

#[test]
fn area_application_reaches_other_inside_entities() {
    let msg = ApplyStatusInAreaComponent {
        source_entity_id: entity(1),
        status: ApplyStatusComponentPayload::from_secondary(Status::Secondary(plain_secondary(4))),
        except: Some(entity(5)),
    };
    let candidates = vec![
        AreaCandidate { entity_id: entity(5), inside_area: true },
        AreaCandidate { entity_id: entity(6), inside_area: true },
        AreaCandidate { entity_id: entity(7), inside_area: false },
    ];
    let targets = resolve_area_targets(&msg, &candidates);
    assert_eq!(targets, vec![entity(6)]);
    let msgs = apply_status_in_area(&msg, &candidates);
    assert_eq!(msgs.len(), 1);
    assert_eq!(msgs[0].target_entity_id, entity(6));
    assert_eq!(msgs[0].source_entity_id, entity(1));
}

#[test]
fn apply_message_routes_main_kinds() {
    let mut set = Statuses::new();
    let msg = ApplyStatusComponent::from_main_status(entity(1), entity(2), MainStatuses::Mounted);
    apply_status(&mut set, msg, ElapsedTime(100));
    assert!(set.is_mounted());
    let msg2 = ApplyStatusComponent::from_main_status(entity(1), entity(2), MainStatuses::Stun);
    apply_status(&mut set, msg2, ElapsedTime(100));
    assert!(set.is_stunned());
    let msg3 = ApplyStatusComponent::from_main_status(entity(1), entity(2), MainStatuses::Poison);
    apply_status(&mut set, msg3, ElapsedTime(100));
    assert!(set.calc_largest_remaining_status_time_percent(ElapsedTime(100)).is_some());
}

#[test]
fn stacking_policy_drop_discards_reapplied_kind() {
    let mut set = Statuses::new();
    let mut unique = plain_secondary(9);
    unique.stacking = StatusStackingResult::DontAddTheNewStatus;
    set.add(Status::Secondary(unique));
    assert_eq!(set.first_free_index(), 4);
    let mut again = plain_secondary(9);
    again.stacking = StatusStackingResult::DontAddTheNewStatus;
    let msg = ApplyStatusComponent::from_secondary_status(entity(1), entity(2), Status::Secondary(again));
    apply_status(&mut set, msg, ElapsedTime(100));
    // The active instance said no: nothing was appended.
    assert_eq!(set.first_free_index(), 4);
    let other = plain_secondary(10);
    let msg2 = ApplyStatusComponent::from_secondary_status(entity(1), entity(2), Status::Secondary(other));
    apply_status(&mut set, msg2, ElapsedTime(100));
    assert_eq!(set.first_free_index(), 5);
}

#[test]
fn remove_by_classification_spares_main_slots() {
    let mut set = Statuses::new();
    set.switch_mounted();
    let mut harmful = plain_secondary(1);
    harmful.color = RenderColor { r: 0, g: 0, b: 0, a: 1000 };
    harmful.typ = StatusType::Harmful;
    let mut helpful = plain_secondary(2);
    helpful.color = RenderColor { r: 1000, g: 1000, b: 0, a: 1000 };
    helpful.typ = StatusType::Supportive;
    set.add(Status::Secondary(harmful));
    set.add(Status::Secondary(helpful));
    let msg = RemoveStatusComponent::from_secondary_status(entity(1), entity(2), StatusType::Harmful);
    remove_status(&mut set, msg);
    // The harmful tint is gone, the supportive one and Mounted stay.
    assert_eq!(set.calc_render_color(), RenderColor { r: 1000, g: 1000, b: 0, a: 1000 });
    assert!(set.is_mounted());
    // The mark is not compacted by classified removal.
    assert_eq!(set.first_free_index(), 5);
}

#[test]
fn remove_main_status_clears_reserved_slot() {
    let mut set = Statuses::new();
    set.add_poison(entity(3), ElapsedTime(0), ElapsedTime(9000));
    let msg = RemoveStatusComponent::from_main_status(entity(1), entity(2), MainStatuses::Poison);
    remove_status(&mut set, msg);
    assert!(set.calc_largest_remaining_status_time_percent(ElapsedTime(100)).is_none());
}

#[test]
fn mounted_contributes_walking_speed_bonus() {
    let mut set = Statuses::new();
    set.switch_mounted();
    let collector = set.calc_attributes();
    assert_eq!(collector.entries.len(), 1);
    let e = &collector.entries[0];
    assert_eq!(e.attribute, CharAttribute::WalkingSpeed);
    assert_eq!(
        e.modifier,
        CharAttributeModifier::IncreaseByPercentage(Percentage(200))
    );
}

#[test]
fn secondary_modifiers_follow_main_region_in_order() {
    let mut set = Statuses::new();
    set.switch_mounted();
    let mut hasted = plain_secondary(3);
    hasted.modifiers = vec![status_effects::char_attr::CharAttributeModifierEntry {
        attribute: CharAttribute::AttackSpeed,
        modifier: CharAttributeModifier::IncreaseByPercentage(Percentage(50)),
        from: ElapsedTime(0),
        until: ElapsedTime(1000),
    }];
    set.add(Status::Secondary(hasted));
    let collector = set.calc_attributes();
    assert_eq!(collector.entries.len(), 2);
    assert_eq!(collector.entries[0].attribute, CharAttribute::WalkingSpeed);
    assert_eq!(collector.entries[1].attribute, CharAttribute::AttackSpeed);
}

#[test]
fn base_attributes_by_outlook() {
    let player = CharOutlook::Player {
        job_id: JobId(1),
        head_index: 0,
        sex: Sex::Male,
    };
    let monster = CharOutlook::Monster(MonsterId(4));
    let pa = Statuses::get_base_attributes(&player);
    let ma = Statuses::get_base_attributes(&monster);
    assert_eq!(pa.armor, Percentage(10));
    assert_eq!(ma.armor, Percentage(0));
    assert_eq!(pa.attack_damage, 76);
    assert_eq!(pa.max_hp, 2000);
    assert_eq!(ma.walking_speed, Percentage(100));
}

#[test]
fn damage_filter_scales_incoming_damage() {
    let mut set = Statuses::new();
    let mut armored = plain_secondary(1);
    armored.incoming_damage_permille = Some(500);
    set.add(Status::Secondary(armored));
    let out = set.affect_incoming_damage(AttackOutcome { damage: 100 });
    assert_eq!(out.damage, 50);
    // A second filter composes multiplicatively.
    let mut harder = plain_secondary(2);
    harder.incoming_damage_permille = Some(200);
    set.add(Status::Secondary(harder));
    let out2 = set.affect_incoming_damage(AttackOutcome { damage: 100 });
    assert_eq!(out2.damage, 10);
}

#[test]
fn push_denied_by_any_active_effect() {
    let mut set = Statuses::new();
    let push = ApplyForceComponent {
        src_entity: entity(1),
        dst_entity: entity(2),
        duration_millis: 300,
    };
    assert!(set.allow_push(&push));
    let mut rooted = plain_secondary(6);
    rooted.allow_push = false;
    set.add(Status::Secondary(rooted));
    assert!(!set.allow_push(&push));
}

#[test]
fn render_deduplicates_by_effect_kind() {
    let mut set = Statuses::new();
    set.add_poison(entity(1), ElapsedTime(500), ElapsedTime(9000));
    let mut glow_a = plain_secondary(5);
    glow_a.has_overlay = true;
    glow_a.started = ElapsedTime(100);
    let mut glow_b = plain_secondary(5);
    glow_b.has_overlay = true;
    glow_b.started = ElapsedTime(200);
    let mut other = plain_secondary(6);
    other.has_overlay = true;
    other.started = ElapsedTime(300);
    set.add(Status::Secondary(glow_a));
    set.add(Status::Secondary(glow_b));
    set.add(Status::Secondary(other));
    let mut commands: Vec<RenderCommand> = Vec::new();
    set.render(&mut commands);
    // Poison renders once, kind 5 renders once (the earlier slot), kind 6 once.
    assert_eq!(commands.len(), 3);
    assert_eq!(commands[0].started, ElapsedTime(500));
    assert_eq!(commands[1].started, ElapsedTime(100));
    assert_eq!(commands[2].started, ElapsedTime(300));
}

#[test]
fn sprite_override_later_slots_win() {
    let job = JobId(2);
    let sprites = Sprites {
        character_sprites: vec![SpriteEntry {
            job_id: job,
            male: SpriteResource(10),
            female: SpriteResource(11),
        }],
        mounted_character_sprites: vec![SpriteEntry {
            job_id: job,
            male: SpriteResource(20),
            female: SpriteResource(21),
        }],
    };
    let mut set = Statuses::new();
    assert_eq!(set.calc_render_sprite(job, 0, Sex::Male, &sprites), SpriteResource(10));
    assert_eq!(set.calc_render_sprite(job, 0, Sex::Female, &sprites), SpriteResource(11));
    set.switch_mounted();
    assert_eq!(set.calc_render_sprite(job, 0, Sex::Male, &sprites), SpriteResource(20));
    // A secondary override sits in a later slot and wins over Mounted.
    let mut disguised = plain_secondary(8);
    disguised.sprite_override = Some(SpriteResource(77));
    set.add(Status::Secondary(disguised));
    assert_eq!(set.calc_render_sprite(job, 0, Sex::Male, &sprites), SpriteResource(77));
}

#[test]
fn update_compacts_trailing_empty_slots() {
    let mut set = Statuses::new();
    set.add(Status::Secondary(lasting_clone()));
    set.add(Status::Secondary(brief_clone(1)));
    set.add(Status::Secondary(brief_clone(2)));
    assert_eq!(set.first_free_index(), 6);
    // The two trailing effects expire at 1000; the mark shrinks past
    // them, but not past the still-active first secondary slot.
    let mut sv = sys_at(1000);
    let changed = set.update(entity(1), &mut sv);
    assert!(changed);
    assert_eq!(set.first_free_index(), 4);
}

fn lasting_clone() -> SecondaryStatus {
    let mut s = plain_secondary(2);
    s.completion = Some((ElapsedTime(0), ElapsedTime(5000)));
    s
}

fn brief_clone(kind: u32) -> SecondaryStatus {
    let mut s = plain_secondary(kind + 10);
    s.completion = Some((ElapsedTime(0), ElapsedTime(1000)));
    s
}

#[test]
fn percentage_between_exact_value() {
    let now = ElapsedTime(2500);
    assert_eq!(now.percentage_between(ElapsedTime(1000), ElapsedTime(5000)), 375);
    // Degenerate interval counts as fully elapsed.
    assert_eq!(now.percentage_between(ElapsedTime(5000), ElapsedTime(5000)), 1000);
    // Before the start nothing has elapsed.
    assert_eq!(ElapsedTime(500).percentage_between(ElapsedTime(1000), ElapsedTime(5000)), 0);
}

#[test]
fn payload_duplicate_is_independent() {
    let mut tinted = plain_secondary(3);
    tinted.color = RenderColor { r: 100, g: 200, b: 300, a: 1000 };
    let payload = ApplyStatusComponentPayload::from_secondary(Status::Secondary(tinted));
    let copy = payload.duplicate();
    // Applying original and copy to two different sets gives each the
    // same tint, with no shared state.
    let mut a = Statuses::new();
    let mut b = Statuses::new();
    apply_status(
        &mut a,
        ApplyStatusComponent { source_entity_id: entity(1), target_entity_id: entity(2), status: payload },
        ElapsedTime(0),
    );
    apply_status(
        &mut b,
        ApplyStatusComponent { source_entity_id: entity(1), target_entity_id: entity(3), status: copy },
        ElapsedTime(0),
    );
    assert_eq!(a.calc_render_color(), b.calc_render_color());
    assert_eq!(a.calc_render_color(), RenderColor { r: 100, g: 200, b: 300, a: 1000 });
}
