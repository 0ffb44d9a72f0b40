use combat_core::berserker::{berserker_lifesteal, Berserker};
use combat_core::collisions::{handle_move_interaction, process_hit, reflect_request, ReflectSide};
use combat_core::custom_move::{MoveActiveEvent, MoveInput, MoveName, MoveType};
use combat_core::damage::{Damage, DamageType};
use combat_core::global_entity_map::GlobalEntityMap;
use combat_core::global_weapon_collider::WeaponColliderMap;
use combat_core::input_move_map::input_map_to_move;
use combat_core::move_components::handle_start_move;
use combat_core::movement::{check_sprint_ready, sprint_ready, walk_speed};
use combat_core::physics::{kb_duration, update_knockback_timer, KnockbackStore, KnockbackTimer, WeaponKnockback};
use combat_core::stun::{update_stun_effect, Stun};
use combat_core::unit::{handle_unit_death, HpChangeType, Unit, UnitType};

#[test]
fn knockback_duration_follows_force() {
    assert_eq!(kb_duration(300), 843);
    assert_eq!(kb_duration(600), 1687);
    assert_eq!(kb_duration(800), 2250);
    assert_eq!(kb_duration(0), 0);
}

#[test]
fn knockback_store_refresh() {
    let mut store = KnockbackStore::new();
    store.install(20, WeaponKnockback::new(0, 0));
    store.refresh(20, 600);
    assert_eq!(store.get(20).unwrap(), WeaponKnockback::new(600, 1687));
    // A collider never installed is left alone.
    store.refresh(99, 600);
    assert!(store.get(99).is_none());
}

#[test]
fn knockback_timer_damps_exactly_once() {
    let mut slot = Some(KnockbackTimer::new(500));
    assert!(!update_knockback_timer(&mut slot, 200));
    assert_eq!(slot.unwrap().remaining, 300);
    assert!(update_knockback_timer(&mut slot, 300));
    assert!(slot.is_none());
    // Expired and removed: the damping step can never fire again.
    assert!(!update_knockback_timer(&mut slot, 1000));
}

#[test]
fn unit_builder_defaults_and_overrides() {
    let unit = Unit::builder().build();
    assert_eq!(unit.name, "Unnamed Unit");
    assert_eq!(unit.hp, 100);
    assert_eq!(unit.max_hp, 100);
    assert_eq!(unit.speed, 180);
    assert_eq!(unit.unit_type, UnitType::Dummy);

    // Raising the maximum drags default hit points along.
    let hero = Unit::builder()
        .name("Hero".to_string())
        .max_hp(1000)
        .unitType(UnitType::Hero)
        .build();
    assert_eq!(hero.hp, 1000);
    assert_eq!(hero.max_hp, 1000);
    assert_eq!(hero.name, "Hero");

    // Explicitly set hit points stay put.
    let wounded = Unit::builder().hp(50).max_hp(1000).build();
    assert_eq!(wounded.hp, 50);
    assert_eq!(wounded.max_hp, 1000);
}

#[test]
fn unit_damage_saturates_and_reports() {
    let mut unit = Unit::builder().max_hp(100).build();
    let ev = unit.damage(30, 5, 9);
    assert_eq!(unit.hp, 70);
    assert_eq!(ev.entity, 5);
    assert_eq!(ev.source, 9);
    assert_eq!(ev.old_hp, 100);
    assert_eq!(ev.new_hp, 70);
    assert_eq!(ev.max_hp, 100);
    assert_eq!(ev.change_type, HpChangeType::Damage);
    assert!(!unit.is_dead());

    let ev = unit.damage(200, 5, 9);
    assert_eq!(unit.hp, 0);
    assert_eq!(ev.new_hp, 0);
    assert!(unit.is_dead());
    assert!(handle_unit_death(&ev));
}

#[test]
fn unit_heal_caps_and_set_hp_clamps() {
    let mut unit = Unit::builder().hp(40).max_hp(100).build();
    let ev = unit.heal(30, 5, 5);
    assert_eq!(unit.hp, 70);
    assert_eq!(ev.change_type, HpChangeType::Heal);
    unit.heal(1000, 5, 5);
    assert_eq!(unit.hp, 100);

    let ev = unit.set_hp(250, 5);
    assert_eq!(unit.hp, 100);
    assert_eq!(ev.change_type, HpChangeType::SetValue);
    unit.set_hp(33, 5);
    assert_eq!(unit.hp, 33);
    assert_eq!(unit.hp_percentage(), 33);

    let half = Unit::builder().hp(1).max_hp(3).build();
    assert_eq!(half.hp_percentage(), 33);
}

#[test]
fn damage_descriptor_and_critical_scaling() {
    let mut dmg = Damage::physical(50, 7);
    assert_eq!(dmg.get_amount(), 50);
    assert_eq!(dmg.get_type(), DamageType::Physical);
    assert_eq!(dmg.source, 7);

    dmg.multiply(150);
    assert_eq!(dmg.get_amount(), 75);
    dmg.multiply(100);
    assert_eq!(dmg.get_amount(), 75);
    dmg.set_amount(9);
    dmg.multiply(50);
    assert_eq!(dmg.get_amount(), 4);

    let typed = Damage::new(1, DamageType::Lightning, 2);
    assert_eq!(typed.get_type().name(), "Lightning");
    assert_eq!(DamageType::Physical.name(), "Physical");
}

#[test]
fn stab_counters_swing() {
    assert_eq!(
        handle_move_interaction(MoveType::Swing, MoveType::Stub),
        Some(ReflectSide::Second)
    );
    assert_eq!(
        handle_move_interaction(MoveType::Stub, MoveType::Swing),
        Some(ReflectSide::First)
    );
    assert_eq!(handle_move_interaction(MoveType::Swing, MoveType::Swing), None);
    assert_eq!(handle_move_interaction(MoveType::Stub, MoveType::Stub), None);
    assert_eq!(handle_move_interaction(MoveType::Interrupt, MoveType::Swing), None);

    let ev = reflect_request(42);
    assert_eq!(ev.entity, 42);
    assert_eq!(ev.move_name, MoveName::Reflect);
    assert_eq!(ev.move_input, MoveInput::Interrupt);
}

#[test]
fn hit_processing_applies_damage() {
    let mut target = Unit::builder().max_hp(500).build();
    let dmg = Damage::physical(120, 3);
    let ev = process_hit(&mut target, &dmg, 8);
    assert_eq!(target.hp, 380);
    assert_eq!(ev.entity, 8);
    assert_eq!(ev.source, 3);
    assert_eq!(ev.old_hp, 500);
    assert_eq!(ev.new_hp, 380);
}

#[test]
fn action_codes_map_to_moves() {
    assert_eq!(input_map_to_move(1, None), Some((MoveName::SwingLeft, MoveInput::Attack)));
    assert_eq!(input_map_to_move(2, None), Some((MoveName::SwordStub, MoveInput::Attack)));
    assert_eq!(input_map_to_move(3, Some(1)), Some((MoveName::Tunado, MoveInput::Attack)));
    assert_eq!(input_map_to_move(3, Some(0)), Some((MoveName::SpinLeft, MoveInput::Attack)));
    assert_eq!(input_map_to_move(3, None), Some((MoveName::SpinLeft, MoveInput::Attack)));
    assert_eq!(input_map_to_move(4, None), None);
    assert_eq!(input_map_to_move(99, None), None);
}

#[test]
fn walk_speed_composition() {
    // Default speed, no stance, not attacking.
    assert_eq!(walk_speed(None, None, false), 450);
    // The executing move's speed override.
    assert_eq!(walk_speed(Some(660), None, false), 660);
    // Active berserker stance adds its bonus.
    assert_eq!(walk_speed(None, Some(1), false), 600);
    assert_eq!(walk_speed(None, Some(0), false), 450);
    // Attacking scales by four fifths.
    assert_eq!(walk_speed(None, None, true), 360);
    assert_eq!(walk_speed(Some(450), Some(1), true), 480);
}

#[test]
fn sprint_cooldown_gate() {
    assert!(!sprint_ready(1999, 0));
    assert!(sprint_ready(2000, 0));
    assert_eq!(check_sprint_ready(false, 2500, 0), (true, true));
    assert_eq!(check_sprint_ready(true, 2500, 0), (true, false));
    assert_eq!(check_sprint_ready(true, 1000, 0), (false, false));
}

#[test]
fn stun_runs_down_once() {
    let mut slot = Some(Stun::new(1000));
    assert!(slot.unwrap().is_active());
    assert!(!update_stun_effect(&mut slot, 400));
    let s = slot.unwrap();
    assert_eq!(s.remaining_duration, 600);
    assert_eq!(s.progress_percentage(), 60);
    assert!(update_stun_effect(&mut slot, 600));
    assert!(slot.is_none());
    assert!(!update_stun_effect(&mut slot, 100));

    let over = Stun { remaining_duration: 0, total_duration: 0 };
    assert!(!over.is_active());
    assert_eq!(over.progress_percentage(), 0);
}

#[test]
fn berserker_stance_and_lifesteal() {
    let mut b = Berserker { level: 0 };
    b.toggle();
    assert_eq!(b.level, 1);
    b.toggle();
    assert_eq!(b.level, 0);

    let mut victim = Unit::builder().max_hp(100).build();
    let hit = victim.damage(40, 5, 9);
    // Passive-stance berserker heals for the damage dealt.
    assert_eq!(berserker_lifesteal(&hit, true, 0), Some(40));
    // Active stance, self-inflicted or non-berserker sources earn nothing.
    assert_eq!(berserker_lifesteal(&hit, true, 1), None);
    assert_eq!(berserker_lifesteal(&hit, false, 0), None);
    let selfhit = victim.damage(10, 9, 9);
    assert_eq!(berserker_lifesteal(&selfhit, true, 0), None);

    let mut healed = Unit::builder().max_hp(100).build();
    let heal = healed.heal(5, 5, 9);
    assert_eq!(berserker_lifesteal(&heal, true, 0), None);

    let mut hero = Unit::builder().hp(10).max_hp(100).build();
    let ev = hero.berserker_heal(40, 9, 9);
    assert_eq!(hero.hp, 50);
    assert_eq!(ev.old_hp, 10);
    assert_eq!(ev.new_hp, 50);
}

#[test]
fn entity_map_bindings() {
    let mut em = GlobalEntityMap::new();
    em.bind_weapon(1, 10);
    em.bind_collider(1, 10, 20);
    em.bind_trail(1, 30);
    assert_eq!(em.get_weapon(1), Some(10));
    assert_eq!(em.get_actor(10), Some(1));
    assert_eq!(em.get_collider(10), Some(20));
    assert_eq!(em.get_actor_collider(1), Some(20));
    assert_eq!(em.get_trail(1), Some(30));
    assert_eq!(em.get_weapon(2), None);
    assert_eq!(em.get_actor(11), None);

    let targets = handle_start_move(&MoveActiveEvent { actor: 1, move_name: MoveName::SwingLeft }, &em);
    assert_eq!(targets.collider, Some(20));
    assert_eq!(targets.trail, Some(30));
    let missing = handle_start_move(&MoveActiveEvent { actor: 2, move_name: MoveName::SwingLeft }, &em);
    assert_eq!(missing.collider, None);
    assert_eq!(missing.trail, None);
}

#[test]
fn weapon_collider_map_operations() {
    let mut map = WeaponColliderMap::new();
    assert!(map.is_empty());
    map.insert(1, 20);
    map.insert(2, 21);
    assert_eq!(map.len(), 2);
    assert!(map.contains(1));
    assert_eq!(map.get(1), Some(20));
    assert_eq!(map.get(3), None);
    assert_eq!(map.remove(1), Some(20));
    assert_eq!(map.remove(1), None);
    assert!(!map.contains(1));
    map.clear();
    assert!(map.is_empty());
    assert_eq!(map.len(), 0);
}
