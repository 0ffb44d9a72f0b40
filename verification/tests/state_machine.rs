use combat_core::custom_move::{
    handle_move_execution, update_move, update_moves, ExecuteMoveEvent, Move, MoveInput,
    MoveMetadata, MoveName, MovePhase, MoveType, PhaseEvent, RequestOutcome, TickOutcome,
    WeaponSlot,
};
use combat_core::global_entity_map::GlobalEntityMap;
use combat_core::move_database::MoveDatabase;
use combat_core::physics::{KnockbackStore, WeaponKnockback};

const ACTOR: u64 = 1;
const WEAPON: u64 = 10;
const COLLIDER: u64 = 20;

fn swing(name: MoveName, next: Option<MoveName>, accept: MoveInput) -> MoveMetadata {
    MoveMetadata {
        name,
        radius: 130,
        startup_time: 150,
        active_time: 150,
        recovery_time: 350,
        move_type: MoveType::Swing,
        accept_input: accept,
        next_move: next,
        kb_force: 300,
        critical_rate: 20,
        best_range_min: 150,
        move_speed: 450,
    }
}

fn two_swing_catalog() -> MoveDatabase {
    MoveDatabase::new(vec![
        swing(MoveName::SwingLeft, Some(MoveName::SwingRight), MoveInput::Attack),
        swing(MoveName::SwingRight, None, MoveInput::Neutral),
    ])
    .unwrap()
}

fn world() -> (GlobalEntityMap, KnockbackStore) {
    let mut em = GlobalEntityMap::new();
    em.bind_weapon(ACTOR, WEAPON);
    em.bind_collider(ACTOR, WEAPON, COLLIDER);
    let mut kb = KnockbackStore::new();
    kb.install(COLLIDER, WeaponKnockback::new(0, 0));
    (em, kb)
}

fn attack(name: MoveName) -> ExecuteMoveEvent {
    ExecuteMoveEvent { entity: WEAPON, move_name: name, move_input: MoveInput::Attack }
}

#[test]
fn swing_chain_scenario() {
    // SwingLeft(startup=150ms, active=150ms, recovery=350ms, next=SwingRight),
    // SwingRight the same with no successor.
    let db = two_swing_catalog();
    let (em, mut kb) = world();
    let mut slot: Option<Move> = None;

    // t=0: the first attack starts SwingLeft.
    let (outcome, recovery) =
        handle_move_execution(&mut slot, &attack(MoveName::SwingLeft), &db, &em, &mut kb);
    assert_eq!(outcome, RequestOutcome::Started);
    assert!(recovery.is_none());
    let mv = slot.as_ref().unwrap();
    assert_eq!(mv.move_metadata.name, MoveName::SwingLeft);
    assert_eq!(mv.current_phase, MovePhase::Startup);
    assert_eq!(mv.move_time, 0);
    // Starting a move refreshes the weapon collider's knockback descriptor.
    assert_eq!(kb.get(COLLIDER).unwrap(), WeaponKnockback::new(300, 843));

    // Tick to t=200: SwingLeft is in its Active phase.
    let (outcome, event) = update_move(&mut slot, WEAPON, 200, &em, &mut kb);
    assert_eq!(outcome, TickOutcome::Running);
    assert!(matches!(event, Some(PhaseEvent::Activated(e)) if e.actor == ACTOR));
    assert_eq!(slot.as_ref().unwrap().current_phase, MovePhase::Active);

    // A second attack at t=200 (inside Active) queues SwingRight.
    let (outcome, _) =
        handle_move_execution(&mut slot, &attack(MoveName::SwingLeft), &db, &em, &mut kb);
    assert_eq!(outcome, RequestOutcome::Queued);
    assert_eq!(slot.as_ref().unwrap().next_move.unwrap().name, MoveName::SwingRight);

    // At t=300 SwingLeft would enter Recovery; the machine instead jumps
    // straight to SwingRight's Startup, skipping the recovery tail.
    let (outcome, event) = update_move(&mut slot, WEAPON, 100, &em, &mut kb);
    assert_eq!(outcome, TickOutcome::Chained);
    assert!(matches!(event, Some(PhaseEvent::Recovered(e)) if e.move_name == MoveName::SwingLeft));
    let mv = slot.as_ref().unwrap();
    assert_eq!(mv.move_metadata.name, MoveName::SwingRight);
    assert_eq!(mv.current_phase, MovePhase::Startup);
    assert_eq!(mv.move_time, 0);
    assert!(mv.next_move.is_none());

    // SwingRight runs its full 650 ms and the move component is removed.
    let (outcome, event) = update_move(&mut slot, WEAPON, 650, &em, &mut kb);
    assert_eq!(outcome, TickOutcome::Completed);
    assert!(matches!(event, Some(PhaseEvent::Recovered(e)) if e.move_name == MoveName::SwingRight));
    assert!(slot.is_none());
}

#[test]
fn zero_tick_changes_nothing() {
    let db = two_swing_catalog();
    let (em, mut kb) = world();
    let mut slot: Option<Move> = None;
    handle_move_execution(&mut slot, &attack(MoveName::SwingLeft), &db, &em, &mut kb);

    let before = *slot.as_ref().unwrap();
    let (outcome, event) = update_move(&mut slot, WEAPON, 0, &em, &mut kb);
    assert_eq!(outcome, TickOutcome::Running);
    assert!(event.is_none());
    let after = *slot.as_ref().unwrap();
    assert_eq!(after.move_time, before.move_time);
    assert_eq!(after.current_phase, before.current_phase);

    // Even with a successor queued and the move sitting in Recovery, a
    // zero tick does not chain, change phase, or fire an event.
    update_move(&mut slot, WEAPON, 350, &em, &mut kb);
    handle_move_execution(&mut slot, &attack(MoveName::SwingLeft), &db, &em, &mut kb);
    assert_eq!(slot.as_ref().unwrap().current_phase, MovePhase::Recovery);
    assert!(slot.as_ref().unwrap().next_move.is_some());
    let (outcome, event) = update_move(&mut slot, WEAPON, 0, &em, &mut kb);
    assert_eq!(outcome, TickOutcome::Running);
    assert!(event.is_none());
    assert_eq!(slot.as_ref().unwrap().move_metadata.name, MoveName::SwingLeft);
    // The next real tick performs the pending chain.
    let (outcome, _) = update_move(&mut slot, WEAPON, 1, &em, &mut kb);
    assert_eq!(outcome, TickOutcome::Chained);
    assert_eq!(slot.as_ref().unwrap().move_metadata.name, MoveName::SwingRight);
}

#[test]
fn forced_interrupt_replaces_any_move() {
    let mut entries = vec![
        swing(MoveName::SwingLeft, Some(MoveName::SwingRight), MoveInput::Attack),
        swing(MoveName::SwingRight, None, MoveInput::Neutral),
    ];
    entries.push(MoveMetadata {
        name: MoveName::Reflect,
        radius: 130,
        startup_time: 0,
        active_time: 1000,
        recovery_time: 0,
        move_type: MoveType::Interrupt,
        accept_input: MoveInput::Interrupt,
        next_move: None,
        kb_force: 0,
        critical_rate: 0,
        best_range_min: 150,
        move_speed: 450,
    });
    let db = MoveDatabase::new(entries).unwrap();
    let (em, mut kb) = world();
    let mut slot: Option<Move> = None;

    handle_move_execution(&mut slot, &attack(MoveName::SwingLeft), &db, &em, &mut kb);
    update_move(&mut slot, WEAPON, 200, &em, &mut kb);

    let interrupt = ExecuteMoveEvent {
        entity: WEAPON,
        move_name: MoveName::Reflect,
        move_input: MoveInput::Interrupt,
    };
    let (outcome, recovery) = handle_move_execution(&mut slot, &interrupt, &db, &em, &mut kb);
    assert_eq!(outcome, RequestOutcome::Interrupted);
    // Exactly one recovery event, for the torn-down move.
    let recovery = recovery.unwrap();
    assert_eq!(recovery.actor, ACTOR);
    assert_eq!(recovery.move_name, MoveName::SwingLeft);
    let mv = slot.as_ref().unwrap();
    assert_eq!(mv.move_metadata.name, MoveName::Reflect);
    assert_eq!(mv.current_phase, MovePhase::Startup);
    assert_eq!(mv.move_time, 0);

    // Interrupting the interrupt works the same way.
    let (outcome, recovery) = handle_move_execution(&mut slot, &interrupt, &db, &em, &mut kb);
    assert_eq!(outcome, RequestOutcome::Interrupted);
    assert_eq!(recovery.unwrap().move_name, MoveName::Reflect);

    // An interrupt with nothing in flight owes no recovery event.
    let mut idle: Option<Move> = None;
    let (outcome, recovery) = handle_move_execution(&mut idle, &interrupt, &db, &em, &mut kb);
    assert_eq!(outcome, RequestOutcome::Interrupted);
    assert!(recovery.is_none());
}

#[test]
fn busy_and_lookup_drops() {
    let db = two_swing_catalog();
    let (em, mut kb) = world();
    let mut slot: Option<Move> = None;

    // A request for a move the catalog lacks is a no-op.
    let (outcome, _) =
        handle_move_execution(&mut slot, &attack(MoveName::Tunado), &db, &em, &mut kb);
    assert_eq!(outcome, RequestOutcome::DroppedUnknownMove);
    assert!(slot.is_none());

    // A request for a weapon the map does not know is a no-op.
    let stray = ExecuteMoveEvent {
        entity: 999,
        move_name: MoveName::SwingLeft,
        move_input: MoveInput::Attack,
    };
    let (outcome, _) = handle_move_execution(&mut slot, &stray, &db, &em, &mut kb);
    assert_eq!(outcome, RequestOutcome::DroppedUnmappedWeapon);

    handle_move_execution(&mut slot, &attack(MoveName::SwingLeft), &db, &em, &mut kb);

    // During Startup no chain input is accepted: the actor is busy.
    let (outcome, _) =
        handle_move_execution(&mut slot, &attack(MoveName::SwingLeft), &db, &em, &mut kb);
    assert_eq!(outcome, RequestOutcome::DroppedBusy);
    assert!(slot.as_ref().unwrap().next_move.is_none());

    // In Active, the queued successor is the one the current move
    // declares, whatever name the request carried.
    update_move(&mut slot, WEAPON, 200, &em, &mut kb);
    let (outcome, _) =
        handle_move_execution(&mut slot, &attack(MoveName::SwingRight), &db, &em, &mut kb);
    assert_eq!(outcome, RequestOutcome::Queued);
    assert_eq!(slot.as_ref().unwrap().next_move.unwrap().name, MoveName::SwingRight);

    // A move with no declared successor drops chain requests.
    let mut right_slot: Option<Move> = None;
    let mut kb2 = KnockbackStore::new();
    handle_move_execution(&mut right_slot, &attack(MoveName::SwingRight), &db, &em, &mut kb2);
    update_move(&mut right_slot, WEAPON, 200, &em, &mut kb2);
    let (outcome, _) = handle_move_execution(
        &mut right_slot,
        &ExecuteMoveEvent {
            entity: WEAPON,
            move_name: MoveName::SwingRight,
            move_input: MoveInput::Neutral,
        },
        &db,
        &em,
        &mut kb2,
    );
    assert_eq!(outcome, RequestOutcome::DroppedNoSuccessor);
}

#[test]
fn completion_without_chain() {
    let db = two_swing_catalog();
    let (em, mut kb) = world();
    let mut slot: Option<Move> = None;
    handle_move_execution(&mut slot, &attack(MoveName::SwingLeft), &db, &em, &mut kb);

    // Recovery entered at 300 ms; the full course is 650 ms.
    let (outcome, event) = update_move(&mut slot, WEAPON, 400, &em, &mut kb);
    assert_eq!(outcome, TickOutcome::Running);
    assert!(matches!(event, Some(PhaseEvent::Recovered(_))));
    let (outcome, event) = update_move(&mut slot, WEAPON, 250, &em, &mut kb);
    assert_eq!(outcome, TickOutcome::Completed);
    // Recovery was already entered, so completion fires nothing new.
    assert!(event.is_none());
    assert!(slot.is_none());
}

#[test]
fn phase_is_function_of_elapsed_time() {
    let db = two_swing_catalog();
    let (em, mut kb) = world();
    let mut slot: Option<Move> = None;
    handle_move_execution(&mut slot, &attack(MoveName::SwingLeft), &db, &em, &mut kb);

    // 150 one-millisecond ticks or one 150 ms tick: same phase.
    for _ in 0..149 {
        update_move(&mut slot, WEAPON, 1, &em, &mut kb);
    }
    assert_eq!(slot.as_ref().unwrap().current_phase, MovePhase::Startup);
    let (_, event) = update_move(&mut slot, WEAPON, 1, &em, &mut kb);
    assert_eq!(slot.as_ref().unwrap().current_phase, MovePhase::Active);
    assert!(matches!(event, Some(PhaseEvent::Activated(_))));

    let mut slot2: Option<Move> = None;
    handle_move_execution(&mut slot2, &attack(MoveName::SwingLeft), &db, &em, &mut kb);
    update_move(&mut slot2, WEAPON, 150, &em, &mut kb);
    assert_eq!(slot2.as_ref().unwrap().current_phase, MovePhase::Active);
    assert_eq!(slot2.as_ref().unwrap().move_time, slot.as_ref().unwrap().move_time);
}

#[test]
fn active_progress_normalized() {
    let mut mv = Move::new(
        swing(MoveName::SwingLeft, None, MoveInput::Attack),
        ACTOR,
    );
    assert_eq!(mv.get_active_progress(), 0);
    let (em, mut kb) = world();
    let mut slot = Some(mv);
    update_move(&mut slot, WEAPON, 225, &em, &mut kb);
    mv = slot.unwrap();
    // 75 ms into a 150 ms active window: half way, in thousandths.
    assert_eq!(mv.current_phase, MovePhase::Active);
    assert_eq!(mv.get_active_progress(), 500);
}

#[test]
fn update_phase_reports_completion() {
    let mut mv = Move::new(swing(MoveName::SwingLeft, None, MoveInput::Attack), ACTOR);
    mv.move_time = 650;
    let (phase, completed) = mv.update_phase();
    assert_eq!(phase, MovePhase::Recovery);
    assert!(completed);

    let mut mv = Move::new(swing(MoveName::SwingLeft, None, MoveInput::Attack), ACTOR);
    mv.move_time = 200;
    let (phase, completed) = mv.update_phase();
    assert_eq!(phase, MovePhase::Active);
    assert!(!completed);
    assert!(mv.can_accept_input(MoveInput::Attack));
    assert!(!mv.can_accept_input(MoveInput::Neutral));
    assert_eq!(mv.total_duration(), 650);
}

#[test]
fn batch_update_advances_all_weapons_in_order() {
    let db = two_swing_catalog();
    let mut em = GlobalEntityMap::new();
    em.bind_weapon(1, 10);
    em.bind_collider(1, 10, 20);
    em.bind_weapon(2, 11);
    em.bind_collider(2, 11, 21);
    let mut kb = KnockbackStore::new();
    kb.install(20, WeaponKnockback::new(0, 0));
    kb.install(21, WeaponKnockback::new(0, 0));

    let mut slot_a: Option<Move> = None;
    let mut slot_b: Option<Move> = None;
    let ev_a = ExecuteMoveEvent {
        entity: 10,
        move_name: MoveName::SwingLeft,
        move_input: MoveInput::Attack,
    };
    let ev_b = ExecuteMoveEvent {
        entity: 11,
        move_name: MoveName::SwingLeft,
        move_input: MoveInput::Attack,
    };
    handle_move_execution(&mut slot_a, &ev_a, &db, &em, &mut kb);
    handle_move_execution(&mut slot_b, &ev_b, &db, &em, &mut kb);

    let mut slots = vec![
        WeaponSlot { weapon: 10, current: slot_a },
        WeaponSlot { weapon: 11, current: slot_b },
    ];

    // Both enter their hit window; the outbox lists the events in slot
    // order.
    let events = update_moves(&mut slots, 200, &em, &mut kb);
    assert_eq!(events.len(), 2);
    assert!(matches!(events[0], PhaseEvent::Activated(e) if e.actor == 1));
    assert!(matches!(events[1], PhaseEvent::Activated(e) if e.actor == 2));

    // Queue the first weapon's successor, then advance both to the
    // recovery threshold: the first chains, the second just recovers.
    handle_move_execution(&mut slots[0].current, &ev_a, &db, &em, &mut kb);
    let events = update_moves(&mut slots, 100, &em, &mut kb);
    assert_eq!(events.len(), 2);
    assert!(matches!(events[0], PhaseEvent::Recovered(e) if e.actor == 1));
    assert!(matches!(events[1], PhaseEvent::Recovered(e) if e.actor == 2));
    assert_eq!(slots[0].current.as_ref().unwrap().move_metadata.name, MoveName::SwingRight);
    assert_eq!(slots[1].current.as_ref().unwrap().move_metadata.name, MoveName::SwingLeft);

    // A zero batch tick is a no-op for every weapon.
    let events = update_moves(&mut slots, 0, &em, &mut kb);
    assert!(events.is_empty());
    assert_eq!(slots[0].current.as_ref().unwrap().move_time, 0);
}

#[test]
fn transition_to_hands_over_cleanly() {
    let a = Move::new(swing(MoveName::SwingLeft, Some(MoveName::SwingRight), MoveInput::Attack), ACTOR);
    let b_meta = swing(MoveName::SwingRight, None, MoveInput::Neutral);
    let b = a.transition_to(b_meta);
    assert_eq!(b.actor, ACTOR);
    assert_eq!(b.move_metadata.name, MoveName::SwingRight);
    assert_eq!(b.move_time, 0);
    assert_eq!(b.current_phase, MovePhase::Startup);
    assert!(b.next_move.is_none());
}

#[test]
fn active_progress_saturates_at_full() {
    let (em, mut kb) = world();
    let mut slot = Some(Move::new(
        swing(MoveName::SwingLeft, None, MoveInput::Attack),
        ACTOR,
    ));
    // 299 ms: one millisecond short of the window's close.
    update_move(&mut slot, WEAPON, 299, &em, &mut kb);
    let mv = slot.unwrap();
    assert_eq!(mv.current_phase, MovePhase::Active);
    assert_eq!(mv.get_active_progress(), 993);
}

#[test]
fn unknown_successor_is_dropped() {
    // The catalog holds the opener but not its declared successor: the
    // chain request degrades to a no-op and the move runs out normally.
    let db = MoveDatabase::new(vec![swing(
        MoveName::SwingLeft,
        Some(MoveName::SwingRight),
        MoveInput::Attack,
    )])
    .unwrap();
    let (em, mut kb) = world();
    let mut slot: Option<Move> = None;
    handle_move_execution(&mut slot, &attack(MoveName::SwingLeft), &db, &em, &mut kb);
    update_move(&mut slot, WEAPON, 200, &em, &mut kb);
    let (outcome, _) =
        handle_move_execution(&mut slot, &attack(MoveName::SwingLeft), &db, &em, &mut kb);
    assert_eq!(outcome, RequestOutcome::DroppedUnknownSuccessor);
    assert!(slot.as_ref().unwrap().next_move.is_none());
    let (outcome, _) = update_move(&mut slot, WEAPON, 450, &em, &mut kb);
    assert_eq!(outcome, TickOutcome::Completed);
}

#[test]
fn idle_weapon_ticks_to_nothing() {
    let (em, mut kb) = world();
    let mut slot: Option<Move> = None;
    let (outcome, event) = update_move(&mut slot, WEAPON, 100, &em, &mut kb);
    assert_eq!(outcome, TickOutcome::Idle);
    assert!(event.is_none());
    assert!(slot.is_none());
}
