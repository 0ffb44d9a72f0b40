use combat_core::ai::{
    ai_attack_system, ai_movement_system, initialize_unit_aioptions, AIOption, ChaseDecision,
    LockType, TargetDetector, AI,
};
use combat_core::custom_move::{MoveInput, MoveName};
use combat_core::global_entity_map::{GlobalEntityMap, Position};

fn options() -> Vec<AIOption> {
    vec![
        AIOption::new(MoveName::SwingLeft, 210),
        AIOption::new(MoveName::SwingRight, 210),
        AIOption::new(MoveName::SwordStub, 220),
    ]
}

#[test]
fn cycle_visits_every_option_in_order() {
    let mut ai = AI::new(options());
    // Constant in-range distance: each pass returns the next option in
    // list order, wrapping after the last.
    let d = 200 * 200;
    let expected = [
        MoveName::SwingLeft,
        MoveName::SwingRight,
        MoveName::SwordStub,
        MoveName::SwingLeft,
        MoveName::SwingRight,
        MoveName::SwordStub,
    ];
    for name in expected {
        let picked = ai.get_next_move(d).unwrap();
        assert_eq!(picked.name, name);
    }
    assert_eq!(ai.current_move_index, 0);
}

#[test]
fn out_of_range_does_not_fire_or_advance() {
    let mut ai = AI::new(options());
    // 211 > 210: the head option stays pending until in range.
    assert!(ai.get_next_move(211 * 211).is_none());
    assert!(ai.get_next_move(211 * 211).is_none());
    assert_eq!(ai.current_move_index, 0);
    let picked = ai.get_next_move(210 * 210).unwrap();
    assert_eq!(picked.name, MoveName::SwingLeft);
    assert_eq!(ai.current_move_index, 1);
}

#[test]
fn empty_option_list_never_fires() {
    let mut ai = AI::new(Vec::new());
    assert!(ai.get_next_move(0).is_none());
    assert_eq!(ai.current_move_index, 0);
}

#[test]
fn default_and_swordman_option_lists() {
    let ai = AI::default();
    assert_eq!(ai.option_queue.len(), 1);
    assert_eq!(ai.option_queue[0], AIOption::new(MoveName::SwordStub, 220));

    let moves = initialize_unit_aioptions();
    assert_eq!(
        moves,
        vec![
            AIOption::new(MoveName::SwingLeft, 210),
            AIOption::new(MoveName::SwingRight, 210),
            AIOption::new(MoveName::SwordStub, 220),
        ]
    );
}

#[test]
fn movement_decision_bands() {
    let mut em = GlobalEntityMap::new();
    em.set_transform(7, Position { x: 500, y: 0 });
    let own = Position { x: 0, y: 0 };

    let no_target = TargetDetector::new(1000, 2000, LockType::Lock);
    assert_eq!(ai_movement_system(&no_target, own, &em), ChaseDecision::Idle);

    let mut det = TargetDetector::new(1000, 2000, LockType::Lock);
    det.target = Some(9);
    assert_eq!(ai_movement_system(&det, own, &em), ChaseDecision::Untracked);

    det.target = Some(7);
    assert_eq!(ai_movement_system(&det, own, &em), ChaseDecision::Advance);

    // Inside the stop-chasing band the actor holds position.
    em.set_transform(7, Position { x: 199, y: 0 });
    assert_eq!(ai_movement_system(&det, own, &em), ChaseDecision::Hold);
    // The band edge still chases.
    em.set_transform(7, Position { x: 200, y: 0 });
    assert_eq!(ai_movement_system(&det, own, &em), ChaseDecision::Advance);
}

#[test]
fn attack_decision_issues_request_for_weapon() {
    let mut em = GlobalEntityMap::new();
    em.bind_weapon(1, 10);
    em.set_transform(7, Position { x: 0, y: 200 });
    let own = Position { x: 0, y: 0 };
    let mut det = TargetDetector::new(1000, 2000, LockType::Lock);
    det.target = Some(7);

    let mut ai = AI::new(options());
    let ev = ai_attack_system(&mut ai, &det, 1, own, &em).unwrap();
    assert_eq!(ev.entity, 10);
    assert_eq!(ev.move_name, MoveName::SwingLeft);
    assert_eq!(ev.move_input, MoveInput::Attack);
    assert_eq!(ai.current_move_index, 1);

    // Out of range: nothing fires, the cursor stays.
    em.set_transform(7, Position { x: 0, y: 500 });
    assert!(ai_attack_system(&mut ai, &det, 1, own, &em).is_none());
    assert_eq!(ai.current_move_index, 1);

    // No weapon bound for the actor: nothing fires.
    em.set_transform(7, Position { x: 0, y: 200 });
    assert!(ai_attack_system(&mut ai, &det, 2, own, &em).is_none());

    // No target: nothing fires.
    det.target = None;
    assert!(ai_attack_system(&mut ai, &det, 1, own, &em).is_none());
}
