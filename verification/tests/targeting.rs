use combat_core::ai::{ai_target_detection_system, Candidate, LockType, TargetDetector};
use combat_core::global_entity_map::{dist_sq, Position};

fn at(x: i64, y: i64) -> Position {
    Position { x, y }
}

fn enemy(entity: u64, x: i64) -> Candidate {
    Candidate { entity, force: 1, pos: at(x, 0) }
}

fn detector() -> TargetDetector {
    TargetDetector::new(1000, 2000, LockType::Lock)
}

#[test]
fn squared_distance() {
    assert_eq!(dist_sq(at(0, 0), at(3, 4)), 25);
    assert_eq!(dist_sq(at(-3, 0), at(0, -4)), 25);
    assert_eq!(dist_sq(at(7, 7), at(7, 7)), 0);
}

#[test]
fn hysteresis_scenario() {
    // alert=1000, disengage=2000, opposing candidates at 800 and 1500.
    let mut det = detector();
    let own = at(0, 0);
    ai_target_detection_system(&mut det, 0, own, &vec![enemy(2, 800), enemy(3, 1500)]);
    assert_eq!(det.target, Some(2));

    // The engaged candidate moves to 2100: beyond disengage, dropped to
    // none; the 1500-distance candidate is not acquired on this pass.
    ai_target_detection_system(&mut det, 0, own, &vec![enemy(2, 2100), enemy(3, 1500)]);
    assert_eq!(det.target, None);

    // A later pass still finds nothing until a candidate is inside the
    // alert radius again.
    ai_target_detection_system(&mut det, 0, own, &vec![enemy(2, 2100), enemy(3, 1500)]);
    assert_eq!(det.target, None);
    ai_target_detection_system(&mut det, 0, own, &vec![enemy(2, 2100), enemy(3, 900)]);
    assert_eq!(det.target, Some(3));
}

#[test]
fn target_kept_inside_hysteresis_band() {
    // Acquired at 800; retained at any distance up to the disengage
    // radius, even in the band between the two radii.
    let mut det = detector();
    let own = at(0, 0);
    ai_target_detection_system(&mut det, 0, own, &vec![enemy(2, 800)]);
    assert_eq!(det.target, Some(2));
    for d in [1000, 1500, 1999, 2000] {
        ai_target_detection_system(&mut det, 0, own, &vec![enemy(2, d)]);
        assert_eq!(det.target, Some(2), "dropped at distance {}", d);
    }
    ai_target_detection_system(&mut det, 0, own, &vec![enemy(2, 2001)]);
    assert_eq!(det.target, None);
}

#[test]
fn sticky_targeting_ignores_closer_candidate() {
    let mut det = detector();
    let own = at(0, 0);
    ai_target_detection_system(&mut det, 0, own, &vec![enemy(2, 900)]);
    assert_eq!(det.target, Some(2));
    // A strictly closer enemy does not pre-empt the engaged target.
    ai_target_detection_system(&mut det, 0, own, &vec![enemy(2, 900), enemy(3, 100)]);
    assert_eq!(det.target, Some(2));
}

#[test]
fn closest_candidate_wins_with_stable_tie_break() {
    let mut det = detector();
    let own = at(0, 0);
    ai_target_detection_system(
        &mut det,
        0,
        own,
        &vec![enemy(2, 700), enemy(3, 300), enemy(4, 500)],
    );
    assert_eq!(det.target, Some(3));

    // Exact tie: the first seen wins.
    let mut det = detector();
    let tied = vec![
        Candidate { entity: 5, force: 1, pos: at(600, 0) },
        Candidate { entity: 6, force: 1, pos: at(0, 600) },
    ];
    ai_target_detection_system(&mut det, 0, own, &tied);
    assert_eq!(det.target, Some(5));
}

#[test]
fn allies_are_never_targeted() {
    let mut det = detector();
    let own = at(0, 0);
    let candidates = vec![
        Candidate { entity: 2, force: 0, pos: at(100, 0) },
        Candidate { entity: 3, force: 1, pos: at(900, 0) },
    ];
    ai_target_detection_system(&mut det, 0, own, &candidates);
    assert_eq!(det.target, Some(3));

    // With allies only, nothing is acquired.
    let mut det = detector();
    ai_target_detection_system(
        &mut det,
        0,
        own,
        &vec![Candidate { entity: 2, force: 0, pos: at(100, 0) }],
    );
    assert_eq!(det.target, None);
}

#[test]
fn stale_target_outside_candidates_is_kept() {
    // A target that no longer appears among the candidates is not
    // dropped by the scan; the miss degrades to no change.
    let mut det = detector();
    let own = at(0, 0);
    ai_target_detection_system(&mut det, 0, own, &vec![enemy(2, 800)]);
    assert_eq!(det.target, Some(2));
    ai_target_detection_system(&mut det, 0, own, &vec![enemy(3, 400)]);
    assert_eq!(det.target, Some(2));
}
