//! AI targeting and the move decision loop.
//!
//! Targeting scans the faction-tagged candidates once per tick and keeps
//! a per-actor target with an engage/disengage hysteresis band: a target
//! acquired within the alert radius is held until it strays beyond the
//! larger disengage radius, and an already-held target is never
//! pre-empted by a closer candidate (sticky targeting).
//!
//! The decision loop walks an ordered option list with a circular
//! cursor: the entry at the cursor fires only when the target is within
//! that entry's activation range, and a successful pick advances the
//! cursor.
//!
//! All range rules compare squared distances against squared radii, so
//! every comparison is exact.

use vstd::prelude::*;

use crate::constants::STOP_CHASING_RANGE;
use crate::custom_move::ExecuteMoveEvent;
use crate::custom_move::MoveInput;
use crate::custom_move::MoveName;
use crate::global_entity_map::dist_sq;
use crate::global_entity_map::spec_dist_sq;
use crate::global_entity_map::GlobalEntityMap;
use crate::global_entity_map::Position;

verus! {

/// Whether orientation forcibly tracks the current target.
#[derive(Clone, Copy, Debug, PartialEq, Eq, Structural)]
pub enum LockType {
    Lock,
    Free,
}

/// Per-combatant targeting state: the current target (if any) and the
/// two radii of the hysteresis band.
#[derive(Clone, Copy, Debug, PartialEq, Eq, Structural)]
pub struct TargetDetector {
    /// Currently engaged target entity, if any.
    pub target: Option<u64>,
    /// Acquisition radius: only candidates at most this far away are
    /// eligible to become the target.
    pub alert_range: u32,
    /// Disengage radius: the target is dropped only beyond this. Must
    /// not be below `alert_range`, or a target would drop on acquisition.
    pub dis_alert_range: u32,
    /// Orientation lock policy.
    pub lock_type: LockType,
}

/// One faction-tagged combatant considered by the targeting scan.
#[derive(Clone, Copy, Debug, PartialEq, Eq, Structural)]
pub struct Candidate {
    pub entity: u64,
    /// Faction tag; equal tags are allies and never targeted.
    pub force: u32,
    pub pos: Position,
}

/// One pass of the targeting scan from index `i` on, carrying the
/// current target and the closest in-alert candidate seen so far.
///
/// An ally is skipped. A candidate that is the current target and sits
/// beyond the disengage radius clears the target and is considered no
/// further this tick. Any other enemy within the alert radius competes
/// for closest, a strictly smaller squared distance winning, so the
/// first seen wins exact ties.
pub open spec fn spec_scan(
    cands: Seq<Candidate>,
    i: int,
    own_force: u32,
    own_pos: Position,
    alert_sq: int,
    dis_sq: int,
    cur: Option<u64>,
    best: Option<(u64, int)>,
) -> (Option<u64>, Option<(u64, int)>)
    decreases cands.len() - i,
{
    if i < 0 || i >= cands.len() {
        (cur, best)
    } else {
        let c = cands[i];
        if c.force == own_force {
            spec_scan(cands, i + 1, own_force, own_pos, alert_sq, dis_sq, cur, best)
        } else {
            let d = spec_dist_sq(own_pos, c.pos);
            if cur == Some(c.entity) && d > dis_sq {
                spec_scan(cands, i + 1, own_force, own_pos, alert_sq, dis_sq, None, best)
            } else {
                let best2 = if d <= alert_sq {
                    match best {
                        Option::None => Some((c.entity, d)),
                        Some((be, bd)) => if d < bd {
                            Some((c.entity, d))
                        } else {
                            best
                        },
                    }
                } else {
                    best
                };
                spec_scan(cands, i + 1, own_force, own_pos, alert_sq, dis_sq, cur, best2)
            }
        }
    }
}

/// The target after one full detection pass: the scan may clear the
/// current target; only a detector left with no target acquires one, and
/// then the closest qualifying candidate.
pub open spec fn spec_detect(
    det: TargetDetector,
    own_force: u32,
    own_pos: Position,
    cands: Seq<Candidate>,
) -> Option<u64> {
    let r = spec_scan(
        cands,
        0,
        own_force,
        own_pos,
        det.alert_range * det.alert_range,
        det.dis_alert_range * det.dis_alert_range,
        det.target,
        None,
    );
    match r {
        (Option::None, Some((e, d))) => Some(e),
        _ => r.0,
    }
}

impl TargetDetector {
    /// The hysteresis band is oriented: disengaging must take at least
    /// as much distance as acquiring.
    pub open spec fn wf(self) -> bool {
        self.alert_range <= self.dis_alert_range
    }

    /// Build a detector with no target.
    pub fn new(alert_range: u32, dis_alert_range: u32, lock_type: LockType) -> (r: TargetDetector)
        requires
            alert_range <= dis_alert_range,
        ensures
            r == (TargetDetector { target: None, alert_range, dis_alert_range, lock_type }),
            r.wf(),
    {
        TargetDetector { target: None, alert_range, dis_alert_range, lock_type }
    }
}

/// One per-tick targeting pass for one detector: scan all candidates in
/// order, apply the disengage rule to the current target, and acquire
/// the closest in-alert enemy only if the detector ends the scan with no
/// target. Mutates the target field alone.
pub fn ai_target_detection_system(
    det: &mut TargetDetector,
    own_force: u32,
    own_pos: Position,
    candidates: &Vec<Candidate>,
)
    requires
        old(det).wf(),
        own_pos.wf(),
        forall|i: int| 0 <= i < candidates@.len() ==> (#[trigger] candidates@[i]).pos.wf(),
    ensures
        final(det).target == spec_detect(*old(det), own_force, own_pos, candidates@),
        final(det).alert_range == old(det).alert_range,
        final(det).dis_alert_range == old(det).dis_alert_range,
        final(det).lock_type == old(det).lock_type,
        final(det).wf(),
{
    proof {
        let a = det.alert_range as int;
        let ds = det.dis_alert_range as int;
        assert(a * a <= 0xFFFF_FFFF * 0xFFFF_FFFF && a * a >= 0) by (nonlinear_arith)
            requires
                0 <= a <= 0xFFFF_FFFF,
        ;
        assert(ds * ds <= 0xFFFF_FFFF * 0xFFFF_FFFF && ds * ds >= 0) by (nonlinear_arith)
            requires
                0 <= ds <= 0xFFFF_FFFF,
        ;
    }
    let alert_sq: u64 = det.alert_range as u64 * det.alert_range as u64;
    let dis_sq: u64 = det.dis_alert_range as u64 * det.dis_alert_range as u64;
    let ghost init_target = det.target;

    let mut cur: Option<u64> = det.target;
    let mut best: Option<(u64, u64)> = None;
    let n = candidates.len();
    let mut i: usize = 0;
    while i < n
        invariant
            n == candidates@.len(),
            i <= n,
            own_pos.wf(),
            forall|k: int| 0 <= k < candidates@.len() ==> (#[trigger] candidates@[k]).pos.wf(),
            alert_sq == det.alert_range * det.alert_range,
            dis_sq == det.dis_alert_range * det.dis_alert_range,
            spec_scan(
                candidates@,
                0,
                own_force,
                own_pos,
                alert_sq as int,
                dis_sq as int,
                init_target,
                None,
            ) == spec_scan(
                candidates@,
                i as int,
                own_force,
                own_pos,
                alert_sq as int,
                dis_sq as int,
                cur,
                match best {
                    Some((e, d)) => Some((e, d as int)),
                    Option::None => None,
                },
            ),
            *det == *old(det),
        decreases n - i,
    {
        let c = candidates[i];
        if c.force != own_force {
            let d = dist_sq(own_pos, c.pos);
            let is_cur = match cur {
                Some(t) => t == c.entity,
                None => false,
            };
            if is_cur && d > dis_sq {
                // Disengage: the engaged target strayed beyond the outer
                // radius; drop it and skip it for the rest of this tick.
                cur = None;
            } else if d <= alert_sq {
                best = match best {
                    Some((be, bd)) => if d < bd {
                        Some((c.entity, d))
                    } else {
                        Some((be, bd))
                    },
                    None => Some((c.entity, d)),
                };
            }
        }
        i += 1;
    }
    // Sticky targeting: only a detector with no target acquires one.
    let is_none = match cur {
        Some(_) => false,
        None => true,
    };
    if is_none {
        match best {
            Some((e, _)) => {
                det.target = Some(e);
            },
            None => {
                det.target = None;
            },
        }
    } else {
        det.target = cur;
    }
}

/// One entry of an AI option list: a move and the range within which it
/// may fire.
#[derive(Clone, Copy, Debug, PartialEq, Eq, Structural)]
pub struct AIOption {
    pub name: MoveName,
    /// Activation range in position units: the entry fires only when the
    /// target is at most this far away.
    pub active_range: u32,
}

impl AIOption {
    /// Build one option entry.
    pub fn new(name: MoveName, active_range: u32) -> (r: AIOption)
        ensures
            r == (AIOption { name, active_range }),
    {
        AIOption { name, active_range }
    }
}

/// The cursor position after a successful pick: one step forward,
/// wrapping at the end of the list.
pub open spec fn spec_advance(i: int, n: int) -> int {
    if i + 1 == n {
        0
    } else {
        i + 1
    }
}

/// The cursor after `k` successful picks starting from `i`.
pub open spec fn spec_advance_k(i: int, k: nat, n: int) -> int
    decreases k,
{
    if k == 0 {
        i
    } else {
        spec_advance(spec_advance_k(i, (k - 1) as nat, n), n)
    }
}

/// Per-actor AI decision state: the ordered option list and the circular
/// cursor into it.
#[derive(Clone, Debug)]
pub struct AI {
    pub option_queue: Vec<AIOption>,
    pub current_move_index: usize,
}

impl AI {
    /// The cursor stays inside the list (or at zero for an empty list).
    pub open spec fn wf(self) -> bool {
        self.current_move_index < self.option_queue@.len() || (self.option_queue@.len() == 0
            && self.current_move_index == 0)
    }

    /// Start at the head of the given option list.
    pub fn new(moves: Vec<AIOption>) -> (r: AI)
        ensures
            r.option_queue@ == moves@,
            r.current_move_index == 0,
            r.wf(),
    {
        AI { option_queue: moves, current_move_index: 0 }
    }

    /// Consult the option at the cursor for a target at squared distance
    /// `target_dist_sq`. Within that option's activation range the option
    /// is returned and the cursor advances circularly; otherwise nothing
    /// fires and the cursor stays, so repeated in-range calls visit the
    /// options in list order.
    pub fn get_next_move(&mut self, target_dist_sq: u64) -> (r: Option<AIOption>)
        requires
            old(self).wf(),
        ensures
            final(self).option_queue@ == old(self).option_queue@,
            final(self).wf(),
            old(self).option_queue@.len() == 0 ==> r is None && *final(self) == *old(self),
            old(self).option_queue@.len() > 0 ==> {
                let cur = old(self).option_queue@[old(self).current_move_index as int];
                if target_dist_sq <= cur.active_range * cur.active_range {
                    r == Some(cur) && final(self).current_move_index == spec_advance(
                        old(self).current_move_index as int,
                        old(self).option_queue@.len() as int,
                    )
                } else {
                    r is None && final(self).current_move_index == old(self).current_move_index
                }
            },
    {
        let n = self.option_queue.len();
        if n == 0 {
            return None;
        }
        let cur = self.option_queue[self.current_move_index];
        proof {
            let ar = cur.active_range as int;
            assert(ar * ar <= 0xFFFF_FFFF * 0xFFFF_FFFF && ar * ar >= 0) by (nonlinear_arith)
                requires
                    0 <= ar <= 0xFFFF_FFFF,
            ;
        }
        let range_sq: u64 = cur.active_range as u64 * cur.active_range as u64;
        if target_dist_sq <= range_sq {
            self.current_move_index = if self.current_move_index + 1 == n {
                0
            } else {
                self.current_move_index + 1
            };
            Some(cur)
        } else {
            None
        }
    }
}

impl Default for AI {
    /// The fallback option list: stab whenever just inside the
    /// stop-chasing band.
    fn default() -> (r: AI)
        ensures
            r.option_queue@.len() == 1,
            r.option_queue@[0] == (AIOption {
                name: MoveName::SwordStub,
                active_range: (STOP_CHASING_RANGE + 20) as u32,
            }),
            r.current_move_index == 0,
            r.wf(),
    {
        let mut moves: Vec<AIOption> = Vec::new();
        moves.push(AIOption { name: MoveName::SwordStub, active_range: STOP_CHASING_RANGE + 20 });
        AI { option_queue: moves, current_move_index: 0 }
    }
}

/// The option list resolved at spawn for a sword-wielding soldier:
/// the two swings just inside the stop-chasing band, then the stab a
/// little further out.
pub fn initialize_unit_aioptions() -> (r: Vec<AIOption>)
    ensures
        r@.len() == 3,
        r@[0] == (AIOption { name: MoveName::SwingLeft, active_range: (STOP_CHASING_RANGE
            + 10) as u32 }),
        r@[1] == (AIOption { name: MoveName::SwingRight, active_range: (STOP_CHASING_RANGE
            + 10) as u32 }),
        r@[2] == (AIOption { name: MoveName::SwordStub, active_range: (STOP_CHASING_RANGE
            + 20) as u32 }),
{
    let mut moves: Vec<AIOption> = Vec::new();
    moves.push(AIOption { name: MoveName::SwingLeft, active_range: STOP_CHASING_RANGE + 10 });
    moves.push(AIOption { name: MoveName::SwingRight, active_range: STOP_CHASING_RANGE + 10 });
    moves.push(AIOption { name: MoveName::SwordStub, active_range: STOP_CHASING_RANGE + 20 });
    moves
}

/// What the locomotion step should do for an AI combatant this tick.
#[derive(Clone, Copy, Debug, PartialEq, Eq, Structural)]
pub enum ChaseDecision {
    /// No target engaged: bleed off speed.
    Idle,
    /// A target is engaged but its position is not in the snapshot
    /// cache: leave the velocity alone.
    Untracked,
    /// The target is inside the stop-chasing band: hold position and let
    /// the decision loop drive attacks.
    Hold,
    /// Advance toward the target.
    Advance,
}

/// Movement coupling of the decision loop: advance toward the engaged
/// target unless already inside the stop-chasing band.
pub fn ai_movement_system(
    det: &TargetDetector,
    own_pos: Position,
    entity_map: &GlobalEntityMap,
) -> (r: ChaseDecision)
    requires
        own_pos.wf(),
        forall|e: u64|
            entity_map.entity_transform@.contains_key(e) ==> (
            #[trigger] entity_map.entity_transform@[e]).wf(),
    ensures
        det.target is None ==> r == ChaseDecision::Idle,
        det.target matches Some(t) ==> r == (if !entity_map.entity_transform@.contains_key(t) {
            ChaseDecision::Untracked
        } else if spec_dist_sq(own_pos, entity_map.entity_transform@[t]) >= STOP_CHASING_RANGE
            * STOP_CHASING_RANGE {
            ChaseDecision::Advance
        } else {
            ChaseDecision::Hold
        }),
{
    match det.target {
        None => ChaseDecision::Idle,
        Some(t) => {
            match entity_map.get_transform(t) {
                None => ChaseDecision::Untracked,
                Some(tp) => {
                    let d = dist_sq(own_pos, tp);
                    if d >= (STOP_CHASING_RANGE as u64) * (STOP_CHASING_RANGE as u64) {
                        ChaseDecision::Advance
                    } else {
                        ChaseDecision::Hold
                    }
                },
            }
        },
    }
}

/// One decision-loop pass for an AI combatant: with an engaged, tracked
/// target and an assembled weapon, consult the option list and turn a
/// firing option into an execution request for that weapon.
pub fn ai_attack_system(
    ai: &mut AI,
    det: &TargetDetector,
    actor: u64,
    own_pos: Position,
    entity_map: &GlobalEntityMap,
) -> (r: Option<ExecuteMoveEvent>)
    requires
        old(ai).wf(),
        own_pos.wf(),
        forall|e: u64|
            entity_map.entity_transform@.contains_key(e) ==> (
            #[trigger] entity_map.entity_transform@[e]).wf(),
    ensures
        final(ai).wf(),
        final(ai).option_queue@ == old(ai).option_queue@,
        det.target is None ==> r is None && *final(ai) == *old(ai),
        det.target matches Some(t) ==> (!entity_map.entity_transform@.contains_key(t) ==> r is None
            && *final(ai) == *old(ai)),
        det.target matches Some(t) ==> (entity_map.entity_transform@.contains_key(t)
            && !entity_map.player_weapon@.contains_key(actor) ==> r is None && *final(ai) == *old(
            ai,
        )),
        old(ai).option_queue@.len() == 0 ==> r is None && *final(ai) == *old(ai),
        det.target matches Some(t) ==> (entity_map.entity_transform@.contains_key(t)
            && entity_map.player_weapon@.contains_key(actor) && old(ai).option_queue@.len() > 0
            ==> {
            let cur = old(ai).option_queue@[old(ai).current_move_index as int];
            let d = spec_dist_sq(own_pos, entity_map.entity_transform@[t]);
            if d <= cur.active_range * cur.active_range {
                r == Some(
                    ExecuteMoveEvent {
                        entity: entity_map.player_weapon@[actor],
                        move_name: cur.name,
                        move_input: MoveInput::Attack,
                    },
                ) && final(ai).current_move_index == spec_advance(
                    old(ai).current_move_index as int,
                    old(ai).option_queue@.len() as int,
                )
            } else {
                r is None && final(ai).current_move_index == old(ai).current_move_index
            }
        }),
{
    let target = match det.target {
        Some(t) => t,
        None => {
            return None;
        },
    };
    let target_pos = match entity_map.get_transform(target) {
        Some(p) => p,
        None => {
            return None;
        },
    };
    let weapon = match entity_map.get_weapon(actor) {
        Some(w) => w,
        None => {
            return None;
        },
    };
    let d = dist_sq(own_pos, target_pos);
    match ai.get_next_move(d) {
        Some(option) => Some(
            ExecuteMoveEvent {
                entity: weapon,
                move_name: option.name,
                move_input: MoveInput::Attack,
            },
        ),
        None => None,
    }
}


proof fn lemma_scan_keeps_target(
    cands: Seq<Candidate>,
    i: int,
    own_force: u32,
    own_pos: Position,
    alert_sq: int,
    dis_sq: int,
    t: u64,
    best: Option<(u64, int)>,
)
    requires
        forall|k: int|
            i <= k < cands.len() && (#[trigger] cands[k]).entity == t ==> cands[k].force
                == own_force || spec_dist_sq(own_pos, cands[k].pos) <= dis_sq,
    ensures
        spec_scan(cands, i, own_force, own_pos, alert_sq, dis_sq, Some(t), best).0 == Some(t),
    decreases cands.len() - i,
{
    if 0 <= i < cands.len() {
        let c = cands[i];
        if c.force == own_force {
            lemma_scan_keeps_target(cands, i + 1, own_force, own_pos, alert_sq, dis_sq, t, best);
        } else {
            let d = spec_dist_sq(own_pos, c.pos);
            let best2 = if d <= alert_sq {
                match best {
                    Option::None => Some((c.entity, d)),
                    Some((be, bd)) => if d < bd {
                        Some((c.entity, d))
                    } else {
                        best
                    },
                }
            } else {
                best
            };
            lemma_scan_keeps_target(cands, i + 1, own_force, own_pos, alert_sq, dis_sq, t, best2);
        }
    }
}

/// Targeting hysteresis, retention half: as long as every candidate
/// record of the engaged target is an ally record or sits at most the
/// disengage radius away (in particular anywhere inside the band between
/// the alert and disengage radii), a detection pass keeps that target
/// engaged — it is never dropped, and sticky targeting never lets a
/// closer candidate pre-empt it.
pub proof fn lemma_targeting_hysteresis(
    det: TargetDetector,
    own_force: u32,
    own_pos: Position,
    cands: Seq<Candidate>,
)
    requires
        det.target is Some,
        forall|k: int|
            0 <= k < cands.len() && (#[trigger] cands[k]).entity == det.target->0 ==> cands[k].force
                == own_force || spec_dist_sq(own_pos, cands[k].pos) <= det.dis_alert_range
                * det.dis_alert_range,
    ensures
        spec_detect(det, own_force, own_pos, cands) == det.target,
{
    lemma_scan_keeps_target(
        cands,
        0,
        own_force,
        own_pos,
        det.alert_range * det.alert_range,
        det.dis_alert_range * det.dis_alert_range,
        det.target->0,
        None,
    );
}

/// An enemy record within the alert radius, as the acquire rule sees it.
pub open spec fn spec_in_alert(
    cands: Seq<Candidate>,
    j: int,
    own_force: u32,
    own_pos: Position,
    alert_sq: int,
) -> bool {
    &&& 0 <= j < cands.len()
    &&& cands[j].force != own_force
    &&& spec_dist_sq(own_pos, cands[j].pos) <= alert_sq
}

proof fn lemma_scan_finds_closest(
    cands: Seq<Candidate>,
    i: int,
    own_force: u32,
    own_pos: Position,
    alert_sq: int,
    dis_sq: int,
    best: Option<(u64, int)>,
)
    requires
        0 <= i <= cands.len(),
        best matches Some((e, d)) ==> exists|j: int|
            #![trigger cands[j]]
            0 <= j < i && cands[j].entity == e && cands[j].force != own_force && spec_dist_sq(
                own_pos,
                cands[j].pos,
            ) == d && d <= alert_sq,
        best matches Some((e, d)) ==> forall|j: int|
            0 <= j < i && spec_in_alert(cands, j, own_force, own_pos, alert_sq) ==> d
                <= spec_dist_sq(own_pos, (#[trigger] cands[j]).pos),
        best is None ==> forall|j: int|
            0 <= j < i ==> !(#[trigger] spec_in_alert(cands, j, own_force, own_pos, alert_sq)),
    ensures
        ({
            let r = spec_scan(cands, i, own_force, own_pos, alert_sq, dis_sq, None, best);
            &&& r.0 is None
            &&& (r.1 matches Some((e, d)) ==> exists|j: int|
                #![trigger cands[j]]
                0 <= j < cands.len() && cands[j].entity == e && cands[j].force != own_force
                    && spec_dist_sq(own_pos, cands[j].pos) == d && d <= alert_sq)
            &&& (r.1 matches Some((e, d)) ==> forall|j: int|
                spec_in_alert(cands, j, own_force, own_pos, alert_sq) ==> d <= spec_dist_sq(
                    own_pos,
                    (#[trigger] cands[j]).pos,
                ))
            &&& (r.1 is None ==> forall|j: int|
                !(#[trigger] spec_in_alert(cands, j, own_force, own_pos, alert_sq)))
        }),
    decreases cands.len() - i,
{
    if i < cands.len() {
        let c = cands[i];
        if c.force == own_force {
            lemma_scan_finds_closest(cands, i + 1, own_force, own_pos, alert_sq, dis_sq, best);
        } else {
            let d = spec_dist_sq(own_pos, c.pos);
            let best2 = if d <= alert_sq {
                match best {
                    Option::None => Some((c.entity, d)),
                    Some((be, bd)) => if d < bd {
                        Some((c.entity, d))
                    } else {
                        best
                    },
                }
            } else {
                best
            };
            lemma_scan_finds_closest(cands, i + 1, own_force, own_pos, alert_sq, dis_sq, best2);
        }
    }
}

/// The acquire rule: a detector with no target ends a detection pass on
/// the strictly closest enemy within the alert radius — it acquires
/// some in-alert enemy record whose distance no other in-alert enemy
/// beats, and acquires nothing exactly when no enemy is in alert range.
pub proof fn lemma_acquire_closest(
    det: TargetDetector,
    own_force: u32,
    own_pos: Position,
    cands: Seq<Candidate>,
)
    requires
        det.target is None,
    ensures
        ({
            let alert_sq = det.alert_range * det.alert_range;
            let r = spec_detect(det, own_force, own_pos, cands);
            &&& (r matches Some(e) ==> exists|j: int|
                #![trigger cands[j]]
                0 <= j < cands.len() && cands[j].entity == e && cands[j].force != own_force
                    && spec_dist_sq(own_pos, cands[j].pos) <= alert_sq && (forall|k: int|
                    spec_in_alert(cands, k, own_force, own_pos, alert_sq) ==> spec_dist_sq(
                        own_pos,
                        cands[j].pos,
                    ) <= spec_dist_sq(own_pos, (#[trigger] cands[k]).pos)))
            &&& (r is None ==> forall|k: int|
                !(#[trigger] spec_in_alert(cands, k, own_force, own_pos, alert_sq)))
        }),
{
    lemma_scan_finds_closest(
        cands,
        0,
        own_force,
        own_pos,
        det.alert_range * det.alert_range,
        det.dis_alert_range * det.dis_alert_range,
        None,
    );
}

proof fn lemma_advance_k_closed_form(i: int, k: nat, n: int)
    requires
        0 <= i < n,
        k <= n,
    ensures
        spec_advance_k(i, k, n) == if i + k < n {
            i + k
        } else {
            i + k - n
        },
    decreases k,
{
    if k > 0 {
        lemma_advance_k_closed_form(i, (k - 1) as nat, n);
    }
}

/// Decision-loop monotonic cycling, distinctness half: within one full
/// revolution of successful picks, no two picks consult the same option
/// slot — every option fires at most once before the list repeats.
pub proof fn lemma_decision_cycle_visits_once(i: int, n: int, k1: nat, k2: nat)
    requires
        0 <= i < n,
        k1 < k2 < n,
    ensures
        spec_advance_k(i, k1, n) != spec_advance_k(i, k2, n),
{
    lemma_advance_k_closed_form(i, k1, n);
    lemma_advance_k_closed_form(i, k2, n);
}

/// Decision-loop monotonic cycling, coverage half: within one full
/// revolution every option slot is consulted at some pick, and after
/// exactly one revolution the cursor is back where it started — so
/// repeated in-range picks visit every option exactly once per
/// revolution, in list order.
pub proof fn lemma_decision_cycle_covers(i: int, n: int, j: int)
    requires
        0 <= i < n,
        0 <= j < n,
    ensures
        exists|k: nat| k < n && spec_advance_k(i, k, n) == j,
        spec_advance_k(i, n as nat, n) == i,
{
    let k: nat = if j >= i {
        (j - i) as nat
    } else {
        (j - i + n) as nat
    };
    lemma_advance_k_closed_form(i, k, n);
    assert(k < n && spec_advance_k(i, k, n) == j);
    lemma_advance_k_closed_form(i, n as nat, n);
}

} // verus!
