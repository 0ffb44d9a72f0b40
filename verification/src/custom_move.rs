//! The per-weapon move (ability) state machine.
//!
//! A `Move` is one in-flight execution of an ability: it owns a copy of
//! its immutable `MoveMetadata`, an elapsed-time clock in milliseconds,
//! the current phase, the owning actor, and an optional queued successor.
//! The phase is a pure function of elapsed time against the three
//! duration thresholds: startup, then active, then recovery.
//!
//! `handle_move_execution` is the single entry point for both player
//! input and AI decisions; `update_move` advances one weapon's move by a
//! time delta, emitting phase-change events and performing early chain
//! transitions and completion.

use vstd::prelude::*;

use crate::constants::MAX_TICK_MS;
use crate::global_entity_map::GlobalEntityMap;
use crate::move_database::lemma_get_found;
use crate::move_database::MoveDatabase;
use crate::physics::spec_refresh;
use crate::physics::KnockbackStore;
use crate::physics::WeaponKnockback;

verus! {

/// Identifier of an ability in the move catalog.
#[derive(Clone, Copy, Debug, PartialEq, Eq, Structural)]
pub enum MoveName {
    SwingLeft,
    SwingRight,
    SwordStub,
    Reflect,
    SpinLeft,
    Tunado,
}

/// Execution phase of an in-flight move.
#[derive(Clone, Copy, Debug, PartialEq, Eq, Structural)]
pub enum MovePhase {
    Startup,
    Active,
    Recovery,
}

/// Category of a move; stab counters swing on a clash.
#[derive(Clone, Copy, Debug, PartialEq, Eq, Structural)]
pub enum MoveType {
    Swing,
    Stub,
    Interrupt,
}

/// The kind of input a request carries, and the kind a move accepts
/// for chaining. `Neutral` accepts nothing.
#[derive(Clone, Copy, Debug, PartialEq, Eq, Structural)]
pub enum MoveInput {
    Attack,
    Interrupt,
    Neutral,
}

/// Immutable definition of a named ability. Durations are milliseconds.
#[derive(Clone, Copy, Debug, PartialEq, Eq, Structural)]
pub struct MoveMetadata {
    pub name: MoveName,
    /// Radius parameter of the swing animation, in position units.
    pub radius: u32,
    /// Committed wind-up before the hit window opens.
    pub startup_time: u32,
    /// Length of the hit window; a move that can never hit is invalid.
    pub active_time: u32,
    /// Cooldown tail after the hit window closes.
    pub recovery_time: u32,
    pub move_type: MoveType,
    /// Input kind accepted for chaining while Active or Recovery.
    pub accept_input: MoveInput,
    /// Declared successor for chaining, if any.
    pub next_move: Option<MoveName>,
    /// Knockback force written to the weapon's collider descriptor.
    pub kb_force: u32,
    /// Critical-hit-rate bonus, in percent.
    pub critical_rate: u32,
    /// Minimum effective range, in position units.
    pub best_range_min: u32,
    /// Locomotion speed while this move executes.
    pub move_speed: u32,
}

impl MoveMetadata {
    /// Total duration of the move in milliseconds.
    pub open spec fn spec_total_duration(self) -> int {
        self.startup_time + self.active_time + self.recovery_time
    }

    /// A usable definition has a non-empty hit window.
    pub open spec fn valid(self) -> bool {
        self.active_time > 0
    }
}

/// The phase that a move with metadata `m` occupies after `t`
/// milliseconds of accumulated elapsed time.
pub open spec fn spec_phase(m: MoveMetadata, t: int) -> MovePhase {
    if t < m.startup_time {
        MovePhase::Startup
    } else if t < m.startup_time + m.active_time {
        MovePhase::Active
    } else {
        MovePhase::Recovery
    }
}

/// Whether a move with metadata `m` has run its full course after `t`
/// milliseconds.
pub open spec fn spec_complete(m: MoveMetadata, t: int) -> bool {
    t >= m.spec_total_duration()
}

/// Normalized progress through the active window, in thousandths,
/// clamped to `[0, 1000]`.
pub open spec fn spec_active_progress(m: MoveMetadata, t: int) -> int
    recommends
        m.valid(),
{
    if t <= m.startup_time {
        0
    } else if (t - m.startup_time) * 1000 / (m.active_time as int) >= 1000 {
        1000
    } else {
        (t - m.startup_time) * 1000 / (m.active_time as int)
    }
}

/// One in-flight execution of an ability on a weapon entity.
#[derive(Clone, Copy, Debug)]
pub struct Move {
    /// Copy of the definition being executed.
    pub move_metadata: MoveMetadata,
    /// Elapsed time since this move started, in milliseconds.
    pub move_time: u64,
    /// Phase as of the last update; lags `spec_phase` only before the
    /// first tick of a move whose startup window is empty.
    pub current_phase: MovePhase,
    /// The actor that owns the weapon executing this move.
    pub actor: u64,
    /// Queued successor definition, set by an accepted chain request.
    pub next_move: Option<MoveMetadata>,
}

impl Move {
    /// A live move: valid definition, clock strictly inside the move's
    /// duration, phase consistent with the clock (a freshly created move
    /// shows Startup until its first tick), queued successor valid.
    pub open spec fn wf(self) -> bool {
        &&& self.move_metadata.valid()
        &&& !spec_complete(self.move_metadata, self.move_time as int)
        &&& (self.current_phase == spec_phase(self.move_metadata, self.move_time as int) || (
        self.move_time == 0 && self.current_phase == MovePhase::Startup))
        &&& match self.next_move {
            Some(n) => n.valid(),
            None => true,
        }
    }

    /// The state a move occupies at the instant a request is accepted.
    pub open spec fn spec_new(metadata: MoveMetadata, actor: u64) -> Move {
        Move {
            move_metadata: metadata,
            move_time: 0,
            current_phase: MovePhase::Startup,
            actor,
            next_move: None,
        }
    }

    /// Start executing `metadata` for `actor`, in the Startup phase with
    /// the clock at zero and nothing queued.
    pub fn new(metadata: MoveMetadata, actor: u64) -> (m: Move)
        requires
            metadata.valid(),
        ensures
            m == Move::spec_new(metadata, actor),
            m.wf(),
    {
        Move {
            move_metadata: metadata,
            move_time: 0,
            current_phase: MovePhase::Startup,
            actor,
            next_move: None,
        }
    }

    /// The fresh move that takes this one's place when control hands
    /// over to `next_metadata` — same actor, clock and queue reset.
    pub fn transition_to(&self, next_metadata: MoveMetadata) -> (m: Move)
        requires
            next_metadata.valid(),
        ensures
            m == Move::spec_new(next_metadata, self.actor),
            m.wf(),
    {
        Move::new(next_metadata, self.actor)
    }

    /// A chain request is accepted only while the move is Active or in
    /// Recovery and the request's input kind matches the move's declared
    /// accepted input.
    pub open spec fn spec_can_accept_input(self, input: MoveInput) -> bool {
        &&& (self.current_phase == MovePhase::Active || self.current_phase == MovePhase::Recovery)
        &&& self.move_metadata.accept_input == input
    }

    /// Whether a request carrying `input` may queue a successor now.
    pub fn can_accept_input(&self, input: MoveInput) -> (r: bool)
        ensures
            r == self.spec_can_accept_input(input),
    {
        (match self.current_phase {
            MovePhase::Active => true,
            MovePhase::Recovery => true,
            MovePhase::Startup => false,
        }) && self.move_metadata.accept_input == input
    }

    /// Total duration of this move's definition, in milliseconds.
    pub fn total_duration(&self) -> (r: u64)
        ensures
            r == self.move_metadata.spec_total_duration(),
    {
        self.move_metadata.startup_time as u64 + self.move_metadata.active_time as u64
            + self.move_metadata.recovery_time as u64
    }

    /// Recompute the phase from the clock. Returns the phase the clock
    /// points at and whether the move has run its full course; on
    /// completion the stored phase is left untouched, since the move is
    /// about to be discarded.
    pub fn update_phase(&mut self) -> (r: (MovePhase, bool))
        ensures
            r.1 == spec_complete(old(self).move_metadata, old(self).move_time as int),
            r.0 == spec_phase(old(self).move_metadata, old(self).move_time as int),
            final(self).move_metadata == old(self).move_metadata,
            final(self).move_time == old(self).move_time,
            final(self).actor == old(self).actor,
            final(self).next_move == old(self).next_move,
            final(self).current_phase == if r.1 {
                old(self).current_phase
            } else {
                r.0
            },
    {
        let startup = self.move_metadata.startup_time as u64;
        let active = self.move_metadata.active_time as u64;
        let total = self.total_duration();

        if self.move_time >= total {
            // Completed: t >= startup + active, so the clock points at Recovery.
            return (MovePhase::Recovery, true);
        }
        let new_phase = if self.move_time < startup {
            MovePhase::Startup
        } else if self.move_time < startup + active {
            MovePhase::Active
        } else {
            MovePhase::Recovery
        };
        self.current_phase = new_phase;
        (new_phase, false)
    }

    /// Normalized progress through the active window in thousandths,
    /// handed to the external animation curve together with the move's
    /// radius. Zero outside the Active phase.
    pub fn get_active_progress(&self) -> (r: u32)
        requires
            self.move_metadata.valid(),
        ensures
            self.current_phase != MovePhase::Active ==> r == 0,
            self.current_phase == MovePhase::Active ==> r == spec_active_progress(
                self.move_metadata,
                self.move_time as int,
            ),
            r <= 1000,
    {
        match self.current_phase {
            MovePhase::Active => {
                let startup = self.move_metadata.startup_time as u64;
                if self.move_time <= startup {
                    0
                } else {
                    let elapsed: u64 = self.move_time - startup;
                    if elapsed >= self.move_metadata.active_time as u64 {
                        proof {
                            let a = self.move_metadata.active_time as int;
                            let e = elapsed as int;
                            assert(e * 1000 >= a * 1000) by (nonlinear_arith)
                                requires
                                    e >= a,
                            ;
                            assert(e * 1000 / a >= 1000) by (nonlinear_arith)
                                requires
                                    e * 1000 >= a * 1000 && a > 0,
                            ;
                        }
                        1000
                    } else {
                        // elapsed < active_time <= u32::MAX, so the product
                        // stays far below u64::MAX.
                        let p: u64 = elapsed * 1000 / (self.move_metadata.active_time as u64);
                        assert(p < 1000) by {
                            let a = self.move_metadata.active_time as int;
                            let e = elapsed as int;
                            assert(e * 1000 < a * 1000) by (nonlinear_arith)
                                requires
                                    e < a,
                            ;
                            assert(e * 1000 / a < 1000) by (nonlinear_arith)
                                requires
                                    e * 1000 < a * 1000 && a > 0,
                            ;
                        };
                        p as u32
                    }
                }
            },
            _ => 0,
        }
    }
}

/// A request to execute a move on a weapon, coming from player input or
/// from the AI decision loop.
#[derive(Clone, Copy, Debug, PartialEq, Eq, Structural)]
pub struct ExecuteMoveEvent {
    /// The weapon entity the request targets.
    pub entity: u64,
    pub move_name: MoveName,
    pub move_input: MoveInput,
}

/// Marker mirrored onto the owning actor while its weapon executes a
/// move; collision interaction and locomotion read it.
#[derive(Clone, Copy, Debug, PartialEq, Eq, Structural)]
pub struct PlayerMove {
    pub move_metadata: MoveMetadata,
}

/// Fired when a move enters its Active phase; consumers enable the
/// weapon's hit collider and visual trail.
#[derive(Clone, Copy, Debug, PartialEq, Eq, Structural)]
pub struct MoveActiveEvent {
    pub actor: u64,
    pub move_name: MoveName,
}

/// Fired when a move enters Recovery or is torn down by an interrupt;
/// consumers disable the weapon's hit collider and visual trail.
#[derive(Clone, Copy, Debug, PartialEq, Eq, Structural)]
pub struct MoveRecoveryEvent {
    pub actor: u64,
    pub move_name: MoveName,
}

/// A phase-change notification produced while advancing a move; drained
/// by consumers in a fixed order before the collision pass runs.
#[derive(Clone, Copy, Debug, PartialEq, Eq, Structural)]
pub enum PhaseEvent {
    Activated(MoveActiveEvent),
    Recovered(MoveRecoveryEvent),
}

/// What became of an execution request.
#[derive(Clone, Copy, Debug, PartialEq, Eq, Structural)]
pub enum RequestOutcome {
    /// No move was in flight; the requested move now occupies Startup
    /// and the weapon's knockback descriptor was refreshed.
    Started,
    /// An interrupt-kind request replaced whatever was in flight; the
    /// requested move now occupies Startup.
    Interrupted,
    /// The in-flight move's declared successor was queued for chaining.
    Queued,
    /// Busy: a move is in flight and the input kind is not accepted now.
    DroppedBusy,
    /// The in-flight move declares no successor to chain into.
    DroppedNoSuccessor,
    /// The requested name is not in the catalog.
    DroppedUnknownMove,
    /// The declared successor's name is not in the catalog.
    DroppedUnknownSuccessor,
    /// The weapon has no owning actor in the cross-reference map.
    DroppedUnmappedWeapon,
}

/// Result of an execution request: the weapon's move slot afterwards,
/// the outcome, and the recovery event owed for a torn-down move.
pub struct RequestStep {
    pub slot: Option<Move>,
    pub outcome: RequestOutcome,
    pub recovery: Option<MoveRecoveryEvent>,
}

/// The request rule of the state machine.
///
/// An Interrupt-kind request unconditionally replaces any in-flight move
/// with a fresh one, emitting a recovery event for whatever it tore down;
/// any other request while a move is in flight can only queue the
/// in-flight move's declared successor, and only while the move is
/// Active or in Recovery and accepts the request's input kind; with no
/// move in flight, the requested move starts in Startup. Catalog and
/// cross-reference misses degrade to a dropped request.
pub open spec fn spec_request(
    slot: Option<Move>,
    event: ExecuteMoveEvent,
    db: MoveDatabase,
    actor_of_weapon: Option<u64>,
) -> RequestStep {
    if event.move_input == MoveInput::Interrupt {
        match db.spec_get(event.move_name) {
            Option::None => RequestStep {
                slot,
                outcome: RequestOutcome::DroppedUnknownMove,
                recovery: None,
            },
            Some(meta) => match actor_of_weapon {
                Option::None => RequestStep {
                    slot,
                    outcome: RequestOutcome::DroppedUnmappedWeapon,
                    recovery: None,
                },
                Some(actor) => RequestStep {
                    slot: Some(Move::spec_new(meta, actor)),
                    outcome: RequestOutcome::Interrupted,
                    recovery: match slot {
                        Some(cur) => Some(
                            MoveRecoveryEvent {
                                actor: cur.actor,
                                move_name: cur.move_metadata.name,
                            },
                        ),
                        Option::None => None,
                    },
                },
            },
        }
    } else {
        match slot {
            Some(cur) => {
                if !cur.spec_can_accept_input(event.move_input) {
                    RequestStep { slot, outcome: RequestOutcome::DroppedBusy, recovery: None }
                } else {
                    match cur.move_metadata.next_move {
                        Option::None => RequestStep {
                            slot,
                            outcome: RequestOutcome::DroppedNoSuccessor,
                            recovery: None,
                        },
                        Some(successor) => match db.spec_get(successor) {
                            Option::None => RequestStep {
                                slot,
                                outcome: RequestOutcome::DroppedUnknownSuccessor,
                                recovery: None,
                            },
                            Some(nmeta) => RequestStep {
                                slot: Some(Move { next_move: Some(nmeta), ..cur }),
                                outcome: RequestOutcome::Queued,
                                recovery: None,
                            },
                        },
                    }
                }
            },
            Option::None => match db.spec_get(event.move_name) {
                Option::None => RequestStep {
                    slot,
                    outcome: RequestOutcome::DroppedUnknownMove,
                    recovery: None,
                },
                Some(meta) => match actor_of_weapon {
                    Option::None => RequestStep {
                        slot,
                        outcome: RequestOutcome::DroppedUnmappedWeapon,
                        recovery: None,
                    },
                    Some(actor) => RequestStep {
                        slot: Some(Move::spec_new(meta, actor)),
                        outcome: RequestOutcome::Started,
                        recovery: None,
                    },
                },
            },
        }
    }
}

/// Entry point for both player input and AI decisions: apply one
/// execution request to the weapon's move slot.
///
/// The slot afterwards, the outcome and the owed recovery event are
/// exactly `spec_request`; when a new move starts from idle, the
/// knockback descriptor of the weapon's collider is refreshed to the new
/// move's force, and in every other case the store is untouched.
pub fn handle_move_execution(
    slot: &mut Option<Move>,
    event: &ExecuteMoveEvent,
    move_db: &MoveDatabase,
    entity_map: &GlobalEntityMap,
    knockbacks: &mut KnockbackStore,
) -> (r: (RequestOutcome, Option<MoveRecoveryEvent>))
    requires
        move_db.wf(),
        (*old(slot)) matches Some(m) ==> m.wf(),
    ensures
        ({
            let step = spec_request(
                *old(slot),
                *event,
                *move_db,
                entity_map.spec_actor_of(event.entity),
            );
            *final(slot) == step.slot && r.0 == step.outcome && r.1 == step.recovery
        }),
        (*final(slot)) matches Some(m) ==> m.wf(),
        r.0 == RequestOutcome::Started ==> final(knockbacks).view_map() == (
        match entity_map.spec_collider_of(event.entity) {
            Some(c) => spec_refresh(
                old(knockbacks).view_map(),
                c,
                move_db.spec_get(event.move_name)->0.kb_force,
            ),
            Option::None => old(knockbacks).view_map(),
        }),
        r.0 != RequestOutcome::Started ==> final(knockbacks).view_map() == old(
            knockbacks,
        ).view_map(),
{
    proof {
        lemma_get_found(*move_db, event.move_name);
    }
    if matches!(event.move_input, MoveInput::Interrupt) {
        // Forced interrupt: tear down whatever is in flight and start the
        // requested move, bypassing the busy/chain gate.
        match move_db.get(event.move_name) {
            Some(meta) => match entity_map.get_actor(event.entity) {
                Some(actor) => {
                    let recovery = match &*slot {
                        Some(cur) => Some(
                            MoveRecoveryEvent {
                                actor: cur.actor,
                                move_name: cur.move_metadata.name,
                            },
                        ),
                        None => None,
                    };
                    *slot = Some(Move::new(meta, actor));
                    (RequestOutcome::Interrupted, recovery)
                },
                None => (RequestOutcome::DroppedUnmappedWeapon, None),
            },
            None => (RequestOutcome::DroppedUnknownMove, None),
        }
    } else {
        let cur_copy: Option<Move> = match &*slot {
            Some(cur) => Some(*cur),
            None => None,
        };
        match cur_copy {
            Some(cur) => {
                // Busy: at most queue the declared successor for chaining.
                if !cur.can_accept_input(event.move_input) {
                    return (RequestOutcome::DroppedBusy, None);
                }
                match cur.move_metadata.next_move {
                    Some(successor) => {
                        proof {
                            lemma_get_found(*move_db, successor);
                        }
                        match move_db.get(successor) {
                            Some(nmeta) => {
                                *slot = Some(Move { next_move: Some(nmeta), ..cur });
                                (RequestOutcome::Queued, None)
                            },
                            None => (RequestOutcome::DroppedUnknownSuccessor, None),
                        }
                    },
                    None => (RequestOutcome::DroppedNoSuccessor, None),
                }
            },
            None => {
                // Idle: start the requested move and refresh the weapon's
                // knockback descriptor.
                match move_db.get(event.move_name) {
                    Some(meta) => match entity_map.get_actor(event.entity) {
                        Some(actor) => {
                            *slot = Some(Move::new(meta, actor));
                            match entity_map.get_collider(event.entity) {
                                Some(collider) => {
                                    knockbacks.refresh(collider, meta.kb_force);
                                },
                                None => {},
                            }
                            (RequestOutcome::Started, None)
                        },
                        None => (RequestOutcome::DroppedUnmappedWeapon, None),
                    },
                    None => (RequestOutcome::DroppedUnknownMove, None),
                }
            },
        }
    }
}

/// What became of advancing a weapon's move by one time delta.
#[derive(Clone, Copy, Debug, PartialEq, Eq, Structural)]
pub enum TickOutcome {
    /// No move is in flight on this weapon.
    Idle,
    /// The move continues (its phase may have changed).
    Running,
    /// The queued successor replaced the move, skipping the rest of the
    /// recovery tail; the knockback descriptor was refreshed.
    Chained,
    /// Total duration elapsed with nothing queued: the slot is empty and
    /// the caller resets the weapon transform and clears the actor's
    /// executing-move marker.
    Completed,
}

/// Result of advancing a move slot: the slot afterwards, the outcome and
/// the phase event owed to consumers.
pub struct TickStep {
    pub slot: Option<Move>,
    pub outcome: TickOutcome,
    pub event: Option<PhaseEvent>,
}

/// The tick rule of the state machine.
///
/// The clock advances by `dt`; the phase is recomputed from the clock
/// alone; entering Active or Recovery fires the matching event. A move
/// whose total duration elapsed is removed. Otherwise, a move sitting in
/// Recovery with a queued successor transitions immediately to the
/// successor's Startup, skipping the rest of recovery. A zero delta is a
/// no-op: no state change, no event.
pub open spec fn spec_tick(slot: Option<Move>, dt: int) -> TickStep {
    match slot {
        Option::None => TickStep { slot, outcome: TickOutcome::Idle, event: None },
        Some(mv) => {
            if dt == 0 {
                TickStep { slot, outcome: TickOutcome::Running, event: None }
            } else {
                let t = mv.move_time + dt;
                let new_phase = spec_phase(mv.move_metadata, t);
                let ev: Option<PhaseEvent> = if new_phase == mv.current_phase {
                    None
                } else if new_phase == MovePhase::Active {
                    Some(
                        PhaseEvent::Activated(
                            MoveActiveEvent { actor: mv.actor, move_name: mv.move_metadata.name },
                        ),
                    )
                } else if new_phase == MovePhase::Recovery {
                    Some(
                        PhaseEvent::Recovered(
                            MoveRecoveryEvent { actor: mv.actor, move_name: mv.move_metadata.name },
                        ),
                    )
                } else {
                    None
                };
                if spec_complete(mv.move_metadata, t) {
                    TickStep { slot: None, outcome: TickOutcome::Completed, event: ev }
                } else if new_phase == MovePhase::Recovery && mv.next_move is Some {
                    TickStep {
                        slot: Some(Move::spec_new(mv.next_move->0, mv.actor)),
                        outcome: TickOutcome::Chained,
                        event: ev,
                    }
                } else {
                    TickStep {
                        slot: Some(
                            Move { move_time: t as u64, current_phase: new_phase, ..mv },
                        ),
                        outcome: TickOutcome::Running,
                        event: ev,
                    }
                }
            }
        },
    }
}

/// Advance one weapon's move by `dt` milliseconds.
///
/// The slot afterwards, the outcome and the emitted event are exactly
/// `spec_tick`; on a chain transition the knockback descriptor of the
/// weapon's collider is refreshed to the successor's force, and in every
/// other case the store is untouched. A zero delta never changes the
/// slot and never fires an event.
pub fn update_move(
    slot: &mut Option<Move>,
    weapon: u64,
    dt: u64,
    entity_map: &GlobalEntityMap,
    knockbacks: &mut KnockbackStore,
) -> (r: (TickOutcome, Option<PhaseEvent>))
    requires
        (*old(slot)) matches Some(m) ==> m.wf(),
        dt <= MAX_TICK_MS,
    ensures
        ({
            let step = spec_tick(*old(slot), dt as int);
            *final(slot) == step.slot && r.0 == step.outcome && r.1 == step.event
        }),
        (*final(slot)) matches Some(m) ==> m.wf(),
        r.0 == TickOutcome::Chained ==> final(knockbacks).view_map() == (
        match entity_map.spec_collider_of(weapon) {
            Some(c) => spec_refresh(
                old(knockbacks).view_map(),
                c,
                (*old(slot))->0.next_move->0.kb_force,
            ),
            Option::None => old(knockbacks).view_map(),
        }),
        r.0 != TickOutcome::Chained ==> final(knockbacks).view_map() == old(
            knockbacks,
        ).view_map(),
        dt == 0 ==> *final(slot) == *old(slot) && r.1 is None,
{
    let cur_copy: Option<Move> = match &*slot {
        Some(cur) => Some(*cur),
        None => None,
    };
    match cur_copy {
        None => (TickOutcome::Idle, None),
        Some(mut mv) => {
            if dt == 0 {
                return (TickOutcome::Running, None);
            }
            mv.move_time = mv.move_time + dt;
            let previous = mv.current_phase;
            let (new_phase, completed) = mv.update_phase();
            let ev: Option<PhaseEvent> = if new_phase != previous {
                match new_phase {
                    MovePhase::Active => Some(
                        PhaseEvent::Activated(
                            MoveActiveEvent { actor: mv.actor, move_name: mv.move_metadata.name },
                        ),
                    ),
                    MovePhase::Recovery => Some(
                        PhaseEvent::Recovered(
                            MoveRecoveryEvent { actor: mv.actor, move_name: mv.move_metadata.name },
                        ),
                    ),
                    MovePhase::Startup => None,
                }
            } else {
                None
            };
            if completed {
                *slot = None;
                return (TickOutcome::Completed, ev);
            }
            let in_recovery = matches!(new_phase, MovePhase::Recovery);
            if in_recovery {
                match mv.next_move {
                    Some(next) => {
                        // Early transition: jump straight to the
                        // successor's Startup, skipping the recovery tail.
                        *slot = Some(Move::new(next, mv.actor));
                        match entity_map.get_collider(weapon) {
                            Some(collider) => {
                                knockbacks.refresh(collider, next.kb_force);
                            },
                            None => {},
                        }
                        return (TickOutcome::Chained, ev);
                    },
                    None => {},
                }
            }
            *slot = Some(mv);
            (TickOutcome::Running, ev)
        },
    }
}

/// One weapon's place in the per-tick move update: the weapon entity
/// and whatever move it is executing.
#[derive(Clone, Copy, Debug)]
pub struct WeaponSlot {
    pub weapon: u64,
    pub current: Option<Move>,
}

/// The phase events owed after advancing the first `i` slots, in slot
/// order — the typed outbox consumers drain before the collision pass.
pub open spec fn spec_tick_events(slots: Seq<WeaponSlot>, dt: int, i: int) -> Seq<PhaseEvent>
    decreases i,
{
    if i <= 0 {
        Seq::empty()
    } else {
        let prev = spec_tick_events(slots, dt, i - 1);
        match spec_tick(slots[i - 1].current, dt).event {
            Some(e) => prev.push(e),
            Option::None => prev,
        }
    }
}

/// The knockback descriptors after advancing the first `i` slots: each
/// chain transition refreshes the descriptor of its weapon's collider
/// to the successor's force, in slot order.
pub open spec fn spec_tick_knockbacks(
    slots: Seq<WeaponSlot>,
    dt: int,
    em: GlobalEntityMap,
    kb: Map<u64, WeaponKnockback>,
    i: int,
) -> Map<u64, WeaponKnockback>
    decreases i,
{
    if i <= 0 {
        kb
    } else {
        let prev = spec_tick_knockbacks(slots, dt, em, kb, i - 1);
        let s = slots[i - 1];
        if spec_tick(s.current, dt).outcome == TickOutcome::Chained {
            match em.spec_collider_of(s.weapon) {
                Some(c) => spec_refresh(prev, c, s.current->0.next_move->0.kb_force),
                Option::None => prev,
            }
        } else {
            prev
        }
    }
}

/// Advance every weapon's move by `dt` milliseconds, in slot order.
///
/// Each slot follows the tick rule independently; the returned events
/// are exactly the phase events of the slots that fired one, in slot
/// order; the knockback store ends as the in-order fold of the chain
/// refreshes. A zero delta leaves every slot alone and fires nothing.
pub fn update_moves(
    slots: &mut Vec<WeaponSlot>,
    dt: u64,
    entity_map: &GlobalEntityMap,
    knockbacks: &mut KnockbackStore,
) -> (events: Vec<PhaseEvent>)
    requires
        forall|i: int|
            0 <= i < old(slots)@.len() ==> ((#[trigger] old(slots)@[i]).current matches Some(m)
                ==> m.wf()),
        dt <= MAX_TICK_MS,
    ensures
        final(slots)@.len() == old(slots)@.len(),
        forall|i: int|
            0 <= i < old(slots)@.len() ==> (#[trigger] final(slots)@[i]).weapon == old(
                slots,
            )@[i].weapon && final(slots)@[i].current == spec_tick(
                old(slots)@[i].current,
                dt as int,
            ).slot,
        forall|i: int|
            0 <= i < final(slots)@.len() ==> ((#[trigger] final(slots)@[i]).current matches Some(m)
                ==> m.wf()),
        events@ == spec_tick_events(old(slots)@, dt as int, old(slots)@.len() as int),
        final(knockbacks).view_map() == spec_tick_knockbacks(
            old(slots)@,
            dt as int,
            *entity_map,
            old(knockbacks).view_map(),
            old(slots)@.len() as int,
        ),
        dt == 0 ==> events@.len() == 0,
{
    let mut events: Vec<PhaseEvent> = Vec::new();
    let n = slots.len();
    let mut i: usize = 0;
    while i < n
        invariant
            n == slots@.len(),
            n == old(slots)@.len(),
            i <= n,
            dt <= MAX_TICK_MS,
            forall|k: int|
                0 <= k < n ==> ((#[trigger] old(slots)@[k]).current matches Some(m) ==> m.wf()),
            forall|k: int| i <= k < n ==> (#[trigger] slots@[k]) == old(slots)@[k],
            forall|k: int|
                0 <= k < i ==> (#[trigger] slots@[k]).weapon == old(slots)@[k].weapon
                    && slots@[k].current == spec_tick(old(slots)@[k].current, dt as int).slot,
            forall|k: int|
                0 <= k < n ==> ((#[trigger] slots@[k]).current matches Some(m) ==> m.wf()),
            events@ == spec_tick_events(old(slots)@, dt as int, i as int),
            knockbacks.view_map() == spec_tick_knockbacks(
                old(slots)@,
                dt as int,
                *entity_map,
                old(knockbacks).view_map(),
                i as int,
            ),
            dt == 0 ==> events@.len() == 0,
        decreases n - i,
    {
        let weapon = slots[i].weapon;
        let mut cur: Option<Move> = slots[i].current;
        let (_, event) = update_move(&mut cur, weapon, dt, entity_map, knockbacks);
        slots.set(i, WeaponSlot { weapon, current: cur });
        match event {
            Some(e) => events.push(e),
            None => {},
        }
        i += 1;
    }
    events
}

/// Startup holds strictly below the startup threshold, Active up to the
/// close of the hit window, Recovery thereafter; the thresholds
/// partition time, so the phase of a given clock value is unique.
pub proof fn lemma_phase_thresholds(m: MoveMetadata, t: int)
    ensures
        t < m.startup_time <==> spec_phase(m, t) == MovePhase::Startup,
        m.startup_time <= t < m.startup_time + m.active_time <==> spec_phase(m, t)
            == MovePhase::Active,
        m.startup_time + m.active_time <= t <==> spec_phase(m, t) == MovePhase::Recovery,
{
}

/// The phase is a pure, deterministic function of the accumulated
/// elapsed time and the three duration thresholds alone: moves agreeing
/// on those always occupy the same phase, whatever else differs.
pub proof fn lemma_phase_deterministic(a: Move, b: Move)
    requires
        a.move_metadata.startup_time == b.move_metadata.startup_time,
        a.move_metadata.active_time == b.move_metadata.active_time,
        a.move_metadata.recovery_time == b.move_metadata.recovery_time,
        a.move_time == b.move_time,
    ensures
        spec_phase(a.move_metadata, a.move_time as int) == spec_phase(
            b.move_metadata,
            b.move_time as int,
        ),
        spec_complete(a.move_metadata, a.move_time as int) == spec_complete(
            b.move_metadata,
            b.move_time as int,
        ),
{
}

/// A tick with a zero time delta never changes the move slot and never
/// fires an event.
pub proof fn lemma_zero_tick_is_noop(slot: Option<Move>)
    ensures
        spec_tick(slot, 0).slot == slot,
        spec_tick(slot, 0).event is None,
{
}

/// Chaining: once a successor is queued, the tick on which the move
/// sits in Recovery short of its total duration hands the weapon to the
/// successor's Startup with a fresh clock — no tick is ever spent in the
/// abandoned recovery tail.
pub proof fn lemma_chain_skips_recovery(mv: Move, dt: int)
    requires
        mv.wf(),
        dt > 0,
        mv.next_move is Some,
        spec_phase(mv.move_metadata, mv.move_time + dt) == MovePhase::Recovery,
        !spec_complete(mv.move_metadata, mv.move_time + dt),
    ensures
        spec_tick(Some(mv), dt).outcome == TickOutcome::Chained,
        spec_tick(Some(mv), dt).slot == Some(Move::spec_new(mv.next_move->0, mv.actor)),
        spec_tick(Some(mv), dt).slot->0.current_phase == MovePhase::Startup,
        spec_tick(Some(mv), dt).slot->0.move_time == 0,
{
}

/// Forced interrupt: an Interrupt-kind request for a catalogued move on
/// a mapped weapon always leaves the requested move occupying Startup,
/// whatever was in flight — even another interrupt — and owes exactly
/// one recovery event: for the torn-down move if one existed, none
/// otherwise.
pub proof fn lemma_forced_interrupt(
    slot: Option<Move>,
    event: ExecuteMoveEvent,
    db: MoveDatabase,
    actor: u64,
)
    requires
        event.move_input == MoveInput::Interrupt,
        db.spec_get(event.move_name) is Some,
    ensures
        spec_request(slot, event, db, Some(actor)).slot == Some(
            Move::spec_new(db.spec_get(event.move_name)->0, actor),
        ),
        spec_request(slot, event, db, Some(actor)).slot->0.current_phase == MovePhase::Startup,
        spec_request(slot, event, db, Some(actor)).outcome == RequestOutcome::Interrupted,
        spec_request(slot, event, db, Some(actor)).recovery is Some <==> slot is Some,
        slot matches Some(cur) ==> spec_request(slot, event, db, Some(actor)).recovery == Some(
            MoveRecoveryEvent { actor: cur.actor, move_name: cur.move_metadata.name },
        ),
{
}

} // verus!
