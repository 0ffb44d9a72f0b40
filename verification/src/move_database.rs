//! The move definition catalog: a validated, read-only table mapping
//! each move name to its tuning data.
//!
//! The catalog is populated once at startup and never mutated by
//! simulation code. Building it validates every entry up front — an
//! ability with an empty hit window, or two entries sharing a name, is a
//! construction-time error, never a mid-tick one.

use vstd::prelude::*;

use crate::constants::ATTACK_ANIMATION_MS;
use crate::constants::BASE_CRITICAL_RATE;
use crate::constants::BERSERKER_MOVE_SPEED;
use crate::constants::CRIT_A;
use crate::constants::CRIT_B;
use crate::constants::KNOCK_BACK_HEAVY;
use crate::constants::KNOCK_BACK_LITE;
use crate::constants::KNOCK_BACK_NONE;
use crate::constants::PLAYER_SPEED;
use crate::custom_move::MoveInput;
use crate::custom_move::MoveMetadata;
use crate::custom_move::MoveName;
use crate::custom_move::MoveType;

verus! {

/// Why a catalog failed validation.
#[derive(Clone, Copy, Debug, PartialEq, Eq, Structural)]
pub enum CatalogError {
    /// Some entry has `active_time == 0` and could never deal damage.
    EmptyActiveWindow,
    /// Two entries share a name.
    DuplicateName,
}

/// First entry named `name` in `s` at or after index `i`.
pub open spec fn spec_find(s: Seq<MoveMetadata>, name: MoveName, i: int) -> Option<MoveMetadata>
    decreases s.len() - i,
{
    if i < 0 || i >= s.len() {
        None
    } else if s[i].name == name {
        Some(s[i])
    } else {
        spec_find(s, name, i + 1)
    }
}

/// The validated table of move definitions.
#[derive(Clone, Debug)]
pub struct MoveDatabase {
    moves: Vec<MoveMetadata>,
}

impl MoveDatabase {
    /// The definitions the catalog holds, in insertion order.
    pub closed spec fn entries(self) -> Seq<MoveMetadata> {
        self.moves@
    }

    /// Every entry is valid and no name occurs twice.
    pub open spec fn wf(self) -> bool {
        &&& forall|i: int|
            0 <= i < self.entries().len() ==> (#[trigger] self.entries()[i]).valid()
        &&& forall|i: int, j: int|
            0 <= i < j < self.entries().len() ==> self.entries()[i].name != self.entries()[j].name
    }

    /// Lookup result for `name`: the first (under `wf` the only) entry
    /// carrying it.
    pub open spec fn spec_get(self, name: MoveName) -> Option<MoveMetadata> {
        spec_find(self.entries(), name, 0)
    }

    /// Validate `entries` and build a catalog from them. Succeeds exactly
    /// when every entry has a non-empty active window and all names are
    /// distinct.
    pub fn new(entries: Vec<MoveMetadata>) -> (r: Result<MoveDatabase, CatalogError>)
        ensures
            r matches Ok(db) ==> db.entries() == entries@ && db.wf(),
            r is Ok <==> ((forall|i: int|
                0 <= i < entries@.len() ==> (#[trigger] entries@[i]).valid()) && (forall|
                i: int,
                j: int,
            |
                0 <= i < j < entries@.len() ==> entries@[i].name != entries@[j].name)),
            r matches Err(e) && e == CatalogError::EmptyActiveWindow ==> exists|i: int|
                0 <= i < entries@.len() && !(#[trigger] entries@[i]).valid(),
            r matches Err(e) && e == CatalogError::DuplicateName ==> exists|i: int, j: int|
                0 <= i < j < entries@.len() && entries@[i].name == entries@[j].name,
    {
        let n = entries.len();
        let mut i: usize = 0;
        while i < n
            invariant
                n == entries@.len(),
                i <= n,
                forall|k: int| 0 <= k < i ==> (#[trigger] entries@[k]).valid(),
                forall|k: int, l: int| 0 <= k < l < i ==> entries@[k].name != entries@[l].name,
            decreases n - i,
        {
            if entries[i].active_time == 0 {
                return Err(CatalogError::EmptyActiveWindow);
            }
            let mut j: usize = 0;
            while j < i
                invariant
                    i < n,
                    n == entries@.len(),
                    j <= i,
                    forall|k: int| 0 <= k < j ==> entries@[k].name != entries@[i as int].name,
                decreases i - j,
            {
                if entries[j].name == entries[i].name {
                    return Err(CatalogError::DuplicateName);
                }
                j += 1;
            }
            i += 1;
        }
        Ok(MoveDatabase { moves: entries })
    }

    /// Return the definition registered under `name` by value, or signal
    /// that the catalog has no such move.
    pub fn get(&self, name: MoveName) -> (r: Option<MoveMetadata>)
        ensures
            r == self.spec_get(name),
    {
        let n = self.moves.len();
        let mut i: usize = 0;
        while i < n
            invariant
                n == self.moves@.len(),
                i <= n,
                spec_find(self.moves@, name, 0) == spec_find(self.moves@, name, i as int),
            decreases n - i,
        {
            if self.moves[i].name == name {
                return Some(self.moves[i]);
            }
            i += 1;
        }
        None
    }
}

/// A looked-up definition carries the requested name and, in a
/// well-formed catalog, is valid.
pub proof fn lemma_get_found(db: MoveDatabase, name: MoveName)
    requires
        db.wf(),
    ensures
        db.spec_get(name) matches Some(m) ==> m.name == name && m.valid(),
{
    lemma_find_found(db.entries(), name, 0);
}

proof fn lemma_find_found(s: Seq<MoveMetadata>, name: MoveName, i: int)
    requires
        forall|k: int| 0 <= k < s.len() ==> (#[trigger] s[k]).valid(),
    ensures
        spec_find(s, name, i) matches Some(m) ==> m.name == name && m.valid(),
    decreases s.len() - i,
{
    if 0 <= i < s.len() && s[i].name != name {
        lemma_find_found(s, name, i + 1);
    }
}

/// Definition of the opening horizontal swing.
pub open spec fn spec_swing_left() -> MoveMetadata {
    MoveMetadata {
        name: MoveName::SwingLeft,
        radius: 130,
        startup_time: 150,
        active_time: ATTACK_ANIMATION_MS,
        recovery_time: 350,
        move_type: MoveType::Swing,
        accept_input: MoveInput::Attack,
        next_move: Some(MoveName::SwingRight),
        kb_force: KNOCK_BACK_LITE,
        critical_rate: BASE_CRITICAL_RATE,
        best_range_min: 150,
        move_speed: PLAYER_SPEED,
    }
}

/// Definition of the follow-up swing chained from the opener.
pub open spec fn spec_swing_right() -> MoveMetadata {
    MoveMetadata {
        name: MoveName::SwingRight,
        radius: 130,
        startup_time: 150,
        active_time: ATTACK_ANIMATION_MS,
        recovery_time: 350,
        move_type: MoveType::Swing,
        accept_input: MoveInput::Neutral,
        next_move: None,
        kb_force: KNOCK_BACK_LITE,
        critical_rate: (BASE_CRITICAL_RATE + CRIT_A) as u32,
        best_range_min: 150,
        move_speed: PLAYER_SPEED,
    }
}

/// Definition of the forward stab.
pub open spec fn spec_sword_stub() -> MoveMetadata {
    MoveMetadata {
        name: MoveName::SwordStub,
        radius: 130,
        startup_time: 300,
        active_time: 260,
        recovery_time: 350,
        move_type: MoveType::Stub,
        accept_input: MoveInput::Neutral,
        next_move: None,
        kb_force: KNOCK_BACK_LITE,
        critical_rate: (BASE_CRITICAL_RATE + CRIT_B) as u32,
        best_range_min: 170,
        move_speed: PLAYER_SPEED,
    }
}

/// Definition of the reactive parry; an interrupt-kind move with no
/// wind-up and no cooldown tail.
pub open spec fn spec_reflect() -> MoveMetadata {
    MoveMetadata {
        name: MoveName::Reflect,
        radius: 130,
        startup_time: 0,
        active_time: 1000,
        recovery_time: 0,
        move_type: MoveType::Interrupt,
        accept_input: MoveInput::Interrupt,
        next_move: None,
        kb_force: KNOCK_BACK_NONE,
        critical_rate: 0,
        best_range_min: 150,
        move_speed: PLAYER_SPEED,
    }
}

/// Definition of the wide spin attack.
pub open spec fn spec_spin_left() -> MoveMetadata {
    MoveMetadata {
        name: MoveName::SpinLeft,
        radius: 130,
        startup_time: 0,
        active_time: 500,
        recovery_time: 1200,
        move_type: MoveType::Swing,
        accept_input: MoveInput::Neutral,
        next_move: None,
        kb_force: KNOCK_BACK_HEAVY,
        critical_rate: (BASE_CRITICAL_RATE * 2) as u32,
        best_range_min: 150,
        move_speed: PLAYER_SPEED,
    }
}

/// Definition of the whirlwind that chains into itself.
pub open spec fn spec_tunado() -> MoveMetadata {
    MoveMetadata {
        name: MoveName::Tunado,
        radius: 130,
        startup_time: 0,
        active_time: ATTACK_ANIMATION_MS,
        recovery_time: 2000,
        move_type: MoveType::Swing,
        accept_input: MoveInput::Attack,
        next_move: Some(MoveName::Tunado),
        kb_force: KNOCK_BACK_LITE,
        critical_rate: (BASE_CRITICAL_RATE * 2) as u32,
        best_range_min: 150,
        move_speed: ((PLAYER_SPEED + BERSERKER_MOVE_SPEED) * 11 / 10) as u32,
    }
}

/// The stock catalog, in insertion order.
pub open spec fn spec_default_entries() -> Seq<MoveMetadata> {
    seq![
        spec_swing_left(),
        spec_swing_right(),
        spec_sword_stub(),
        spec_reflect(),
        spec_spin_left(),
        spec_tunado(),
    ]
}

impl Default for MoveDatabase {
    /// Build the stock catalog of the six shipped abilities.
    fn default() -> (r: MoveDatabase)
        ensures
            r.entries() == spec_default_entries(),
            r.wf(),
    {
        let mut moves: Vec<MoveMetadata> = Vec::new();
        moves.push(
            MoveMetadata {
                name: MoveName::SwingLeft,
                radius: 130,
                startup_time: 150,
                active_time: ATTACK_ANIMATION_MS,
                recovery_time: 350,
                move_type: MoveType::Swing,
                accept_input: MoveInput::Attack,
                next_move: Some(MoveName::SwingRight),
                kb_force: KNOCK_BACK_LITE,
                critical_rate: BASE_CRITICAL_RATE,
                best_range_min: 150,
                move_speed: PLAYER_SPEED,
            },
        );
        moves.push(
            MoveMetadata {
                name: MoveName::SwingRight,
                radius: 130,
                startup_time: 150,
                active_time: ATTACK_ANIMATION_MS,
                recovery_time: 350,
                move_type: MoveType::Swing,
                accept_input: MoveInput::Neutral,
                next_move: None,
                kb_force: KNOCK_BACK_LITE,
                critical_rate: BASE_CRITICAL_RATE + CRIT_A,
                best_range_min: 150,
                move_speed: PLAYER_SPEED,
            },
        );
        moves.push(
            MoveMetadata {
                name: MoveName::SwordStub,
                radius: 130,
                startup_time: 300,
                active_time: 260,
                recovery_time: 350,
                move_type: MoveType::Stub,
                accept_input: MoveInput::Neutral,
                next_move: None,
                kb_force: KNOCK_BACK_LITE,
                critical_rate: BASE_CRITICAL_RATE + CRIT_B,
                best_range_min: 170,
                move_speed: PLAYER_SPEED,
            },
        );
        moves.push(
            MoveMetadata {
                name: MoveName::Reflect,
                radius: 130,
                startup_time: 0,
                active_time: 1000,
                recovery_time: 0,
                move_type: MoveType::Interrupt,
                accept_input: MoveInput::Interrupt,
                next_move: None,
                kb_force: KNOCK_BACK_NONE,
                critical_rate: 0,
                best_range_min: 150,
                move_speed: PLAYER_SPEED,
            },
        );
        moves.push(
            MoveMetadata {
                name: MoveName::SpinLeft,
                radius: 130,
                startup_time: 0,
                active_time: 500,
                recovery_time: 1200,
                move_type: MoveType::Swing,
                accept_input: MoveInput::Neutral,
                next_move: None,
                kb_force: KNOCK_BACK_HEAVY,
                critical_rate: BASE_CRITICAL_RATE * 2,
                best_range_min: 150,
                move_speed: PLAYER_SPEED,
            },
        );
        moves.push(
            MoveMetadata {
                name: MoveName::Tunado,
                radius: 130,
                startup_time: 0,
                active_time: ATTACK_ANIMATION_MS,
                recovery_time: 2000,
                move_type: MoveType::Swing,
                accept_input: MoveInput::Attack,
                next_move: Some(MoveName::Tunado),
                kb_force: KNOCK_BACK_LITE,
                critical_rate: BASE_CRITICAL_RATE * 2,
                best_range_min: 150,
                move_speed: (PLAYER_SPEED + BERSERKER_MOVE_SPEED) * 11 / 10,
            },
        );
        proof {
            assert(moves@ =~= spec_default_entries());
        }
        MoveDatabase { moves }
    }
}

} // verus!
