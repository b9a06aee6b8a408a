//! Rotation driver: advances the orientation of every marked scene entity
//! about the fixed vertical axis, in proportion to elapsed frame time.
//!
//! Orientations are unit rotations about one axis, so a single angle is a
//! complete description.  Angles are kept in binary fixed point: a full turn
//! is [`FULL_TURN`] angle units, and composing two rotations adds their
//! angles modulo a full turn.  This makes composition exact — advancing by
//! `t1` then by `t2` lands on precisely the same orientation as advancing
//! once by `t1 + t2`.

use vstd::prelude::*;

verus! {

/// A full turn in angle units.  An orientation is a `u32`, so every `u32`
/// value is a valid angle and wrap-around is arithmetic modulo `FULL_TURN`.
pub const FULL_TURN: u64 = 0x1_0000_0000;

/// Angular speed of the tracked model in angle units per millisecond;
/// roughly half a radian per second.
pub const SPIN_RATE: u32 = 341_783;

/// A scene-graph entity as the driver sees it: the marker that tags it as a
/// tracked asset instance, and its orientation about the vertical axis.
#[derive(Clone, Copy, PartialEq, Eq, Structural, Debug)]
pub struct SceneEntity {
    /// True for entities spawned as instances of the tracked asset.
    pub marked: bool,
    /// Orientation angle, in units of `FULL_TURN` per turn.
    pub orientation: u32,
}

/// The orientation reached from `orientation` after `elapsed_ms` milliseconds
/// of spinning at [`SPIN_RATE`], wrapping at a full turn.
pub open spec fn turned(orientation: u32, elapsed_ms: u32) -> u32 {
    ((orientation + SPIN_RATE * elapsed_ms) % (FULL_TURN as int)) as u32
}

/// Advances one orientation by `elapsed_ms` milliseconds.
pub fn turn(orientation: u32, elapsed_ms: u32) -> (r: u32)
    ensures
        r == turned(orientation, elapsed_ms),
{
    proof {
        vstd::arithmetic::mul::lemma_mul_upper_bound(
            SPIN_RATE as int,
            SPIN_RATE as int,
            elapsed_ms as int,
            u32::MAX as int,
        );
    }
    let step: u64 = (SPIN_RATE as u64) * (elapsed_ms as u64);
    let sum: u64 = (orientation as u64) + step % FULL_TURN;
    let r: u64 = sum % FULL_TURN;
    proof {
        vstd::arithmetic::div_mod::lemma_add_mod_noop_right(
            orientation as int,
            step as int,
            FULL_TURN as int,
        );
    }
    r as u32
}

/// What one entity looks like after `elapsed_ms` milliseconds: marked
/// entities spin, unmarked ones are untouched.
pub open spec fn rotated_entity(e: SceneEntity, elapsed_ms: u32) -> SceneEntity {
    if e.marked {
        SceneEntity { orientation: turned(e.orientation, elapsed_ms), ..e }
    } else {
        e
    }
}

/// What a whole entity set looks like after `elapsed_ms` milliseconds.
pub open spec fn advanced(entities: Seq<SceneEntity>, elapsed_ms: u32) -> Seq<SceneEntity> {
    entities.map_values(|e: SceneEntity| rotated_entity(e, elapsed_ms))
}

/// The per-frame driver: spins every marked entity by `elapsed_ms`
/// milliseconds' worth of rotation and leaves every other entity alone.
/// With no entities, or none marked, it changes nothing.
pub fn advance(entities: &mut Vec<SceneEntity>, elapsed_ms: u32)
    ensures
        final(entities)@ == advanced(old(entities)@, elapsed_ms),
        final(entities)@.len() == old(entities)@.len(),
{
    let n = entities.len();
    let mut i: usize = 0;
    while i < n
        invariant
            i <= n,
            entities@.len() == n,
            n == old(entities)@.len(),
            forall|j: int|
                0 <= j < i ==> entities@[j] == rotated_entity(old(entities)@[j], elapsed_ms),
            forall|j: int| i <= j < n ==> entities@[j] == old(entities)@[j],
        decreases n - i,
    {
        let e = entities[i];
        if e.marked {
            let r = turn(e.orientation, elapsed_ms);
            entities[i] = SceneEntity { orientation: r, ..e };
        }
        i += 1;
    }
    assert(entities@ =~= advanced(old(entities)@, elapsed_ms));
}

/// Under zero elapsed time the driver is the identity: advancing any entity
/// set by zero milliseconds leaves every orientation unchanged.
pub proof fn lemma_zero_elapsed_identity(entities: Seq<SceneEntity>)
    ensures
        advanced(entities, 0) == entities,
{
    assert forall|i: int| 0 <= i < entities.len() implies advanced(entities, 0)[i]
        == entities[i] by {
        let e = entities[i];
        if e.marked {
            vstd::arithmetic::div_mod::lemma_small_mod(e.orientation as nat, FULL_TURN as nat);
        }
    }
    assert(advanced(entities, 0) =~= entities);
}

/// Rotation is linear in elapsed time: advancing once by `t1 + t2`
/// milliseconds reaches exactly the orientations that advancing by `t1` and
/// then by `t2` reaches.  Angles are exact integers here, so the two agree
/// to the last unit.
pub proof fn lemma_rotation_additive(entities: Seq<SceneEntity>, t1: u32, t2: u32)
    requires
        t1 + t2 <= u32::MAX,
    ensures
        advanced(advanced(entities, t1), t2) == advanced(entities, (t1 + t2) as u32),
{
    assert forall|i: int| 0 <= i < entities.len() implies advanced(advanced(entities, t1), t2)[i]
        == advanced(entities, (t1 + t2) as u32)[i] by {
        let e = entities[i];
        if e.marked {
            lemma_turned_additive(e.orientation, t1, t2);
        }
    }
    assert(advanced(advanced(entities, t1), t2) =~= advanced(entities, (t1 + t2) as u32));
}

/// One orientation spun for `t1` and then `t2` milliseconds lands where one
/// spin of `t1 + t2` milliseconds lands.
pub proof fn lemma_turned_additive(orientation: u32, t1: u32, t2: u32)
    requires
        t1 + t2 <= u32::MAX,
    ensures
        turned(turned(orientation, t1), t2) == turned(orientation, (t1 + t2) as u32),
{
    let o = orientation as int;
    let r = SPIN_RATE as int;
    let m = FULL_TURN as int;
    vstd::arithmetic::div_mod::lemma_add_mod_noop_right((o + r * t1) % m, r * t2, m);
    vstd::arithmetic::div_mod::lemma_add_mod_noop(o + r * t1, r * t2, m);
    vstd::arithmetic::div_mod::lemma_add_mod_noop_right(o + r * t1, r * t2, m);
    vstd::arithmetic::mul::lemma_mul_is_distributive_add(r, t1 as int, t2 as int);
}

/// With no marked entities the driver is a no-op, whatever the elapsed time.
pub proof fn lemma_unmarked_untouched(entities: Seq<SceneEntity>, elapsed_ms: u32)
    requires
        forall|i: int| 0 <= i < entities.len() ==> !entities[i].marked,
    ensures
        advanced(entities, elapsed_ms) == entities,
{
    assert(advanced(entities, elapsed_ms) =~= entities);
}

} // verus!
