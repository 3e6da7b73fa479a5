//! Shared game state: the slingshot's drag/launch flags, the settle
//! detector's step counter and fingerprint, the bird spawn point, and the
//! restart handling that resets them all.

use vstd::prelude::*;
use crate::geom::Vec2i;

verus! {

/// The slingshot controller's state for the current run.
#[derive(Clone, Copy, PartialEq, Eq, Structural, Debug)]
pub struct BirdState {
    pub dragging: bool,
    pub launched: bool,
}

impl BirdState {
    /// A launched bird is never still being dragged.
    pub open spec fn wf(self) -> bool {
        self.launched ==> !self.dragging
    }
}

impl Default for BirdState {
    fn default() -> (s: Self)
        ensures
            !s.dragging,
            !s.launched,
    {
        BirdState { dragging: false, launched: false }
    }
}

/// The settle detector's state for the current run: how many fixed ticks
/// the simulation has been active, and the fingerprint of the resting
/// state once everything fell asleep (empty until then).
#[derive(Clone, Debug)]
pub struct PhysicsState {
    pub hash: String,
    pub step: u64,
}

impl PhysicsState {
    /// The detector has seen every body asleep and has fingerprinted the
    /// resting state.
    pub open spec fn settled(self) -> bool {
        self.hash@.len() > 0
    }
}

impl Default for PhysicsState {
    fn default() -> (s: Self)
        ensures
            s.step == 0,
            s.hash@ == Seq::<char>::empty(),
    {
        PhysicsState { hash: String::new(), step: 0 }
    }
}

/// Where the bird spawns; the slingshot is anchored there.
#[derive(Clone, Copy, PartialEq, Eq, Structural, Debug)]
pub struct BirdStart(pub Vec2i);

impl Default for BirdStart {
    fn default() -> (s: Self)
        ensures
            s == (BirdStart(Vec2i { x: 0, y: 0 })),
    {
        BirdStart(Vec2i { x: 0, y: 0 })
    }
}

/// Handles the restart request: when `restart_pressed` holds, both the
/// slingshot state and the settle detector go back to their initial
/// values (step count zero, fingerprint empty); otherwise nothing changes.
pub fn game_state_control(restart_pressed: bool, bird: &mut BirdState, phys: &mut PhysicsState)
    ensures
        restart_pressed ==> !final(bird).dragging && !final(bird).launched
            && final(phys).step == 0 && final(phys).hash@ == Seq::<char>::empty(),
        !restart_pressed ==> *final(bird) == *old(bird) && final(phys).step == old(phys).step
            && final(phys).hash@ == old(phys).hash@,
        old(bird).wf() ==> final(bird).wf(),
{
    if restart_pressed {
        bird.dragging = false;
        bird.launched = false;
        phys.step = 0;
        phys.hash = String::new();
    }
}

} // verus!
