//! The settle detector.
//!
//! Once per fixed simulation tick the detector looks at every dynamic
//! body. While any body is awake it counts the tick; the first time all
//! bodies are asleep it renders their transforms as text, three decimals
//! per component, and stores a SHA-256 fingerprint of that text. The
//! fingerprint is computed at most once per run: once `hash` is non-empty
//! the detector does nothing until a restart clears it.

use vstd::prelude::*;
use crate::decimal::milli_str;
use crate::decimal::milli_to_string;
use crate::resources::PhysicsState;
use sha2::Digest;

verus! {

/// What the detector reads of one dynamic body on one tick: its position
/// and rotation in milli-units, and whether the physics engine put it to
/// sleep.
#[derive(Clone, Copy, PartialEq, Eq, Structural, Debug)]
pub struct BodySnapshot {
    pub x: i64,
    pub y: i64,
    pub rot: i64,
    pub asleep: bool,
}

impl BodySnapshot {
    /// The transform components can be negated, as the text rendering
    /// needs.
    pub open spec fn wf(self) -> bool {
        &&& self.x > i64::MIN
        &&& self.y > i64::MIN
        &&& self.rot > i64::MIN
    }
}

/// Every body in the slice is asleep.
pub open spec fn all_asleep(bodies: Seq<BodySnapshot>) -> bool {
    forall|i: int| 0 <= i < bodies.len() ==> bodies[i].asleep
}

/// The text rendered for one body within the fingerprint buffer.
pub open spec fn body_chunk(b: BodySnapshot) -> Seq<char> {
    "T:"@ + milli_str(b.x as int) + ","@ + milli_str(b.y as int) + " R:"@ + milli_str(b.rot as int)
        + ";"@
}

/// The full fingerprint buffer: the bodies' chunks concatenated in
/// iteration order.
pub open spec fn fingerprint_seq(bodies: Seq<BodySnapshot>) -> Seq<char>
    decreases bodies.len(),
{
    if bodies.len() == 0 {
        Seq::empty()
    } else {
        fingerprint_seq(bodies.drop_last()) + body_chunk(bodies.last())
    }
}

/// The lowercase hexadecimal SHA-256 digest of a text, as a function of
/// the text alone.
pub uninterp spec fn sha256_hex_of(text: Seq<char>) -> Seq<char>;

/// Relies on `sha2::Sha256` through the `Digest` trait: the digest is a
/// function of the input bytes alone and is 32 bytes long, which `{:x}`
/// formats as 64 lowercase hexadecimal digits.
#[verifier::external_body]
fn sha256_hex(text: &str) -> (r: String)
    ensures
        r@ == sha256_hex_of(text@),
        r@.len() == 64,
{
    let digest = sha2::Sha256::digest(text.as_bytes());
    format!("{:x}", digest)
}

/// One detector tick as a mathematical transition: from the current step
/// count and fingerprint to the next pair.
///
/// An inactive pipeline or an empty body set is a no-op; a settled run
/// (non-empty fingerprint) is frozen; an all-asleep body set gets its
/// fingerprint computed; otherwise the tick is counted.
pub open spec fn detector_step(
    step: u64,
    hash: Seq<char>,
    pipeline_active: bool,
    bodies: Seq<BodySnapshot>,
) -> (u64, Seq<char>) {
    if !pipeline_active || bodies.len() == 0 {
        (step, hash)
    } else if hash.len() > 0 {
        (step, hash)
    } else if all_asleep(bodies) {
        (step, sha256_hex_of(fingerprint_seq(bodies)))
    } else {
        ((step + 1) as u64, hash)
    }
}

/// Renders the fingerprint buffer for the given bodies, exactly as
/// `fingerprint_seq` describes.
pub fn fingerprint_string(bodies: &Vec<BodySnapshot>) -> (s: String)
    requires
        forall|i: int| 0 <= i < bodies@.len() ==> (#[trigger] bodies@[i]).wf(),
    ensures
        s@ == fingerprint_seq(bodies@),
{
    let mut s = String::new();
    let n = bodies.len();
    let mut i: usize = 0;
    while i < n
        invariant
            n == bodies@.len(),
            i <= n,
            forall|k: int| 0 <= k < bodies@.len() ==> (#[trigger] bodies@[k]).wf(),
            s@ == fingerprint_seq(bodies@.take(i as int)),
        decreases n - i,
    {
        let b = bodies[i];
        s.append("T:");
        s.append(milli_to_string(b.x).as_str());
        s.append(",");
        s.append(milli_to_string(b.y).as_str());
        s.append(" R:");
        s.append(milli_to_string(b.rot).as_str());
        s.append(";");
        proof {
            let pre = bodies@.take(i as int);
            let post = bodies@.take(i as int + 1);
            assert(post.drop_last() =~= pre);
            assert(post.last() == bodies@[i as int]);
            assert(s@ =~= fingerprint_seq(pre) + body_chunk(bodies@[i as int]));
        }
        i = i + 1;
    }
    proof {
        assert(bodies@.take(n as int) =~= bodies@);
    }
    s
}

/// Whether every body in the slice is asleep.
pub fn all_bodies_asleep(bodies: &Vec<BodySnapshot>) -> (r: bool)
    ensures
        r == all_asleep(bodies@),
{
    let n = bodies.len();
    let mut i: usize = 0;
    while i < n
        invariant
            n == bodies@.len(),
            i <= n,
            forall|k: int| 0 <= k < i ==> (#[trigger] bodies@[k]).asleep,
        decreases n - i,
    {
        if !bodies[i].asleep {
            return false;
        }
        i = i + 1;
    }
    true
}

/// One settle-detector tick over the current body set.
///
/// Follows `detector_step` exactly: no-op while the pipeline is inactive
/// or no body exists, counts the tick while any body is awake, computes
/// the fingerprint the first time all bodies sleep, and never touches a
/// settled state again.
pub fn physic_step_hash_check(
    state: &mut PhysicsState,
    pipeline_active: bool,
    bodies: &Vec<BodySnapshot>,
)
    requires
        old(state).step < u64::MAX,
        forall|i: int| 0 <= i < bodies@.len() ==> (#[trigger] bodies@[i]).wf(),
    ensures
        final(state).step == detector_step(
            old(state).step,
            old(state).hash@,
            pipeline_active,
            bodies@,
        ).0,
        final(state).hash@ == detector_step(
            old(state).step,
            old(state).hash@,
            pipeline_active,
            bodies@,
        ).1,
        final(state).step >= old(state).step,
        old(state).settled() ==> final(state).step == old(state).step && final(state).hash@
            == old(state).hash@,
        (pipeline_active && bodies@.len() > 0 && all_asleep(bodies@)) ==> final(state).settled(),
{
    if !pipeline_active {
        return ;
    }
    if bodies.len() == 0 {
        return ;
    }
    if !state.hash.as_str().is_empty() {
        return ;
    }
    if all_bodies_asleep(bodies) {
        let buffer = fingerprint_string(bodies);
        state.hash = sha256_hex(buffer.as_str());
    } else {
        state.step = state.step + 1;
    }
}

/// The step count never decreases, and a settled run is frozen: once the
/// fingerprint is non-empty a tick changes neither the count nor the
/// fingerprint.
pub proof fn lemma_settled_is_frozen(
    step: u64,
    hash: Seq<char>,
    pipeline_active: bool,
    bodies: Seq<BodySnapshot>,
)
    requires
        step < u64::MAX,
    ensures
        detector_step(step, hash, pipeline_active, bodies).0 >= step,
        hash.len() > 0 ==> detector_step(step, hash, pipeline_active, bodies) == (step, hash),
{
}

/// The fingerprint is computed at most once per run: a second tick on an
/// all-asleep body set leaves both the step count and the fingerprint
/// exactly as the first tick left them.
pub proof fn lemma_fingerprint_computed_once(
    step: u64,
    hash: Seq<char>,
    pipeline_active: bool,
    bodies: Seq<BodySnapshot>,
)
    requires
        step < u64::MAX,
        all_asleep(bodies),
    ensures
        ({
            let (step1, hash1) = detector_step(step, hash, pipeline_active, bodies);
            detector_step(step1, hash1, pipeline_active, bodies) == (step1, hash1)
        }),
{
}

} // verus!
