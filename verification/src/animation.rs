//! Sequencing the frames of a reflection arc that swings back and forth.

use crate::error::HoloError;
use crate::scalar::Scalar;
use crate::text::{join, joined};
use vstd::prelude::*;

verus! {

/// An arc whose path data runs through a list of key frames, again and
/// again without end.
#[derive(Debug, Clone, PartialEq)]
pub struct AnimatedArc {
    /// The path data of each key frame, in the order of time. The frames are
    /// spread evenly over the duration.
    pub keyframes: Vec<String>,
    /// How long one run through the key frames takes, in seconds.
    pub duration_secs: Scalar,
}

/// How many frames a sweep of `num_steps` steps is drawn with: one for each
/// step, and one where the light does not move at all.
pub open spec fn frames_of_sweep(num_steps: nat) -> nat {
    if num_steps == 0 {
        1
    } else {
        num_steps
    }
}

/// How many key frames a swing over `frames` frames has: the way there,
/// and the way back without the turning point taken twice.
pub open spec fn keyframe_count(frames: nat) -> nat {
    if frames == 0 {
        0
    } else {
        (2 * frames - 1) as nat
    }
}

/// The frame shown at key frame `k` of a swing over `frames` frames: the
/// frames in order on the way there, in reverse on the way back.
pub open spec fn keyframe_source(k: int, frames: int) -> int {
    if k < frames {
        k
    } else {
        2 * frames - 2 - k
    }
}

/// The key frames of a swing over `frames`.
pub open spec fn swing<A>(frames: Seq<A>) -> Seq<A> {
    Seq::new(
        keyframe_count(frames.len()),
        |k: int| frames[keyframe_source(k, frames.len() as int)],
    )
}

/// What an animation over `frames` that lasts `duration_secs` comes to.
pub open spec fn animation_of(frames: Seq<Seq<char>>, duration_secs: Scalar) -> Result<
    (Seq<Seq<char>>, Scalar),
    HoloError,
> {
    if !duration_secs.is_positive() {
        Err(HoloError::InvalidDuration)
    } else if frames.len() == 0 {
        Err(HoloError::EmptyInput)
    } else {
        Ok((swing(frames), duration_secs))
    }
}

/// Whether `result` is `outcome`, by its plain values.
pub open spec fn is_animation(
    result: Result<AnimatedArc, HoloError>,
    outcome: Result<(Seq<Seq<char>>, Scalar), HoloError>,
) -> bool {
    match (result, outcome) {
        (Ok(arc), Ok((keyframes, duration))) => arc.keyframes.deep_view() == keyframes
            && arc.duration_secs == duration,
        (Err(a), Err(b)) => a == b,
        _ => false,
    }
}

/// Every key frame of a swing shows one of the frames; the swing reads the
/// same from both ends, so it ends on the frame it began with and can start
/// over without a jump; and it shows the frames in order up to the last.
pub proof fn lemma_swing_loops<A>(frames: Seq<A>)
    requires
        frames.len() > 0,
    ensures
        swing(frames).len() == 2 * frames.len() - 1,
        swing(frames).first() == frames.first(),
        swing(frames).last() == frames.first(),
        forall|k: int|
            0 <= k < swing(frames).len() ==> #[trigger] swing(frames)[k] == swing(frames)[
                swing(frames).len() - 1 - k
            ],
        forall|k: int| 0 <= k < frames.len() ==> #[trigger] swing(frames)[k] == frames[k],
{
}

/// The number of frames to draw for a sweep of `num_steps` steps.
pub fn frame_count(num_steps: usize) -> (frames: usize)
    ensures
        frames == frames_of_sweep(num_steps as nat),
        frames >= 1,
{
    if num_steps == 0 {
        1
    } else {
        num_steps
    }
}

/// The animation of an arc that swings from the first of `frames` to the
/// last and back, within `duration_secs` seconds, for ever.
///
/// Each frame is the path data of the arc at one position of the light. A
/// duration that is not above zero is refused first, then an empty list of
/// frames.
pub fn animated_arc(frames: &Vec<String>, duration_secs: Scalar) -> (r: Result<
    AnimatedArc,
    HoloError,
>)
    ensures
        is_animation(r, animation_of(frames.deep_view(), duration_secs)),
{
    if !duration_secs.positive() {
        return Err(HoloError::InvalidDuration);
    }
    let n = frames.len();
    if n == 0 {
        return Err(HoloError::EmptyInput);
    }
    let ghost all = frames.deep_view();
    let mut keyframes: Vec<String> = Vec::new();
    let mut k: usize = 0;
    while k < n
        invariant
            k <= n,
            n == frames@.len(),
            n > 0,
            all == frames.deep_view(),
            keyframes@.len() == k,
            forall|j: int| 0 <= j < k ==> #[trigger] keyframes@[j]@ == all[j],
        decreases n - k,
    {
        assert(all[k as int] == frames@[k as int]@);
        keyframes.push(frames[k].clone());
        k += 1;
    }
    let mut back: usize = n - 1;
    while back > 0
        invariant
            back < n,
            n == frames@.len(),
            all == frames.deep_view(),
            keyframes@.len() == 2 * n - 1 - back,
            forall|j: int|
                0 <= j < keyframes@.len() ==> #[trigger] keyframes@[j]@ == all[keyframe_source(
                    j,
                    n as int,
                )],
        decreases back,
    {
        back -= 1;
        assert(all[back as int] == frames@[back as int]@);
        keyframes.push(frames[back].clone());
    }
    assert(keyframes.deep_view() =~= swing(all));
    Ok(AnimatedArc { keyframes, duration_secs })
}

impl AnimatedArc {
    /// The key frames as one attribute value: joined by `;`.
    pub fn values(&self) -> (text: String)
        ensures
            text@ == joined(self.keyframes.deep_view(), seq![';']),
    {
        proof {
            reveal_strlit(";");
            assert(";"@ =~= seq![';']);
        }
        join(&self.keyframes, ";")
    }
}

} // verus!
