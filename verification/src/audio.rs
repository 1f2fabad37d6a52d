//! Which sound to play, and how loud.

use vstd::prelude::*;
use crate::chance::gen_range;
use crate::fixed::{Fixed, ONE};

verus! {

/// A score sound is the rare one where the draw is more than this.
pub const RARE_ABOVE: i64 = 990_000;

/// A score sound is the uncommon one where the draw is more than this, and
/// not the rare one.
pub const UNCOMMON_ABOVE: i64 = 950_000;

/// A sound to play once.
#[derive(Clone, Copy, PartialEq, Eq, Debug, Structural)]
pub enum SoundCue {
    /// The ball bounced off a wall.
    BounceWall,
    /// The ball bounced off a paddle.
    BouncePaddle,
    /// A goal: the common sound.
    Score,
    /// A goal: the uncommon sound.
    RobloxDeath,
    /// A goal: the rare sound.
    Wilhelm,
}

impl SoundCue {
    /// How loud the sound is played, in millionths of full volume.
    pub open spec fn gain(self) -> int {
        match self {
            SoundCue::BounceWall => ONE as int,
            SoundCue::BouncePaddle => ONE as int,
            SoundCue::Score => 300_000,
            SoundCue::RobloxDeath => 500_000,
            SoundCue::Wilhelm => 300_000,
        }
    }

    /// How loud the sound is played.
    pub fn volume(self) -> (r: Fixed)
        ensures
            r@ == self.gain(),
    {
        match self {
            SoundCue::BounceWall => Fixed { micro: ONE },
            SoundCue::BouncePaddle => Fixed { micro: ONE },
            SoundCue::Score => Fixed { micro: 300_000 },
            SoundCue::RobloxDeath => Fixed { micro: 500_000 },
            SoundCue::Wilhelm => Fixed { micro: 300_000 },
        }
    }
}

/// The score sound that the draw `lucky` picks.
pub open spec fn score_sound_for(lucky: int) -> SoundCue {
    if lucky > RARE_ABOVE {
        SoundCue::Wilhelm
    } else if lucky > UNCOMMON_ABOVE {
        SoundCue::RobloxDeath
    } else {
        SoundCue::Score
    }
}

/// The score sound that the draw `lucky` picks.
pub fn pick_score_sound(lucky: Fixed) -> (cue: SoundCue)
    ensures
        cue == score_sound_for(lucky@),
{
    if lucky.micro > RARE_ABOVE {
        SoundCue::Wilhelm
    } else if lucky.micro > UNCOMMON_ABOVE {
        SoundCue::RobloxDeath
    } else {
        SoundCue::Score
    }
}

/// A draw for the sound of a goal: a number from zero up to, but not
/// including, one.
pub fn random_lucky_number() -> (lucky: Fixed)
    ensures
        0 <= lucky@ < ONE,
{
    let mut rng = rand::thread_rng();
    Fixed { micro: gen_range(&mut rng, 0, ONE) }
}

/// The sound of a bounce off a wall, where there is an `output` to play it.
pub fn play_bounce_wall_sound(output: bool) -> (cue: Option<SoundCue>)
    ensures
        cue == if output {
            Some(SoundCue::BounceWall)
        } else {
            None
        },
{
    if output {
        Some(SoundCue::BounceWall)
    } else {
        None
    }
}

/// The sound of a bounce off a paddle, where there is an `output` to play
/// it.
pub fn play_bounce_paddle_sound(output: bool) -> (cue: Option<SoundCue>)
    ensures
        cue == if output {
            Some(SoundCue::BouncePaddle)
        } else {
            None
        },
{
    if output {
        Some(SoundCue::BouncePaddle)
    } else {
        None
    }
}

/// The sound of a goal, where there is an `output` to play it: the sound
/// that a draw from zero up to, but not including, one picks.
pub fn play_score_sound(output: bool) -> (cue: Option<SoundCue>)
    ensures
        output <==> cue is Some,
        cue matches Some(c) ==> exists|lucky: int| 0 <= lucky < ONE && c == score_sound_for(lucky),
{
    if output {
        Some(pick_score_sound(random_lucky_number()))
    } else {
        None
    }
}

} // verus!
