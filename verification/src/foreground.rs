//! The decision rule of the foreground loop.
//!
//! Once per iteration the loop reads the published snapshot and, from it
//! alone plus a locally-owned animation-frame counter, decides what to hand
//! the external tone and display collaborators: which tone to play, if any,
//! and which animation frame to show.  The drivers themselves (speaker,
//! LED matrix, pacing delay) stay outside; the rule is verified here.

use vstd::prelude::*;

use crate::snapshot::InputSnapshot;

verus! {

/// What the speaker is told for one iteration.
#[derive(Clone, Copy, PartialEq, Eq, Structural, Debug)]
pub enum ToneCommand {
    /// No recognized input is active: the speaker channel is disabled.
    Mute,
    /// Some recognized input is active: play the carried frequency, in Hz.
    Play(u32),
}

/// The tone picked for the first two channels: one frequency per channel
/// alone, a third for both together.
pub const TONE_FIRST_HZ: u32 = 440;

/// The frequency played while only the second channel is active.
pub const TONE_SECOND_HZ: u32 = 880;

/// The frequency played while both of the first two channels are active.
pub const TONE_BOTH_HZ: u32 = 220;

/// The tone command owed to a snapshot: mute while neither of the first two
/// channels is active, else the frequency picked by which of them are.
pub open spec fn tone_for(first: bool, second: bool) -> ToneCommand {
    if first && second {
        ToneCommand::Play(TONE_BOTH_HZ)
    } else if first {
        ToneCommand::Play(TONE_FIRST_HZ)
    } else if second {
        ToneCommand::Play(TONE_SECOND_HZ)
    } else {
        ToneCommand::Mute
    }
}

/// The animation frame owed to the next iteration: the counter advances by
/// one, wrapping at `frame_count`, only while no recognized input is
/// active; any active input freezes the animation.
pub open spec fn next_frame(first: bool, second: bool, frame: nat, frame_count: nat) -> nat
    recommends
        frame_count > 0,
{
    if first || second {
        frame
    } else {
        (((frame + 1) as int) % (frame_count as int)) as nat
    }
}

/// One foreground decision: from the snapshot and the current animation
/// frame, the tone command for this iteration and the frame for the next.
pub fn foreground_step(snapshot: &InputSnapshot, frame: usize, frame_count: usize) -> (r: (
    ToneCommand,
    usize,
))
    requires
        snapshot@.len() >= 2,
        0 < frame_count,
        frame < frame_count,
    ensures
        r.0 == tone_for(snapshot@[0], snapshot@[1]),
        r.1 as nat == next_frame(snapshot@[0], snapshot@[1], frame as nat, frame_count as nat),
        r.1 < frame_count,
{
    let first = snapshot.channel(0);
    let second = snapshot.channel(1);
    let cmd = if first && second {
        ToneCommand::Play(TONE_BOTH_HZ)
    } else if first {
        ToneCommand::Play(TONE_FIRST_HZ)
    } else if second {
        ToneCommand::Play(TONE_SECOND_HZ)
    } else {
        ToneCommand::Mute
    };
    let frame = if first || second {
        frame
    } else {
        (frame + 1) % frame_count
    };
    (cmd, frame)
}

} // verus!
