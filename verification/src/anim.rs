//! Animation-track commands and the state they are queued on.
//!
//! The pose solver itself is an external collaborator: this core only
//! decides which track commands to issue. `AnimationState` records them in
//! order; the caller drains the queue and forwards each command to the
//! solver.

use vstd::prelude::*;

use crate::skel::SkeletonData;

verus! {

/// One command for the pose provider's animation tracks: replace a
/// track's content, or enqueue after it with a mix delay.
#[derive(Clone, Debug, PartialEq)]
pub enum TrackCommand {
    SetTrack { track: usize, name: String, looping: bool },
    AddTrack { track: usize, name: String, looping: bool, delay: u32 },
}

/// The ghost form of a track command, with the name as a character
/// sequence. Delays are opaque 32-bit scalar codes, as the pose provider
/// hands them back.
pub enum CommandView {
    SetTrack { track: int, name: Seq<char>, looping: bool },
    AddTrack { track: int, name: Seq<char>, looping: bool, delay: u32 },
}

impl View for TrackCommand {
    type V = CommandView;

    open spec fn view(&self) -> CommandView {
        match self {
            TrackCommand::SetTrack { track, name, looping } => CommandView::SetTrack {
                track: *track as int,
                name: name@,
                looping: *looping,
            },
            TrackCommand::AddTrack { track, name, looping, delay } => CommandView::AddTrack {
                track: *track as int,
                name: name@,
                looping: *looping,
                delay: *delay,
            },
        }
    }
}

/// The ghost contents of a command queue.
pub open spec fn commands_view(s: Seq<TrackCommand>) -> Seq<CommandView> {
    s.map(|i: int, c: TrackCommand| c@)
}

/// An animation state: the ordered queue of track commands issued so far
/// and not yet forwarded to the pose solver.
pub struct AnimationState {
    commands: Vec<TrackCommand>,
}

impl View for AnimationState {
    type V = Seq<CommandView>;

    closed spec fn view(&self) -> Seq<CommandView> {
        commands_view(self.commands@)
    }
}

impl AnimationState {
    /// A fresh state with no commands queued.
    pub fn new() -> (r: AnimationState)
        ensures
            r@ == Seq::<CommandView>::empty(),
    {
        let r = AnimationState { commands: Vec::new() };
        proof {
            assert(r@ =~= Seq::<CommandView>::empty());
        }
        r
    }

    /// Replace the content of a track with the named animation.
    pub fn set_animation_by_name(&mut self, track_index: usize, name: &str, loop_: bool)
        ensures
            final (self)@ == old(self)@.push(
                CommandView::SetTrack { track: track_index as int, name: name@, looping: loop_ },
            ),
    {
        self.commands.push(
            TrackCommand::SetTrack { track: track_index, name: String::from_str(name), looping: loop_ },
        );
        proof {
            assert(self@ =~= old(self)@.push(
                CommandView::SetTrack { track: track_index as int, name: name@, looping: loop_ },
            ));
        }
    }

    /// Enqueue the named animation after the track's current content,
    /// starting `delay` after the previous entry began.
    pub fn add_animation_by_name(&mut self, track_index: usize, name: &str, loop_: bool, delay: u32)
        ensures
            final (self)@ == old(self)@.push(
                CommandView::AddTrack {
                    track: track_index as int,
                    name: name@,
                    looping: loop_,
                    delay,
                },
            ),
    {
        self.commands.push(
            TrackCommand::AddTrack {
                track: track_index,
                name: String::from_str(name),
                looping: loop_,
                delay,
            },
        );
        proof {
            assert(self@ =~= old(self)@.push(
                CommandView::AddTrack {
                    track: track_index as int,
                    name: name@,
                    looping: loop_,
                    delay,
                },
            ));
        }
    }

    /// The commands queued so far, in issue order.
    pub fn commands(&self) -> (r: &Vec<TrackCommand>)
        ensures
            commands_view(r@) == self@,
    {
        &self.commands
    }

    /// Hand the queued commands over for forwarding to the pose solver,
    /// leaving the queue empty.
    pub fn take_commands(&mut self) -> (r: Vec<TrackCommand>)
        ensures
            commands_view(r@) == old(self)@,
            final (self)@ == Seq::<CommandView>::empty(),
    {
        let mut out: Vec<TrackCommand> = Vec::new();
        core::mem::swap(&mut out, &mut self.commands);
        proof {
            assert(self@ =~= Seq::<CommandView>::empty());
        }
        out
    }
}

/// Mix timing for blending between animations; consumed by the pose
/// solver when tracks change.
pub struct AnimationStateData {
    pub skeleton: SkeletonData,
    pub default_mix: u32,
}

impl AnimationStateData {
    /// Pair a skeleton's data with a default mix duration (an opaque
    /// scalar code, as the pose provider consumes it).
    pub fn new(skeleton: SkeletonData, default_mix: u32) -> (r: AnimationStateData)
        ensures
            r.skeleton == skeleton,
            r.default_mix == default_mix,
    {
        AnimationStateData { skeleton, default_mix }
    }
}

/// One animation a skeleton offers: its name and its duration (an opaque
/// scalar code).
#[derive(Clone, Debug)]
pub struct Animation {
    pub name: String,
    pub duration: u32,
}

impl Animation {
    /// The animation's name.
    pub fn name(&self) -> (r: &str)
        ensures
            r@ == self.name@,
    {
        self.name.as_str()
    }
}

} // verus!
