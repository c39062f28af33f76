//! The bindings that hold in every profile, evaluated before the active
//! profile's handler sees an event.
use vstd::prelude::*;
use crate::action::{Action, App, KeyCode, KeyDirection, Notice, VolumeChannel};
use crate::message::ChannelEvent;
use crate::profile::{Profile, next_profile_spec};

verus! {

/// The channel of the drum pads.
pub const DRUM_CHANNEL: u8 = 9;

/// The channel of the piano keys.
pub const KEYBOARD_CHANNEL: u8 = 0;

/// Drum pad that cycles the active profile.
pub const PROFILE_CYCLE_NOTE: u8 = 43;

/// Drum pad bound to the previous-track media key.
pub const PREV_TRACK_NOTE: u8 = 36;

/// Drum pad bound to the play/pause media key.
pub const PLAY_PAUSE_NOTE: u8 = 37;

/// Drum pad bound to the next-track media key.
pub const NEXT_TRACK_NOTE: u8 = 38;

/// Drum pad that launches the music player.
pub const MUSIC_PLAYER_NOTE: u8 = 39;

/// Controller bound to the master volume.
pub const MASTER_VOLUME_CONTROLLER: u8 = 70;

/// Controller bound to the game volume.
pub const GAME_VOLUME_CONTROLLER: u8 = 71;

/// Controller bound to the chat volume.
pub const CHAT_VOLUME_CONTROLLER: u8 = 72;

/// Controller bound to the media volume.
pub const MEDIA_VOLUME_CONTROLLER: u8 = 73;

/// Whether `e` is a hit of drum pad `note`.
pub open spec fn is_drum_hit(e: ChannelEvent, note: u8) -> bool {
    e matches ChannelEvent::NoteOn { channel, note: n, .. } && channel == DRUM_CHANNEL && n == note
}

/// The second data byte of an event: velocity, controller value or data2.
pub open spec fn level_spec(e: ChannelEvent) -> u8 {
    match e {
        ChannelEvent::NoteOn { velocity, .. } => velocity,
        ChannelEvent::NoteOff { velocity, .. } => velocity,
        ChannelEvent::ControlChange { value, .. } => value,
        ChannelEvent::Other { data2, .. } => data2,
    }
}

impl ChannelEvent {
    /// The second data byte: velocity, controller value or data2.
    pub fn level(self) -> (r: u8)
        ensures
            r == level_spec(self),
    {
        match self {
            ChannelEvent::NoteOn { velocity, .. } => velocity,
            ChannelEvent::NoteOff { velocity, .. } => velocity,
            ChannelEvent::ControlChange { value, .. } => value,
            ChannelEvent::Other { data2, .. } => data2,
        }
    }
}

/// The predicate of a binding.
#[derive(Clone, Copy, Debug, PartialEq, Eq, Structural)]
pub enum Trigger {
    /// A note-on of the given drum pad.
    DrumPad(u8),
    /// A control change of the given controller, on any channel.
    Controller(u8),
}

/// What a binding does when its trigger matches.
#[derive(Clone, Copy, Debug, PartialEq, Eq, Structural)]
pub enum Effect {
    /// Advance the active profile and announce the new one.
    CycleProfile,
    /// Click a key.
    Key(KeyCode),
    /// Launch an application.
    Launch(App),
    /// Set a channel's volume from the event's value.
    Volume(VolumeChannel),
}

/// One entry of the binding table.
#[derive(Clone, Copy, Debug, PartialEq, Eq, Structural)]
pub struct Binding {
    pub trigger: Trigger,
    pub effect: Effect,
}

/// Whether trigger `t` matches event `e`.
pub open spec fn trigger_matches(t: Trigger, e: ChannelEvent) -> bool {
    match t {
        Trigger::DrumPad(n) => is_drum_hit(e, n),
        Trigger::Controller(c) => e matches ChannelEvent::ControlChange { controller, .. }
            && controller == c,
    }
}

/// The profile after binding `b` sees `e` while `p` is active, and the
/// actions it asks for.
pub open spec fn fire_spec(b: Binding, p: Profile, e: ChannelEvent) -> (Profile, Seq<Action>) {
    if !trigger_matches(b.trigger, e) {
        (p, seq![])
    } else {
        match b.effect {
            Effect::CycleProfile => (
                next_profile_spec(p),
                seq![Action::Notify { notice: Notice::ProfileChanged(next_profile_spec(p)) }],
            ),
            Effect::Key(k) => (p, seq![Action::Key { key: k, direction: KeyDirection::Click }]),
            Effect::Launch(a) => (p, seq![Action::Launch { app: a }]),
            Effect::Volume(c) => (p, seq![Action::SetVolume { channel: c, level: level_spec(e) }]),
        }
    }
}

/// Every binding of `bs` in order, each seeing the profile the ones before
/// it left: the final profile, and all actions in order.
pub open spec fn run_bindings(bs: Seq<Binding>, p: Profile, e: ChannelEvent) -> (Profile, Seq<Action>)
    decreases bs.len(),
{
    if bs.len() == 0 {
        (p, seq![])
    } else {
        let before = run_bindings(bs.drop_last(), p, e);
        let last = fire_spec(bs.last(), before.0, e);
        (last.0, before.1 + last.1)
    }
}

/// The bindings that hold in every profile, in priority order.
pub open spec fn global_table() -> Seq<Binding> {
    seq![
        Binding { trigger: Trigger::DrumPad(PROFILE_CYCLE_NOTE), effect: Effect::CycleProfile },
        Binding {
            trigger: Trigger::DrumPad(PREV_TRACK_NOTE),
            effect: Effect::Key(KeyCode::MediaPrevTrack),
        },
        Binding {
            trigger: Trigger::DrumPad(PLAY_PAUSE_NOTE),
            effect: Effect::Key(KeyCode::MediaPlayPause),
        },
        Binding {
            trigger: Trigger::DrumPad(NEXT_TRACK_NOTE),
            effect: Effect::Key(KeyCode::MediaNextTrack),
        },
        Binding { trigger: Trigger::DrumPad(MUSIC_PLAYER_NOTE), effect: Effect::Launch(App::Tidal) },
        Binding {
            trigger: Trigger::Controller(MASTER_VOLUME_CONTROLLER),
            effect: Effect::Volume(VolumeChannel::Master),
        },
        Binding {
            trigger: Trigger::Controller(GAME_VOLUME_CONTROLLER),
            effect: Effect::Volume(VolumeChannel::Game),
        },
        Binding {
            trigger: Trigger::Controller(CHAT_VOLUME_CONTROLLER),
            effect: Effect::Volume(VolumeChannel::Chat),
        },
        Binding {
            trigger: Trigger::Controller(MEDIA_VOLUME_CONTROLLER),
            effect: Effect::Volume(VolumeChannel::Media),
        },
    ]
}

impl Trigger {
    /// Whether the trigger matches `e`.
    pub fn matches(self, e: ChannelEvent) -> (r: bool)
        ensures
            r == trigger_matches(self, e),
    {
        match self {
            Trigger::DrumPad(n) => match e {
                ChannelEvent::NoteOn { channel, note, .. } => channel == DRUM_CHANNEL && note == n,
                _ => false,
            },
            Trigger::Controller(c) => match e {
                ChannelEvent::ControlChange { controller, .. } => controller == c,
                _ => false,
            },
        }
    }
}

impl Binding {
    /// Lets the binding see `e`: updates the active profile and appends the
    /// actions it asks for to `out`.
    pub fn fire(self, profile: &mut Profile, e: ChannelEvent, out: &mut Vec<Action>)
        ensures
            *final(profile) == fire_spec(self, *old(profile), e).0,
            final(out)@ == old(out)@ + fire_spec(self, *old(profile), e).1,
    {
        if self.trigger.matches(e) {
            match self.effect {
                Effect::CycleProfile => {
                    let next = profile.next();
                    *profile = next;
                    out.push(Action::Notify { notice: Notice::ProfileChanged(next) });
                },
                Effect::Key(k) => {
                    out.push(Action::Key { key: k, direction: KeyDirection::Click });
                },
                Effect::Launch(a) => {
                    out.push(Action::Launch { app: a });
                },
                Effect::Volume(c) => {
                    out.push(Action::SetVolume { channel: c, level: e.level() });
                },
            }
        }
    }
}

/// Builds the table of bindings that hold in every profile.
pub fn global_bindings() -> (r: Vec<Binding>)
    ensures
        r@ == global_table(),
{
    let mut t: Vec<Binding> = Vec::new();
    t.push(Binding { trigger: Trigger::DrumPad(PROFILE_CYCLE_NOTE), effect: Effect::CycleProfile });
    t.push(
        Binding {
            trigger: Trigger::DrumPad(PREV_TRACK_NOTE),
            effect: Effect::Key(KeyCode::MediaPrevTrack),
        },
    );
    t.push(
        Binding {
            trigger: Trigger::DrumPad(PLAY_PAUSE_NOTE),
            effect: Effect::Key(KeyCode::MediaPlayPause),
        },
    );
    t.push(
        Binding {
            trigger: Trigger::DrumPad(NEXT_TRACK_NOTE),
            effect: Effect::Key(KeyCode::MediaNextTrack),
        },
    );
    t.push(Binding { trigger: Trigger::DrumPad(MUSIC_PLAYER_NOTE), effect: Effect::Launch(App::Tidal) });
    t.push(
        Binding {
            trigger: Trigger::Controller(MASTER_VOLUME_CONTROLLER),
            effect: Effect::Volume(VolumeChannel::Master),
        },
    );
    t.push(
        Binding {
            trigger: Trigger::Controller(GAME_VOLUME_CONTROLLER),
            effect: Effect::Volume(VolumeChannel::Game),
        },
    );
    t.push(
        Binding {
            trigger: Trigger::Controller(CHAT_VOLUME_CONTROLLER),
            effect: Effect::Volume(VolumeChannel::Chat),
        },
    );
    t.push(
        Binding {
            trigger: Trigger::Controller(MEDIA_VOLUME_CONTROLLER),
            effect: Effect::Volume(VolumeChannel::Media),
        },
    );
    assert(t@ =~= global_table());
    t
}

/// Lets every binding of `bindings` see `e`, in order, without stopping at
/// the first match: updates the active profile and appends all actions to
/// `out`.
pub fn run_global_bindings(
    bindings: &Vec<Binding>,
    profile: &mut Profile,
    e: ChannelEvent,
    out: &mut Vec<Action>,
)
    ensures
        *final(profile) == run_bindings(bindings@, *old(profile), e).0,
        final(out)@ == old(out)@ + run_bindings(bindings@, *old(profile), e).1,
{
    let ghost p0 = *profile;
    let ghost out0 = out@;
    let mut i: usize = 0;
    assert(bindings@.take(0) =~= Seq::<Binding>::empty());
    while i < bindings.len()
        invariant
            0 <= i <= bindings@.len(),
            *profile == run_bindings(bindings@.take(i as int), p0, e).0,
            out@ == out0 + run_bindings(bindings@.take(i as int), p0, e).1,
        decreases bindings@.len() - i,
    {
        let b = bindings[i];
        proof {
            let next = bindings@.take(i + 1);
            assert(next.drop_last() =~= bindings@.take(i as int));
            assert(next.last() == b);
        }
        b.fire(profile, e, out);
        proof {
            assert(out0 + run_bindings(bindings@.take(i + 1), p0, e).1 =~= out@);
        }
        i = i + 1;
    }
    assert(bindings@.take(i as int) =~= bindings@);
}

} // verus!
