//! The default profile: drum pads that launch applications.
use vstd::prelude::*;
use crate::action::{Action, App};
use crate::bindings::is_drum_hit;
use crate::message::ChannelEvent;
use crate::bindings::DRUM_CHANNEL;

verus! {

/// Drum pad that launches the terminal.
pub const TERMINAL_NOTE: u8 = 40;

/// Drum pad that launches the code editor.
pub const CODE_EDITOR_NOTE: u8 = 41;

/// Drum pad that launches SteelSeries GG.
pub const STEELSERIES_GG_NOTE: u8 = 42;

/// The application each drum pad of this profile launches.
pub open spec fn launched_by(e: ChannelEvent) -> Option<App> {
    if is_drum_hit(e, TERMINAL_NOTE) {
        Some(App::Terminal)
    } else if is_drum_hit(e, CODE_EDITOR_NOTE) {
        Some(App::VsCode)
    } else if is_drum_hit(e, STEELSERIES_GG_NOTE) {
        Some(App::SteelSeriesGg)
    } else {
        None
    }
}

/// The actions of the default profile for `e`.
pub open spec fn default_actions(e: ChannelEvent) -> Seq<Action> {
    match launched_by(e) {
        Some(app) => seq![Action::Launch { app }],
        None => seq![],
    }
}

/// Handles `e` in the default profile, appending its actions to `out`.
pub fn handle_message(e: ChannelEvent, out: &mut Vec<Action>)
    ensures
        final(out)@ == old(out)@ + default_actions(e),
{
    let app = match e {
        ChannelEvent::NoteOn { channel, note, .. } => {
            if channel != DRUM_CHANNEL {
                None
            } else if note == TERMINAL_NOTE {
                Some(App::Terminal)
            } else if note == CODE_EDITOR_NOTE {
                Some(App::VsCode)
            } else if note == STEELSERIES_GG_NOTE {
                Some(App::SteelSeriesGg)
            } else {
                None
            }
        },
        _ => None,
    };
    match app {
        Some(app) => out.push(Action::Launch { app }),
        None => {
            assert(out@ =~= out@ + Seq::<Action>::empty());
        },
    }
}

} // verus!
