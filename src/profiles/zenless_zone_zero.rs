//! The screenshot profile: a piano key takes a screenshot through a
//! modifier chord; drum pads open web pages.
use vstd::prelude::*;
use crate::action::{Action, KeyCode, KeyDirection, Site};
use crate::bindings::{DRUM_CHANNEL, KEYBOARD_CHANNEL, is_drum_hit};
use crate::message::ChannelEvent;

verus! {

/// Drum pad that opens HoYoLAB.
pub const HOYOLAB_NOTE: u8 = 41;

/// Drum pad that opens the wiki.
pub const WIKI_NOTE: u8 = 42;

/// Piano key that takes a screenshot.
pub const SCREENSHOT_NOTE: u8 = 72;

/// The screenshot chord: press the modifier, click the key, release the
/// modifier, in that order.
pub open spec fn screenshot_chord() -> Seq<Action> {
    seq![
        Action::Key { key: KeyCode::Alt, direction: KeyDirection::Press },
        Action::Key { key: KeyCode::Char('p'), direction: KeyDirection::Click },
        Action::Key { key: KeyCode::Alt, direction: KeyDirection::Release },
    ]
}

/// The actions of the screenshot profile for `e`.
pub open spec fn screenshot_actions(e: ChannelEvent) -> Seq<Action> {
    if is_drum_hit(e, HOYOLAB_NOTE) {
        seq![Action::OpenUrl { site: Site::HoyoLab }]
    } else if is_drum_hit(e, WIKI_NOTE) {
        seq![Action::OpenUrl { site: Site::ZenlessWiki }]
    } else if e matches ChannelEvent::NoteOn { channel, note, .. } && channel == KEYBOARD_CHANNEL
        && note == SCREENSHOT_NOTE {
        screenshot_chord()
    } else {
        seq![]
    }
}

/// Handles `e` in the screenshot profile, appending its actions to `out`.
pub fn handle_message(e: ChannelEvent, out: &mut Vec<Action>)
    ensures
        final(out)@ == old(out)@ + screenshot_actions(e),
{
    let ghost out0 = out@;
    if let ChannelEvent::NoteOn { channel, note, .. } = e {
        if channel == DRUM_CHANNEL && note == HOYOLAB_NOTE {
            out.push(Action::OpenUrl { site: Site::HoyoLab });
            return;
        } else if channel == DRUM_CHANNEL && note == WIKI_NOTE {
            out.push(Action::OpenUrl { site: Site::ZenlessWiki });
            return;
        } else if channel == KEYBOARD_CHANNEL && note == SCREENSHOT_NOTE {
            out.push(Action::Key { key: KeyCode::Alt, direction: KeyDirection::Press });
            out.push(Action::Key { key: KeyCode::Char('p'), direction: KeyDirection::Click });
            out.push(Action::Key { key: KeyCode::Alt, direction: KeyDirection::Release });
            assert(out@ =~= out0 + screenshot_chord());
            return;
        }
    }
    assert(out@ =~= out@ + Seq::<Action>::empty());
}

} // verus!
