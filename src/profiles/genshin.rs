//! The music profile: piano keys play notes of the selected layout on the
//! computer keyboard; drum pads cycle the layout and open web pages.
use vstd::prelude::*;
use crate::action::{Action, KeyCode, KeyDirection, Notice, Site};
use crate::bindings::{DRUM_CHANNEL, KEYBOARD_CHANNEL, is_drum_hit};
use crate::layout::{Layout, key_for_spec, next_layout_spec};
use crate::message::ChannelEvent;

verus! {

/// Drum pad that cycles the layout.
pub const LAYOUT_CYCLE_NOTE: u8 = 40;

/// Drum pad that opens HoYoLAB.
pub const HOYOLAB_NOTE: u8 = 41;

/// Drum pad that opens the interactive map.
pub const MAP_NOTE: u8 = 42;

/// The piano key of `e` and whether it went down, if `e` is a piano key
/// event. A note-on with velocity 0 is a release.
pub open spec fn piano_key(e: ChannelEvent) -> Option<(u8, bool)> {
    match e {
        ChannelEvent::NoteOn { channel, note, velocity } => if channel == KEYBOARD_CHANNEL {
            Some((note, velocity > 0))
        } else {
            None
        },
        ChannelEvent::NoteOff { channel, note, .. } => if channel == KEYBOARD_CHANNEL {
            Some((note, false))
        } else {
            None
        },
        _ => None,
    }
}

/// The key actions for `e` under layout `l`. A sustaining profile presses
/// the key when the note goes down and releases it when the note goes up;
/// otherwise the key is clicked once when the note goes down.
pub open spec fn key_actions(l: Layout, sustain: bool, e: ChannelEvent) -> Seq<Action> {
    match piano_key(e) {
        Some((note, down)) => match key_for_spec(l, note) {
            Some(k) => if down {
                seq![
                    Action::Key {
                        key: KeyCode::Char(k),
                        direction: if sustain {
                            KeyDirection::Press
                        } else {
                            KeyDirection::Click
                        },
                    },
                ]
            } else if sustain {
                seq![Action::Key { key: KeyCode::Char(k), direction: KeyDirection::Release }]
            } else {
                seq![]
            },
            None => seq![],
        },
        None => seq![],
    }
}

/// The layout selected after the music profile handles `e` with `l`
/// selected, and the actions it asks for.
pub open spec fn music_step(l: Layout, sustain: bool, e: ChannelEvent) -> (Layout, Seq<Action>) {
    if is_drum_hit(e, LAYOUT_CYCLE_NOTE) {
        (
            next_layout_spec(l),
            seq![Action::Notify { notice: Notice::LayoutChanged(next_layout_spec(l)) }],
        )
    } else if is_drum_hit(e, HOYOLAB_NOTE) {
        (l, seq![Action::OpenUrl { site: Site::HoyoLab }])
    } else if is_drum_hit(e, MAP_NOTE) {
        (l, seq![Action::OpenUrl { site: Site::TeyvatMap }])
    } else {
        (l, key_actions(l, sustain, e))
    }
}

/// Appends the key actions for `e` under layout `l` to `out`.
fn push_key_actions(l: Layout, sustain: bool, e: ChannelEvent, out: &mut Vec<Action>)
    ensures
        final(out)@ == old(out)@ + key_actions(l, sustain, e),
{
    let key = match e {
        ChannelEvent::NoteOn { channel, note, velocity } => if channel == KEYBOARD_CHANNEL {
            Some((note, velocity > 0))
        } else {
            None
        },
        ChannelEvent::NoteOff { channel, note, .. } => if channel == KEYBOARD_CHANNEL {
            Some((note, false))
        } else {
            None
        },
        _ => None,
    };
    assert(key == piano_key(e));
    if let Some((note, down)) = key {
        if let Some(k) = l.key_for(note) {
            if down {
                let direction = if sustain {
                    KeyDirection::Press
                } else {
                    KeyDirection::Click
                };
                out.push(Action::Key { key: KeyCode::Char(k), direction });
                return;
            } else if sustain {
                out.push(Action::Key { key: KeyCode::Char(k), direction: KeyDirection::Release });
                return;
            }
        }
    }
    assert(out@ =~= out@ + Seq::<Action>::empty());
}

/// Handles `e` in the music profile: cycles `layout` on its drum pad,
/// opens web pages, and plays piano keys through the selected layout,
/// appending the actions to `out`.
pub fn handle_message(e: ChannelEvent, layout: &mut Layout, sustain: bool, out: &mut Vec<Action>)
    ensures
        *final(layout) == music_step(*old(layout), sustain, e).0,
        final(out)@ == old(out)@ + music_step(*old(layout), sustain, e).1,
{
    let drum_note = match e {
        ChannelEvent::NoteOn { channel, note, .. } => if channel == DRUM_CHANNEL {
            Some(note)
        } else {
            None
        },
        _ => None,
    };
    if drum_note == Some(LAYOUT_CYCLE_NOTE) {
        let next = layout.next();
        *layout = next;
        out.push(Action::Notify { notice: Notice::LayoutChanged(next) });
    } else if drum_note == Some(HOYOLAB_NOTE) {
        out.push(Action::OpenUrl { site: Site::HoyoLab });
    } else if drum_note == Some(MAP_NOTE) {
        out.push(Action::OpenUrl { site: Site::TeyvatMap });
    } else {
        push_key_actions(*layout, sustain, e, out);
    }
}

} // verus!
