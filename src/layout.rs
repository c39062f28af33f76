//! The note-to-key layouts of the music profile.
use vstd::prelude::*;

verus! {

/// A named note-to-key mapping.
#[derive(Clone, Copy, Debug, PartialEq, Eq, Structural)]
pub enum Layout {
    /// Every playable note, black keys included.
    Complete,
    /// The lower white-key scale.
    Lows,
    /// The higher white-key scale.
    Highs,
}

/// The layout that follows `l` in the cycle Complete, Lows, Highs.
pub open spec fn next_layout_spec(l: Layout) -> Layout {
    match l {
        Layout::Complete => Layout::Lows,
        Layout::Lows => Layout::Highs,
        Layout::Highs => Layout::Complete,
    }
}

/// The immutable table of each layout: MIDI note number to key character.
pub open spec fn layout_keys(l: Layout) -> Map<u8, char> {
    match l {
        Layout::Complete => map![
            48u8 => 'z', 49u8 => 'x', 50u8 => 'c', 51u8 => 'v', 52u8 => 'b', 53u8 => 'n',
            54u8 => 'm', 55u8 => 'a', 56u8 => 's', 57u8 => 'd', 58u8 => 'f', 59u8 => 'g',
            60u8 => 'h', 61u8 => 'j', 62u8 => 'q', 63u8 => 'w', 64u8 => 'e', 65u8 => 'r',
            66u8 => 't', 67u8 => 'y', 68u8 => 'u',
        ],
        Layout::Lows => map![
            48u8 => 'z', 50u8 => 'x', 52u8 => 'c', 53u8 => 'v', 55u8 => 'b', 57u8 => 'n',
            59u8 => 'm', 60u8 => 'a', 62u8 => 's', 64u8 => 'd', 65u8 => 'f', 67u8 => 'g',
            69u8 => 'h', 71u8 => 'j', 72u8 => 'q',
        ],
        Layout::Highs => map![
            48u8 => 'a', 50u8 => 's', 52u8 => 'd', 53u8 => 'f', 55u8 => 'g', 57u8 => 'h',
            59u8 => 'j', 60u8 => 'q', 62u8 => 'w', 64u8 => 'e', 65u8 => 'r', 67u8 => 't',
            69u8 => 'y', 71u8 => 'u',
        ],
    }
}

/// The key bound to `note` in layout `l`, if any.
pub open spec fn key_for_spec(l: Layout, note: u8) -> Option<char> {
    if layout_keys(l).dom().contains(note) {
        Some(layout_keys(l)[note])
    } else {
        None
    }
}

impl Layout {
    /// The next layout in the cycle Complete, Lows, Highs, Complete.
    pub fn next(self) -> (r: Layout)
        ensures
            r == next_layout_spec(self),
    {
        match self {
            Layout::Complete => Layout::Lows,
            Layout::Lows => Layout::Highs,
            Layout::Highs => Layout::Complete,
        }
    }

    /// Looks up the key bound to `note` in this layout.
    #[verifier::rlimit(20)]
    pub fn key_for(self, note: u8) -> (r: Option<char>)
        ensures
            r == key_for_spec(self, note),
    {
        match self {
            Layout::Complete => match note {
                48 => Some('z'),
                49 => Some('x'),
                50 => Some('c'),
                51 => Some('v'),
                52 => Some('b'),
                53 => Some('n'),
                54 => Some('m'),
                55 => Some('a'),
                56 => Some('s'),
                57 => Some('d'),
                58 => Some('f'),
                59 => Some('g'),
                60 => Some('h'),
                61 => Some('j'),
                62 => Some('q'),
                63 => Some('w'),
                64 => Some('e'),
                65 => Some('r'),
                66 => Some('t'),
                67 => Some('y'),
                68 => Some('u'),
                _ => None,
            },
            Layout::Lows => match note {
                48 => Some('z'),
                50 => Some('x'),
                52 => Some('c'),
                53 => Some('v'),
                55 => Some('b'),
                57 => Some('n'),
                59 => Some('m'),
                60 => Some('a'),
                62 => Some('s'),
                64 => Some('d'),
                65 => Some('f'),
                67 => Some('g'),
                69 => Some('h'),
                71 => Some('j'),
                72 => Some('q'),
                _ => None,
            },
            Layout::Highs => match note {
                48 => Some('a'),
                50 => Some('s'),
                52 => Some('d'),
                53 => Some('f'),
                55 => Some('g'),
                57 => Some('h'),
                59 => Some('j'),
                60 => Some('q'),
                62 => Some('w'),
                64 => Some('e'),
                65 => Some('r'),
                67 => Some('t'),
                69 => Some('y'),
                71 => Some('u'),
                _ => None,
            },
        }
    }
}

/// Cycling the layout three times returns it to where it started.
pub proof fn lemma_layout_cycle_closes(l: Layout)
    ensures
        next_layout_spec(next_layout_spec(next_layout_spec(l))) == l,
{
}

} // verus!
