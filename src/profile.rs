//! Profiles: the swappable event-handling policies.
use vstd::prelude::*;

verus! {

/// The profile identifiers, in the order of the profile cycle.
#[derive(Clone, Copy, Debug, PartialEq, Eq, Structural)]
pub enum Profile {
    Default,
    Genshin,
    Sky,
}

/// The profile that follows `p` in the cycle Default, Genshin, Sky.
pub open spec fn next_profile_spec(p: Profile) -> Profile {
    match p {
        Profile::Default => Profile::Genshin,
        Profile::Genshin => Profile::Sky,
        Profile::Sky => Profile::Default,
    }
}

/// The display name of a profile.
pub open spec fn profile_name_spec(p: Profile) -> Seq<char> {
    match p {
        Profile::Default => "Default"@,
        Profile::Genshin => "Genshin"@,
        Profile::Sky => "Sky"@,
    }
}

impl Profile {
    /// The next profile in the cycle Default, Genshin, Sky, Default.
    pub fn next(self) -> (r: Profile)
        ensures
            r == next_profile_spec(self),
    {
        match self {
            Profile::Default => Profile::Genshin,
            Profile::Genshin => Profile::Sky,
            Profile::Sky => Profile::Default,
        }
    }

    /// The profile's display name.
    pub fn name(self) -> (r: &'static str)
        ensures
            r@ == profile_name_spec(self),
    {
        match self {
            Profile::Default => "Default",
            Profile::Genshin => "Genshin",
            Profile::Sky => "Sky",
        }
    }

    /// Whether the profile holds a key down for as long as its note is held
    /// (press on note-on, release on note-off) rather than clicking it once.
    pub fn sustains_notes(self) -> (r: bool)
        ensures
            r == (self == Profile::Genshin),
    {
        match self {
            Profile::Genshin => true,
            _ => false,
        }
    }
}

/// Cycling the profile three times returns it to where it started.
pub proof fn lemma_profile_cycle_closes(p: Profile)
    ensures
        next_profile_spec(next_profile_spec(next_profile_spec(p))) == p,
{
}

} // verus!
