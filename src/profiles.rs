//! The profile registry: each profile's handler, looked up by profile.
use vstd::prelude::*;
use crate::action::Action;
use crate::layout::Layout;
use crate::message::ChannelEvent;
use crate::profile::Profile;
use crate::profiles::default::default_actions;
use crate::profiles::genshin::music_step;

pub mod default;
pub mod genshin;
pub mod zenless_zone_zero;

verus! {

/// The handler registered for profile `p`, run on `e` with layout `l`
/// selected: the layout it leaves selected, and the actions it asks for.
pub open spec fn dispatch_spec(p: Profile, l: Layout, e: ChannelEvent) -> (Layout, Seq<Action>) {
    match p {
        Profile::Default => (l, default_actions(e)),
        Profile::Genshin => music_step(l, true, e),
        Profile::Sky => (l, seq![]),
    }
}

/// Runs the handler registered for `profile` on `e`, appending its actions
/// to `out`. Only the music profile changes the selected layout.
pub fn dispatch(profile: Profile, layout: &mut Layout, e: ChannelEvent, out: &mut Vec<Action>)
    ensures
        *final(layout) == dispatch_spec(profile, *old(layout), e).0,
        final(out)@ == old(out)@ + dispatch_spec(profile, *old(layout), e).1,
{
    match profile {
        Profile::Default => default::handle_message(e, out),
        Profile::Genshin => genshin::handle_message(e, layout, profile.sustains_notes(), out),
        Profile::Sky => {
            assert(out@ =~= out@ + Seq::<Action>::empty());
        },
    }
}

} // verus!
