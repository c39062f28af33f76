//! The event router: decodes a message, runs the bindings that hold in
//! every profile, then the active profile's handler.
use vstd::prelude::*;
use crate::action::{Action, Notice, VolumeChannel};
use crate::bindings::{
    Binding, DRUM_CHANNEL, is_drum_hit, MASTER_VOLUME_CONTROLLER, PROFILE_CYCLE_NOTE, global_bindings,
    global_table, run_bindings, run_global_bindings,
};
use crate::layout::{Layout, next_layout_spec};
use crate::message::{ChannelEvent, RawEvent, decode_spec, raw_of_bytes};
use crate::profile::{Profile, next_profile_spec};
use crate::profiles::{dispatch, dispatch_spec};
use crate::profiles::genshin::LAYOUT_CYCLE_NOTE;

verus! {

/// The router's mutable state: the active profile and the selected layout.
/// The two are independent.
#[derive(Clone, Copy, Debug, PartialEq, Eq, Structural)]
pub struct RouterState {
    pub active_profile: Profile,
    pub active_layout: Layout,
}

/// The state after the router handles `e` in state `s`, and the actions it
/// asks for: first those of the bindings that hold in every profile, then
/// those of the handler of the profile those bindings leave active.
pub open spec fn route_spec(s: RouterState, e: ChannelEvent) -> (RouterState, Seq<Action>) {
    let global = run_bindings(global_table(), s.active_profile, e);
    let local = dispatch_spec(global.0, s.active_layout, e);
    (RouterState { active_profile: global.0, active_layout: local.0 }, global.1 + local.1)
}

/// The router. Its state is read and written only through its methods, so a
/// caller that shares it behind one lock never sees a partial update.
pub struct Router {
    state: RouterState,
    bindings: Vec<Binding>,
    dropped: u64,
}

impl View for Router {
    type V = RouterState;

    closed spec fn view(&self) -> RouterState {
        self.state
    }
}

impl Router {
    #[verifier::type_invariant]
    spec fn inv(self) -> bool {
        self.bindings@ == global_table()
    }

    /// How many malformed messages were dropped.
    pub closed spec fn dropped_spec(self) -> u64 {
        self.dropped
    }

    /// A router in the start-up state: default profile, complete layout.
    pub fn new() -> (r: Router)
        ensures
            r@ == (RouterState { active_profile: Profile::Default, active_layout: Layout::Complete }),
            r.dropped_spec() == 0,
    {
        Router::with_state(
            RouterState { active_profile: Profile::Default, active_layout: Layout::Complete },
        )
    }

    /// A router in the given state.
    pub fn with_state(state: RouterState) -> (r: Router)
        ensures
            r@ == state,
            r.dropped_spec() == 0,
    {
        Router { state, bindings: global_bindings(), dropped: 0 }
    }

    /// The current state.
    pub fn state(&self) -> (r: RouterState)
        ensures
            r == self@,
    {
        self.state
    }

    /// How many malformed messages were dropped (saturating).
    pub fn dropped(&self) -> (r: u64)
        ensures
            r == self.dropped_spec(),
    {
        self.dropped
    }

    /// Handles a decoded event and returns the actions for the
    /// collaborators, in order. Every event reaches the bindings that hold
    /// in every profile and then the active profile's handler.
    pub fn handle_event(&mut self, e: ChannelEvent) -> (actions: Vec<Action>)
        ensures
            final(self)@ == route_spec(old(self)@, e).0,
            actions@ == route_spec(old(self)@, e).1,
            final(self).dropped_spec() == old(self).dropped_spec(),
    {
        proof {
            use_type_invariant(&*self);
        }
        let mut actions: Vec<Action> = Vec::new();
        let mut profile = self.state.active_profile;
        let mut layout = self.state.active_layout;
        run_global_bindings(&self.bindings, &mut profile, e, &mut actions);
        dispatch(profile, &mut layout, e, &mut actions);
        self.state = RouterState { active_profile: profile, active_layout: layout };
        proof {
            assert(actions@ =~= route_spec(old(self)@, e).1);
        }
        actions
    }

    /// Handles the bytes of one message. A message shorter than three bytes
    /// is dropped and counted: it reaches no binding and changes no state.
    pub fn handle_message(&mut self, bytes: &[u8]) -> (actions: Vec<Action>)
        ensures
            raw_of_bytes(bytes@) is None ==> {
                &&& actions@ == Seq::<Action>::empty()
                &&& final(self)@ == old(self)@
                &&& final(self).dropped_spec() == if old(self).dropped_spec() == u64::MAX {
                    u64::MAX as int
                } else {
                    old(self).dropped_spec() + 1
                }
            },
            raw_of_bytes(bytes@) matches Some(raw) ==> {
                &&& final(self)@ == route_spec(old(self)@, decode_spec(raw)).0
                &&& actions@ == route_spec(old(self)@, decode_spec(raw)).1
                &&& final(self).dropped_spec() == old(self).dropped_spec()
            },
    {
        match RawEvent::from_bytes(bytes) {
            Some(raw) => self.handle_event(raw.decode()),
            None => {
                proof {
                    use_type_invariant(&*self);
                }
                self.dropped = self.dropped.saturating_add(1);
                Vec::new()
            },
        }
    }
}

/// A hit of the profile-cycle drum pad with velocity `velocity`.
pub open spec fn profile_cycle_event(velocity: u8) -> ChannelEvent {
    ChannelEvent::NoteOn { channel: DRUM_CHANNEL, note: PROFILE_CYCLE_NOTE, velocity }
}

/// A hit of the layout-cycle drum pad with velocity `velocity`.
pub open spec fn layout_cycle_event(velocity: u8) -> ChannelEvent {
    ChannelEvent::NoteOn { channel: DRUM_CHANNEL, note: LAYOUT_CYCLE_NOTE, velocity }
}

/// The profile-cycle pad advances the active profile, keeps the layout, and
/// asks for exactly one notification, naming the new profile.
pub proof fn lemma_profile_cycle_step(s: RouterState, velocity: u8)
    ensures
        route_spec(s, profile_cycle_event(velocity)).0 == (RouterState {
            active_profile: next_profile_spec(s.active_profile),
            active_layout: s.active_layout,
        }),
        route_spec(s, profile_cycle_event(velocity)).1 == seq![
            Action::Notify { notice: Notice::ProfileChanged(next_profile_spec(s.active_profile)) },
        ],
{
    reveal_with_fuel(run_bindings, 10);
}

/// Sending the profile-cycle event three times returns the active profile
/// to its original value, and leaves the layout as it was.
pub proof fn lemma_profile_cycle_thrice(s: RouterState, v1: u8, v2: u8, v3: u8)
    ensures
        route_spec(
            route_spec(route_spec(s, profile_cycle_event(v1)).0, profile_cycle_event(v2)).0,
            profile_cycle_event(v3),
        ).0 == s,
{
    let s1 = route_spec(s, profile_cycle_event(v1)).0;
    let s2 = route_spec(s1, profile_cycle_event(v2)).0;
    lemma_profile_cycle_step(s, v1);
    lemma_profile_cycle_step(s1, v2);
    lemma_profile_cycle_step(s2, v3);
}

/// In the music profile the layout-cycle pad advances the layout, keeps the
/// profile, and announces the new layout.
pub proof fn lemma_layout_cycle_step(s: RouterState, velocity: u8)
    requires
        s.active_profile == Profile::Genshin,
    ensures
        route_spec(s, layout_cycle_event(velocity)).0 == (RouterState {
            active_profile: Profile::Genshin,
            active_layout: next_layout_spec(s.active_layout),
        }),
        route_spec(s, layout_cycle_event(velocity)).1 == seq![
            Action::Notify { notice: Notice::LayoutChanged(next_layout_spec(s.active_layout)) },
        ],
{
    reveal_with_fuel(run_bindings, 10);
}

/// In the music profile, sending the layout-cycle event three times returns
/// the selected layout to its original value (Complete, when it started
/// there), and the profile stays the music profile.
pub proof fn lemma_layout_cycle_thrice(s: RouterState, v1: u8, v2: u8, v3: u8)
    requires
        s.active_profile == Profile::Genshin,
    ensures
        route_spec(
            route_spec(route_spec(s, layout_cycle_event(v1)).0, layout_cycle_event(v2)).0,
            layout_cycle_event(v3),
        ).0 == s,
{
    let s1 = route_spec(s, layout_cycle_event(v1)).0;
    let s2 = route_spec(s1, layout_cycle_event(v2)).0;
    lemma_layout_cycle_step(s, v1);
    lemma_layout_cycle_step(s1, v2);
    lemma_layout_cycle_step(s2, v3);
}

/// A control change of the master-volume controller with value `v`, on any
/// channel and in any state, asks for exactly one action: setting the
/// master volume to `v / 127`. The state is unchanged.
pub proof fn lemma_master_volume(s: RouterState, channel: u8, v: u8)
    ensures
        route_spec(
            s,
            ChannelEvent::ControlChange { channel, controller: MASTER_VOLUME_CONTROLLER, value: v },
        ) == (s, seq![Action::SetVolume { channel: VolumeChannel::Master, level: v }]),
{
    reveal_with_fuel(run_bindings, 10);
}

/// The two rings move independently and only on their own pads: the active
/// profile advances exactly on the profile-cycle pad, and the layout
/// advances exactly on the layout-cycle pad while the music profile is
/// active. No other event changes either.
pub proof fn lemma_rings_move_only_on_their_pads(s: RouterState, e: ChannelEvent)
    ensures
        route_spec(s, e).0.active_profile == if is_drum_hit(e, PROFILE_CYCLE_NOTE) {
            next_profile_spec(s.active_profile)
        } else {
            s.active_profile
        },
        route_spec(s, e).0.active_layout == if s.active_profile == Profile::Genshin && is_drum_hit(
            e,
            LAYOUT_CYCLE_NOTE,
        ) {
            next_layout_spec(s.active_layout)
        } else {
            s.active_layout
        },
{
    reveal_with_fuel(run_bindings, 10);
}

} // verus!
