//! One light's brightness control and the scheduler that throttles its
//! updates.
//!
//! Every drag of the slider changes the value shown at once. The bridge hears
//! of it at most once per interval: a drag arms a deferred update only when
//! the last armed one lies further back than the interval, and the update,
//! when it fires, sends whatever value the slider holds by then.

use crate::api::{authenticated, Session};
use crate::json::{lemma_members_view, Json, JsonView, Member};
use crate::transport::{Method, Request, RequestView};
use vstd::prelude::*;

verus! {

/// Nanoseconds that must have passed since the last armed update before a
/// drag arms another, and the delay after which an armed update fires:
/// fifty milliseconds.
pub const UPDATE_INTERVAL_NANOS: u64 = 50_000_000;

/// Largest brightness the bridge accepts.
pub const MAX_BRIGHTNESS: i64 = 254;

/// Transition time sent with every brightness update.
pub const TRANSITION_TIME: i64 = 1;

/// Path prefix of a light, below the authenticated root.
pub const LIGHT_PREFIX: &'static str = "/lights/";

/// Path suffix of a light's state.
pub const STATE_SUFFIX: &'static str = "/state";

/// Key of the power flag in a state update.
pub const ON_KEY: &'static str = "on";

/// Key of the brightness in a state update and in a light's state.
pub const BRI_KEY: &'static str = "bri";

/// Key of the transition time in a state update.
pub const TRANSITION_TIME_KEY: &'static str = "transitiontime";

/// `value` brought into the range of brightness, 0..=254.
pub open spec fn clamped(value: int) -> int {
    if value < 0 {
        0
    } else if value > 254 {
        254
    } else {
        value
    }
}

/// Whether a drag at `now` arms an update when the last one was armed at
/// `last`: more than the interval lies between them.
pub open spec fn due(last: int, now: int) -> bool {
    now - last > 50_000_000
}

/// The path of the state of light `light_id`, below the authenticated root.
pub open spec fn state_path(light_id: Seq<char>) -> Seq<char> {
    LIGHT_PREFIX@ + light_id + STATE_SUFFIX@
}

/// The body of the update that sets a light to brightness `bri`: on exactly
/// when the brightness is positive.
pub open spec fn state_body(bri: int) -> JsonView {
    JsonView::Object(
        seq![
            (ON_KEY@, JsonView::Bool(bri > 0)),
            (BRI_KEY@, JsonView::Int(bri)),
            (TRANSITION_TIME_KEY@, JsonView::Int(1)),
        ],
    )
}

/// Brings `value` into the range of brightness.
pub fn clamp_brightness(value: i64) -> (r: i64)
    ensures
        r == clamped(value as int),
{
    if value < 0 {
        0
    } else if value > MAX_BRIGHTNESS {
        MAX_BRIGHTNESS
    } else {
        value
    }
}

/// The control of one light.
#[derive(Debug, PartialEq, Eq)]
pub struct LightController {
    light_id: String,
    name: String,
    bri: i64,
    last_updated_bri: u64,
}

/// Mathematical model of a [`LightController`].
pub struct LightControllerView {
    /// The bridge's identifier of the light.
    pub light_id: Seq<char>,
    /// The light's display name.
    pub name: Seq<char>,
    /// The value the slider shows, in 0..=254.
    pub bri: int,
    /// Nanosecond timestamp at which an update was last armed.
    pub last_updated_bri: int,
}

impl LightControllerView {
    /// The control after the slider was dragged to `value` at `now`: it
    /// shows the value, and remembers `now` when the drag armed an update.
    pub open spec fn after_drag(self, value: int, now: int) -> LightControllerView {
        LightControllerView {
            bri: clamped(value),
            last_updated_bri: if due(self.last_updated_bri, now) {
                now
            } else {
                self.last_updated_bri
            },
            ..self
        }
    }
}

impl View for LightController {
    type V = LightControllerView;

    closed spec fn view(&self) -> LightControllerView {
        LightControllerView {
            light_id: self.light_id@,
            name: self.name@,
            bri: self.bri as int,
            last_updated_bri: self.last_updated_bri as int,
        }
    }
}

impl LightController {
    #[verifier::type_invariant]
    spec fn in_range(&self) -> bool {
        0 <= self.bri <= 254
    }

    /// The control of light `light_id`, created at `now` with its slider at
    /// `bri`.
    pub fn new(light_id: &str, name: &str, bri: i64, now: u64) -> (r: LightController)
        ensures
            r@ == (LightControllerView {
                light_id: light_id@,
                name: name@,
                bri: clamped(bri as int),
                last_updated_bri: now as int,
            }),
    {
        LightController {
            light_id: String::from_str(light_id),
            name: String::from_str(name),
            bri: clamp_brightness(bri),
            last_updated_bri: now,
        }
    }

    /// The bridge's identifier of the light.
    pub fn light_id(&self) -> (r: &String)
        ensures
            r@ == self@.light_id,
    {
        &self.light_id
    }

    /// The light's display name.
    pub fn name(&self) -> (r: &String)
        ensures
            r@ == self@.name,
    {
        &self.name
    }

    /// The value the slider shows.
    pub fn bri(&self) -> (r: i64)
        ensures
            r == self@.bri,
            0 <= r <= 254,
    {
        proof {
            use_type_invariant(self);
        }
        self.bri
    }

    /// Nanosecond timestamp at which an update was last armed.
    pub fn last_updated_bri(&self) -> (r: u64)
        ensures
            r == self@.last_updated_bri,
    {
        self.last_updated_bri
    }

    /// Decides at `now` whether a drag arms a deferred update. When it does,
    /// the caller lets [`UPDATE_INTERVAL_NANOS`] pass and then sends what
    /// [`LightController::update_bri_from_slider`] builds.
    pub fn queue_update_bri(&mut self, now: u64) -> (armed: bool)
        ensures
            armed == due(old(self)@.last_updated_bri, now as int),
            final(self)@ == (LightControllerView {
                last_updated_bri: if armed {
                    now as int
                } else {
                    old(self)@.last_updated_bri
                },
                ..old(self)@
            }),
    {
        proof {
            use_type_invariant(&*self);
        }
        if now > self.last_updated_bri && now - self.last_updated_bri > UPDATE_INTERVAL_NANOS {
            self.last_updated_bri = now;
            true
        } else {
            false
        }
    }

    /// Takes in a drag of the slider to `value` at `now`: the control shows
    /// the value at once, and the result says whether the drag armed a
    /// deferred update.
    pub fn drag_slider(&mut self, value: i64, now: u64) -> (armed: bool)
        ensures
            armed == due(old(self)@.last_updated_bri, now as int),
            final(self)@ == old(self)@.after_drag(value as int, now as int),
    {
        proof {
            use_type_invariant(&*self);
        }
        self.bri = clamp_brightness(value);
        self.queue_update_bri(now)
    }

    /// Takes in the value the slider shows, without touching the schedule.
    pub fn set_bri(&mut self, value: i64)
        ensures
            final(self)@ == (LightControllerView { bri: clamped(value as int), ..old(self)@ }),
    {
        proof {
            use_type_invariant(&*self);
        }
        self.bri = clamp_brightness(value);
    }

    /// The path of the light's state, below the authenticated root.
    pub fn state_path(&self) -> (r: String)
        ensures
            r@ == state_path(self@.light_id),
    {
        let mut path = String::from_str(LIGHT_PREFIX);
        path.append(self.light_id.as_str());
        path.append(STATE_SUFFIX);
        path
    }

    /// The body of the update that sets the light to the value the slider
    /// shows now.
    pub fn state_body(&self) -> (r: Json)
        ensures
            r@ == state_body(self@.bri),
    {
        proof {
            use_type_invariant(self);
        }
        let mut members: Vec<Member> = Vec::new();
        members.push(Member::new(ON_KEY, Json::Bool(self.bri > 0)));
        members.push(Member::new(BRI_KEY, Json::Int(self.bri)));
        members.push(Member::new(TRANSITION_TIME_KEY, Json::Int(TRANSITION_TIME)));
        proof {
            lemma_members_view(members@);
            assert(Json::Object(members)@->Object_0 =~= state_body(self@.bri)->Object_0);
        }
        Json::Object(members)
    }

    /// Builds the update that sets the light to the value the slider shows
    /// now.
    pub fn update_bri_from_slider(&self, session: &Session) -> (r: Request)
        requires
            session@.host is Some,
            session@.username is Some,
        ensures
            r@ == (RequestView {
                method: Method::Put,
                host: session@.host->0,
                path: authenticated(session@.username->0, state_path(self@.light_id)),
                body: Some(state_body(self@.bri)),
            }),
    {
        let path = self.state_path();
        session.authenticated_request(Method::Put, path.as_str(), Some(self.state_body()))
    }
}

/// One drag of the slider: the value it was dragged to and the nanosecond
/// timestamp at which that happened.
pub struct Drag {
    pub value: int,
    pub at: int,
}

/// The control after the drags of `drags` were taken in, in order.
pub open spec fn after_drags(start: LightControllerView, drags: Seq<Drag>) -> LightControllerView
    decreases drags.len(),
{
    if drags.len() == 0 {
        start
    } else {
        after_drags(start, drags.drop_last()).after_drag(drags.last().value, drags.last().at)
    }
}

/// How many of the drags of `drags`, taken in in order, armed an update.
pub open spec fn armed_count(start: LightControllerView, drags: Seq<Drag>) -> nat
    decreases drags.len(),
{
    if drags.len() == 0 {
        0
    } else {
        let before = after_drags(start, drags.drop_last());
        let earlier = armed_count(start, drags.drop_last());
        if due(before.last_updated_bri, drags.last().at) {
            earlier + 1
        } else {
            earlier
        }
    }
}

/// Whether all drags of `drags` lie within one interval: no two of them are
/// further apart than the interval is long.
pub open spec fn within_one_window(drags: Seq<Drag>) -> bool {
    forall|i: int, j: int|
        0 <= i < drags.len() && 0 <= j < drags.len() ==> (#[trigger] drags[j]).at - (
        #[trigger] drags[i]).at <= 50_000_000
}

/// Drags that all lie within one interval arm at most one update between
/// them, and exactly one when the first of them arms one. Whenever the update
/// fires afterwards, the body it sends carries the value of the last drag,
/// not that of the drag that armed it.
pub proof fn lemma_one_update_per_window(start: LightControllerView, drags: Seq<Drag>)
    requires
        drags.len() > 0,
        within_one_window(drags),
    ensures
        armed_count(start, drags) <= 1,
        due(start.last_updated_bri, drags[0].at) ==> armed_count(start, drags) == 1,
        state_body(after_drags(start, drags).bri) == state_body(clamped(drags.last().value)),
{
    lemma_window_state(start, drags);
}

/// The state behind [`lemma_one_update_per_window`]: as long as no drag of a
/// window has armed an update the timestamp is the initial one, and once one
/// has, the timestamp is that of a drag of the window.
proof fn lemma_window_state(start: LightControllerView, drags: Seq<Drag>)
    requires
        within_one_window(drags),
    ensures
        armed_count(start, drags) <= 1,
        armed_count(start, drags) == 0 ==> after_drags(start, drags).last_updated_bri
            == start.last_updated_bri,
        armed_count(start, drags) == 1 ==> exists|k: int|
            0 <= k < drags.len() && after_drags(start, drags).last_updated_bri == (
            #[trigger] drags[k]).at,
        drags.len() > 0 && due(start.last_updated_bri, drags[0].at) ==> armed_count(start, drags)
            == 1,
        drags.len() > 0 ==> after_drags(start, drags).bri == clamped(drags.last().value),
    decreases drags.len(),
{
    if drags.len() > 0 {
        let earlier = drags.drop_last();
        let last = drags.last();
        assert(within_one_window(earlier)) by {
            assert forall|i: int, j: int|
                0 <= i < earlier.len() && 0 <= j < earlier.len() implies (#[trigger] earlier[j]).at
                - (#[trigger] earlier[i]).at <= 50_000_000 by {
                assert(earlier[i] == drags[i]);
                assert(earlier[j] == drags[j]);
            }
        }
        lemma_window_state(start, earlier);
        let before = after_drags(start, earlier);
        if armed_count(start, earlier) == 1 {
            let k = choose|k: int|
                0 <= k < earlier.len() && before.last_updated_bri == (#[trigger] earlier[k]).at;
            assert(earlier[k] == drags[k]);
            assert(drags[drags.len() - 1].at - drags[k].at <= 50_000_000);
            assert(!due(before.last_updated_bri, last.at));
        } else {
            if due(before.last_updated_bri, last.at) {
                assert(after_drags(start, drags).last_updated_bri == drags[drags.len() - 1].at);
            }
            if earlier.len() > 0 && due(start.last_updated_bri, drags[0].at) {
                assert(earlier[0] == drags[0]);
            }
        }
    }
}

} // verus!
