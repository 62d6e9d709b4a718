//! The menu of lights: what the bridge lists, and the controls shown for it.

use crate::api::{authenticated, Session};
use crate::error::{ApiError, ApiErrorView};
use crate::json::{lemma_members_view, members_view, Json, JsonView};
use crate::light_controller::{clamp_brightness, clamped, due, LightController};
use crate::light_controller::{state_body, state_path, LightControllerView};
use crate::light_controller::BRI_KEY;
use crate::transport::{Method, Request, RequestView};
use vstd::prelude::*;

verus! {

/// Path of the listing of lights, below the authenticated root.
pub const LIGHTS_PATH: &'static str = "/lights";

/// Key of a light's display name.
pub const NAME_KEY: &'static str = "name";

/// Key of a light's state object.
pub const STATE_KEY: &'static str = "state";

/// Key of the flag that tells whether the bridge can reach a light.
pub const REACHABLE_KEY: &'static str = "reachable";

/// Reason reported when a listing of lights does not have the expected shape.
pub const INVALID_LISTING: &'static str = "invalid light listing";

/// What the bridge reports of one light.
#[derive(Debug, Clone, PartialEq, Eq)]
pub struct LightSnapshot {
    pub id: String,
    pub name: String,
    /// Brightness, in 0..=254.
    pub bri: i64,
    pub reachable: bool,
}

/// Mathematical model of a [`LightSnapshot`].
pub struct LightSnapshotView {
    pub id: Seq<char>,
    pub name: Seq<char>,
    pub bri: int,
    pub reachable: bool,
}

impl View for LightSnapshot {
    type V = LightSnapshotView;

    open spec fn view(&self) -> LightSnapshotView {
        LightSnapshotView {
            id: self.id@,
            name: self.name@,
            bri: self.bri as int,
            reachable: self.reachable,
        }
    }
}

/// The brightness that a light's state reports: its integral `"bri"` brought
/// into range. A reachable light must report one; a light that cannot be
/// reached and reports none counts as dark.
pub open spec fn reported_brightness(state: JsonView, reachable: bool) -> Option<int> {
    match state.get(BRI_KEY@) {
        Some(JsonView::Int(bri)) => Some(clamped(bri)),
        _ => if reachable {
            None
        } else {
            Some(0)
        },
    }
}

/// The snapshot that the listing entry `id: entry` stands for, when the entry
/// is well formed: an object with a string `"name"` and a `"state"` object
/// that holds a boolean `"reachable"` and a brightness.
pub open spec fn snapshot_of(id: Seq<char>, entry: JsonView) -> Option<LightSnapshotView> {
    match (entry.get(NAME_KEY@), entry.get(STATE_KEY@)) {
        (Some(JsonView::Str(name)), Some(state)) => match state.get(REACHABLE_KEY@) {
            Some(JsonView::Bool(reachable)) => match reported_brightness(state, reachable) {
                Some(bri) => Some(LightSnapshotView { id, name, bri, reachable }),
                None => None,
            },
            _ => None,
        },
        _ => None,
    }
}

impl LightSnapshot {
    /// Reads the listing entry `id: entry`.
    pub fn parse(id: &String, entry: &Json) -> (r: Option<LightSnapshot>)
        ensures
            match r {
                Some(light) => snapshot_of(id@, entry@) == Some(light@) && 0 <= light.bri <= 254,
                None => snapshot_of(id@, entry@) is None,
            },
    {
        let name = match entry.get(NAME_KEY) {
            Some(value) => match value.as_str() {
                Some(name) => name,
                None => {
                    return None;
                },
            },
            None => {
                return None;
            },
        };
        let state = match entry.get(STATE_KEY) {
            Some(state) => state,
            None => {
                return None;
            },
        };
        let reachable = match state.get(REACHABLE_KEY) {
            Some(value) => match value.as_bool() {
                Some(reachable) => reachable,
                None => {
                    return None;
                },
            },
            None => {
                return None;
            },
        };
        let reported: Option<i64> = match state.get(BRI_KEY) {
            Some(value) => value.as_int(),
            None => None,
        };
        let bri: i64 = match reported {
            Some(bri) => clamp_brightness(bri),
            None => {
                if reachable {
                    return None;
                }
                0
            },
        };
        Some(LightSnapshot { id: id.clone(), name: name.clone(), bri, reachable })
    }
}

/// The models of a list of snapshots, in order.
pub open spec fn snapshots_view(lights: Seq<LightSnapshot>) -> Seq<LightSnapshotView> {
    Seq::new(lights.len(), |i: int| lights[i]@)
}

/// The snapshots that a listing of lights stands for, in the order of its
/// entries, when the listing is an object and each of its entries is well
/// formed.
pub open spec fn listed(listing: JsonView) -> Option<Seq<LightSnapshotView>> {
    match listing {
        JsonView::Object(entries) => if forall|i: int|
            0 <= i < entries.len() ==> snapshot_of(
                (#[trigger] entries[i]).0,
                entries[i].1,
            ) is Some {
            Some(
                Seq::new(entries.len(), |i: int| snapshot_of(entries[i].0, entries[i].1)->0),
            )
        } else {
            None
        },
        _ => None,
    }
}

/// Whether the bridge can reach the light.
pub open spec fn is_reachable(light: LightSnapshotView) -> bool {
    light.reachable
}

/// The lights of `lights` that the bridge can reach, in their order.
pub open spec fn reachable_only(lights: Seq<LightSnapshotView>) -> Seq<LightSnapshotView> {
    lights.filter(|light: LightSnapshotView| is_reachable(light))
}

/// Reads a listing of lights.
pub fn light_snapshots(listing: &Json) -> (r: Result<Vec<LightSnapshot>, ApiError>)
    ensures
        match r {
            Ok(lights) => listed(listing@) == Some(snapshots_view(lights@)),
            Err(error) => listed(listing@) is None && error@ == (ApiErrorView::MalformedResponse {
                reason: INVALID_LISTING@,
            }),
        },
{
    let members = match listing {
        Json::Object(members) => members,
        _ => {
            return Err(ApiError::MalformedResponse { reason: String::from_str(INVALID_LISTING) });
        },
    };
    let ghost entries = members_view(members@);
    proof {
        lemma_members_view(members@);
    }
    let mut lights: Vec<LightSnapshot> = Vec::new();
    let mut i: usize = 0;
    while i < members.len()
        invariant
            i <= members.len(),
            listing@ == JsonView::Object(entries),
            entries.len() == members.len(),
            forall|j: int|
                0 <= j < members.len() ==> (#[trigger] entries[j]) == (
                    members[j].key@,
                    members[j].value@,
                ),
            lights.len() == i,
            forall|j: int|
                0 <= j < i ==> snapshot_of((#[trigger] entries[j]).0, entries[j].1) == Some(
                    lights[j]@,
                ),
        decreases members.len() - i,
    {
        match LightSnapshot::parse(&members[i].key, &members[i].value) {
            Some(light) => {
                lights.push(light);
            },
            None => {
                assert(snapshot_of(entries[i as int].0, entries[i as int].1) is None);
                return Err(
                    ApiError::MalformedResponse { reason: String::from_str(INVALID_LISTING) },
                );
            },
        }
        i += 1;
    }
    proof {
        assert(listed(listing@)->0 =~= snapshots_view(lights@));
    }
    Ok(lights)
}

/// Keeps the lights that the bridge can reach, in their order.
pub fn reachable_lights(lights: Vec<LightSnapshot>) -> (r: Vec<LightSnapshot>)
    ensures
        snapshots_view(r@) == reachable_only(snapshots_view(lights@)),
{
    let ghost all = snapshots_view(lights@);
    let ghost keep = |light: LightSnapshotView| is_reachable(light);
    let mut kept: Vec<LightSnapshot> = Vec::new();
    proof {
        reveal(Seq::filter);
        assert(all.take(0) =~= Seq::empty());
        assert(snapshots_view(kept@) =~= all.take(0).filter(keep));
    }
    for light in it: lights
        invariant
            it.seq() == lights@,
            all == snapshots_view(lights@),
            keep == |light: LightSnapshotView| is_reachable(light),
            snapshots_view(kept@) == all.take(it.index() as int).filter(keep),
    {
        let ghost at = it.index() as int;
        let ghost before = snapshots_view(kept@);
        proof {
            assert(all.take(at + 1) =~= all.take(at).push(all[at]));
            all.take(at).lemma_filter_push(all[at], keep);
        }
        if light.reachable {
            kept.push(light);
            proof {
                assert(snapshots_view(kept@) =~= before.push(all[at]));
            }
        }
    }
    proof {
        assert(all.take(lights@.len() as int) =~= all);
    }
    kept
}

/// The controls created at `now` for `lights`, one each, in their order.
pub open spec fn controllers_for(lights: Seq<LightSnapshotView>, now: int) -> Seq<
    LightControllerView,
> {
    Seq::new(
        lights.len(),
        |i: int|
            LightControllerView {
                light_id: lights[i].id,
                name: lights[i].name,
                bri: clamped(lights[i].bri),
                last_updated_bri: now,
            },
    )
}

/// The menu: whether it shows that a listing is on its way, and the controls
/// of the lights it lists.
#[derive(Debug, PartialEq, Eq)]
pub struct MenuDelegate {
    loading: bool,
    light_controllers: Vec<LightController>,
}

/// Mathematical model of a [`MenuDelegate`].
pub struct MenuView {
    pub loading: bool,
    pub lights: Seq<LightControllerView>,
}

impl View for MenuDelegate {
    type V = MenuView;

    closed spec fn view(&self) -> MenuView {
        MenuView {
            loading: self.loading,
            lights: Seq::new(
                self.light_controllers@.len(),
                |i: int| self.light_controllers@[i]@,
            ),
        }
    }
}

impl MenuDelegate {
    /// An empty menu that shows no loading indicator.
    pub fn new() -> (r: MenuDelegate)
        ensures
            r@ == (MenuView { loading: false, lights: Seq::empty() }),
    {
        let menu = MenuDelegate { loading: false, light_controllers: Vec::new() };
        proof {
            assert(menu@.lights =~= Seq::empty());
        }
        menu
    }

    /// Whether the menu shows that a listing is on its way.
    pub fn is_loading(&self) -> (r: bool)
        ensures
            r == self@.loading,
    {
        self.loading
    }

    /// The controls of the lights the menu lists.
    pub fn light_controllers(&self) -> (r: &Vec<LightController>)
        ensures
            r@.len() == self@.lights.len(),
            forall|i: int| 0 <= i < r@.len() ==> (#[trigger] r@[i])@ == self@.lights[i],
    {
        &self.light_controllers
    }

    /// Shows or hides the loading indicator.
    pub fn set_loading(&mut self, loading: bool)
        ensures
            final(self)@ == (MenuView { loading, ..old(self)@ }),
    {
        self.loading = loading;
    }

    /// Takes in that the menu is about to open: shows the loading indicator
    /// and builds the call that lists the lights.
    pub fn needs_update(&mut self, session: &Session) -> (r: Request)
        requires
            session@.host is Some,
            session@.username is Some,
        ensures
            final(self)@ == (MenuView { loading: true, ..old(self)@ }),
            r@ == (RequestView {
                method: Method::Get,
                host: session@.host->0,
                path: authenticated(session@.username->0, LIGHTS_PATH@),
                body: None,
            }),
    {
        self.set_loading(true);
        session.authenticated_request(Method::Get, LIGHTS_PATH, None)
    }

    /// Replaces the controls by those of the reachable lights of `listing`,
    /// created at `now`. A listing that cannot be read leaves the menu
    /// without controls.
    pub fn update_lights(&mut self, listing: &Json, now: u64) -> (r: Result<(), ApiError>)
        ensures
            final(self)@.loading == old(self)@.loading,
            match listed(listing@) {
                Some(lights) => r is Ok && final(self)@.lights == controllers_for(
                    reachable_only(lights),
                    now as int,
                ),
                None => {
                    &&& r matches Err(error)
                    &&& error@ == (ApiErrorView::MalformedResponse { reason: INVALID_LISTING@ })
                    &&& final(self)@.lights == Seq::<LightControllerView>::empty()
                },
            },
    {
        self.light_controllers = Vec::new();
        let lights = match light_snapshots(listing) {
            Ok(lights) => lights,
            Err(error) => {
                proof {
                    assert(self@.lights =~= Seq::empty());
                }
                return Err(error);
            },
        };
        let shown = reachable_lights(lights);
        let ghost wanted = controllers_for(snapshots_view(shown@), now as int);
        let mut i: usize = 0;
        while i < shown.len()
            invariant
                i <= shown.len(),
                self.loading == old(self).loading,
                wanted == controllers_for(snapshots_view(shown@), now as int),
                self.light_controllers@.len() == i,
                forall|j: int| 0 <= j < i ==> (#[trigger] self.light_controllers@[j])@ == wanted[j],
            decreases shown.len() - i,
        {
            let light = &shown[i];
            let controller = LightController::new(
                light.id.as_str(),
                light.name.as_str(),
                light.bri,
                now,
            );
            self.light_controllers.push(controller);
            i += 1;
        }
        proof {
            assert(self@.lights =~= wanted);
        }
        Ok(())
    }

    /// Takes in a drag of the slider of the control at `index` to `value` at
    /// `now`. The result says whether the drag armed a deferred update.
    pub fn drag_slider(&mut self, index: usize, value: i64, now: u64) -> (armed: bool)
        requires
            index < old(self)@.lights.len(),
        ensures
            armed == due(old(self)@.lights[index as int].last_updated_bri, now as int),
            final(self)@ == (MenuView {
                lights: old(self)@.lights.update(
                    index as int,
                    old(self)@.lights[index as int].after_drag(value as int, now as int),
                ),
                ..old(self)@
            }),
    {
        let armed = self.light_controllers[index].drag_slider(value, now);
        proof {
            assert(self@.lights =~= old(self)@.lights.update(
                index as int,
                old(self)@.lights[index as int].after_drag(value as int, now as int),
            ));
        }
        armed
    }

    /// Takes in the value that the slider of the control at `index` shows.
    pub fn set_bri(&mut self, index: usize, value: i64)
        requires
            index < old(self)@.lights.len(),
        ensures
            final(self)@ == (MenuView {
                lights: old(self)@.lights.update(
                    index as int,
                    LightControllerView {
                        bri: clamped(value as int),
                        ..old(self)@.lights[index as int]
                    },
                ),
                ..old(self)@
            }),
    {
        self.light_controllers[index].set_bri(value);
        proof {
            assert(self@.lights =~= old(self)@.lights.update(
                index as int,
                LightControllerView {
                    bri: clamped(value as int),
                    ..old(self)@.lights[index as int]
                },
            ));
        }
    }

    /// Position of the first control that belongs to light `light_id`.
    pub fn find_light(&self, light_id: &str) -> (r: Option<usize>)
        ensures
            match r {
                Some(at) => {
                    &&& at < self@.lights.len()
                    &&& self@.lights[at as int].light_id == light_id@
                    &&& forall|j: int| 0 <= j < at ==> (#[trigger] self@.lights[j]).light_id != light_id@
                },
                None => forall|j: int|
                    0 <= j < self@.lights.len() ==> (#[trigger] self@.lights[j]).light_id
                        != light_id@,
            },
    {
        let wanted = String::from_str(light_id);
        let mut i: usize = 0;
        while i < self.light_controllers.len()
            invariant
                i <= self.light_controllers.len(),
                wanted@ == light_id@,
                forall|j: int| 0 <= j < i ==> (#[trigger] self@.lights[j]).light_id != light_id@,
            decreases self.light_controllers.len() - i,
        {
            if *self.light_controllers[i].light_id() == wanted {
                return Some(i);
            }
            i += 1;
        }
        None
    }

    /// Takes in that the deferred update of the control at `index` fires
    /// while its slider shows `value`: the control shows the value, and the
    /// result is the update that sets the light to it.
    pub fn update_bri_from_slider(&mut self, index: usize, value: i64, session: &Session) -> (r:
        Request)
        requires
            index < old(self)@.lights.len(),
            session@.host is Some,
            session@.username is Some,
        ensures
            final(self)@ == (MenuView {
                lights: old(self)@.lights.update(
                    index as int,
                    LightControllerView {
                        bri: clamped(value as int),
                        ..old(self)@.lights[index as int]
                    },
                ),
                ..old(self)@
            }),
            r@ == (RequestView {
                method: Method::Put,
                host: session@.host->0,
                path: authenticated(
                    session@.username->0,
                    state_path(old(self)@.lights[index as int].light_id),
                ),
                body: Some(state_body(clamped(value as int))),
            }),
    {
        self.set_bri(index, value);
        proof {
            assert(self@.lights.len() == self.light_controllers@.len());
            assert(self@.lights[index as int] == self.light_controllers@[index as int]@);
        }
        self.light_controllers[index].update_bri_from_slider(session)
    }

    /// Takes in the result of the call that lists the lights: hides the
    /// loading indicator and, when the call succeeded, shows the lights it
    /// lists. A failed call hands its error on and leaves the controls as
    /// they were.
    pub fn finish_update(&mut self, outcome: Result<Json, ApiError>, now: u64) -> (r: Result<
        (),
        ApiError,
    >)
        ensures
            !final(self)@.loading,
            match outcome {
                Ok(listing) => match listed(listing@) {
                    Some(lights) => r is Ok && final(self)@.lights == controllers_for(
                        reachable_only(lights),
                        now as int,
                    ),
                    None => {
                        &&& r matches Err(error)
                        &&& error@ == (ApiErrorView::MalformedResponse { reason: INVALID_LISTING@ })
                        &&& final(self)@.lights == Seq::<LightControllerView>::empty()
                    },
                },
                Err(failure) => {
                    &&& r matches Err(error)
                    &&& error@ == failure@
                    &&& final(self)@.lights == old(self)@.lights
                },
            },
    {
        self.set_loading(false);
        match outcome {
            Ok(listing) => self.update_lights(&listing, now),
            Err(failure) => Err(failure),
        }
    }
}

} // verus!
