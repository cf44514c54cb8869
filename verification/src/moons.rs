//! Identity of the supported moons, the application's top-level state, the loader of moon
//! profiles, and the decision that moves the application from loading to running.

use vstd::prelude::*;

verus! {

/// Uniquely identifies each of the four supported Galilean moons.
#[derive(Clone, Copy, Debug, PartialEq, Eq, Hash, Structural)]
pub enum MoonId {
    /// Europa.
    Europa,
    /// Io.
    Io,
    /// Ganymede.
    Ganymede,
    /// Callisto.
    Callisto,
}

impl MoonId {
    /// Whether a calibrated terrain recipe exists for this moon. Only Europa has one; building
    /// the terrain of any other moon is refused.
    pub fn has_terrain_recipe(self) -> (calibrated: bool)
        ensures
            calibrated == (self == MoonId::Europa),
    {
        match self {
            MoonId::Europa => true,
            MoonId::Io => false,
            MoonId::Ganymede => false,
            MoonId::Callisto => false,
        }
    }
}

/// Top-level state of the application: loading the active moon's profile, or running with the
/// terrain and the scene built.
#[derive(Clone, Copy, Debug, PartialEq, Eq, Hash, Structural)]
pub enum AppState {
    /// Waiting for the active moon profile to load.
    LoadingMoonProfile,
    /// The profile is loaded and the scene runs.
    Running,
}

impl Default for AppState {
    /// The application starts by loading the moon profile.
    fn default() -> (state: Self)
        ensures
            state == AppState::LoadingMoonProfile,
    {
        AppState::LoadingMoonProfile
    }
}

/// The state that a frame requests, given the current state and whether the active moon profile
/// has finished loading: `Running` is requested only while still loading and once the profile is
/// there; nothing is requested while already running.
pub open spec fn profile_transition(current_state: AppState, profile_loaded: bool) -> Option<
    AppState,
> {
    if current_state == AppState::Running {
        None
    } else if profile_loaded {
        Some(AppState::Running)
    } else {
        None
    }
}

/// Decides, once per frame, whether the application moves to `Running`. Returns the state to
/// request, or `None` to request nothing. Requesting `Running` again while already running would
/// re-enter the state, so nothing is requested then.
pub fn transition_when_moon_profile_loaded(current_state: AppState, profile_loaded: bool) -> (next: Option<AppState>)
    ensures
        next == profile_transition(current_state, profile_loaded),
{
    if current_state == AppState::Running {
        return None;
    }
    if profile_loaded {
        Some(AppState::Running)
    } else {
        None
    }
}

/// The state after one frame: the requested state if any, else the current one.
pub open spec fn state_after_frame(current_state: AppState, profile_loaded: bool) -> AppState {
    match profile_transition(current_state, profile_loaded) {
        Some(next) => next,
        None => current_state,
    }
}

/// The state after a run of frames, `loaded[k]` telling whether the profile was loaded at frame
/// `k`.
pub open spec fn state_after_frames(state: AppState, loaded: Seq<bool>) -> AppState
    decreases loaded.len(),
{
    if loaded.len() == 0 {
        state
    } else {
        state_after_frames(state_after_frame(state, loaded[0]), loaded.drop_first())
    }
}

/// How many times a run of frames requests `Running`, that is, how many times the state is
/// entered.
pub open spec fn running_entries(state: AppState, loaded: Seq<bool>) -> nat
    decreases loaded.len(),
{
    if loaded.len() == 0 {
        0
    } else {
        (if profile_transition(state, loaded[0]) is Some {
            1nat
        } else {
            0nat
        }) + running_entries(state_after_frame(state, loaded[0]), loaded.drop_first())
    }
}

/// Over any run of frames, `Running` is entered at most once. Starting while loading, it is
/// entered exactly once if and only if the profile is loaded at some frame, and the run ends in
/// `Running` exactly then; starting while running, it is never entered again and stays.
pub proof fn running_entered_at_most_once(state: AppState, loaded: Seq<bool>)
    ensures
        running_entries(state, loaded) <= 1,
        state == AppState::Running ==> running_entries(state, loaded) == 0 && state_after_frames(
            state,
            loaded,
        ) == AppState::Running,
        state == AppState::LoadingMoonProfile ==> (running_entries(state, loaded) == 1 <==> exists|
            k: int,
        | 0 <= k < loaded.len() && loaded[k]),
        state == AppState::LoadingMoonProfile ==> (state_after_frames(state, loaded)
            == AppState::Running <==> exists|k: int| 0 <= k < loaded.len() && loaded[k]),
    decreases loaded.len(),
{
    if loaded.len() > 0 {
        let rest = loaded.drop_first();
        running_entered_at_most_once(state_after_frame(state, loaded[0]), rest);
        if state == AppState::LoadingMoonProfile {
            if loaded[0] {
                assert(exists|k: int| 0 <= k < loaded.len() && loaded[k]) by {
                    assert(loaded[0]);
                }
            } else {
                assert((exists|k: int| 0 <= k < loaded.len() && loaded[k]) <==> (exists|k: int|
                    0 <= k < rest.len() && rest[k])) by {
                    if exists|k: int| 0 <= k < loaded.len() && loaded[k] {
                        let k = choose|k: int| 0 <= k < loaded.len() && loaded[k];
                        assert(rest[k - 1]);
                    }
                    if exists|k: int| 0 <= k < rest.len() && rest[k] {
                        let k = choose|k: int| 0 <= k < rest.len() && rest[k];
                        assert(loaded[k + 1]);
                    }
                }
            }
        }
    }
}

/// Plugin that registers moon profiles as assets together with their loader. Its registration
/// with the engine lives with the application, which cannot extend this type.
#[derive(Clone, Copy, Debug, Default)]
pub struct MoonPlugin;

/// Loader of moon profiles from `.ron` files.
#[derive(Clone, Copy, Debug, Default)]
pub struct MoonProfileLoader;

impl MoonProfileLoader {
    /// The file extensions that the loader claims: only `ron`.
    pub fn extensions(&self) -> (extensions: &'static [&'static str])
        ensures
            extensions@.len() == 1,
            extensions@[0]@ == "ron"@,
    {
        &["ron"]
    }
}

} // verus!
