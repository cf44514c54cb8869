//! Readiness of the sky textures: the one-time announcement that all of them have loaded.

use vstd::prelude::*;

verus! {

/// Plugin of the sky (Sun, Jupiter, planet shine, starfield), calibrated for the active moon. Its
/// registration with the engine lives with the application, which cannot extend this type.
#[derive(Clone, Copy, Debug, Default)]
pub struct SkyPlugin;

/// Announced exactly once, when the three sky textures (Jupiter, Sun, starfield) have loaded.
#[derive(Clone, Copy, Debug, Default, PartialEq, Eq, Structural)]
pub struct SkyAssetsLoaded;

/// Whether a frame announces the sky textures as loaded: only when they were not announced
/// before and all three are loaded now.
pub open spec fn announces_sky_loaded(
    all_loaded: bool,
    jupiter_loaded: bool,
    sun_loaded: bool,
    starfield_loaded: bool,
) -> bool {
    !all_loaded && jupiter_loaded && sun_loaded && starfield_loaded
}

/// Checks, once per frame, whether the three sky textures have finished loading. The first time
/// they all have, marks `all_loaded` and returns the announcement; afterwards, and before that,
/// returns `None` and leaves `all_loaded` as it was.
pub fn check_sky_assets_loaded(
    all_loaded: &mut bool,
    jupiter_loaded: bool,
    sun_loaded: bool,
    starfield_loaded: bool,
) -> (announcement: Option<SkyAssetsLoaded>)
    ensures
        announcement is Some <==> announces_sky_loaded(
            *old(all_loaded),
            jupiter_loaded,
            sun_loaded,
            starfield_loaded,
        ),
        *final(all_loaded) == (*old(all_loaded) || announcement is Some),
{
    if *all_loaded {
        return None;
    }
    if jupiter_loaded && sun_loaded && starfield_loaded {
        *all_loaded = true;
        Some(SkyAssetsLoaded)
    } else {
        None
    }
}

/// What a frame observes of the three textures: whether Jupiter's, the Sun's and the starfield's
/// have loaded.
pub type TextureObservation = (bool, bool, bool);

/// The `all_loaded` flag after one frame.
pub open spec fn sky_flag_after_frame(all_loaded: bool, observed: TextureObservation) -> bool {
    all_loaded || announces_sky_loaded(all_loaded, observed.0, observed.1, observed.2)
}

/// How many announcements a run of frames makes, starting from the flag `all_loaded`.
pub open spec fn sky_announcements(all_loaded: bool, frames: Seq<TextureObservation>) -> nat
    decreases frames.len(),
{
    if frames.len() == 0 {
        0
    } else {
        (if announces_sky_loaded(all_loaded, frames[0].0, frames[0].1, frames[0].2) {
            1nat
        } else {
            0nat
        }) + sky_announcements(sky_flag_after_frame(all_loaded, frames[0]), frames.drop_first())
    }
}

/// The sky textures are announced as loaded at most once over any run of frames, and never
/// again once the flag is set; starting unannounced, the announcement comes exactly when some
/// frame observes all three textures loaded.
pub proof fn sky_loaded_announced_at_most_once(all_loaded: bool, frames: Seq<TextureObservation>)
    ensures
        sky_announcements(all_loaded, frames) <= 1,
        all_loaded ==> sky_announcements(all_loaded, frames) == 0,
        !all_loaded ==> (sky_announcements(all_loaded, frames) == 1 <==> exists|k: int|
            0 <= k < frames.len() && frames[k].0 && frames[k].1 && frames[k].2),
    decreases frames.len(),
{
    if frames.len() > 0 {
        let rest = frames.drop_first();
        sky_loaded_announced_at_most_once(sky_flag_after_frame(all_loaded, frames[0]), rest);
        if !all_loaded {
            if frames[0].0 && frames[0].1 && frames[0].2 {
                assert(exists|k: int|
                    0 <= k < frames.len() && frames[k].0 && frames[k].1 && frames[k].2) by {
                    assert(frames[0].0 && frames[0].1 && frames[0].2);
                }
            } else {
                assert((exists|k: int|
                    0 <= k < frames.len() && frames[k].0 && frames[k].1 && frames[k].2) <==> (exists|
                    k: int,
                | 0 <= k < rest.len() && rest[k].0 && rest[k].1 && rest[k].2)) by {
                    if exists|k: int|
                        0 <= k < frames.len() && frames[k].0 && frames[k].1 && frames[k].2 {
                        let k = choose|k: int|
                            0 <= k < frames.len() && frames[k].0 && frames[k].1 && frames[k].2;
                        assert(rest[k - 1] == frames[k]);
                    }
                    if exists|k: int| 0 <= k < rest.len() && rest[k].0 && rest[k].1 && rest[k].2 {
                        let k = choose|k: int|
                            0 <= k < rest.len() && rest[k].0 && rest[k].1 && rest[k].2;
                        assert(frames[k + 1] == rest[k]);
                    }
                }
            }
        }
    }
}

} // verus!
