use eigc::moons::{transition_when_moon_profile_loaded, AppState, MoonId, MoonProfileLoader};

/// Roda `frames` quadros com o perfil no estado de carregamento dado e devolve quantas vezes o
/// estado `Running` foi pedido e o estado final.
fn run_frames(loaded_per_frame: &[bool]) -> (u32, AppState) {
    let mut state = AppState::default();
    let mut enter_running_count = 0;
    for &loaded in loaded_per_frame {
        if let Some(next) = transition_when_moon_profile_loaded(state, loaded) {
            state = next;
            enter_running_count += 1;
        }
    }
    (enter_running_count, state)
}

#[test]
fn moon_profile_loaded_transitions_to_running_only_once() {
    let (count, state) = run_frames(&[true; 10]);
    assert_eq!(
        count, 1,
        "OnEnter deveria disparar exatamente uma vez, mas disparou {} vezes",
        count
    );
    assert_eq!(state, AppState::Running);
}

#[test]
fn app_starts_loading_the_moon_profile() {
    assert_eq!(AppState::default(), AppState::LoadingMoonProfile);
}

#[test]
fn transition_waits_for_the_profile() {
    assert_eq!(transition_when_moon_profile_loaded(AppState::LoadingMoonProfile, false), None);
    assert_eq!(
        transition_when_moon_profile_loaded(AppState::LoadingMoonProfile, true),
        Some(AppState::Running)
    );
}

#[test]
fn transition_requests_nothing_once_running() {
    assert_eq!(transition_when_moon_profile_loaded(AppState::Running, true), None);
    assert_eq!(transition_when_moon_profile_loaded(AppState::Running, false), None);
}

#[test]
fn late_profile_enters_running_once_at_the_frame_it_loads() {
    let (count, state) = run_frames(&[false, false, false, true, false, true, true]);
    assert_eq!(count, 1);
    assert_eq!(state, AppState::Running);
}

#[test]
fn profile_never_loaded_keeps_loading() {
    let (count, state) = run_frames(&[false; 10]);
    assert_eq!(count, 0);
    assert_eq!(state, AppState::LoadingMoonProfile);
}

#[test]
fn only_europa_has_a_terrain_recipe() {
    assert!(MoonId::Europa.has_terrain_recipe());
    assert!(!MoonId::Io.has_terrain_recipe());
    assert!(!MoonId::Ganymede.has_terrain_recipe());
    assert!(!MoonId::Callisto.has_terrain_recipe());
}

#[test]
fn loader_claims_the_ron_extension() {
    assert_eq!(MoonProfileLoader.extensions(), &["ron"]);
}
