use eigc::linea::{hash_seed, is_protagonist, linea_draw_index, LineaDraw};
use eigc::sky::{check_sky_assets_loaded, SkyAssetsLoaded};
use std::collections::HashSet;

#[test]
fn sky_waits_for_all_three_textures() {
    let mut all_loaded = false;
    assert_eq!(check_sky_assets_loaded(&mut all_loaded, true, true, false), None);
    assert!(!all_loaded);
    assert_eq!(check_sky_assets_loaded(&mut all_loaded, false, true, true), None);
    assert!(!all_loaded);
    assert_eq!(
        check_sky_assets_loaded(&mut all_loaded, true, true, true),
        Some(SkyAssetsLoaded)
    );
    assert!(all_loaded);
}

#[test]
fn sky_loaded_is_announced_only_once() {
    let mut all_loaded = false;
    let mut announcements = 0;
    for _ in 0..10 {
        if check_sky_assets_loaded(&mut all_loaded, true, true, true).is_some() {
            announcements += 1;
        }
    }
    assert_eq!(announcements, 1);
    assert!(all_loaded);
}

#[test]
fn sky_flag_stays_set_even_if_textures_unload() {
    let mut all_loaded = true;
    assert_eq!(check_sky_assets_loaded(&mut all_loaded, false, false, false), None);
    assert!(all_loaded);
}

#[test]
fn hash_seed_mixes_index_with_golden_ratio() {
    assert_eq!(hash_seed(0, 0), 0);
    assert_eq!(hash_seed(42, 0), 42);
    assert_eq!(hash_seed(0, 1), 0x9E37_79B9);
    assert_eq!(hash_seed(0, 2), 0x3C6E_F372);
    assert_eq!(hash_seed(42, 1), 42 ^ 0x9E37_79B9);
    assert_eq!(hash_seed(7, 0xFFFF_FFFF), 7 ^ 0x61C8_8647);
}

#[test]
fn draw_indices_follow_the_block_of_eight() {
    assert_eq!(linea_draw_index(0, LineaDraw::Width), 1);
    assert_eq!(linea_draw_index(0, LineaDraw::Height), 2);
    assert_eq!(linea_draw_index(0, LineaDraw::Center), 3);
    assert_eq!(linea_draw_index(0, LineaDraw::Along), 4);
    assert_eq!(linea_draw_index(0, LineaDraw::Length), 5);
    assert_eq!(linea_draw_index(0, LineaDraw::Angle), 6);
    assert_eq!(linea_draw_index(0, LineaDraw::Style), 7);
    assert_eq!(linea_draw_index(0, LineaDraw::Family), 8);
    assert_eq!(linea_draw_index(3, LineaDraw::Style), 31);
}

#[test]
fn draws_of_distinct_lineae_never_share_a_stream() {
    let draws = [
        LineaDraw::Width,
        LineaDraw::Height,
        LineaDraw::Center,
        LineaDraw::Along,
        LineaDraw::Length,
        LineaDraw::Angle,
        LineaDraw::Style,
        LineaDraw::Family,
    ];
    for seed in [1u32, 204, 999, 42] {
        let mut seen = HashSet::new();
        for linea in 0..64u32 {
            for draw in draws {
                let mixed = hash_seed(seed, linea_draw_index(linea, draw));
                assert!(seen.insert(mixed), "semente repetida em {linea}/{draw:?}");
            }
        }
    }
}

#[test]
fn first_two_lineae_are_protagonists() {
    assert!(is_protagonist(0));
    assert!(is_protagonist(1));
    assert!(!is_protagonist(2));
    assert!(!is_protagonist(7));
    assert_eq!((0..8).filter(|&index| is_protagonist(index)).count(), 2);
}
