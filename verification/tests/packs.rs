use sokoban::game::level::{Level, LevelPack, LevelWithStats, Tile};

fn tiny_level() -> Level {
    let mut level = Level::new(3, 1);
    level.set_tile(0, 0, Tile::Player);
    level.set_tile(1, 0, Tile::Box);
    level.set_tile(2, 0, Tile::Goal);
    level
}

#[test]
fn new_pack_is_empty() {
    let pack = LevelPack::new("main".to_string(), "build-in:main".to_string());
    assert_eq!(pack.id(), "main");
    assert_eq!(pack.path(), "build-in:main");
    assert_eq!(pack.level_count(), 0);
    assert_eq!(pack.min_level_not_completed(), 0);
    assert_eq!(pack.level_pack_best_time_sum(), None);
    assert_eq!(pack.level_pack_best_moves_sum(), None);
}

#[test]
fn add_level_resets_sums() {
    let mut pack = LevelPack::new("p".to_string(), "p".to_string());
    pack.add_level(tiny_level());
    assert_eq!(pack.level_count(), 1);
    // The new level has no best results yet, so no sums are available.
    assert_eq!(pack.level_pack_best_time_sum(), None);
    assert_eq!(pack.level_pack_best_moves_sum(), None);
}

#[test]
fn update_stats_keeps_best_results() {
    let mut pack = LevelPack::new("p".to_string(), "p".to_string());
    pack.add_level(tiny_level());
    pack.add_level(tiny_level());

    assert_eq!(pack.update_stats(0, 5000, 12), Some(()));
    assert_eq!(pack.levels()[0].best_time(), Some(5000));
    assert_eq!(pack.levels()[0].best_moves(), Some(12));

    // A worse result changes nothing.
    assert_eq!(pack.update_stats(0, 9000, 40), Some(()));
    assert_eq!(pack.levels()[0].best_time(), Some(5000));
    assert_eq!(pack.levels()[0].best_moves(), Some(12));

    // A better result replaces the old one.
    assert_eq!(pack.update_stats(0, 2500, 8), Some(()));
    assert_eq!(pack.levels()[0].best_time(), Some(2500));
    assert_eq!(pack.levels()[0].best_moves(), Some(8));

    // Sums stay unavailable while the second level has no results ...
    assert_eq!(pack.level_pack_best_time_sum(), None);
    assert_eq!(pack.level_pack_best_moves_sum(), None);

    // ... and appear once every level has them.
    assert_eq!(pack.update_stats(1, 1500, 3), Some(()));
    assert_eq!(pack.level_pack_best_time_sum(), Some(4000));
    assert_eq!(pack.level_pack_best_moves_sum(), Some(11));

    // Out-of-range indices change nothing.
    assert_eq!(pack.update_stats(2, 1, 1), None);
}

#[test]
fn stat_sums_saturate() {
    let mut pack = LevelPack::new("p".to_string(), "p".to_string());
    pack.add_level(tiny_level());
    pack.add_level(tiny_level());
    pack.update_stats(0, u64::MAX - 10, u32::MAX - 10);
    pack.update_stats(1, 100, 100);
    assert_eq!(pack.level_pack_best_time_sum(), Some(u64::MAX));
    assert_eq!(pack.level_pack_best_moves_sum(), Some(u32::MAX));
}

#[test]
fn level_with_stats_accessors() {
    let mut lw = LevelWithStats::new(tiny_level(), None, None);
    assert_eq!(lw.best_time(), None);
    assert_eq!(lw.best_moves(), None);
    assert_eq!(lw.stats(), (None, None));
    assert_eq!(lw.level().width(), 3);

    lw.set_best_time(Some(12));
    lw.set_best_moves(Some(3));
    assert_eq!(lw.stats(), (Some(12), Some(3)));

    lw.set_stats(Some(7), None);
    assert_eq!(lw.best_time(), Some(7));
    assert_eq!(lw.best_moves(), None);

    lw.set_level(Level::new(2, 2));
    assert_eq!(lw.level().width(), 2);
    assert_eq!(lw.level().height(), 2);

    lw.level_mut().set_tile(0, 0, Tile::Wall);
    assert_eq!(lw.level().get_tile(0, 0), Some(&Tile::Wall));
}

#[test]
fn min_level_watermark() {
    let mut pack = LevelPack::new("p".to_string(), "p".to_string());
    pack.add_level(tiny_level());
    pack.set_min_level_not_completed(1);
    assert_eq!(pack.min_level_not_completed(), 1);
}

#[test]
fn levels_mut_edits_in_place() {
    let mut pack = LevelPack::new("p".to_string(), "p".to_string());
    pack.add_level(tiny_level());
    pack.levels_mut()[0].level_mut().set_tile(0, 0, Tile::Empty);
    assert_eq!(pack.levels()[0].level().get_tile(0, 0), Some(&Tile::Empty));
}

#[test]
fn error_message_carries_text() {
    let err = Tile::from_ascii(b'z').unwrap_err();
    assert_eq!(err.message(), "Invalid tile");
}
