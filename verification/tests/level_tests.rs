use mcdk::level::{
    create_default_level_dat, get_level_dat_template, level_dat_last_played_edits,
    level_dat_world_data_edits, update_level_dat_last_played, update_level_dat_world_data,
    ExperimentsOptions, LevelOptions, NbtValue,
};

#[test]
fn test_level_dat_creation() {
    let options = LevelOptions {
        seed: Some(12345),
        world_type: 1,
        game_mode: 1,
        ..Default::default()
    };

    let data = create_default_level_dat("TestWorld", &options);
    assert!(!data.is_empty());
}

#[test]
fn template_is_framed() {
    let t = get_level_dat_template();
    let len = u32::from_le_bytes([t[4], t[5], t[6], t[7]]) as usize;
    assert_eq!(len, t.len() - 8);
    assert_eq!(create_default_level_dat("X", &LevelOptions::default()), t);
}

#[test]
fn updates_leave_bytes_alone_without_nbt() {
    let mut data = vec![1u8, 2, 3];
    update_level_dat_world_data(&mut data, Some("W"), &LevelOptions::default(), false);
    update_level_dat_last_played(&mut data);
    assert_eq!(data, vec![1u8, 2, 3]);
}

#[test]
fn default_level_options() {
    let o = LevelOptions::default();
    assert_eq!(o.seed, None);
    assert_eq!((o.world_type, o.game_mode), (1, 1));
    assert!(o.enable_cheats && o.keep_inventory && o.do_weather_cycle && o.do_daylight_cycle);
    assert!(!o.experiments_options.enable);
}

fn names(edits: &[(String, NbtValue)]) -> Vec<&str> {
    edits.iter().map(|(n, _)| n.as_str()).collect()
}

#[test]
fn new_world_edits() {
    let options = LevelOptions {
        seed: Some(12345),
        world_type: 1,
        game_mode: 0,
        enable_cheats: false,
        ..Default::default()
    };
    let e = level_dat_world_data_edits(Some("TestWorld"), &options, true, 1700000000, 99);
    assert_eq!(
        names(&e),
        vec![
            "LastPlayed", "LevelName", "RandomSeed", "GameType", "Generator", "keepInventory",
            "cheatsEnabled", "doweathercycle", "dodaylightcycle"
        ]
    );
    assert!(matches!(e[0].1, NbtValue::Long(1700000000)));
    assert!(matches!(&e[1].1, NbtValue::Str(s) if s == "TestWorld"));
    assert!(matches!(e[2].1, NbtValue::Long(12345)));
    assert!(matches!(e[3].1, NbtValue::Int(0)));
    assert!(matches!(e[4].1, NbtValue::Int(1)));
    assert!(matches!(e[5].1, NbtValue::Byte(1)));
    assert!(matches!(e[6].1, NbtValue::Byte(0)));
}

#[test]
fn random_seed_used_without_configured_seed() {
    let e = level_dat_world_data_edits(None, &LevelOptions::default(), true, 5, -42);
    assert_eq!(names(&e)[1], "RandomSeed");
    assert!(matches!(e[1].1, NbtValue::Long(-42)));
}

#[test]
fn flat_or_existing_world_keeps_seed() {
    let flat = LevelOptions { world_type: 2, ..Default::default() };
    let e = level_dat_world_data_edits(None, &flat, true, 5, 7);
    assert!(!names(&e).contains(&"RandomSeed"));
    assert!(names(&e).contains(&"Generator"));
    let e = level_dat_world_data_edits(Some("W"), &LevelOptions::default(), false, 5, 7);
    assert!(!names(&e).contains(&"RandomSeed"));
    assert!(!names(&e).contains(&"Generator"));
}

#[test]
fn experiments_compound() {
    let options = LevelOptions {
        experiments_options: ExperimentsOptions {
            enable: true,
            data_driven_biomes: true,
            data_driven_items: false,
            experimental_molang_features: true,
        },
        ..Default::default()
    };
    let e = level_dat_world_data_edits(None, &options, false, 0, 0);
    let (name, value) = e.last().unwrap();
    assert_eq!(name, "experiments");
    match value {
        NbtValue::ByteCompound(m) => {
            assert_eq!(
                m,
                &vec![
                    ("data_driven_biomes".to_string(), 1i8),
                    ("data_driven_items".to_string(), 0i8),
                    ("experimental_molang_features".to_string(), 1i8)
                ]
            );
        }
        _ => panic!("experiments is not a compound"),
    }
}

#[test]
fn game_mode_is_written_as_wrapped_int() {
    let options = LevelOptions { game_mode: 4294967295, ..Default::default() };
    let e = level_dat_world_data_edits(None, &options, false, 0, 0);
    assert!(matches!(e[1].1, NbtValue::Int(-1)));
}

#[test]
fn last_played_edit() {
    let e = level_dat_last_played_edits(123);
    assert_eq!(e.len(), 1);
    assert_eq!(e[0].0, "LastPlayed");
    assert!(matches!(e[0].1, NbtValue::Long(123)));
}
