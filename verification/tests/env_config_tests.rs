use mcdk::config::{
    default_false, default_game_mode, default_included_mod_dirs, default_port, default_true,
    default_user_name, default_world_folder_name, default_world_name, default_world_type,
    DebugOptions, ExperimentOptions, NeteaseConfig, WindowStyle,
};
use mcdk::env::{
    auto_search_mc_studio_download_game_path, get_app_data_path, get_behavior_packs_path,
    get_dependencies_packs_path, get_games_com_netease_path, get_minecraft_data_path,
    get_minecraft_worlds_path, get_resource_packs_path, join_path_str,
    mc_studio_download_game_candidates, select_mc_studio_download_game_path, Platform,
};

#[test]
fn app_data_path_per_platform() {
    assert_eq!(get_app_data_path(Platform::Linux, Some("/home/me")), "/home/me/.config");
    assert_eq!(get_app_data_path(Platform::Linux, None), "/home/default/.config");
    assert_eq!(
        get_app_data_path(Platform::MacOs, Some("/Users/me/")),
        "/Users/me/Library/Application Support"
    );
    assert_eq!(
        get_app_data_path(Platform::MacOs, None),
        "/Users/default/Library/Application Support"
    );
    assert_eq!(get_app_data_path(Platform::Windows, Some("D:/AppData")), "D:/AppData");
    assert_eq!(get_app_data_path(Platform::Windows, None), "C:/Users/default/AppData/Roaming");
}

#[test]
fn launcher_paths() {
    let l = Platform::Linux;
    let a = "/home/me/.config";
    assert_eq!(get_minecraft_data_path(l, a), "/home/me/.config/MinecraftPE_Netease");
    assert_eq!(get_games_com_netease_path(l, a), "/home/me/.config/MinecraftPE_Netease/games/com.netease");
    assert_eq!(get_minecraft_worlds_path(l, a), "/home/me/.config/MinecraftPE_Netease/minecraftWorlds");
    assert_eq!(
        get_behavior_packs_path(l, a),
        "/home/me/.config/MinecraftPE_Netease/games/com.netease/behavior_packs"
    );
    assert_eq!(
        get_resource_packs_path(l, a),
        "/home/me/.config/MinecraftPE_Netease/games/com.netease/resource_packs"
    );
    assert_eq!(
        get_dependencies_packs_path(l, a),
        "/home/me/.config/MinecraftPE_Netease/games/com.netease/_dependencies_packs"
    );
}

#[test]
fn windows_launcher_paths() {
    let w = Platform::Windows;
    let a = "C:\\Users\\me\\AppData\\Roaming";
    assert_eq!(
        get_minecraft_data_path(w, a),
        "C:\\Users\\me\\AppData\\Roaming\\MinecraftPE_Netease"
    );
    assert_eq!(
        get_behavior_packs_path(w, a),
        "C:\\Users\\me\\AppData\\Roaming\\MinecraftPE_Netease\\games/com.netease\\behavior_packs"
    );
    assert_eq!(
        get_minecraft_data_path(w, "C:/Users/default/AppData/Roaming"),
        "C:/Users/default/AppData/Roaming\\MinecraftPE_Netease"
    );
}

#[test]
fn path_joining() {
    assert_eq!(join_path_str(Platform::Linux, "a", "b"), "a/b");
    assert_eq!(join_path_str(Platform::Linux, "a/", "b"), "a/b");
    assert_eq!(join_path_str(Platform::Linux, "", "b"), "b");
    assert_eq!(join_path_str(Platform::Linux, "a\\", "b"), "a\\/b");
    assert_eq!(join_path_str(Platform::Windows, "a", "b"), "a\\b");
    assert_eq!(join_path_str(Platform::Windows, "a\\", "b"), "a\\b");
    assert_eq!(join_path_str(Platform::Windows, "a/", "b"), "a/b");
    assert_eq!(join_path_str(Platform::Windows, "C:", "b"), "C:b");
    assert_eq!(join_path_str(Platform::MacOs, "/x", "y z"), "/x/y z");
}

#[test]
fn verbatim_windows_joins() {
    let w = Platform::Windows;
    assert_eq!(join_path_str(w, r"\\?\C:\x", "games/com.netease"), r"\\?\C:\x\games\com.netease");
    assert_eq!(join_path_str(w, r"\\?\C:\x\\y\", "a"), r"\\?\C:\x\y\a");
    assert_eq!(join_path_str(w, r"\\?\C:", "a/b"), r"\\?\C:\a\b");
    assert_eq!(join_path_str(w, r"\\?\UNC\srv\share\d", "a/b"), r"\\?\UNC\srv\share\d\a\b");
    assert_eq!(join_path_str(w, r"\\?\Volume{x}\", "a"), r"\\?\Volume{x}\a");
    assert_eq!(
        get_behavior_packs_path(w, r"\\?\D:\Data"),
        r"\\?\D:\Data\MinecraftPE_Netease\games\com.netease\behavior_packs"
    );
    assert_eq!(join_path_str(Platform::Linux, r"\\?\C:\x", "a/b"), r"\\?\C:\x/a/b");
}

#[test]
fn mc_studio_search() {
    assert_eq!(auto_search_mc_studio_download_game_path(), None);
    let c = mc_studio_download_game_candidates();
    assert_eq!(c.len(), 26);
    assert_eq!(c[0], "A:MCStudioDownload/game/MinecraftPE_Netease");
    assert_eq!(c[25], "Z:MCStudioDownload/game/MinecraftPE_Netease");
    let mut flags = vec![false; 26];
    assert_eq!(select_mc_studio_download_game_path(&flags), None);
    flags[3] = true;
    flags[7] = true;
    assert_eq!(
        select_mc_studio_download_game_path(&flags),
        Some("D:MCStudioDownload/game/MinecraftPE_Netease".to_string())
    );
}

#[test]
fn config_defaults() {
    let dirs = default_included_mod_dirs();
    assert_eq!(dirs.len(), 1);
    assert_eq!(dirs[0].path, "./");
    assert!(dirs[0].hot_reload && dirs[0].enabled);
    assert_eq!(default_world_name(), "MC_DEV_WORLD");
    assert_eq!(default_world_folder_name(), "MC_DEV_WORLD");
    assert!(default_true());
    assert!(!default_false());
    assert_eq!(default_world_type(), 1);
    assert_eq!(default_game_mode(), 1);
    assert_eq!(default_user_name(), "developer");
    assert_eq!(default_port(), 5632);
    let e = ExperimentOptions::default();
    assert!(!e.data_driven_biomes && !e.data_driven_items && !e.experimental_molang_features);
    let d = DebugOptions::default();
    assert!(d.reload_key.is_empty() && !d.reload_key_global);
    let w = WindowStyle::default();
    assert!(w.fixed_size.is_none() && !w.always_on_top);
    assert!(!NeteaseConfig::default().chat_extension);
}
