//! The development configuration and the values its missing fields take.

use vstd::prelude::*;

verus! {

/// A directory of mods to load into the development world.
#[derive(Clone, Debug)]
pub struct ModDirConfig {
    pub path: String,
    pub hot_reload: bool,
    pub enabled: bool,
}

/// Experimental game features to switch on in the world.
#[derive(Clone, Debug)]
pub struct ExperimentOptions {
    pub data_driven_biomes: bool,
    pub data_driven_items: bool,
    pub experimental_molang_features: bool,
}

impl Default for ExperimentOptions {
    fn default() -> (r: Self)
        ensures
            !r.data_driven_biomes,
            !r.data_driven_items,
            !r.experimental_molang_features,
    {
        ExperimentOptions {
            data_driven_biomes: false,
            data_driven_items: false,
            experimental_molang_features: false,
        }
    }
}

/// The skin of the development player.
#[derive(Clone, Debug)]
pub struct SkinInfo {
    pub slim: bool,
    pub skin: String,
}

/// The connection of the ModPC debugger.
#[derive(Clone, Debug)]
pub struct ModpcDebuggerConfig {
    pub enabled: bool,
    pub port: u16,
}

/// Keys that reload parts of the running game.
#[derive(Clone, Debug)]
pub struct DebugOptions {
    pub reload_key: String,
    pub reload_world_key: String,
    pub reload_addon_key: String,
    pub reload_shaders_key: String,
    pub reload_key_global: bool,
}

impl Default for DebugOptions {
    fn default() -> (r: Self)
        ensures
            r.reload_key@.len() == 0,
            r.reload_world_key@.len() == 0,
            r.reload_addon_key@.len() == 0,
            r.reload_shaders_key@.len() == 0,
            !r.reload_key_global,
    {
        DebugOptions {
            reload_key: String::new(),
            reload_world_key: String::new(),
            reload_addon_key: String::new(),
            reload_shaders_key: String::new(),
            reload_key_global: false,
        }
    }
}

/// How the game window looks and where it stands.
#[derive(Clone, Debug)]
pub struct WindowStyle {
    pub always_on_top: bool,
    pub hide_title_bar: bool,
    pub title_bar_color: Option<Vec<u8>>,
    pub fixed_size: Option<Vec<u32>>,
    pub fixed_position: Option<Vec<i32>>,
    pub lock_corner: Option<u8>,
}

impl Default for WindowStyle {
    fn default() -> (r: Self)
        ensures
            !r.always_on_top,
            !r.hide_title_bar,
            r.title_bar_color is None,
            r.fixed_size is None,
            r.fixed_position is None,
            r.lock_corner is None,
    {
        WindowStyle {
            always_on_top: false,
            hide_title_bar: false,
            title_bar_color: None,
            fixed_size: None,
            fixed_position: None,
            lock_corner: None,
        }
    }
}

/// NetEase-specific switches.
#[derive(Clone, Debug)]
pub struct NeteaseConfig {
    pub chat_extension: bool,
}

impl Default for NeteaseConfig {
    fn default() -> (r: Self)
        ensures
            !r.chat_extension,
    {
        NeteaseConfig { chat_extension: false }
    }
}

/// The whole development configuration.
#[derive(Clone, Debug)]
pub struct Config {
    pub included_mod_dirs: Vec<ModDirConfig>,
    pub game_executable_path: String,
    pub world_seed: Option<i64>,
    pub reset_world: bool,
    pub world_name: String,
    pub world_folder_name: String,
    pub auto_join_game: bool,
    pub include_debug_mod: bool,
    pub auto_hot_reload_mods: bool,
    pub world_type: u32,
    pub game_mode: u32,
    pub enable_cheats: bool,
    pub keep_inventory: bool,
    pub do_weather_cycle: bool,
    pub do_daylight_cycle: bool,
    pub experiment_options: ExperimentOptions,
    pub user_name: String,
    pub skin_info: Option<SkinInfo>,
    pub modpc_debugger: Option<ModpcDebuggerConfig>,
    pub debug_options: Option<DebugOptions>,
    pub window_style: Option<WindowStyle>,
    pub netease_config: Option<NeteaseConfig>,
}

/// The mod directories when none are configured: the current directory,
/// enabled and hot-reloaded.
pub fn default_included_mod_dirs() -> (r: Vec<ModDirConfig>)
    ensures
        r@.len() == 1,
        r@[0].path@ == "./"@,
        r@[0].hot_reload,
        r@[0].enabled,
{
    let mut r: Vec<ModDirConfig> = Vec::new();
    r.push(ModDirConfig { path: "./".to_owned(), hot_reload: true, enabled: true });
    r
}

/// The world name when none is configured.
pub fn default_world_name() -> (r: String)
    ensures
        r@ == "MC_DEV_WORLD"@,
{
    "MC_DEV_WORLD".to_owned()
}

/// The world folder name when none is configured.
pub fn default_world_folder_name() -> (r: String)
    ensures
        r@ == "MC_DEV_WORLD"@,
{
    "MC_DEV_WORLD".to_owned()
}

/// The value of switches that are on unless configured otherwise.
pub fn default_true() -> (r: bool)
    ensures
        r,
{
    true
}

/// The value of switches that are off unless configured otherwise.
pub fn default_false() -> (r: bool)
    ensures
        !r,
{
    false
}

/// The world generator when none is configured.
pub fn default_world_type() -> (r: u32)
    ensures
        r == 1,
{
    1
}

/// The game mode when none is configured.
pub fn default_game_mode() -> (r: u32)
    ensures
        r == 1,
{
    1
}

/// The player name when none is configured.
pub fn default_user_name() -> (r: String)
    ensures
        r@ == "developer"@,
{
    "developer".to_owned()
}

/// The debugger port when none is configured.
pub fn default_port() -> (r: u16)
    ensures
        r == 5632,
{
    5632
}

} // verus!
