//! World settings and the `level.dat` file of a new world.
//!
//! Reading and rewriting NBT is not part of this library: the edits that
//! world settings call for are computed here as a list of tags, and
//! `update_level_dat_world_data` / `update_level_dat_last_played` leave the
//! bytes as they are.

use vstd::prelude::*;

verus! {

/// Experimental features to switch on in a new world.
#[derive(Clone, Debug)]
pub struct ExperimentsOptions {
    pub enable: bool,
    pub data_driven_biomes: bool,
    pub data_driven_items: bool,
    pub experimental_molang_features: bool,
}

impl Default for ExperimentsOptions {
    fn default() -> (r: Self)
        ensures
            !r.enable,
            !r.data_driven_biomes,
            !r.data_driven_items,
            !r.experimental_molang_features,
    {
        ExperimentsOptions {
            enable: false,
            data_driven_biomes: false,
            data_driven_items: false,
            experimental_molang_features: false,
        }
    }
}

/// The settings of a world.
#[derive(Clone, Debug)]
pub struct LevelOptions {
    pub seed: Option<i64>,
    pub world_type: u32,
    pub game_mode: u32,
    pub enable_cheats: bool,
    pub keep_inventory: bool,
    pub do_weather_cycle: bool,
    pub do_daylight_cycle: bool,
    pub experiments_options: ExperimentsOptions,
}

impl Default for LevelOptions {
    /// The settings that missing fields take: no fixed seed, world type and game
    /// mode 1, cheats, kept inventory, weather and daylight cycles on, and no
    /// experiments.
    fn default() -> (r: Self)
        ensures
            r.seed is None,
            r.world_type == 1,
            r.game_mode == 1,
            r.enable_cheats,
            r.keep_inventory,
            r.do_weather_cycle,
            r.do_daylight_cycle,
            !r.experiments_options.enable,
            !r.experiments_options.data_driven_biomes,
            !r.experiments_options.data_driven_items,
            !r.experiments_options.experimental_molang_features,
    {
        LevelOptions {
            seed: None,
            world_type: default_world_type(),
            game_mode: default_game_mode(),
            enable_cheats: default_true(),
            keep_inventory: default_true(),
            do_weather_cycle: default_true(),
            do_daylight_cycle: default_true(),
            experiments_options: ExperimentsOptions::default(),
        }
    }
}

/// The world generator when none is given.
pub fn default_world_type() -> (r: u32)
    ensures
        r == 1,
{
    1
}

/// The game mode when none is given.
pub fn default_game_mode() -> (r: u32)
    ensures
        r == 1,
{
    1
}

/// The value of world switches that are on unless given otherwise.
pub fn default_true() -> (r: bool)
    ensures
        r,
{
    true
}

/// The `level.dat` of a new world: a little-endian header (storage version 10,
/// then the length of the rest) and a little-endian NBT root compound with the
/// storage version, the name `MC_DEV_WORLD`, game type and generator 1, and a
/// zero last-played time and seed.
pub open spec fn level_dat_template() -> Seq<u8> {
    seq![
        10u8, 0, 0, 0, 124, 0, 0, 0, 10, 0, 0, 3, 14, 0, 83, 116, 111, 114, 97, 103, 101, 86,
        101, 114, 115, 105, 111, 110, 10, 0, 0, 0, 8, 9, 0, 76, 101, 118, 101, 108, 78, 97, 109,
        101, 12, 0, 77, 67, 95, 68, 69, 86, 95, 87, 79, 82, 76, 68, 3, 8, 0, 71, 97, 109, 101,
        84, 121, 112, 101, 1, 0, 0, 0, 3, 9, 0, 71, 101, 110, 101, 114, 97, 116, 111, 114, 1, 0,
        0, 0, 4, 10, 0, 76, 97, 115, 116, 80, 108, 97, 121, 101, 100, 0, 0, 0, 0, 0, 0, 0, 0, 4,
        10, 0, 82, 97, 110, 100, 111, 109, 83, 101, 101, 100, 0, 0, 0, 0, 0, 0, 0, 0, 0,
    ]
}

/// Whether `b` is framed as a `level.dat`: an 8-byte header whose second
/// little-endian 32-bit word is the number of bytes after the header.
pub open spec fn is_framed_level_dat(b: Seq<u8>) -> bool {
    &&& b.len() >= 8
    &&& b[4] as int + b[5] as int * 256 + b[6] as int * 65536 + b[7] as int * 16777216 == b.len()
        - 8
}

/// The bytes of the `level.dat` template.
pub fn get_level_dat_template() -> (r: Vec<u8>)
    ensures
        r@ == level_dat_template(),
{
    let r: Vec<u8> = vec![
        10u8, 0, 0, 0, 124, 0, 0, 0, 10, 0, 0, 3, 14, 0, 83, 116, 111, 114, 97, 103, 101, 86,
        101, 114, 115, 105, 111, 110, 10, 0, 0, 0, 8, 9, 0, 76, 101, 118, 101, 108, 78, 97, 109,
        101, 12, 0, 77, 67, 95, 68, 69, 86, 95, 87, 79, 82, 76, 68, 3, 8, 0, 71, 97, 109, 101,
        84, 121, 112, 101, 1, 0, 0, 0, 3, 9, 0, 71, 101, 110, 101, 114, 97, 116, 111, 114, 1, 0,
        0, 0, 4, 10, 0, 76, 97, 115, 116, 80, 108, 97, 121, 101, 100, 0, 0, 0, 0, 0, 0, 0, 0, 4,
        10, 0, 82, 97, 110, 100, 111, 109, 83, 101, 101, 100, 0, 0, 0, 0, 0, 0, 0, 0, 0,
    ];
    assert(r@ =~= level_dat_template());
    r
}

/// Law: the template is framed as a `level.dat` and is not empty.
pub proof fn law_template_is_framed()
    ensures
        is_framed_level_dat(level_dat_template()),
        level_dat_template().len() > 0,
{
    assert(level_dat_template().len() == 132);
}

/// Applies the world settings to `level.dat` bytes. Without NBT support the
/// bytes are left as they are.
pub fn update_level_dat_world_data(
    level_dat_data: &mut Vec<u8>,
    world_name: Option<&str>,
    options: &LevelOptions,
    init: bool,
)
    ensures
        final(level_dat_data)@ == old(level_dat_data)@,
{
}

/// Sets the last-played time in `level.dat` bytes. Without NBT support the
/// bytes are left as they are.
pub fn update_level_dat_last_played(level_dat_data: &mut Vec<u8>)
    ensures
        final(level_dat_data)@ == old(level_dat_data)@,
{
}

/// The `level.dat` of a new world called `world_name` with `options`: the
/// template, with the world settings applied.
pub fn create_default_level_dat(world_name: &str, options: &LevelOptions) -> (r: Vec<u8>)
    ensures
        r@ == level_dat_template(),
{
    let mut template = get_level_dat_template();
    update_level_dat_world_data(&mut template, Some(world_name), options, true);
    template
}

/// A tag value to store in `level.dat`.
#[derive(Clone, Debug)]
pub enum NbtValue {
    Byte(i8),
    Int(i32),
    Long(i64),
    Str(String),
    /// A compound whose members are all bytes, in order.
    ByteCompound(Vec<(String, i8)>),
}

/// A tag value with its text as characters.
pub enum NbtValueView {
    Byte(i8),
    Int(i32),
    Long(i64),
    Str(Seq<char>),
    ByteCompound(Seq<(Seq<char>, i8)>),
}

impl View for NbtValue {
    type V = NbtValueView;

    open spec fn view(&self) -> NbtValueView {
        match self {
            NbtValue::Byte(b) => NbtValueView::Byte(*b),
            NbtValue::Int(i) => NbtValueView::Int(*i),
            NbtValue::Long(l) => NbtValueView::Long(*l),
            NbtValue::Str(s) => NbtValueView::Str(s@),
            NbtValue::ByteCompound(m) => NbtValueView::ByteCompound(
                m@.map_values(|e: (String, i8)| (e.0@, e.1)),
            ),
        }
    }
}

/// A boolean stored as a byte: 1 for on, 0 for off.
pub open spec fn bool_byte(b: bool) -> i8 {
    if b {
        1
    } else {
        0
    }
}

/// Appends `e` to `s` when `cond` holds.
pub open spec fn push_if<T>(s: Seq<T>, cond: bool, e: T) -> Seq<T> {
    if cond {
        s.push(e)
    } else {
        s
    }
}

/// The tags that applying `options` to `level.dat` writes, in order: the
/// last-played time `now`; the world name when one is given; when the world is
/// new (`init`) and not flat (world type 2), the seed (the configured one, else
/// `random_seed`); the game mode; for a new world the generator; the four game
/// rules as bytes; and, when experiments are enabled, an `experiments` compound
/// with the three experiment switches.
pub open spec fn world_data_edits(
    world_name: Option<Seq<char>>,
    options: LevelOptions,
    init: bool,
    now: i64,
    random_seed: i64,
) -> Seq<(Seq<char>, NbtValueView)> {
    let s0 = seq![("LastPlayed"@, NbtValueView::Long(now))];
    let s1 = match world_name {
        Some(n) => s0.push(("LevelName"@, NbtValueView::Str(n))),
        None => s0,
    };
    let seed = match options.seed {
        Some(v) => v,
        None => random_seed,
    };
    let s2 = push_if(s1, options.world_type != 2 && init, ("RandomSeed"@, NbtValueView::Long(seed)));
    let s3 = s2.push(("GameType"@, NbtValueView::Int(options.game_mode as i32)));
    let s4 = push_if(s3, init, ("Generator"@, NbtValueView::Int(options.world_type as i32)));
    let s5 = s4.push(("keepInventory"@, NbtValueView::Byte(bool_byte(options.keep_inventory)))).push(
        ("cheatsEnabled"@, NbtValueView::Byte(bool_byte(options.enable_cheats))),
    ).push(("doweathercycle"@, NbtValueView::Byte(bool_byte(options.do_weather_cycle)))).push(
        ("dodaylightcycle"@, NbtValueView::Byte(bool_byte(options.do_daylight_cycle))),
    );
    let e = options.experiments_options;
    push_if(
        s5,
        e.enable,
        (
            "experiments"@,
            NbtValueView::ByteCompound(
                seq![
                    ("data_driven_biomes"@, bool_byte(e.data_driven_biomes)),
                    ("data_driven_items"@, bool_byte(e.data_driven_items)),
                    ("experimental_molang_features"@, bool_byte(e.experimental_molang_features)),
                ],
            ),
        ),
    )
}

/// The view of a list of tag edits.
pub open spec fn edits_view(v: Seq<(String, NbtValue)>) -> Seq<(Seq<char>, NbtValueView)> {
    v.map_values(|e: (String, NbtValue)| (e.0@, e.1@))
}

/// Appends the tag `name` with value `value`.
fn push_edit(edits: &mut Vec<(String, NbtValue)>, name: &str, value: NbtValue)
    ensures
        edits_view(final(edits)@) == edits_view(old(edits)@).push((name@, value@)),
{
    edits.push((name.to_owned(), value));
    assert(edits_view(edits@) =~= edits_view(old(edits)@).push((name@, value@)));
}

/// A boolean as a byte: 1 for on, 0 for off.
pub fn bool_to_byte(b: bool) -> (r: i8)
    ensures
        r == bool_byte(b),
{
    if b {
        1
    } else {
        0
    }
}

/// The tags to write into `level.dat` for `options`, in the order they are
/// written. `now` is the current time in seconds and `random_seed` the seed to
/// use when none is configured.
pub fn level_dat_world_data_edits(
    world_name: Option<&str>,
    options: &LevelOptions,
    init: bool,
    now: i64,
    random_seed: i64,
) -> (r: Vec<(String, NbtValue)>)
    ensures
        edits_view(r@) == world_data_edits(
            match world_name {
                Some(n) => Some(n@),
                None => None,
            },
            *options,
            init,
            now,
            random_seed,
        ),
{
    let mut r: Vec<(String, NbtValue)> = Vec::new();
    assert(edits_view(r@) =~= Seq::<(Seq<char>, NbtValueView)>::empty());
    push_edit(&mut r, "LastPlayed", NbtValue::Long(now));
    match world_name {
        Some(n) => push_edit(&mut r, "LevelName", NbtValue::Str(n.to_owned())),
        None => {},
    }
    if options.world_type != 2 && init {
        let seed = match options.seed {
            Some(v) => v,
            None => random_seed,
        };
        push_edit(&mut r, "RandomSeed", NbtValue::Long(seed));
    }
    push_edit(&mut r, "GameType", NbtValue::Int(options.game_mode as i32));
    if init {
        push_edit(&mut r, "Generator", NbtValue::Int(options.world_type as i32));
    }
    push_edit(&mut r, "keepInventory", NbtValue::Byte(bool_to_byte(options.keep_inventory)));
    push_edit(&mut r, "cheatsEnabled", NbtValue::Byte(bool_to_byte(options.enable_cheats)));
    push_edit(&mut r, "doweathercycle", NbtValue::Byte(bool_to_byte(options.do_weather_cycle)));
    push_edit(&mut r, "dodaylightcycle", NbtValue::Byte(bool_to_byte(options.do_daylight_cycle)));
    let e = &options.experiments_options;
    if e.enable {
        let mut members: Vec<(String, i8)> = Vec::new();
        members.push(("data_driven_biomes".to_owned(), bool_to_byte(e.data_driven_biomes)));
        members.push(("data_driven_items".to_owned(), bool_to_byte(e.data_driven_items)));
        members.push(
            ("experimental_molang_features".to_owned(), bool_to_byte(e.experimental_molang_features)),
        );
        let ghost m = members@;
        assert(m.map_values(|x: (String, i8)| (x.0@, x.1)) =~= seq![
            ("data_driven_biomes"@, bool_byte(e.data_driven_biomes)),
            ("data_driven_items"@, bool_byte(e.data_driven_items)),
            ("experimental_molang_features"@, bool_byte(e.experimental_molang_features)),
        ]);
        push_edit(&mut r, "experiments", NbtValue::ByteCompound(members));
    }
    r
}

/// The tag that updating the last-played time writes: `LastPlayed` set to `now`.
pub fn level_dat_last_played_edits(now: i64) -> (r: Vec<(String, NbtValue)>)
    ensures
        edits_view(r@) == seq![("LastPlayed"@, NbtValueView::Long(now))],
{
    let mut r: Vec<(String, NbtValue)> = Vec::new();
    assert(edits_view(r@) =~= Seq::<(Seq<char>, NbtValueView)>::empty());
    push_edit(&mut r, "LastPlayed", NbtValue::Long(now));
    r
}

/// Law: each game rule is written from its own option, once: the edits hold
/// exactly one `keepInventory`, `cheatsEnabled`, `doweathercycle` and
/// `dodaylightcycle` tag each, carrying `keep_inventory`, `enable_cheats`,
/// `do_weather_cycle` and `do_daylight_cycle` as a byte; and the first tag is
/// `LastPlayed` with the time `now`.
pub proof fn law_game_rule_tags(
    world_name: Option<Seq<char>>,
    options: LevelOptions,
    init: bool,
    now: i64,
    random_seed: i64,
)
    ensures
        ({
            let e = world_data_edits(world_name, options, init, now, random_seed);
            &&& e[0] == ("LastPlayed"@, NbtValueView::Long(now))
            &&& exists|i: int| 0 <= i < e.len() && #[trigger] e[i].0 == "keepInventory"@
            &&& exists|i: int| 0 <= i < e.len() && #[trigger] e[i].0 == "cheatsEnabled"@
            &&& exists|i: int| 0 <= i < e.len() && #[trigger] e[i].0 == "doweathercycle"@
            &&& exists|i: int| 0 <= i < e.len() && #[trigger] e[i].0 == "dodaylightcycle"@
            &&& forall|i: int|
                0 <= i < e.len() && #[trigger] e[i].0 == "keepInventory"@ ==> e[i].1
                    == NbtValueView::Byte(bool_byte(options.keep_inventory))
            &&& forall|i: int|
                0 <= i < e.len() && #[trigger] e[i].0 == "cheatsEnabled"@ ==> e[i].1
                    == NbtValueView::Byte(bool_byte(options.enable_cheats))
            &&& forall|i: int|
                0 <= i < e.len() && #[trigger] e[i].0 == "doweathercycle"@ ==> e[i].1
                    == NbtValueView::Byte(bool_byte(options.do_weather_cycle))
            &&& forall|i: int|
                0 <= i < e.len() && #[trigger] e[i].0 == "dodaylightcycle"@ ==> e[i].1
                    == NbtValueView::Byte(bool_byte(options.do_daylight_cycle))
        }),
{
    reveal_strlit("LastPlayed");
    reveal_strlit("LevelName");
    reveal_strlit("RandomSeed");
    reveal_strlit("GameType");
    reveal_strlit("Generator");
    reveal_strlit("keepInventory");
    reveal_strlit("cheatsEnabled");
    reveal_strlit("doweathercycle");
    reveal_strlit("dodaylightcycle");
    reveal_strlit("experiments");
    let lp = "LastPlayed"@;
    let ln = "LevelName"@;
    let rs = "RandomSeed"@;
    let gt = "GameType"@;
    let gn = "Generator"@;
    let ki = "keepInventory"@;
    let ce = "cheatsEnabled"@;
    let dw = "doweathercycle"@;
    let dd = "dodaylightcycle"@;
    let ex = "experiments"@;
    assert(lp.len() == 10 && ln.len() == 9 && rs.len() == 10 && gt.len() == 8 && gn.len() == 9);
    assert(ki.len() == 13 && ce.len() == 13 && dw.len() == 14 && dd.len() == 15 && ex.len() == 11);
    assert(ki[0] != ce[0]);
    assert(ki != ce);
    let s0 = seq![(lp, NbtValueView::Long(now))];
    let s1 = match world_name {
        Some(n) => s0.push((ln, NbtValueView::Str(n))),
        None => s0,
    };
    let seed = match options.seed {
        Some(v) => v,
        None => random_seed,
    };
    let s2 = push_if(s1, options.world_type != 2 && init, (rs, NbtValueView::Long(seed)));
    let s3 = s2.push((gt, NbtValueView::Int(options.game_mode as i32)));
    let s4 = push_if(s3, init, (gn, NbtValueView::Int(options.world_type as i32)));
    let s5 = s4.push((ki, NbtValueView::Byte(bool_byte(options.keep_inventory)))).push(
        (ce, NbtValueView::Byte(bool_byte(options.enable_cheats))),
    ).push((dw, NbtValueView::Byte(bool_byte(options.do_weather_cycle)))).push(
        (dd, NbtValueView::Byte(bool_byte(options.do_daylight_cycle))),
    );
    let e = world_data_edits(world_name, options, init, now, random_seed);
    assert(s0[0].0 == lp);
    assert(forall|i: int| 0 <= i < s1.len() ==> #[trigger] s1[i].0 == lp || s1[i].0 == ln);
    assert(forall|i: int|
        0 <= i < s2.len() ==> #[trigger] s2[i].0 == lp || s2[i].0 == ln || s2[i].0 == rs);
    assert(forall|i: int|
        0 <= i < s3.len() ==> #[trigger] s3[i].0 == lp || s3[i].0 == ln || s3[i].0 == rs
            || s3[i].0 == gt);
    assert(forall|i: int|
        0 <= i < s4.len() ==> #[trigger] s4[i].0 == lp || s4[i].0 == ln || s4[i].0 == rs
            || s4[i].0 == gt || s4[i].0 == gn);
    let k = s4.len() as int;
    assert(s5.len() == k + 4);
    assert(s5[k].0 == ki && s5[k + 1].0 == ce && s5[k + 2].0 == dw && s5[k + 3].0 == dd);
    assert(forall|i: int| 0 <= i < k ==> #[trigger] s5[i] == s4[i]);
    assert(forall|i: int| 0 <= i < s5.len() ==> #[trigger] e[i] == s5[i]);
    assert(e.len() == s5.len() || (e.len() == s5.len() + 1 && e[e.len() - 1].0 == ex));
    assert(e[0] == s5[0]);
    assert(e[k].0 == ki && e[k + 1].0 == ce && e[k + 2].0 == dw && e[k + 3].0 == dd);
}

} // verus!
