//! Where the NetEase Minecraft launcher keeps its data.
//!
//! Paths are held as text and joined as `PathBuf::push` joins a plain relative
//! piece on each platform. The platform's separator (`\\` on Windows, `/`
//! elsewhere) is put between the two unless the base is empty, already ends in a
//! separator (`/`, and on Windows also `\\`), or, on Windows, is a bare drive
//! such as `C:`. A verbatim Windows base (`\\?\...`) is rebuilt from its
//! components, as `PathBuf::push` rebuilds it: its prefix is kept, empty
//! components are dropped, and every component, the added ones included, is
//! joined with `\\`.

use vstd::prelude::*;
use crate::text::{push_char, str_chars};

verus! {

/// The operating systems on which the launcher's data directory is known.
#[derive(Clone, Copy, Debug, PartialEq, Eq, Structural)]
pub enum Platform {
    Windows,
    MacOs,
    Linux,
}

/// Whether `c` separates path components on `platform`.
pub open spec fn is_separator(platform: Platform, c: char) -> bool {
    c == '/' || (platform == Platform::Windows && c == '\\')
}

/// The separator that joining puts between two pieces on `platform`.
pub open spec fn separator(platform: Platform) -> char {
    if platform == Platform::Windows {
        '\\'
    } else {
        '/'
    }
}

/// Whether `c` is an ASCII letter.
pub open spec fn is_ascii_letter(c: char) -> bool {
    ('a' <= c && c <= 'z') || ('A' <= c && c <= 'Z')
}

/// Whether `p` is a bare Windows drive such as `C:`.
pub open spec fn is_bare_drive(p: Seq<char>) -> bool {
    p.len() == 2 && is_ascii_letter(p[0]) && p[1] == ':'
}

/// Whether `c` belongs to a path component on `platform`, other than a dot.
pub open spec fn is_word_char(platform: Platform, c: char) -> bool {
    !is_separator(platform, c) && c != '.'
}

/// From index `i` on, no separator of `s` starts or ends it or follows another,
/// and every dot has a neighbour that is neither a dot nor a separator (so no
/// component is empty, `.` or `..`).
pub open spec fn plain_from(platform: Platform, s: Seq<char>, i: int) -> bool
    decreases s.len() - i,
{
    if i < 0 || i >= s.len() {
        true
    } else {
        &&& (is_separator(platform, s[i]) ==> 0 < i && i + 1 < s.len() && !is_separator(
            platform,
            s[i + 1],
        ))
        &&& (s[i] == '.' ==> (i > 0 && is_word_char(platform, s[i - 1])) || (i + 1 < s.len()
            && is_word_char(platform, s[i + 1])))
        &&& plain_from(platform, s, i + 1)
    }
}

/// Whether `rel` is a plain relative piece on `platform`: not empty, made of
/// non-empty components other than `.` and `..`, with no leading or trailing
/// separator, and, on Windows, naming no drive.
pub open spec fn is_relative_piece(platform: Platform, rel: Seq<char>) -> bool {
    &&& rel.len() > 0
    &&& plain_from(platform, rel, 0)
    &&& !(platform == Platform::Windows && rel.len() >= 2 && rel[1] == ':')
}

/// Whether `p` is a verbatim Windows path: it starts with `\\?\`.
pub open spec fn is_verbatim(p: Seq<char>) -> bool {
    &&& p.len() >= 4
    &&& p[0] == '\\'
    &&& p[1] == '\\'
    &&& p[2] == '?'
    &&& p[3] == '\\'
}

/// The index of the first `\\` of `s` at or after `i`, or the length of `s`.
pub open spec fn next_backslash(s: Seq<char>, i: int) -> int
    decreases s.len() - i,
{
    if i < 0 || i >= s.len() {
        s.len() as int
    } else if s[i] == '\\' {
        i
    } else {
        next_backslash(s, i + 1)
    }
}

/// The length of the prefix of a verbatim path: `\\?\UNC\server\share`,
/// `\\?\C:` (a drive letter followed by the end or `\\`), or `\\?\name`.
pub open spec fn verbatim_prefix_len(p: Seq<char>) -> int {
    if p.len() >= 8 && p[4] == 'U' && p[5] == 'N' && p[6] == 'C' && (p[7] == '\\' || p[7]
        == '/') {
        let server_end = next_backslash(p, 8);
        if server_end < p.len() {
            let share_end = next_backslash(p, server_end + 1);
            if share_end > server_end + 1 {
                share_end
            } else {
                server_end
            }
        } else {
            server_end
        }
    } else if p.len() >= 6 && is_ascii_letter(p[4]) && p[5] == ':' && (p.len() == 6 || p[6]
        == '\\') {
        6
    } else {
        next_backslash(p, 4)
    }
}

/// Each non-empty `\\`-separated component of `s`, preceded by `\\`.
pub open spec fn squeeze_components(s: Seq<char>) -> Seq<char>
    decreases s.len(),
{
    if s.len() == 0 {
        Seq::<char>::empty()
    } else {
        let t = s.drop_last();
        let c = s.last();
        if c == '\\' {
            squeeze_components(t)
        } else if t.len() == 0 || t.last() == '\\' {
            squeeze_components(t) + seq!['\\', c]
        } else {
            squeeze_components(t).push(c)
        }
    }
}

/// `/` turned into `\\`.
pub open spec fn backslash_of(c: char) -> char {
    if c == '/' {
        '\\'
    } else {
        c
    }
}

/// `base` joined with the plain relative piece `rel` on `platform`.
pub open spec fn join_path(platform: Platform, base: Seq<char>, rel: Seq<char>) -> Seq<char> {
    if platform == Platform::Windows && is_verbatim(base) {
        let n = verbatim_prefix_len(base);
        base.take(n) + squeeze_components(base.skip(n)) + seq!['\\'] + rel.map_values(
            |c: char| backslash_of(c),
        )
    } else if base.len() == 0 || is_separator(platform, base.last()) || (platform
        == Platform::Windows && is_bare_drive(base)) {
        base + rel
    } else {
        base.push(separator(platform)) + rel
    }
}

/// The index of the first `\\` of `b` at or after `i`, or the length of `b`.
fn find_backslash(b: &Vec<char>, i: usize) -> (r: usize)
    requires
        i <= b@.len(),
    ensures
        r as int == next_backslash(b@, i as int),
        i <= r <= b@.len(),
{
    let mut j = i;
    while j < b.len()
        invariant
            i <= j <= b@.len(),
            next_backslash(b@, i as int) == next_backslash(b@, j as int),
        decreases b@.len() - j,
    {
        if b[j] == '\\' {
            return j;
        }
        j = j + 1;
    }
    j
}

/// The length of the prefix of the verbatim path `b`.
fn verbatim_prefix_length(b: &Vec<char>) -> (r: usize)
    requires
        is_verbatim(b@),
    ensures
        r as int == verbatim_prefix_len(b@),
        r <= b@.len(),
{
    let n = b.len();
    if n >= 8 && b[4] == 'U' && b[5] == 'N' && b[6] == 'C' && (b[7] == '\\' || b[7] == '/') {
        let server_end = find_backslash(b, 8);
        if server_end < n {
            let share_end = find_backslash(b, server_end + 1);
            if share_end > server_end + 1 {
                share_end
            } else {
                server_end
            }
        } else {
            server_end
        }
    } else if n >= 6 && (('a' <= b[4] && b[4] <= 'z') || ('A' <= b[4] && b[4] <= 'Z')) && b[5]
        == ':' && (n == 6 || b[6] == '\\') {
        6
    } else {
        find_backslash(b, 4)
    }
}

/// The verbatim base `b` rebuilt from its components, with `rel` added.
fn join_verbatim(b: &Vec<char>, rel: &Vec<char>) -> (r: String)
    requires
        is_verbatim(b@),
    ensures
        r@ == ({
            let n = verbatim_prefix_len(b@);
            b@.take(n) + squeeze_components(b@.skip(n)) + seq!['\\'] + rel@.map_values(
                |c: char| backslash_of(c),
            )
        }),
{
    let p = verbatim_prefix_length(b);
    let mut r = String::new();
    let mut i: usize = 0;
    while i < p
        invariant
            i <= p <= b@.len(),
            r@ == b@.take(i as int),
        decreases p - i,
    {
        assert(b@.take(i + 1) =~= b@.take(i as int).push(b@[i as int]));
        push_char(&mut r, b[i]);
        i = i + 1;
    }
    let ghost rest = b@.skip(p as int);
    assert(rest.take(0) =~= Seq::<char>::empty());
    let mut j: usize = p;
    while j < b.len()
        invariant
            p <= j <= b@.len(),
            rest == b@.skip(p as int),
            r@ == b@.take(p as int) + squeeze_components(rest.take(j - p)),
        decreases b@.len() - j,
    {
        let c = b[j];
        let ghost k = j - p;
        let ghost t = rest.take(k);
        assert(rest.take(k + 1).drop_last() =~= t);
        assert(rest.take(k + 1).last() == c);
        if c == '\\' {
        } else if j == p || b[j - 1] == '\\' {
            proof {
                if k > 0 {
                    assert(t.last() == b@[j - 1]);
                }
            }
            push_char(&mut r, '\\');
            push_char(&mut r, c);
            assert(r@ =~= b@.take(p as int) + squeeze_components(rest.take(k + 1)));
        } else {
            assert(t.last() == b@[j - 1]);
            push_char(&mut r, c);
            assert(r@ =~= b@.take(p as int) + squeeze_components(rest.take(k + 1)));
        }
        j = j + 1;
    }
    assert(rest.take(b@.len() - p) =~= rest);
    push_char(&mut r, '\\');
    let ghost mapped = rel@.map_values(|c: char| backslash_of(c));
    let ghost front = r@;
    let mut m: usize = 0;
    while m < rel.len()
        invariant
            m <= rel@.len(),
            mapped == rel@.map_values(|c: char| backslash_of(c)),
            r@ == front + mapped.take(m as int),
        decreases rel@.len() - m,
    {
        let c = rel[m];
        assert(mapped.take(m + 1) =~= mapped.take(m as int).push(backslash_of(c)));
        if c == '/' {
            push_char(&mut r, '\\');
        } else {
            push_char(&mut r, c);
        }
        m = m + 1;
    }
    assert(mapped.take(rel@.len() as int) =~= mapped);
    r
}

/// `base` joined with the plain relative piece `rel` on `platform`.
pub fn join_path_str(platform: Platform, base: &str, rel: &str) -> (r: String)
    requires
        is_relative_piece(platform, rel@),
    ensures
        r@ == join_path(platform, base@, rel@),
{
    let b = str_chars(base);
    let n = b.len();
    let windows = match platform {
        Platform::Windows => true,
        _ => false,
    };
    if windows && n >= 4 && b[0] == '\\' && b[1] == '\\' && b[2] == '?' && b[3] == '\\' {
        let rel_chars = str_chars(rel);
        return join_verbatim(&b, &rel_chars);
    }
    let ends_in_separator = n > 0 && (b[n - 1] == '/' || (windows && b[n - 1] == '\\'));
    let bare_drive = windows && n == 2 && b[1] == ':' && (('a' <= b[0] && b[0] <= 'z') || ('A'
        <= b[0] && b[0] <= 'Z'));
    let mut r = base.to_owned();
    if !(n == 0 || ends_in_separator || bare_drive) {
        push_char(&mut r, if windows { '\\' } else { '/' });
    }
    r.append(rel);
    r
}

/// The application data directory: on Windows the value of `APPDATA`, elsewhere
/// the configuration directory under `HOME`, with a fixed default when the
/// variable is not set.
pub open spec fn app_data_path(platform: Platform, env_value: Option<Seq<char>>) -> Seq<char> {
    match platform {
        Platform::Windows => match env_value {
            Some(v) => v,
            None => "C:/Users/default/AppData/Roaming"@,
        },
        Platform::MacOs => match env_value {
            Some(h) => join_path(Platform::MacOs, h, "Library/Application Support"@),
            None => "/Users/default/Library/Application Support"@,
        },
        Platform::Linux => match env_value {
            Some(h) => join_path(Platform::Linux, h, ".config"@),
            None => "/home/default/.config"@,
        },
    }
}

/// The application data directory on `platform`, given the value of the
/// environment variable that names it there (`APPDATA` on Windows, `HOME`
/// elsewhere), or `None` when that variable is not set.
pub fn get_app_data_path(platform: Platform, env_value: Option<&str>) -> (r: String)
    ensures
        r@ == app_data_path(platform, match env_value {
            Some(v) => Some(v@),
            None => None,
        }),
{
    match platform {
        Platform::Windows => match env_value {
            Some(v) => v.to_owned(),
            None => "C:/Users/default/AppData/Roaming".to_owned(),
        },
        Platform::MacOs => match env_value {
            Some(h) => {
                proof {
                    reveal_strlit("Library/Application Support");
        reveal_with_fuel(plain_from, 30);
                }
                join_path_str(Platform::MacOs, h, "Library/Application Support")
            },
            None => "/Users/default/Library/Application Support".to_owned(),
        },
        Platform::Linux => match env_value {
            Some(h) => {
                proof {
                    reveal_strlit(".config");
        reveal_with_fuel(plain_from, 30);
                }
                join_path_str(Platform::Linux, h, ".config")
            },
            None => "/home/default/.config".to_owned(),
        },
    }
}

/// The launcher's data directory under the application data directory.
pub open spec fn minecraft_data_path(platform: Platform, app_data: Seq<char>) -> Seq<char> {
    join_path(platform, app_data, "MinecraftPE_Netease"@)
}

/// The `games/com.netease` directory of the launcher's data.
pub open spec fn games_com_netease_path(platform: Platform, app_data: Seq<char>) -> Seq<char> {
    join_path(platform, minecraft_data_path(platform, app_data), "games/com.netease"@)
}

/// The launcher's data directory, `MinecraftPE_Netease` under `app_data_path`.
pub fn get_minecraft_data_path(platform: Platform, app_data_path: &str) -> (r: String)
    ensures
        r@ == minecraft_data_path(platform, app_data_path@),
{
    proof {
        reveal_strlit("MinecraftPE_Netease");
        reveal_with_fuel(plain_from, 30);
    }
    join_path_str(platform, app_data_path, "MinecraftPE_Netease")
}

/// `games/com.netease` under the launcher's data directory.
pub fn get_games_com_netease_path(platform: Platform, app_data_path: &str) -> (r: String)
    ensures
        r@ == games_com_netease_path(platform, app_data_path@),
{
    let data = get_minecraft_data_path(platform, app_data_path);
    proof {
        reveal_strlit("games/com.netease");
        reveal_with_fuel(plain_from, 30);
    }
    join_path_str(platform, data.as_str(), "games/com.netease")
}

/// The worlds directory, `minecraftWorlds` under the launcher's data directory.
pub fn get_minecraft_worlds_path(platform: Platform, app_data_path: &str) -> (r: String)
    ensures
        r@ == join_path(platform, minecraft_data_path(platform, app_data_path@), "minecraftWorlds"@),
{
    let data = get_minecraft_data_path(platform, app_data_path);
    proof {
        reveal_strlit("minecraftWorlds");
        reveal_with_fuel(plain_from, 30);
    }
    join_path_str(platform, data.as_str(), "minecraftWorlds")
}

/// The runtime behavior packs, `behavior_packs` under `games/com.netease`.
pub fn get_behavior_packs_path(platform: Platform, app_data_path: &str) -> (r: String)
    ensures
        r@ == join_path(platform, games_com_netease_path(platform, app_data_path@), "behavior_packs"@),
{
    let games = get_games_com_netease_path(platform, app_data_path);
    proof {
        reveal_strlit("behavior_packs");
        reveal_with_fuel(plain_from, 30);
    }
    join_path_str(platform, games.as_str(), "behavior_packs")
}

/// The runtime resource packs, `resource_packs` under `games/com.netease`.
pub fn get_resource_packs_path(platform: Platform, app_data_path: &str) -> (r: String)
    ensures
        r@ == join_path(platform, games_com_netease_path(platform, app_data_path@), "resource_packs"@),
{
    let games = get_games_com_netease_path(platform, app_data_path);
    proof {
        reveal_strlit("resource_packs");
        reveal_with_fuel(plain_from, 30);
    }
    join_path_str(platform, games.as_str(), "resource_packs")
}

/// The dependency packs, `_dependencies_packs` under `games/com.netease`.
pub fn get_dependencies_packs_path(platform: Platform, app_data_path: &str) -> (r: String)
    ensures
        r@ == join_path(
            platform,
            games_com_netease_path(platform, app_data_path@),
            "_dependencies_packs"@,
        ),
{
    let games = get_games_com_netease_path(platform, app_data_path);
    proof {
        reveal_strlit("_dependencies_packs");
        reveal_with_fuel(plain_from, 30);
    }
    join_path_str(platform, games.as_str(), "_dependencies_packs")
}

/// Joining onto a base that is not a verbatim Windows path keeps the base as a
/// prefix of the result.
proof fn lemma_join_extends(platform: Platform, base: Seq<char>, rel: Seq<char>)
    requires
        !(platform == Platform::Windows && is_verbatim(base)),
    ensures
        base.is_prefix_of(join_path(platform, base, rel)),
{
    assert(join_path(platform, base, rel).subrange(0, base.len() as int) =~= base);
}

/// Law: the runtime pack directories and the worlds directory lie inside the
/// launcher's data directory, and the pack directories inside
/// `games/com.netease`; on Windows, for an application data directory of at
/// least four characters that is not a verbatim path.
pub proof fn law_launcher_dirs_nest(platform: Platform, app_data: Seq<char>)
    requires
        platform != Platform::Windows || (app_data.len() >= 4 && !is_verbatim(app_data)),
    ensures
        minecraft_data_path(platform, app_data).is_prefix_of(
            games_com_netease_path(platform, app_data),
        ),
        minecraft_data_path(platform, app_data).is_prefix_of(
            join_path(platform, minecraft_data_path(platform, app_data), "minecraftWorlds"@),
        ),
        games_com_netease_path(platform, app_data).is_prefix_of(
            join_path(platform, games_com_netease_path(platform, app_data), "behavior_packs"@),
        ),
        games_com_netease_path(platform, app_data).is_prefix_of(
            join_path(platform, games_com_netease_path(platform, app_data), "resource_packs"@),
        ),
        games_com_netease_path(platform, app_data).is_prefix_of(
            join_path(platform, games_com_netease_path(platform, app_data), "_dependencies_packs"@),
        ),
{
    let data = minecraft_data_path(platform, app_data);
    let games = games_com_netease_path(platform, app_data);
    lemma_join_extends(platform, app_data, "MinecraftPE_Netease"@);
    if platform == Platform::Windows {
        assert(data.take(app_data.len() as int) =~= app_data);
        assert(data[0] == app_data[0] && data[1] == app_data[1] && data[2] == app_data[2]
            && data[3] == app_data[3]);
        assert(!is_verbatim(data));
    }
    lemma_join_extends(platform, data, "games/com.netease"@);
    if platform == Platform::Windows {
        assert(games.take(data.len() as int) =~= data);
        assert(games[0] == data[0] && games[1] == data[1] && games[2] == data[2] && games[3]
            == data[3]);
        assert(!is_verbatim(games));
    }
    lemma_join_extends(platform, data, "games/com.netease"@);
    lemma_join_extends(platform, data, "minecraftWorlds"@);
    lemma_join_extends(platform, games, "behavior_packs"@);
    lemma_join_extends(platform, games, "resource_packs"@);
    lemma_join_extends(platform, games, "_dependencies_packs"@);
}

/// The game directory of MC Studio downloads, relative to a drive.
pub open spec fn mc_studio_game_dir() -> Seq<char> {
    "MCStudioDownload/game/MinecraftPE_Netease"@
}

/// The place where MC Studio would have put the game on drive `letter`: the
/// Windows join of `X:` with the game directory. No separator follows a bare
/// drive, so the path is drive-relative: `C:MCStudioDownload/game/MinecraftPE_Netease`.
pub open spec fn mc_studio_candidate(letter: char) -> Seq<char> {
    seq![letter, ':'] + mc_studio_game_dir()
}

/// The drive letters `A` to `Z`, in order.
pub open spec fn drive_letter(i: int) -> char {
    ((65 + i) as u32) as char
}

/// Law: each candidate is the Windows join of its bare drive with the game directory.
pub proof fn law_candidate_is_drive_join(i: int)
    requires
        0 <= i < 26,
    ensures
        mc_studio_candidate(drive_letter(i)) == join_path(
            Platform::Windows,
            seq![drive_letter(i), ':'],
            mc_studio_game_dir(),
        ),
{
    assert(is_bare_drive(seq![drive_letter(i), ':']));
}

/// The places to look for an MC Studio download of the game, one per drive
/// letter from `A` to `Z`, in that order.
pub fn mc_studio_download_game_candidates() -> (r: Vec<String>)
    ensures
        r@.len() == 26,
        forall|i: int| 0 <= i < 26 ==> #[trigger] r@[i]@ == mc_studio_candidate(drive_letter(i)),
{
    let mut r: Vec<String> = Vec::new();
    let mut i: u32 = 0;
    while i < 26
        invariant
            i <= 26,
            r@.len() == i,
            forall|j: int| 0 <= j < i ==> #[trigger] r@[j]@ == mc_studio_candidate(drive_letter(j)),
        decreases 26 - i,
    {
        let letter = ((65 + i) as u8) as char;
        let mut s = String::new();
        crate::text::push_char(&mut s, letter);
        crate::text::push_char(&mut s, ':');
        s.append("MCStudioDownload/game/MinecraftPE_Netease");
        assert(s@ =~= mc_studio_candidate(drive_letter(i as int)));
        r.push(s);
        i = i + 1;
    }
    r
}

/// The MC Studio game directory to use, given for each drive from `A` to `Z`
/// whether its candidate directory holds a game build (a subdirectory with
/// `Minecraft.Windows.exe`): the candidate of the first such drive, or `None`.
pub fn select_mc_studio_download_game_path(holds_game: &Vec<bool>) -> (r: Option<String>)
    requires
        holds_game@.len() == 26,
    ensures
        match r {
            Some(p) => exists|i: int|
                0 <= i < 26 && holds_game@[i] && (forall|j: int| 0 <= j < i ==> !holds_game@[j])
                    && p@ == mc_studio_candidate(drive_letter(i)),
            None => forall|i: int| 0 <= i < 26 ==> !holds_game@[i],
        },
{
    let candidates = mc_studio_download_game_candidates();
    let mut i: usize = 0;
    while i < 26
        invariant
            i <= 26,
            holds_game@.len() == 26,
            candidates@.len() == 26,
            forall|k: int| 0 <= k < 26 ==> #[trigger] candidates@[k]@ == mc_studio_candidate(drive_letter(k)),
            forall|j: int| 0 <= j < i ==> !holds_game@[j],
        decreases 26 - i,
    {
        if holds_game[i] {
            let p = candidates[i].clone();
            assert(p@ == mc_studio_candidate(drive_letter(i as int)));
            return Some(p);
        }
        i = i + 1;
    }
    None
}

/// On systems other than Windows there is no MC Studio download to find.
pub fn auto_search_mc_studio_download_game_path() -> (r: Option<String>)
    ensures
        r is None,
{
    None
}

} // verus!
