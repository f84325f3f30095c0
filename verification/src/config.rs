//! The launcher's directories and its configuration: where things live, and
//! the repairs made to configurations written by older launchers.
use vstd::prelude::*;

use crate::package::{GAME_DIR_NAME, PREFERRED_WINE_VERSION};
use crate::paths::{
    components_begin_with, file_name_of, is_default_genshin_name, is_default_genshin_path, joined,
    joined_components, joined_keeps_file_name, joined_name_is_file_name,
    later_components_are_inner, path_components, path_join, path_strip_prefix, paths_equal,
    same_path, strip_path_prefix, PathPartView,
};
use crate::text::{concat, has_prefix, push_str, starts_with, string_views, trim, trimmed};

verus! {

pub const APP_ID: &'static str = "moe.takasaki.a-factory-game-launcher";
pub const APP_RESOURCE_PATH: &'static str = "/moe/takasaki/a-factory-game-launcher";
pub const APP_FOLDER_NAME: &'static str = "a-factory-game-launcher";
pub const LEGACY_APP_FOLDER_NAME: &'static str = "a-factory-game-launcher";
pub const OLDER_APP_FOLDER_NAME: &'static str = "anime-game-launcher";

/// The folder names that earlier launchers used, in the order they are
/// looked at.
pub fn legacy_app_folder_names() -> (r: Vec<&'static str>)
    ensures
        r@.len() == 2,
        r@[0] == LEGACY_APP_FOLDER_NAME,
        r@[1] == OLDER_APP_FOLDER_NAME,
{
    let mut r = Vec::new();
    r.push(LEGACY_APP_FOLDER_NAME);
    r.push(OLDER_APP_FOLDER_NAME);
    r
}

// ---------------------------------------------------------------------------
// XDG directories
// ---------------------------------------------------------------------------

/// Which XDG base directory.
#[derive(Debug, Clone, Copy, PartialEq, Eq, Structural)]
pub enum XdgKind {
    /// `$XDG_DATA_HOME`, by default `~/.local/share`.
    Data,
    /// `$XDG_CACHE_HOME`, by default `~/.cache`.
    Cache,
}

pub open spec fn home_relative(kind: XdgKind) -> Seq<char> {
    match kind {
        XdgKind::Data => "/.local/share/"@,
        XdgKind::Cache => "/.cache/"@,
    }
}

/// The environment variables that decide an XDG directory (`None` where a
/// variable is unset or not Unicode).
pub struct XdgEnv {
    pub xdg_home: Option<String>,
    pub home: Option<String>,
    pub user: Option<String>,
    pub username: Option<String>,
}

/// Where `folder` goes for the directories of `kind`: below `$HOME`'s
/// standard place (`$HOME/.local/share/` or `$HOME/.cache/`), else below
/// `$XDG_…_HOME`, else below `/home/$USER` (or `$USERNAME`); `None` when
/// none of them is set (the caller then uses a folder of the current
/// directory).
pub open spec fn xdg_candidate(kind: XdgKind, env: XdgEnv, folder: Seq<char>) -> Option<Seq<char>> {
    match env.home {
        Some(h) => Some(h@ + home_relative(kind) + folder),
        None => match env.xdg_home {
            Some(d) => Some(d@ + "/"@ + folder),
            None => {
                let user = match env.user {
                    Some(u) => Some(u),
                    None => env.username,
                };
                match user {
                    Some(u) => Some("/home/"@ + u@ + home_relative(kind) + folder),
                    None => None,
                }
            },
        },
    }
}

fn home_relative_str(kind: XdgKind) -> (r: &'static str)
    ensures
        r@ == home_relative(kind),
{
    match kind {
        XdgKind::Data => "/.local/share/",
        XdgKind::Cache => "/.cache/",
    }
}

/// The folder named `folder` for the launcher's data or cache, from the
/// environment `env`: below `$HOME` first (`None` when no variable
/// gives a place).
pub fn xdg_dir_candidate(kind: XdgKind, env: &XdgEnv, folder: &str) -> (r: Option<String>)
    ensures
        match r {
            Some(s) => xdg_candidate(kind, *env, folder@) == Some(s@),
            None => xdg_candidate(kind, *env, folder@) is None,
        },
{
    match &env.home {
        Some(h) => {
            let mut s = concat(h.as_str(), home_relative_str(kind));
            push_str(&mut s, folder);
            Some(s)
        },
        None => match &env.xdg_home {
            Some(d) => {
                let mut s = concat(d.as_str(), "/");
                push_str(&mut s, folder);
                Some(s)
            },
            None => {
                let user = match &env.user {
                    Some(u) => Some(u),
                    None => env.username.as_ref(),
                };
                match user {
                    Some(u) => {
                        let mut s = concat("/home/", u.as_str());
                        push_str(&mut s, home_relative_str(kind));
                        push_str(&mut s, folder);
                        Some(s)
                    },
                    None => None,
                }
            },
        },
    }
}

/// The folder used when no variable names the XDG directory: `data` or
/// `cache` in the current directory.
pub fn fallback_dir(kind: XdgKind, current_dir: &str) -> (r: String)
    ensures
        r@ == joined(current_dir@, match kind {
            XdgKind::Data => "data"@,
            XdgKind::Cache => "cache"@,
        }),
{
    match kind {
        XdgKind::Data => path_join(current_dir, "data"),
        XdgKind::Cache => path_join(current_dir, "cache"),
    }
}

// ---------------------------------------------------------------------------
// Game directories
// ---------------------------------------------------------------------------

/// The edition of the game a configuration is for.
#[derive(Debug, Clone, Copy, PartialEq, Eq, Structural)]
pub enum GameEdition {
    Global,
    China,
}

/// The paths of a launcher configuration that the launcher looks after.
#[derive(Debug, Clone)]
pub struct ConfigPaths {
    pub wine_prefix: String,
    pub wine_builds: String,
    pub dxvk_builds: String,
    pub game_path_global: String,
    pub game_path_china: String,
    pub components_path: String,
    pub fps_unlocker_path: String,
    pub launcher_temp: Option<String>,
    pub wine_selected: Option<String>,
    pub edition: GameEdition,
}

/// The game folder of a new installation: `Factory Game` in the launcher
/// folder.
pub fn default_game_dir(launcher_folder: &str) -> (r: String)
    ensures
        r@ == joined(launcher_folder@, GAME_DIR_NAME@),
{
    path_join(launcher_folder, GAME_DIR_NAME)
}

/// The game folder that the configuration holds for its edition.
pub fn configured_game_dir(config: &ConfigPaths) -> (r: String)
    ensures
        r@ == match config.edition {
            GameEdition::Global => config.game_path_global@,
            GameEdition::China => config.game_path_china@,
        },
{
    match config.edition {
        GameEdition::Global => config.game_path_global.clone(),
        GameEdition::China => config.game_path_china.clone(),
    }
}

/// The installed version, from the contents of the version marker (`None`
/// when there is no marker or it holds only whitespace).
pub fn installed_version_from(marker: Option<&str>) -> (r: Option<String>)
    ensures
        match marker {
            None => r is None,
            Some(m) => if trimmed(m@).len() == 0 {
                r is None
            } else {
                r matches Some(v) && v@ == trimmed(m@)
            },
        },
{
    match marker {
        None => None,
        Some(m) => {
            let t = trim(m);
            if t.as_str().is_empty() {
                None
            } else {
                Some(t)
            }
        },
    }
}

/// The game counts as installed when its executable exists and the version
/// marker names a version.
pub fn is_installed_in(executable_exists: bool, marker: Option<&str>) -> (b: bool)
    ensures
        b == (executable_exists && (marker matches Some(m) && trimmed(m@).len() > 0)),
{
    executable_exists && installed_version_from(marker).is_some()
}

// ---------------------------------------------------------------------------
// Repairing configurations of older launchers
// ---------------------------------------------------------------------------

/// The rewrite of `path` from below `legacy` to below `current`: `None` when
/// `path` is not below `legacy` or would come out the same path.
pub open spec fn relocated(path: Seq<char>, legacy: Seq<char>, current: Seq<char>) -> Option<
    Seq<char>,
> {
    match path_strip_prefix(path, legacy) {
        None => None,
        Some(rest) => {
            let updated = joined(current, rest);
            if same_path(path, updated) {
                None
            } else {
                Some(updated)
            }
        },
    }
}

/// Moves `path` from below `legacy_base` to below `current_base`; tells
/// whether it changed.
pub fn rewrite_legacy_path(path: &mut String, legacy_base: &str, current_base: &str) -> (changed:
    bool)
    ensures
        match relocated(old(path)@, legacy_base@, current_base@) {
            None => !changed && final(path)@ == old(path)@,
            Some(p) => changed && final(path)@ == p,
        },
        keeps_file_name(old(path)@, legacy_base@) ==> file_name_of(path_components(final(path)@))
            == file_name_of(path_components(old(path)@)),
        !components_begin_with(path_components(old(path)@), path_components(legacy_base@)) ==> {
            &&& !changed
            &&& *final(path) == *old(path)
        },
        ({
            let cl = path_components(legacy_base@);
            let cc = path_components(current_base@);
            let co = path_components(old(path)@);
            &&& (cl.len() > 0 && cl == cc) ==> !changed && *final(path) == *old(path)
            &&& (cl.len() > 0 && changed) ==> components_begin_with(
                path_components(final(path)@),
                cc,
            )
            &&& (cl.len() > 0 && !changed && components_begin_with(co, cl)) ==> components_begin_with(
                co,
                cc,
            )
        }),
{
    let suffix = match strip_path_prefix(path.as_str(), legacy_base) {
        Some(s) => s,
        None => {
            return false;
        },
    };
    proof {
        let cl = path_components(legacy_base@);
        let cs = path_components(suffix@);
        let co = path_components(path@);
        if cl.len() > 0 {
            // The rest starts with a name or `..`: it is relative and has no `.` in front.
            if cs.len() > 0 {
                later_components_are_inner(path@, cl.len() as int);
                assert(cs[0] == co[cl.len() as int]);
                if suffix@.len() > 0 && suffix@[0] == '/' {
                    assert(cs[0] == PathPartView::RootDir);
                }
                if suffix@.len() > 0 && suffix@[0] == '.' && (suffix@.len() == 1 || suffix@[1] == '/') {
                    assert(cs[0] == PathPartView::CurDir);
                }
            } else {
                if suffix@.len() > 0 && suffix@[0] == '/' {
                    assert(cs.len() > 0);
                }
                if suffix@.len() > 0 && suffix@[0] == '.' && (suffix@.len() == 1 || suffix@[1] == '/') {
                    assert(cs.len() > 0);
                }
            }
            joined_components(current_base@, suffix@);
            assert(co.take(cl.len() as int) == cl);
            assert(cl + cs =~= co);
            assert((path_components(current_base@) + cs).take(
                path_components(current_base@).len() as int,
            ) =~= path_components(current_base@));
        }
    }
    proof {
        let cp = path_components(path@);
        let cl = path_components(legacy_base@);
        if keeps_file_name(path@, legacy_base@) && cp.len() == cl.len() {
            assert(cp =~= cl);
        }
        if keeps_file_name(path@, legacy_base@) {
            let cs = path_components(suffix@);
            assert(cs.last() == cp.last());
            joined_keeps_file_name(current_base@, suffix@);
        }
    }
    let updated = path_join(current_base, suffix.as_str());
    if paths_equal(path.as_str(), updated.as_str()) {
        false
    } else {
        *path = updated;
        true
    }
}

/// `path` has a file name that the folder `legacy` does not have: moving it
/// out of `legacy` keeps that name.
pub open spec fn keeps_file_name(path: Seq<char>, legacy: Seq<char>) -> bool {
    &&& file_name_of(path_components(path)) is Some
    &&& file_name_of(path_components(legacy)) != file_name_of(path_components(path))
}

/// No folder of `legacies` has the file name `name`.
pub open spec fn none_named(legacies: Seq<Seq<char>>, name: Option<Seq<char>>) -> bool {
    forall|k: int| 0 <= k < legacies.len() ==> file_name_of(path_components(#[trigger] legacies[k])) != name
}

/// `path` after the rewrites for each of `legacies` in turn.
pub open spec fn relocated_all(path: Seq<char>, legacies: Seq<Seq<char>>, current: Seq<char>) -> Seq<
    char,
>
    decreases legacies.len(),
{
    if legacies.len() == 0 {
        path
    } else {
        let before = relocated_all(path, legacies.drop_last(), current);
        match relocated(before, legacies.last(), current) {
            Some(p) => p,
            None => before,
        }
    }
}

/// Whether any of the rewrites for `legacies` changed `path`.
pub open spec fn relocates_any(path: Seq<char>, legacies: Seq<Seq<char>>, current: Seq<char>) -> bool
    decreases legacies.len(),
{
    if legacies.len() == 0 {
        false
    } else {
        relocates_any(path, legacies.drop_last(), current) || relocated(
            relocated_all(path, legacies.drop_last(), current),
            legacies.last(),
            current,
        ) is Some
    }
}

/// The selected Wine is replaced when none is selected, or when it is one of
/// the `spritz-wine-cachyos` builds that older launchers chose.
pub open spec fn wine_needs_reset(selected: Option<String>) -> bool {
    match selected {
        None => true,
        Some(s) => has_prefix(s@, "spritz-wine-cachyos"@),
    }
}

/// The Wine that normalization selects is not one it would replace: once a
/// configuration is normalized, normalizing it again keeps its Wine.
pub proof fn normalized_wine_is_kept(selected: Option<String>)
    requires
        selected matches Some(w) && w@ == PREFERRED_WINE_VERSION@,
    ensures
        !wine_needs_reset(selected),
{
    reveal_strlit("wine-dwproton-wow64-11.0-3");
    reveal_strlit("spritz-wine-cachyos");
    let w = selected->0@;
    assert(w[0] == 'w');
    assert("spritz-wine-cachyos"@[0] == 's');
    assert(w.take(19)[0] != "spritz-wine-cachyos"@[0]);
}

/// The game path after normalization: moved out of legacy launcher folders,
/// then replaced by the default game folder when it is an old default.
pub open spec fn normalized_game_path(
    path: Seq<char>,
    legacies: Seq<Seq<char>>,
    current: Seq<char>,
    default_game_dir: Seq<char>,
) -> Seq<char> {
    let p = relocated_all(path, legacies, current);
    if is_default_genshin_name(file_name_of(path_components(p))) {
        default_game_dir
    } else {
        p
    }
}

/// The default game folder, `Factory Game` in the launcher folder, is not
/// one of the old default folders, wherever the launcher folder is.
pub proof fn default_game_dir_is_not_an_old_default(launcher_folder: Seq<char>)
    ensures
        file_name_of(path_components(joined(launcher_folder, GAME_DIR_NAME@))) == Some(
            GAME_DIR_NAME@,
        ),
        !is_default_genshin_name(file_name_of(path_components(joined(launcher_folder, GAME_DIR_NAME@)))),
{
    reveal_strlit("Factory Game");
    reveal_strlit("Genshin Impact");
    reveal_strlit("YuanShen");
    let n = GAME_DIR_NAME@;
    assert(!n.contains('/')) by {
        assert forall|k: int| 0 <= k < n.len() implies n[k] != '/' by {}
    }
    assert(n != seq!['.']) by {
        assert(n.len() != 1);
    }
    assert(n != seq!['.', '.']) by {
        assert(n.len() != 2);
    }
    joined_name_is_file_name(launcher_folder, n);
    assert(n.len() != "Genshin Impact"@.len());
    assert(n.len() != "YuanShen"@.len());
}

/// After normalization neither game folder is one of the old default
/// folders: a folder that is one becomes the default game folder in the
/// launcher folder, which is not.
pub proof fn normalized_game_path_is_not_old_default(
    path: Seq<char>,
    legacies: Seq<Seq<char>>,
    current: Seq<char>,
    launcher_folder: Seq<char>,
)
    ensures
        !is_default_genshin_name(
            file_name_of(
                path_components(
                    normalized_game_path(path, legacies, current, joined(launcher_folder, GAME_DIR_NAME@)),
                ),
            ),
        ),
{
    default_game_dir_is_not_an_old_default(launcher_folder);
}

/// The legacy folders lie apart from the current launcher folder (which has
/// components): each one is the current folder, or neither of the two lies
/// in the other.
pub open spec fn legacies_apart(legacies: Seq<Seq<char>>, current: Seq<char>) -> bool {
    &&& path_components(current).len() > 0
    &&& forall|k: int|
        0 <= k < legacies.len() ==> {
            let cl = path_components(#[trigger] legacies[k]);
            let cc = path_components(current);
            ||| cl == cc
            ||| (!components_begin_with(cl, cc) && !components_begin_with(cc, cl))
        }
}

/// No legacy folder has `path` in it, but those that are the current
/// launcher folder: moving `path` changes nothing.
pub open spec fn settled_path(path: Seq<char>, legacies: Seq<Seq<char>>, current: Seq<char>) -> bool {
    forall|k: int|
        0 <= k < legacies.len() ==> {
            let cl = path_components(#[trigger] legacies[k]);
            ||| !components_begin_with(path_components(path), cl)
            ||| (cl.len() > 0 && cl == path_components(current))
        }
}

/// A path that lies in two folders has one folder lie in the other.
proof fn lemma_nested_folders(p: Seq<PathPartView>, a: Seq<PathPartView>, b: Seq<PathPartView>)
    requires
        components_begin_with(p, a),
        components_begin_with(p, b),
    ensures
        components_begin_with(a, b) || components_begin_with(b, a),
{
    if a.len() <= b.len() {
        assert(b.take(a.len() as int) =~= p.take(a.len() as int));
    } else {
        assert(a.take(b.len() as int) =~= p.take(b.len() as int));
    }
}

/// With the legacy folders apart, a path in the current launcher folder is
/// settled.
proof fn lemma_inside_current_is_settled(path: Seq<char>, legacies: Seq<Seq<char>>, current: Seq<char>)
    requires
        legacies_apart(legacies, current),
        components_begin_with(path_components(path), path_components(current)),
    ensures
        settled_path(path, legacies, current),
{
    assert forall|k: int| 0 <= k < legacies.len() implies {
        let cl = path_components(#[trigger] legacies[k]);
        ||| !components_begin_with(path_components(path), cl)
        ||| (cl.len() > 0 && cl == path_components(current))
    } by {
        let cl = path_components(legacies[k]);
        if components_begin_with(path_components(path), cl) {
            lemma_nested_folders(path_components(path), cl, path_components(current));
        }
    }
}

/// One of the paths rewritten by `normalize_config_paths`, applied to every
/// legacy folder in turn.
fn relocate_through(path: &mut String, legacies: &Vec<String>, current: &str) -> (changed: bool)
    ensures
        final(path)@ == relocated_all(old(path)@, string_views(legacies@), current@),
        changed == relocates_any(old(path)@, string_views(legacies@), current@),
        (file_name_of(path_components(old(path)@)) is Some && none_named(
            string_views(legacies@),
            file_name_of(path_components(old(path)@)),
        )) ==> file_name_of(path_components(final(path)@)) == file_name_of(
            path_components(old(path)@),
        ),
        settled_path(old(path)@, string_views(legacies@), current@) ==> !changed && *final(path)
            == *old(path),
        legacies_apart(string_views(legacies@), current@) ==> settled_path(
            final(path)@,
            string_views(legacies@),
            current@,
        ),
{
    let ghost start = path@;
    let ghost start_value = *path;
    let ghost lvs = string_views(legacies@);
    let ghost keep = file_name_of(path_components(start)) is Some && none_named(
        string_views(legacies@),
        file_name_of(path_components(start)),
    );
    let mut changed = false;
    let mut i: usize = 0;
    while i < legacies.len()
        invariant
            i <= legacies@.len(),
            path@ == relocated_all(start, string_views(legacies@).take(i as int), current@),
            changed == relocates_any(start, string_views(legacies@).take(i as int), current@),
            keep == (file_name_of(path_components(start)) is Some && none_named(
                string_views(legacies@),
                file_name_of(path_components(start)),
            )),
            keep ==> file_name_of(path_components(path@)) == file_name_of(path_components(start)),
            lvs == string_views(legacies@),
            start_value@ == start,
            settled_path(start, lvs, current@) ==> !changed && *path == start_value,
            legacies_apart(lvs, current@) ==> {
                ||| components_begin_with(path_components(path@), path_components(current@))
                ||| (path@ == start && forall|j: int|
                    0 <= j < i ==> {
                        let cl = path_components(#[trigger] lvs[j]);
                        ||| !components_begin_with(path_components(start), cl)
                        ||| (cl.len() > 0 && cl == path_components(current@))
                    })
            },
        decreases legacies@.len() - i,
    {
        let ghost lv = string_views(legacies@).take(i + 1);
        assert(lv.drop_last() =~= string_views(legacies@).take(i as int));
        assert(lv.last() == legacies@[i as int]@);
        proof {
            if keep {
                assert(string_views(legacies@)[i as int] == legacies@[i as int]@);
                assert(keeps_file_name(path@, legacies@[i as int]@));
            }
        }
        let ghost before = path@;
        let ghost l = lvs[i as int];
        assert(l == legacies@[i as int]@);
        proof {
            if legacies_apart(lvs, current@) {
                let cl = path_components(l);
                if cl.len() == 0 {
                    assert(path_components(current@).take(0) =~= cl);
                }
            }
        }
        let c = rewrite_legacy_path(path, legacies[i].as_str(), current);
        proof {
            if legacies_apart(lvs, current@) {
                let cl = path_components(l);
                let cc = path_components(current@);
                if !c && components_begin_with(path_components(before), cl) {
                    lemma_nested_folders(path_components(before), cl, cc);
                }
            }
        }
        changed = changed || c;
        i += 1;
    }
    assert(string_views(legacies@).take(legacies@.len() as int) =~= string_views(legacies@));
    proof {
        if legacies_apart(lvs, current@) {
            if components_begin_with(path_components(path@), path_components(current@)) {
                lemma_inside_current_is_settled(path@, lvs, current@);
            }
        }
    }
    changed
}

/// A configuration that normalizing leaves as it is: no path to move, no
/// game folder that is an old default, and a Wine that is kept.
pub open spec fn config_settled(
    config: ConfigPaths,
    legacies: Seq<Seq<char>>,
    current: Seq<char>,
) -> bool {
    &&& settled_path(config.wine_prefix@, legacies, current)
    &&& settled_path(config.wine_builds@, legacies, current)
    &&& settled_path(config.dxvk_builds@, legacies, current)
    &&& settled_path(config.game_path_global@, legacies, current)
    &&& settled_path(config.game_path_china@, legacies, current)
    &&& settled_path(config.components_path@, legacies, current)
    &&& settled_path(config.fps_unlocker_path@, legacies, current)
    &&& (config.launcher_temp matches Some(t) ==> settled_path(t@, legacies, current))
    &&& !is_default_genshin_name(file_name_of(path_components(config.game_path_global@)))
    &&& !is_default_genshin_name(file_name_of(path_components(config.game_path_china@)))
    &&& !wine_needs_reset(config.wine_selected)
}

/// Repairs a configuration written by an older launcher: every path kept
/// below a legacy launcher folder (`legacy_launchers`, in order) is moved
/// below `current_launcher`; game folders that are the old defaults become
/// `default_game_dir` (an old default game folder below a legacy folder
/// keeps its name when moved, so it is reset too, unless a legacy folder
/// itself bears that name); a missing Wine selection, or one of the builds older
/// launchers chose, becomes the preferred Wine.  Tells whether anything
/// changed.
pub fn normalize_config_paths(
    config: &mut ConfigPaths,
    current_launcher: &str,
    legacy_launchers: &Vec<String>,
    default_game_dir: &str,
) -> (changed: bool)
    ensures
        ({
            let l = string_views(legacy_launchers@);
            let c = current_launcher@;
            let o = *old(config);
            let f = *final(config);
            &&& f.wine_prefix@ == relocated_all(o.wine_prefix@, l, c)
            &&& f.wine_builds@ == relocated_all(o.wine_builds@, l, c)
            &&& f.dxvk_builds@ == relocated_all(o.dxvk_builds@, l, c)
            &&& f.components_path@ == relocated_all(o.components_path@, l, c)
            &&& f.fps_unlocker_path@ == relocated_all(o.fps_unlocker_path@, l, c)
            &&& f.game_path_global@ == normalized_game_path(o.game_path_global@, l, c, default_game_dir@)
            &&& f.game_path_china@ == normalized_game_path(o.game_path_china@, l, c, default_game_dir@)
            &&& (is_default_genshin_name(file_name_of(path_components(o.game_path_global@)))
                && none_named(l, file_name_of(path_components(o.game_path_global@))))
                ==> f.game_path_global@ == default_game_dir@
            &&& (is_default_genshin_name(file_name_of(path_components(o.game_path_china@)))
                && none_named(l, file_name_of(path_components(o.game_path_china@))))
                ==> f.game_path_china@ == default_game_dir@
            &&& match o.launcher_temp {
                Some(t) => f.launcher_temp matches Some(ft) && ft@ == relocated_all(t@, l, c),
                None => f.launcher_temp is None,
            }
            &&& if wine_needs_reset(o.wine_selected) {
                f.wine_selected matches Some(w) && w@ == PREFERRED_WINE_VERSION@
            } else {
                f.wine_selected == o.wine_selected
            }
            &&& f.edition == o.edition
            &&& changed == (relocates_any(o.wine_prefix@, l, c) || relocates_any(o.wine_builds@, l, c)
                || relocates_any(o.dxvk_builds@, l, c) || relocates_any(o.game_path_global@, l, c)
                || relocates_any(o.game_path_china@, l, c) || relocates_any(o.components_path@, l, c)
                || relocates_any(o.fps_unlocker_path@, l, c) || ((o.launcher_temp matches Some(t)
                && relocates_any(t@, l, c))) || is_default_genshin_name(
                file_name_of(path_components(relocated_all(o.game_path_global@, l, c))),
            ) || is_default_genshin_name(
                file_name_of(path_components(relocated_all(o.game_path_china@, l, c))),
            ) || wine_needs_reset(o.wine_selected))
        }),
        config_settled(*old(config), string_views(legacy_launchers@), current_launcher@) ==> {
            &&& !changed
            &&& *final(config) == *old(config)
        },
        (legacies_apart(string_views(legacy_launchers@), current_launcher@) && components_begin_with(
            path_components(default_game_dir@),
            path_components(current_launcher@),
        ) && !is_default_genshin_name(file_name_of(path_components(default_game_dir@))))
            ==> config_settled(*final(config), string_views(legacy_launchers@), current_launcher@),
{
    let mut changed = false;
    changed = relocate_through(&mut config.wine_prefix, legacy_launchers, current_launcher) || changed;
    changed = relocate_through(&mut config.wine_builds, legacy_launchers, current_launcher) || changed;
    changed = relocate_through(&mut config.dxvk_builds, legacy_launchers, current_launcher) || changed;
    changed = relocate_through(&mut config.game_path_global, legacy_launchers, current_launcher) || changed;
    changed = relocate_through(&mut config.game_path_china, legacy_launchers, current_launcher) || changed;
    changed = relocate_through(&mut config.components_path, legacy_launchers, current_launcher) || changed;
    changed = relocate_through(&mut config.fps_unlocker_path, legacy_launchers, current_launcher) || changed;
    match &mut config.launcher_temp {
        Some(t) => {
            changed = relocate_through(t, legacy_launchers, current_launcher) || changed;
        },
        None => {},
    }
    if is_default_genshin_path(config.game_path_global.as_str()) {
        config.game_path_global = default_game_dir.to_owned();
        changed = true;
    }
    if is_default_genshin_path(config.game_path_china.as_str()) {
        config.game_path_china = default_game_dir.to_owned();
        changed = true;
    }
    let reset = match &config.wine_selected {
        None => true,
        Some(s) => starts_with(s.as_str(), "spritz-wine-cachyos"),
    };
    if reset {
        config.wine_selected = Some(PREFERRED_WINE_VERSION.to_owned());
        changed = true;
        proof {
            normalized_wine_is_kept(config.wine_selected);
        }
    }
    proof {
        let l = string_views(legacy_launchers@);
        if legacies_apart(l, current_launcher@) && components_begin_with(
            path_components(default_game_dir@),
            path_components(current_launcher@),
        ) {
            lemma_inside_current_is_settled(default_game_dir@, l, current_launcher@);
        }
    }
    changed
}

} // verus!
