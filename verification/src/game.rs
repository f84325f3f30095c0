//! Running the game through Wine, choosing which Wine to install, the
//! Windows 7-Zip that unpacks the game, and what the launcher window shows
//! of an install.
use vstd::prelude::*;

use crate::package::{InstallUpdate, GAME_EXECUTABLE, SEVEN_ZIP_EXTRA_URL, SEVEN_ZIP_VERSION};
use crate::paths::{joined, joined_components, path_join, wine_path, wine_spelling, path_components};
use crate::text::{chars_of, concat, has_prefix, push_char, push_str, string_of_range, string_views};

verus! {

// ---------------------------------------------------------------------------
// Keywords in Wine feature settings
// ---------------------------------------------------------------------------

/// `s` with every occurrence of `pat` replaced by `rep`, matches taken from
/// the left without overlapping (`str::replace`).  An empty `pat` occurs
/// before every character and at the end.
pub open spec fn replace_all(s: Seq<char>, pat: Seq<char>, rep: Seq<char>) -> Seq<char>
    decreases s.len(),
{
    if pat.len() == 0 {
        if s.len() == 0 {
            rep
        } else {
            rep + seq![s[0]] + replace_all(s.skip(1), pat, rep)
        }
    } else if s.len() == 0 {
        s
    } else if has_prefix(s, pat) {
        rep + replace_all(s.skip(pat.len() as int), pat, rep)
    } else {
        seq![s[0]] + replace_all(s.skip(1), pat, rep)
    }
}

fn matches_at(v: &Vec<char>, i: usize, p: &Vec<char>) -> (b: bool)
    requires
        i <= v@.len(),
    ensures
        b == has_prefix(v@.skip(i as int), p@),
{
    if p.len() > v.len() - i {
        return false;
    }
    let vl = v.len();
    let mut k: usize = 0;
    while k < p.len()
        invariant
            vl == v@.len(),
            i + p@.len() <= v@.len(),
            k <= p@.len(),
            forall|j: int| 0 <= j < k ==> v@[i + j] == p@[j],
        decreases p@.len() - k,
    {
        if v[i + k] != p[k] {
            assert(v@.skip(i as int).take(p@.len() as int)[k as int] != p@[k as int]);
            return false;
        }
        k += 1;
    }
    assert(v@.skip(i as int).take(p@.len() as int) =~= p@);
    true
}

/// `rep` before every character of `v` and after the last: what replacing
/// the empty pattern gives.
fn interleave(v: &Vec<char>, rep: &str, Ghost(pat): Ghost<Seq<char>>) -> (r: String)
    requires
        pat.len() == 0,
    ensures
        r@ == replace_all(v@, pat, rep@),
{
    let mut out = String::new();
    let mut i: usize = 0;
    assert(v@.skip(0) =~= v@);
    while i < v.len()
        invariant
            i <= v@.len(),
            pat.len() == 0,
            out@ + replace_all(v@.skip(i as int), pat, rep@) == replace_all(v@, pat, rep@),
        decreases v@.len() - i,
    {
        let ghost rest = v@.skip(i as int);
        let ghost before = out@;
        push_str(&mut out, rep);
        push_char(&mut out, v[i]);
        assert(rest.skip(1) =~= v@.skip(i + 1));
        assert(rest[0] == v@[i as int]);
        assert(before + (rep@ + seq![rest[0]] + replace_all(v@.skip(i + 1), pat, rep@)) =~= out@
            + replace_all(v@.skip(i + 1), pat, rep@));
        i += 1;
    }
    assert(v@.skip(i as int) =~= Seq::<char>::empty());
    push_str(&mut out, rep);
    out
}

/// `str::replace`: every occurrence of `pat` replaced by `rep`.
pub fn replace_str(s: &str, pat: &str, rep: &str) -> (r: String)
    ensures
        r@ == replace_all(s@, pat@, rep@),
{
    let v = chars_of(s);
    let p = chars_of(pat);
    if p.len() == 0 {
        return interleave(&v, rep, Ghost(pat@));
    }
    let mut out = String::new();
    let mut i: usize = 0;
    assert(v@.skip(0) =~= v@);
    while i < v.len()
        invariant
            i <= v@.len(),
            v@ == s@,
            p@ == pat@,
            p@.len() > 0,
            out@ + replace_all(v@.skip(i as int), p@, rep@) == replace_all(s@, pat@, rep@),
        decreases v@.len() - i,
    {
        let ghost rest = v@.skip(i as int);
        if matches_at(&v, i, &p) {
            let ghost before = out@;
            push_str(&mut out, rep);
            assert(rest.skip(p@.len() as int) =~= v@.skip(i + p@.len()));
            assert(before + (rep@ + replace_all(v@.skip(i + p@.len()), p@, rep@)) =~= out@
                + replace_all(v@.skip(i + p@.len()), p@, rep@));
            i += p.len();
        } else {
            let ghost before = out@;
            push_char(&mut out, v[i]);
            assert(rest.skip(1) =~= v@.skip(i + 1));
            assert(before + (seq![rest[0]] + replace_all(v@.skip(i + 1), p@, rep@)) =~= out@
                + replace_all(v@.skip(i + 1), p@, rep@));
            i += 1;
        }
    }
    assert(v@.skip(i as int) =~= Seq::<char>::empty());
    assert(out@ + Seq::<char>::empty() =~= out@);
    out
}

/// The folders that the keywords of Wine feature settings stand for.
pub struct KeywordValues {
    /// `%build%`: the folder of the Wine build.
    pub build: String,
    /// `%prefix%`: the Wine prefix.
    pub prefix: String,
    /// `%temp%`: the system's temporary folder.
    pub temp: String,
    /// `%launcher%`: the launcher folder.
    pub launcher: String,
    /// `%game%`: the game folder.
    pub game: String,
}

/// `KeywordValues` as characters.
pub struct KeywordView {
    pub build: Seq<char>,
    pub prefix: Seq<char>,
    pub temp: Seq<char>,
    pub launcher: Seq<char>,
    pub game: Seq<char>,
}

impl View for KeywordValues {
    type V = KeywordView;

    open spec fn view(&self) -> KeywordView {
        KeywordView {
            build: self.build@,
            prefix: self.prefix@,
            temp: self.temp@,
            launcher: self.launcher@,
            game: self.game@,
        }
    }
}

pub open spec fn keywords_replaced(value: Seq<char>, k: KeywordView) -> Seq<char> {
    replace_all(
        replace_all(
            replace_all(
                replace_all(replace_all(value, "%build%"@, k.build), "%prefix%"@, k.prefix),
                "%temp%"@,
                k.temp,
            ),
            "%launcher%"@,
            k.launcher,
        ),
        "%game%"@,
        k.game,
    )
}

/// `value` with `%build%`, `%prefix%`, `%temp%`, `%launcher%` and `%game%`
/// replaced, in that order.
pub fn replace_keywords(value: &str, keywords: &KeywordValues) -> (r: String)
    ensures
        r@ == keywords_replaced(value@, keywords@),
{
    proof {
        reveal_strlit("%build%");
        reveal_strlit("%prefix%");
        reveal_strlit("%temp%");
        reveal_strlit("%launcher%");
        reveal_strlit("%game%");
    }
    let a = replace_str(value, "%build%", keywords.build.as_str());
    let b = replace_str(a.as_str(), "%prefix%", keywords.prefix.as_str());
    let c = replace_str(b.as_str(), "%temp%", keywords.temp.as_str());
    let d = replace_str(c.as_str(), "%launcher%", keywords.launcher.as_str());
    replace_str(d.as_str(), "%game%", keywords.game.as_str())
}

// ---------------------------------------------------------------------------
// Launching
// ---------------------------------------------------------------------------

/// The Wine build selected in the configuration.
pub struct WineBuild {
    /// Its folder name among the Wine builds.
    pub name: String,
    /// Its `wine64` executable, relative to its folder, if it has one.
    pub wine64: Option<String>,
    /// Its `wine` executable, relative to its folder.
    pub wine: String,
}

/// Why the game cannot be started.
#[derive(Debug, Clone, Copy, PartialEq, Eq, Structural)]
pub enum LaunchError {
    NotInstalled,
    NoWine,
}

/// How to run the game: `bash -c <script>` in `current_dir`, with `env` set
/// (in order, later values winning).
pub struct LaunchPlan {
    pub script: String,
    pub current_dir: String,
    pub env: Vec<(String, String)>,
}

/// The environment variables that the launch sets, in order.
pub struct LaunchEnv {
    /// Those of the Wine build's features (values with keywords).
    pub wine_features: Vec<(String, String)>,
    /// Those of the DXVK build's features (values with keywords).
    pub dxvk_features: Vec<(String, String)>,
    /// Those of the game configuration (taken as they are).
    pub game: Vec<(String, String)>,
}

pub open spec fn wine_dir_of(builds: Seq<char>, wine: WineBuild) -> Seq<char> {
    joined(builds, wine.name@)
}

pub open spec fn wine_binary_of(builds: Seq<char>, wine: WineBuild) -> Seq<char> {
    joined(
        wine_dir_of(builds, wine),
        match wine.wine64 {
            Some(w) => w@,
            None => wine.wine@,
        },
    )
}

/// The Wine binary lies in the selected build's own folder, whichever of
/// its executables is taken: where the build's name and that executable are
/// relative paths that do not begin with `.`, the binary's components are
/// those of the builds' folder, then of the build's name, then of the
/// executable (`wine64` where the build has one, else `wine`).
pub proof fn wine_binary_lies_in_its_build(builds: Seq<char>, w: WineBuild)
    requires
        w.name@.len() == 0 || w.name@[0] != '/',
        !(w.name@.len() > 0 && w.name@[0] == '.' && (w.name@.len() == 1 || w.name@[1] == '/')),
        ({
            let exe = match w.wine64 {
                Some(x) => x@,
                None => w.wine@,
            };
            &&& exe.len() == 0 || exe[0] != '/'
            &&& !(exe.len() > 0 && exe[0] == '.' && (exe.len() == 1 || exe[1] == '/'))
        }),
    ensures
        ({
            let exe = match w.wine64 {
                Some(x) => x@,
                None => w.wine@,
            };
            &&& path_components(wine_binary_of(builds, w)) == path_components(builds)
                + path_components(w.name@) + path_components(exe)
            &&& path_components(wine_binary_of(builds, w)) == path_components(joined(builds, w.name@))
                + path_components(exe)
        }),
{
    let exe = match w.wine64 {
        Some(x) => x@,
        None => w.wine@,
    };
    joined_components(builds, w.name@);
    joined_components(joined(builds, w.name@), exe);
}

/// The command that runs the game: the Wine features' own command (its
/// keywords replaced), or else the Wine binary in single quotes; then the
/// game executable.
pub open spec fn launch_script(
    command: Option<Seq<char>>,
    binary: Seq<char>,
    keywords: KeywordView,
) -> Seq<char> {
    let run = match command {
        Some(c) => keywords_replaced(c, keywords),
        None => "'"@ + binary + "'"@,
    };
    run + " "@ + GAME_EXECUTABLE@
}

pub open spec fn pair_views(v: Seq<(String, String)>) -> Seq<(Seq<char>, Seq<char>)> {
    v.map_values(|p: (String, String)| (p.0@, p.1@))
}

pub open spec fn replaced_pairs(v: Seq<(String, String)>, k: KeywordView) -> Seq<
    (Seq<char>, Seq<char>),
> {
    v.map_values(|p: (String, String)| (p.0@, keywords_replaced(p.1@, k)))
}

/// The environment of the game: `WINEARCH`, `WINEPREFIX`, the Wine and
/// DXVK features' variables (keywords replaced), then the configuration's.
pub open spec fn launch_env(prefix: Seq<char>, env: LaunchEnv, k: KeywordView) -> Seq<
    (Seq<char>, Seq<char>),
> {
    seq![("WINEARCH"@, "win64"@), ("WINEPREFIX"@, prefix)] + replaced_pairs(
        env.wine_features@,
        k,
    ) + replaced_pairs(env.dxvk_features@, k) + pair_views(env.game@)
}

fn push_replaced(out: &mut Vec<(String, String)>, pairs: &Vec<(String, String)>, k: &KeywordValues)
    ensures
        pair_views(final(out)@) == pair_views(old(out)@) + replaced_pairs(pairs@, k@),
{
    let ghost start = pair_views(out@);
    let mut i: usize = 0;
    while i < pairs.len()
        invariant
            i <= pairs@.len(),
            pair_views(out@) == start + replaced_pairs(pairs@.take(i as int), k@),
        decreases pairs@.len() - i,
    {
        let key = pairs[i].0.clone();
        let value = replace_keywords(pairs[i].1.as_str(), k);
        let ghost before = pair_views(out@);
        out.push((key, value));
        assert(pair_views(out@) =~= before.push((pairs@[i as int].0@, keywords_replaced(pairs@[i as int].1@, k@))));
        assert(replaced_pairs(pairs@.take(i + 1), k@) =~= replaced_pairs(pairs@.take(i as int), k@).push(
            (pairs@[i as int].0@, keywords_replaced(pairs@[i as int].1@, k@)),
        ));
        i += 1;
    }
    assert(pairs@.take(pairs@.len() as int) =~= pairs@);
}

fn push_pairs(out: &mut Vec<(String, String)>, pairs: &Vec<(String, String)>)
    ensures
        pair_views(final(out)@) == pair_views(old(out)@) + pair_views(pairs@),
{
    let ghost start = pair_views(out@);
    let mut i: usize = 0;
    while i < pairs.len()
        invariant
            i <= pairs@.len(),
            pair_views(out@) == start + pair_views(pairs@.take(i as int)),
        decreases pairs@.len() - i,
    {
        let ghost before = pair_views(out@);
        out.push((pairs[i].0.clone(), pairs[i].1.clone()));
        assert(pair_views(out@) =~= before.push((pairs@[i as int].0@, pairs@[i as int].1@)));
        assert(pair_views(pairs@.take(i + 1)) =~= pair_views(pairs@.take(i as int)).push(
            (pairs@[i as int].0@, pairs@[i as int].1@),
        ));
        i += 1;
    }
    assert(pairs@.take(pairs@.len() as int) =~= pairs@);
}

/// How to start the installed game (`launch`): an error when it is not
/// installed or no Wine is selected; else the script, folder and environment
/// described by `launch_script` and `launch_env`, the keywords standing for
/// the Wine build's folder, the prefix, the temporary folder, the launcher
/// folder and the game folder.
pub fn launch_plan(
    installed: bool,
    wine: Option<&WineBuild>,
    feature_command: Option<&str>,
    wine_builds: &str,
    prefix: &str,
    game_dir: &str,
    temp_dir: &str,
    launcher_dir: &str,
    env: &LaunchEnv,
) -> (r: Result<LaunchPlan, LaunchError>)
    ensures
        !installed ==> r == Err::<LaunchPlan, LaunchError>(LaunchError::NotInstalled),
        installed && wine is None ==> r == Err::<LaunchPlan, LaunchError>(LaunchError::NoWine),
        installed && wine is Some ==> (r matches Ok(plan) && {
            let w = *wine->0;
            let k = KeywordView {
                build: wine_dir_of(wine_builds@, w),
                prefix: prefix@,
                temp: temp_dir@,
                launcher: launcher_dir@,
                game: game_dir@,
            };
            &&& plan.script@ == launch_script(
                match feature_command {
                    Some(c) => Some(c@),
                    None => None,
                },
                wine_binary_of(wine_builds@, w),
                k,
            )
            &&& plan.current_dir@ == game_dir@
            &&& pair_views(plan.env@) == launch_env(prefix@, *env, k)
        }),
{
    if !installed {
        return Err(LaunchError::NotInstalled);
    }
    let w = match wine {
        Some(w) => w,
        None => {
            return Err(LaunchError::NoWine);
        },
    };
    let wine_dir = path_join(wine_builds, w.name.as_str());
    let exe = match &w.wine64 {
        Some(x) => x.as_str(),
        None => w.wine.as_str(),
    };
    let binary = path_join(wine_dir.as_str(), exe);
    let k = KeywordValues {
        build: wine_dir,
        prefix: prefix.to_owned(),
        temp: temp_dir.to_owned(),
        launcher: launcher_dir.to_owned(),
        game: game_dir.to_owned(),
    };
    let mut script = match feature_command {
        Some(c) => replace_keywords(c, &k),
        None => {
            let mut s = concat("'", binary.as_str());
            push_str(&mut s, "'");
            s
        },
    };
    push_str(&mut script, " ");
    push_str(&mut script, GAME_EXECUTABLE);
    let mut out: Vec<(String, String)> = Vec::new();
    out.push(("WINEARCH".to_owned(), "win64".to_owned()));
    out.push(("WINEPREFIX".to_owned(), prefix.to_owned()));
    assert(pair_views(out@) =~= seq![("WINEARCH"@, "win64"@), ("WINEPREFIX"@, prefix@)]);
    push_replaced(&mut out, &env.wine_features, &k);
    push_replaced(&mut out, &env.dxvk_features, &k);
    push_pairs(&mut out, &env.game);
    Ok(LaunchPlan { script, current_dir: game_dir.to_owned(), env: out })
}

} // verus!

verus! {

// ---------------------------------------------------------------------------
// Which Wine to install
// ---------------------------------------------------------------------------

/// A Wine version that can be downloaded.
#[derive(Debug, Clone)]
pub struct WineVersion {
    pub name: String,
    pub uri: String,
}

/// What to do about Wine (`download_wine`).
#[derive(Debug)]
pub enum WineChoice {
    /// The preferred version is already downloaded: select it.
    SelectDownloaded { name: String },
    /// Download and install this version, then select it.
    Install { version: WineVersion },
}

/// The preferred Wine when it is downloaded; else install the preferred
/// one, or (when it is not on offer) the selected version if it can be
/// found, or else the latest.  Without a preferred version the latest one
/// has to be known, even when the selected one is found.
pub fn choose_wine(
    preferred: Option<WineVersion>,
    preferred_downloaded: bool,
    selected_found: Option<WineVersion>,
    latest: Option<WineVersion>,
) -> (r: WineChoice)
    requires
        preferred is Some || latest is Some,
    ensures
        match preferred {
            Some(p) => if preferred_downloaded {
                r matches WineChoice::SelectDownloaded { name } && name == p.name
            } else {
                r matches WineChoice::Install { version } && version == p
            },
            None => r matches WineChoice::Install { version } && version == match selected_found {
                Some(s) => s,
                None => latest->0,
            },
        },
{
    match preferred {
        Some(p) => {
            if preferred_downloaded {
                WineChoice::SelectDownloaded { name: p.name }
            } else {
                WineChoice::Install { version: p }
            }
        },
        None => match selected_found {
            Some(s) => WineChoice::Install { version: s },
            None => match latest {
                Some(l) => WineChoice::Install { version: l },
                None => {
                    assert(false);
                    WineChoice::Install { version: WineVersion { name: String::new(), uri: String::new() } }
                },
            },
        },
    }
}

// ---------------------------------------------------------------------------
// What the launcher window shows of an install
// ---------------------------------------------------------------------------

/// The translated caption shown over the progress bar.
#[derive(Debug, Clone, Copy, PartialEq, Eq, Structural)]
pub enum ProgressCaption {
    Downloading,
    VerifyingFiles,
    Unpacking,
}

/// The translation key of a caption.
pub fn caption_key(c: ProgressCaption) -> (r: &'static str)
    ensures
        r@ == match c {
            ProgressCaption::Downloading => "downloading"@,
            ProgressCaption::VerifyingFiles => "verifying-files"@,
            ProgressCaption::Unpacking => "unpacking"@,
        },
{
    match c {
        ProgressCaption::Downloading => "downloading",
        ProgressCaption::VerifyingFiles => "verifying-files",
        ProgressCaption::Unpacking => "unpacking",
    }
}

/// How far the bar is filled.
#[derive(Debug, Clone, Copy, PartialEq, Eq, Structural)]
pub enum ProgressAmount {
    /// A byte count (shown as sizes).
    Bytes { done: u64, total: u64 },
    /// A count of items.
    Count { done: u64, total: u64 },
}

/// What an install update changes in the window.
#[derive(Debug)]
pub enum ProgressDisplay {
    /// Show the progress bar, with or without its fraction.
    Bar { show_fraction: bool, caption: ProgressCaption, amount: ProgressAmount },
    /// Append a line to the debug log.
    DebugLog { message: String },
}

/// The window's answer to an install update (`download_factory_game`).
pub fn progress_display(update: InstallUpdate) -> (d: ProgressDisplay)
    ensures
        match update {
            InstallUpdate::Downloading { downloaded_bytes, total_bytes } => d == ProgressDisplay::Bar {
                show_fraction: true,
                caption: ProgressCaption::Downloading,
                amount: ProgressAmount::Bytes { done: downloaded_bytes, total: total_bytes },
            },
            InstallUpdate::Verifying { current, total } => d == ProgressDisplay::Bar {
                show_fraction: true,
                caption: ProgressCaption::VerifyingFiles,
                amount: ProgressAmount::Count { done: current as u64, total: total as u64 },
            },
            InstallUpdate::Unpacking => d == ProgressDisplay::Bar {
                show_fraction: false,
                caption: ProgressCaption::Unpacking,
                amount: ProgressAmount::Bytes { done: 0, total: 100 },
            },
            InstallUpdate::UnpackingProgress { percent } => d == ProgressDisplay::Bar {
                show_fraction: false,
                caption: ProgressCaption::Unpacking,
                amount: ProgressAmount::Bytes { done: percent as u64, total: 100 },
            },
            InstallUpdate::Debug { message } => d == ProgressDisplay::DebugLog { message },
        },
{
    match update {
        InstallUpdate::Downloading { downloaded_bytes, total_bytes } => ProgressDisplay::Bar {
            show_fraction: true,
            caption: ProgressCaption::Downloading,
            amount: ProgressAmount::Bytes { done: downloaded_bytes, total: total_bytes },
        },
        InstallUpdate::Verifying { current, total } => ProgressDisplay::Bar {
            show_fraction: true,
            caption: ProgressCaption::VerifyingFiles,
            amount: ProgressAmount::Count { done: current as u64, total: total as u64 },
        },
        InstallUpdate::Unpacking => ProgressDisplay::Bar {
            show_fraction: false,
            caption: ProgressCaption::Unpacking,
            amount: ProgressAmount::Bytes { done: 0, total: 100 },
        },
        InstallUpdate::UnpackingProgress { percent } => ProgressDisplay::Bar {
            show_fraction: false,
            caption: ProgressCaption::Unpacking,
            amount: ProgressAmount::Bytes { done: percent as u64, total: 100 },
        },
        InstallUpdate::Debug { message } => ProgressDisplay::DebugLog { message },
    }
}

// ---------------------------------------------------------------------------
// The Windows 7-Zip
// ---------------------------------------------------------------------------

pub const SEVEN_ZIP_ARCHIVE_NAME: &'static str = "7z2601-extra.7z";
pub const SEVEN_ZIP_EXTRACT_NAME: &'static str = "7z2601-extra";

/// Where the Windows 7-Zip is installed and cached.
pub struct SevenZipLayout {
    /// Its folder inside the Wine prefix.
    pub target_dir: String,
    /// Its executable there.
    pub target_exe: String,
    /// The launcher's cache folder for it.
    pub tools_dir: String,
    /// The downloaded archive.
    pub archive: String,
    /// Where the archive is extracted.
    pub extract_dir: String,
    /// The folder of the 64-bit files in the extracted archive.
    pub extracted_x64: String,
}

pub open spec fn seven_zip_target_dir(prefix: Seq<char>) -> Seq<char> {
    joined(joined(joined(prefix, "drive_c"@), "factory-game-tools"@), "7zip"@)
}

pub open spec fn seven_zip_tools_dir(cache: Seq<char>) -> Seq<char> {
    joined(joined(cache, "tools"@), "7zip"@)
}

/// The Windows 7-Zip's places, for the Wine prefix `wine_prefix` and the
/// launcher cache `cache_folder`.
pub fn seven_zip_layout(wine_prefix: &str, cache_folder: &str) -> (l: SevenZipLayout)
    ensures
        l.target_dir@ == seven_zip_target_dir(wine_prefix@),
        l.target_exe@ == joined(seven_zip_target_dir(wine_prefix@), "7za.exe"@),
        l.tools_dir@ == seven_zip_tools_dir(cache_folder@),
        l.archive@ == joined(seven_zip_tools_dir(cache_folder@), SEVEN_ZIP_ARCHIVE_NAME@),
        l.extract_dir@ == joined(seven_zip_tools_dir(cache_folder@), SEVEN_ZIP_EXTRACT_NAME@),
        l.extracted_x64@ == joined(
            joined(seven_zip_tools_dir(cache_folder@), SEVEN_ZIP_EXTRACT_NAME@),
            "x64"@,
        ),
{
    let a = path_join(wine_prefix, "drive_c");
    let b = path_join(a.as_str(), "factory-game-tools");
    let target_dir = path_join(b.as_str(), "7zip");
    let target_exe = path_join(target_dir.as_str(), "7za.exe");
    let c = path_join(cache_folder, "tools");
    let tools_dir = path_join(c.as_str(), "7zip");
    let archive = path_join(tools_dir.as_str(), SEVEN_ZIP_ARCHIVE_NAME);
    let extract_dir = path_join(tools_dir.as_str(), SEVEN_ZIP_EXTRACT_NAME);
    let extracted_x64 = path_join(extract_dir.as_str(), "x64");
    SevenZipLayout { target_dir, target_exe, tools_dir, archive, extract_dir, extracted_x64 }
}

/// The files copied from the extracted archive into the Wine prefix.
pub fn seven_zip_files() -> (r: Vec<&'static str>)
    ensures
        r@.len() == 3,
        r@[0] == "7za.exe",
        r@[1] == "7za.dll",
        r@[2] == "7zxa.dll",
{
    let mut r = Vec::new();
    r.push("7za.exe");
    r.push("7za.dll");
    r.push("7zxa.dll");
    r
}

/// The archive is downloaded again when it is missing or empty.
pub fn archive_needs_download(archive_exists: bool, len: u64) -> (b: bool)
    ensures
        b == (!archive_exists || len == 0),
{
    !archive_exists || len == 0
}

/// A step of putting the Windows 7-Zip into the Wine prefix.
#[derive(Debug)]
pub enum SevenZipAction {
    /// Pass the update on.
    Report(InstallUpdate),
    /// Create the folder and its parents.
    CreateDir { path: String },
    /// Download `url` into the file `to`.
    Download { url: String, to: String },
    /// Extract the archive with the system's 7-Zip (`7z x <archive>
    /// -o<into> -y`); its failure fails the install.
    Extract { archive: String, into: String },
    /// Copy the file `from` to `to`.
    Copy { from: String, to: String },
}

/// A `SevenZipAction` with its text taken as characters.
pub enum SevenZipActionView {
    Report(crate::package::UpdateView),
    CreateDir { path: Seq<char> },
    Download { url: Seq<char>, to: Seq<char> },
    Extract { archive: Seq<char>, into: Seq<char> },
    Copy { from: Seq<char>, to: Seq<char> },
}

impl View for SevenZipAction {
    type V = SevenZipActionView;

    open spec fn view(&self) -> SevenZipActionView {
        match self {
            SevenZipAction::Report(u) => SevenZipActionView::Report(u@),
            SevenZipAction::CreateDir { path } => SevenZipActionView::CreateDir { path: path@ },
            SevenZipAction::Download { url, to } => SevenZipActionView::Download { url: url@, to: to@ },
            SevenZipAction::Extract { archive, into } => SevenZipActionView::Extract {
                archive: archive@,
                into: into@,
            },
            SevenZipAction::Copy { from, to } => SevenZipActionView::Copy { from: from@, to: to@ },
        }
    }
}

pub open spec fn seven_zip_action_views(v: Seq<SevenZipAction>) -> Seq<SevenZipActionView> {
    v.map_values(|a: SevenZipAction| a@)
}

pub open spec fn say(m: Seq<char>) -> SevenZipActionView {
    SevenZipActionView::Report(dbg(m))
}

/// The copies of one file of the extracted archive into the prefix.
pub open spec fn copy_of(l: SevenZipLayout, name: Seq<char>) -> SevenZipActionView {
    SevenZipActionView::Copy { from: joined(l.extracted_x64@, name), to: joined(l.target_dir@, name) }
}

/// What `ensure_windows_7zip` does, given what is on disk: nothing but a
/// note when the 7-Zip is in the prefix already; else create its folders,
/// download the archive unless a non-empty copy is cached, extract it unless
/// that was done before, and copy its three 64-bit files into the prefix.
pub open spec fn seven_zip_steps(
    l: SevenZipLayout,
    target_exists: bool,
    archive_exists: bool,
    archive_len: u64,
    extracted_exists: bool,
) -> Seq<SevenZipActionView> {
    if target_exists {
        seq![say("Windows 7-Zip already installed: "@ + l.target_exe@)]
    } else {
        seq![
            say("installing Windows 7-Zip "@ + SEVEN_ZIP_VERSION@ + " into Wine prefix"@),
            SevenZipActionView::CreateDir { path: l.target_dir@ },
            SevenZipActionView::CreateDir { path: l.tools_dir@ },
        ] + (if !archive_exists || archive_len == 0 {
            seq![
                say("downloading Windows 7-Zip from "@ + SEVEN_ZIP_EXTRA_URL@),
                SevenZipActionView::Download { url: SEVEN_ZIP_EXTRA_URL@, to: l.archive@ },
            ]
        } else {
            seq![say("using cached Windows 7-Zip archive: "@ + l.archive@)]
        }) + (if extracted_exists {
            Seq::empty()
        } else {
            seq![
                SevenZipActionView::CreateDir { path: l.extract_dir@ },
                say("extracting Windows 7-Zip extra archive to "@ + l.extract_dir@),
                SevenZipActionView::Extract { archive: l.archive@, into: l.extract_dir@ },
            ]
        }) + seq![
            copy_of(l, "7za.exe"@),
            copy_of(l, "7za.dll"@),
            copy_of(l, "7zxa.dll"@),
            say("Windows 7-Zip installed: "@ + l.target_exe@),
        ]
    }
}

/// Unless the 7-Zip is in the prefix already, its archive is extracted
/// exactly when the extracted `x64/7za.exe` is missing, whether or not the
/// archive was cached, and the extraction comes before every copy out of it;
/// a download of the archive, where there is one, comes before the
/// extraction, and it happens exactly when no non-empty archive is cached.
/// With the 7-Zip in the prefix, the plan is a single note.
pub proof fn seven_zip_extracts_before_copying(
    l: SevenZipLayout,
    target_exists: bool,
    archive_exists: bool,
    archive_len: u64,
    extracted_exists: bool,
)
    ensures
        ({
            let s = seven_zip_steps(l, target_exists, archive_exists, archive_len, extracted_exists);
            &&& target_exists ==> s.len() == 1 && s[0] is Report
            &&& (!target_exists && !extracted_exists) ==> s.contains(
                SevenZipActionView::Extract { archive: l.archive@, into: l.extract_dir@ },
            )
            &&& (target_exists || extracted_exists) ==> forall|k: int|
                0 <= k < s.len() ==> !(#[trigger] s[k] is Extract)
            &&& forall|j: int, k: int|
                0 <= j < s.len() && 0 <= k < s.len() && #[trigger] s[k] is Extract
                    && #[trigger] s[j] is Copy ==> k < j
            &&& forall|j: int, k: int|
                0 <= j < s.len() && 0 <= k < s.len() && #[trigger] s[j] is Download
                    && #[trigger] s[k] is Extract ==> j < k
            &&& (!target_exists && (!archive_exists || archive_len == 0)) ==> s.contains(
                SevenZipActionView::Download { url: SEVEN_ZIP_EXTRA_URL@, to: l.archive@ },
            )
            &&& (target_exists || (archive_exists && archive_len > 0)) ==> forall|k: int|
                0 <= k < s.len() ==> !(#[trigger] s[k] is Download)
            &&& !target_exists ==> s.contains(copy_of(l, "7za.exe"@)) && s.contains(
                copy_of(l, "7za.dll"@),
            ) && s.contains(copy_of(l, "7zxa.dll"@))
        }),
{
    let s = seven_zip_steps(l, target_exists, archive_exists, archive_len, extracted_exists);
    if !target_exists {
        let a = seq![
            say("installing Windows 7-Zip "@ + SEVEN_ZIP_VERSION@ + " into Wine prefix"@),
            SevenZipActionView::CreateDir { path: l.target_dir@ },
            SevenZipActionView::CreateDir { path: l.tools_dir@ },
        ];
        let b = if !archive_exists || archive_len == 0 {
            seq![
                say("downloading Windows 7-Zip from "@ + SEVEN_ZIP_EXTRA_URL@),
                SevenZipActionView::Download { url: SEVEN_ZIP_EXTRA_URL@, to: l.archive@ },
            ]
        } else {
            seq![say("using cached Windows 7-Zip archive: "@ + l.archive@)]
        };
        let c = if extracted_exists {
            Seq::<SevenZipActionView>::empty()
        } else {
            seq![
                SevenZipActionView::CreateDir { path: l.extract_dir@ },
                say("extracting Windows 7-Zip extra archive to "@ + l.extract_dir@),
                SevenZipActionView::Extract { archive: l.archive@, into: l.extract_dir@ },
            ]
        };
        let d = seq![
            copy_of(l, "7za.exe"@),
            copy_of(l, "7za.dll"@),
            copy_of(l, "7zxa.dll"@),
            say("Windows 7-Zip installed: "@ + l.target_exe@),
        ];
        assert(s =~= a + b + c + d);
        let nb = b.len() as int;
        let nc = c.len() as int;
        let e = 3 + nb + nc;
        assert(s.len() == e + 4);
        assert forall|k: int| 0 <= k < s.len() implies (#[trigger] s[k] is Extract) == (!extracted_exists
            && k == 3 + nb + 2) by {
            if k < 3 {
                assert(s[k] == a[k]);
            } else if k < 3 + nb {
                assert(s[k] == b[k - 3]);
            } else if k < e {
                assert(s[k] == c[k - 3 - nb]);
            } else {
                assert(s[k] == d[k - e]);
            }
        }
        assert forall|k: int| 0 <= k < s.len() implies (#[trigger] s[k] is Copy) == (e <= k < e + 3) by {
            if k < 3 {
                assert(s[k] == a[k]);
            } else if k < 3 + nb {
                assert(s[k] == b[k - 3]);
            } else if k < e {
                assert(s[k] == c[k - 3 - nb]);
            } else {
                assert(s[k] == d[k - e]);
            }
        }
        assert forall|k: int| 0 <= k < s.len() implies (#[trigger] s[k] is Download) == ((!archive_exists
            || archive_len == 0) && k == 4) by {
            if k < 3 {
                assert(s[k] == a[k]);
            } else if k < 3 + nb {
                assert(s[k] == b[k - 3]);
            } else if k < e {
                assert(s[k] == c[k - 3 - nb]);
            } else {
                assert(s[k] == d[k - e]);
            }
        }
        if !extracted_exists {
            assert(s[3 + nb + 2] == c[2]);
        }
        if !archive_exists || archive_len == 0 {
            assert(s[4] == b[1]);
        }
        assert(s[e] == d[0]);
        assert(s[e + 1] == d[1]);
        assert(s[e + 2] == d[2]);
    }
}

fn push_step(v: &mut Vec<SevenZipAction>, a: SevenZipAction)
    ensures
        seven_zip_action_views(final(v)@) == seven_zip_action_views(old(v)@).push(a@),
{
    let ghost av = a@;
    v.push(a);
    assert(seven_zip_action_views(v@) =~= seven_zip_action_views(old(v)@).push(av));
}

fn say_step(m: String) -> (a: SevenZipAction)
    ensures
        a@ == say(m@),
{
    SevenZipAction::Report(InstallUpdate::Debug { message: m })
}

/// The steps of `ensure_windows_7zip` (see `seven_zip_steps`), for the 7-Zip
/// laid out as `l`: whether its executable is in the prefix, whether the
/// archive is cached and how long it is, and whether the extracted
/// `x64/7za.exe` is there.
pub fn seven_zip_plan(
    l: &SevenZipLayout,
    target_exists: bool,
    archive_exists: bool,
    archive_len: u64,
    extracted_exists: bool,
) -> (steps: Vec<SevenZipAction>)
    ensures
        seven_zip_action_views(steps@) == seven_zip_steps(
            *l,
            target_exists,
            archive_exists,
            archive_len,
            extracted_exists,
        ),
{
    let mut steps: Vec<SevenZipAction> = Vec::new();
    if target_exists {
        push_step(&mut steps, say_step(concat("Windows 7-Zip already installed: ", l.target_exe.as_str())));
        assert(seven_zip_action_views(steps@) =~= seven_zip_steps(
            *l,
            target_exists,
            archive_exists,
            archive_len,
            extracted_exists,
        ));
        return steps;
    }
    let mut m = concat("installing Windows 7-Zip ", SEVEN_ZIP_VERSION);
    push_str(&mut m, " into Wine prefix");
    push_step(&mut steps, say_step(m));
    push_step(&mut steps, SevenZipAction::CreateDir { path: l.target_dir.clone() });
    push_step(&mut steps, SevenZipAction::CreateDir { path: l.tools_dir.clone() });
    let ghost first = seven_zip_action_views(steps@);
    if archive_needs_download(archive_exists, archive_len) {
        push_step(&mut steps, say_step(concat("downloading Windows 7-Zip from ", SEVEN_ZIP_EXTRA_URL)));
        push_step(
            &mut steps,
            SevenZipAction::Download { url: SEVEN_ZIP_EXTRA_URL.to_owned(), to: l.archive.clone() },
        );
    } else {
        push_step(&mut steps, say_step(concat("using cached Windows 7-Zip archive: ", l.archive.as_str())));
    }
    let ghost second = seven_zip_action_views(steps@);
    if !extracted_exists {
        push_step(&mut steps, SevenZipAction::CreateDir { path: l.extract_dir.clone() });
        push_step(
            &mut steps,
            say_step(concat("extracting Windows 7-Zip extra archive to ", l.extract_dir.as_str())),
        );
        push_step(
            &mut steps,
            SevenZipAction::Extract { archive: l.archive.clone(), into: l.extract_dir.clone() },
        );
    }
    let ghost third = seven_zip_action_views(steps@);
    let files = seven_zip_files();
    let mut i: usize = 0;
    while i < files.len()
        invariant
            files@.len() == 3,
            files@[0] == "7za.exe",
            files@[1] == "7za.dll",
            files@[2] == "7zxa.dll",
            i <= 3,
            seven_zip_action_views(steps@).len() == third.len() + i,
            seven_zip_action_views(steps@).take(third.len() as int) == third,
            forall|j: int|
                0 <= j < i ==> #[trigger] seven_zip_action_views(steps@)[third.len() + j] == copy_of(
                    *l,
                    files@[j]@,
                ),
        decreases 3 - i,
    {
        let from = path_join(l.extracted_x64.as_str(), files[i]);
        let to = path_join(l.target_dir.as_str(), files[i]);
        let ghost before = seven_zip_action_views(steps@);
        push_step(&mut steps, SevenZipAction::Copy { from, to });
        assert(seven_zip_action_views(steps@).take(third.len() as int) =~= before.take(
            third.len() as int,
        ));
        assert forall|j: int| 0 <= j < i + 1 implies #[trigger] seven_zip_action_views(steps@)[third.len()
            + j] == copy_of(*l, files@[j]@) by {
            if j < i {
                assert(seven_zip_action_views(steps@)[third.len() + j] == before[third.len() + j]);
            }
        }
        i += 1;
    }
    push_step(&mut steps, say_step(concat("Windows 7-Zip installed: ", l.target_exe.as_str())));
    let ghost fin = seven_zip_action_views(steps@);
    assert(fin =~= third + seq![
        copy_of(*l, "7za.exe"@),
        copy_of(*l, "7za.dll"@),
        copy_of(*l, "7zxa.dll"@),
        say("Windows 7-Zip installed: "@ + l.target_exe@),
    ]) by {
        assert(fin[third.len() as int + 0] == copy_of(*l, files@[0]@));
        assert(fin[third.len() as int + 1] == copy_of(*l, files@[1]@));
        assert(fin[third.len() as int + 2] == copy_of(*l, files@[2]@));
        assert(fin.take(third.len() as int) == third);
    }
    assert(fin =~= seven_zip_steps(*l, target_exists, archive_exists, archive_len, extracted_exists));
    steps
}

/// How the game archive is unpacked: Wine runs the Windows 7-Zip on the
/// first part, written to the game folder, with the lines logged before.
pub struct UnpackCommand {
    /// The first archive part, as Wine spells it.
    pub archive: String,
    /// The `-o` argument: the game folder, as Wine spells it.
    pub output_arg: String,
    /// The arguments given to Wine.
    pub args: Vec<String>,
    /// The debug lines logged before 7-Zip starts.
    pub updates: Vec<InstallUpdate>,
}

pub open spec fn update_views(v: Seq<InstallUpdate>) -> Seq<crate::package::UpdateView> {
    v.map_values(|u: InstallUpdate| u@)
}

pub open spec fn dbg(m: Seq<char>) -> crate::package::UpdateView {
    crate::package::UpdateView::Debug { message: m }
}

/// The command of `unpack_package`: the first part `first_pack` (of
/// `archive_size` bytes) into `game_dir`, by the 7-Zip at `seven_zip_exe`
/// run by the Wine at `wine_binary`.
pub fn unpack_command(
    first_pack: &str,
    game_dir: &str,
    seven_zip_exe: &str,
    wine_binary: &str,
    archive_size: u64,
) -> (c: UnpackCommand)
    ensures
        c.archive@ == wine_spelling(path_components(first_pack@)),
        c.output_arg@ == "-o"@ + wine_spelling(path_components(game_dir@)),
        string_views(c.args@) == seq![
            seven_zip_exe@,
            "x"@,
            c.archive@,
            c.output_arg@,
            "-y"@,
            "-bsp1"@,
        ],
        update_views(c.updates@) == seq![
            dbg("7z archive: "@ + first_pack@),
            dbg("7z output: "@ + game_dir@),
            dbg("7z first part size: "@ + crate::text::decimal(archive_size as nat) + " bytes"@),
            dbg("7z exe: "@ + seven_zip_exe@),
            dbg("wine: "@ + wine_binary@),
            dbg(
                "7z command: wine '"@ + seven_zip_exe@ + "' x '"@ + c.archive@ + "' '"@
                    + c.output_arg@ + "' -y -bsp1"@,
            ),
        ],
{
    let archive = wine_path(first_pack);
    let out = wine_path(game_dir);
    let output_arg = concat("-o", out.as_str());
    let mut args: Vec<String> = Vec::new();
    args.push(seven_zip_exe.to_owned());
    args.push("x".to_owned());
    args.push(archive.clone());
    args.push(output_arg.clone());
    args.push("-y".to_owned());
    args.push("-bsp1".to_owned());
    let mut updates: Vec<InstallUpdate> = Vec::new();
    updates.push(InstallUpdate::Debug { message: concat("7z archive: ", first_pack) });
    updates.push(InstallUpdate::Debug { message: concat("7z output: ", game_dir) });
    let mut m = concat("7z first part size: ", crate::text::decimal_string(archive_size).as_str());
    push_str(&mut m, " bytes");
    updates.push(InstallUpdate::Debug { message: m });
    updates.push(InstallUpdate::Debug { message: concat("7z exe: ", seven_zip_exe) });
    updates.push(InstallUpdate::Debug { message: concat("wine: ", wine_binary) });
    let mut m = concat("7z command: wine '", seven_zip_exe);
    push_str(&mut m, "' x '");
    push_str(&mut m, archive.as_str());
    push_str(&mut m, "' '");
    push_str(&mut m, output_arg.as_str());
    push_str(&mut m, "' -y -bsp1");
    updates.push(InstallUpdate::Debug { message: m });
    assert(string_views(args@) =~= seq![
            seven_zip_exe@,
            "x"@,
            archive@,
            output_arg@,
            "-y"@,
            "-bsp1"@,
        ]);
    assert(update_views(updates@) =~= seq![
            dbg("7z archive: "@ + first_pack@),
            dbg("7z output: "@ + game_dir@),
            dbg("7z first part size: "@ + crate::text::decimal(archive_size as nat) + " bytes"@),
            dbg("7z exe: "@ + seven_zip_exe@),
            dbg("wine: "@ + wine_binary@),
            dbg(
                "7z command: wine '"@ + seven_zip_exe@ + "' x '"@ + archive@ + "' '"@
                    + output_arg@ + "' -y -bsp1"@,
            ),
        ]);
    UnpackCommand { archive, output_arg, args, updates }
}

} // verus!
