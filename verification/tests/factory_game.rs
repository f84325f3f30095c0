use a_factory_game_launcher::checksum::{
    check_pack, record_pack_checksum, ChecksumCache, PackCheck, PackFile,
};
use a_factory_game_launcher::hashing::md5_hex;
use a_factory_game_launcher::package::{
    known_full_package, latest_launcher_url, pack_path, LatestLauncher, LauncherSizeError,
    CHANNEL, LAUNCHER_APP_CODE, PACKAGE_LAST_PACK_SIZE, PACKAGE_PACK_SIZE, REMOTE_TARGET_APP,
    SUB_CHANNEL, TRACKING,
};
use a_factory_game_launcher::paths::{is_default_genshin_path, path_join, wine_path};
use a_factory_game_launcher::sevenzip::{clean_7z_line, parse_7z_percent, parse_percent_prefix};

#[test]
fn builds_known_pack_urls() {
    let package = known_full_package();

    assert_eq!(
        package.pack_url(1).as_deref(),
        Some(
            "https://beyond.hg-cdn.com/YDUTE5gscDZ229CW/1.3/update/6/6/Windows/1.3.3_BGlQHu2HgMlqTuqG/packs/Beyond_Release_v1d3-Rel-os-7123154-1_prod_obt_official.zip.001"
        )
    );
    assert!(package.pack_url(0).is_none());
    assert!(package.pack_url(50).is_none());
}

#[test]
fn keeps_official_bootstrap_query() {
    assert_eq!(
        latest_launcher_url(),
        format!(
            "https://launcher.gryphline.com/api/launcher/get_latest_launcher?appcode={LAUNCHER_APP_CODE}&channel={CHANNEL}&sub_channel={SUB_CHANNEL}&ua=&ta={REMOTE_TARGET_APP}&tracking={TRACKING}"
        )
    );
}

#[test]
fn knows_compressed_download_size() {
    let package = known_full_package();

    assert_eq!(
        package.download_size(),
        48 * PACKAGE_PACK_SIZE + PACKAGE_LAST_PACK_SIZE
    );
}

#[test]
fn detects_old_default_game_paths() {
    assert!(is_default_genshin_path(
        "/tmp/a-factory-game-launcher/Genshin Impact"
    ));
    assert!(is_default_genshin_path(
        "/tmp/a-factory-game-launcher/YuanShen"
    ));
    assert!(!is_default_genshin_path(
        "/tmp/a-factory-game-launcher/Factory Game"
    ));
}

#[test]
fn parses_7z_progress_lines() {
    assert_eq!(parse_7z_percent(b"  0% 12 - file.bin\r"), Some(0));
    assert_eq!(parse_7z_percent(b" 42% 123 - file.bin\r"), Some(42));
    assert_eq!(parse_7z_percent(b"Everything is Ok\n100%\r"), Some(100));
    assert_eq!(parse_7z_percent(b"No percent here"), None);
}

#[test]
fn cleans_7z_lines_for_debug_log() {
    assert_eq!(
        clean_7z_line(b" 42% 123 - file.bin\r").as_deref(),
        Some("42% 123 - file.bin")
    );
    assert_eq!(clean_7z_line(b"\r\n").as_deref(), None);
}

#[test]
fn caches_pack_checksums() {
    let contents = b"abc";
    let file = Some(PackFile { len: 3, modified: Some(1_700_000_000) });

    let mut cache = ChecksumCache::new();
    let first = match check_pack(file, 1, 3, "900150983cd24fb0d6963f7d28e17f72", &mut cache) {
        PackCheck::NeedsChecksum { modified } => record_pack_checksum(
            1,
            3,
            modified,
            md5_hex(contents),
            "900150983cd24fb0d6963f7d28e17f72",
            &mut cache,
        ),
        PackCheck::Done(_) => panic!("an empty cache cannot vouch for a part"),
    };

    assert!(first.valid);
    assert!(first.cache_updated);
    assert!(first.message.contains("cache miss"));

    let second = match check_pack(file, 1, 3, "900150983cd24fb0d6963f7d28e17f72", &mut cache) {
        PackCheck::Done(v) => v,
        PackCheck::NeedsChecksum { .. } => panic!("the cache should hold the checksum"),
    };

    assert!(second.valid);
    assert!(!second.cache_updated);
    assert!(second.message.contains("cache hit"));
}

#[test]
fn converts_unix_paths_for_wine() {
    assert_eq!(
        wine_path("/home/au/game/file.zip.001"),
        r"Z:\home\au\game\file.zip.001"
    );
}

// --- further cases ---------------------------------------------------------

#[test]
fn pack_sizes_follow_the_release() {
    let package = known_full_package();
    assert_eq!(package.pack_size(0), None);
    assert_eq!(package.pack_size(1), Some(PACKAGE_PACK_SIZE));
    assert_eq!(package.pack_size(48), Some(PACKAGE_PACK_SIZE));
    assert_eq!(package.pack_size(49), Some(PACKAGE_LAST_PACK_SIZE));
    assert_eq!(package.pack_size(50), None);
    let sum: u64 = (1..=49).map(|i| package.pack_size(i).unwrap()).sum();
    assert_eq!(sum, package.download_size());
    assert_eq!(package.download_size(), 51_711_871_552);
    assert_eq!(package.pack_md5.len(), 49);
    assert_eq!(package.pack_md5[0], "2f9c207dabf7ebaef5000f77916a6b98");
}

#[test]
fn last_pack_url_is_numbered_049() {
    let package = known_full_package();
    assert!(package.pack_url(49).unwrap().ends_with("official.zip.049"));
}

#[test]
fn pack_paths_join_the_download_dir() {
    assert_eq!(
        pack_path("/tmp/dl", 7),
        "/tmp/dl/Beyond_Release_v1d3-Rel-os-7123154-1_prod_obt_official.zip.007"
    );
    assert_eq!(path_join("/tmp/dl/", "x"), "/tmp/dl/x");
    assert_eq!(path_join("", "x"), "x");
    assert_eq!(path_join("/tmp", "/etc"), "/etc");
}

#[test]
fn reads_launcher_sizes() {
    let mut launcher = LatestLauncher {
        action: 0,
        version: "1.4.0".to_string(),
        request_version: "1.4.0".to_string(),
        exe_url: "https://example.invalid/launcher.exe".to_string(),
        exe_size: "123456".to_string(),
    };
    assert_eq!(launcher.exe_size_bytes(), Ok(123456));
    launcher.exe_size = "+17".to_string();
    assert_eq!(launcher.exe_size_bytes(), Ok(17));
    launcher.exe_size = "18446744073709551615".to_string();
    assert_eq!(launcher.exe_size_bytes(), Ok(u64::MAX));
    launcher.exe_size = "18446744073709551616".to_string();
    assert_eq!(launcher.exe_size_bytes(), Err(LauncherSizeError::InvalidSize));
    launcher.exe_size = "12a".to_string();
    assert_eq!(launcher.exe_size_bytes(), Err(LauncherSizeError::InvalidSize));
    launcher.exe_size = "".to_string();
    assert_eq!(launcher.exe_size_bytes(), Err(LauncherSizeError::InvalidSize));
    launcher.exe_size = "-1".to_string();
    assert_eq!(launcher.exe_size_bytes(), Err(LauncherSizeError::InvalidSize));
}

#[test]
fn percent_prefixes() {
    assert_eq!(parse_percent_prefix(" 42"), Some(42));
    assert_eq!(parse_percent_prefix("abc 7 x  "), Some(7));
    assert_eq!(parse_percent_prefix("101"), None);
    assert_eq!(parse_percent_prefix("0100"), Some(100));
    assert_eq!(parse_percent_prefix("no digits"), None);
    assert_eq!(parse_7z_percent(b"12% then 300% then"), Some(12));
    assert_eq!(parse_7z_percent(b"%"), None);
    assert_eq!(parse_7z_percent(b"5%\xff\xfe 6%"), Some(6));
}

#[test]
fn cleaning_drops_carriage_returns_inside_words() {
    assert_eq!(clean_7z_line(b"ab\rcd  ef\n gh").as_deref(), Some("abcd ef gh"));
    assert_eq!(clean_7z_line(b"   ").as_deref(), None);
    assert_eq!(clean_7z_line(b"\xffx").as_deref(), Some("\u{fffd}x"));
}

#[test]
fn wine_paths_skip_dots() {
    assert_eq!(wine_path("/a/./b//c/"), r"Z:\a\b\c");
    assert_eq!(wine_path("relative/x"), r"Z:\relative\x");
    assert_eq!(wine_path("/"), r"Z:\");
}

#[test]
fn genshin_paths_need_a_last_name() {
    assert!(is_default_genshin_path("Genshin Impact"));
    assert!(is_default_genshin_path("/games/YuanShen/"));
    assert!(!is_default_genshin_path("/games/YuanShen/.."));
    assert!(!is_default_genshin_path("/"));
}
