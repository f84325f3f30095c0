use a_factory_game_launcher::checksum::PackValidation;
use a_factory_game_launcher::install::{
    download_progress, download_start, install_to, response_offset, InstallAction, InstallPhase,
    Installer,
};
use a_factory_game_launcher::package::{
    known_full_package, InstallUpdate, PACKAGE_LAST_PACK_SIZE, PACKAGE_PACK_BASE_URL,
    PACKAGE_PACK_SIZE,
};

fn debug_text(action: &InstallAction) -> Option<&str> {
    match action {
        InstallAction::Report(InstallUpdate::Debug { message }) => Some(message.as_str()),
        _ => None,
    }
}

fn verifying(action: &InstallAction) -> Option<(usize, usize)> {
    match action {
        InstallAction::Report(InstallUpdate::Verifying { current, total }) => Some((*current, *total)),
        _ => None,
    }
}

fn good(message: &str, cache_updated: bool) -> PackValidation {
    PackValidation { valid: true, cache_updated, message: message.to_string() }
}

fn bad(message: &str) -> PackValidation {
    PackValidation { valid: false, cache_updated: true, message: message.to_string() }
}

#[test]
fn install_starts_by_checking_the_first_part() {
    let (installer, actions) = install_to("/games/fg", "/tmp");
    assert_eq!(installer.phase, InstallPhase::Checking);
    assert_eq!(installer.index, 1);
    assert_eq!(installer.downloaded_bytes, 0);
    assert_eq!(installer.download_dir, "/tmp/factory-game-download/1.3.3");
    assert_eq!(actions.len(), 7);
    assert_eq!(debug_text(&actions[0]), Some("download dir: /tmp/factory-game-download/1.3.3"));
    assert_eq!(debug_text(&actions[1]), Some("game dir: /games/fg"));
    match &actions[2] {
        InstallAction::PrepareDirectories { download_dir, game_dir } => {
            assert_eq!(download_dir, "/tmp/factory-game-download/1.3.3");
            assert_eq!(game_dir, "/games/fg");
        }
        other => panic!("unexpected action {other:?}"),
    }
    assert_eq!(verifying(&actions[3]), Some((0, 49)));
    assert_eq!(debug_text(&actions[4]), Some("checking pack 001"));
    assert_eq!(verifying(&actions[5]), Some((0, 49)));
    match &actions[6] {
        InstallAction::ValidatePack { index, expected_size, expected_md5 } => {
            assert_eq!(*index, 1);
            assert_eq!(*expected_size, PACKAGE_PACK_SIZE);
            assert_eq!(*expected_md5, "2f9c207dabf7ebaef5000f77916a6b98");
        }
        other => panic!("unexpected action {other:?}"),
    }
}

#[test]
fn a_valid_part_is_counted_and_the_cache_saved() {
    let (mut installer, _) = install_to("/g", "/t");
    let actions = installer.on_checked(good("pack 001: checksum cache miss, calculated md5 (valid)", true), 0);
    assert_eq!(installer.index, 2);
    assert_eq!(installer.phase, InstallPhase::Checking);
    assert_eq!(installer.downloaded_bytes, PACKAGE_PACK_SIZE);
    assert!(!installer.cache_dirty);
    assert_eq!(actions.len(), 7);
    assert_eq!(debug_text(&actions[0]), Some("pack 001: checksum cache miss, calculated md5 (valid)"));
    assert_eq!(debug_text(&actions[1]), Some("pack 001 is valid"));
    assert!(matches!(actions[2], InstallAction::SaveChecksumCache));
    assert_eq!(verifying(&actions[3]), Some((1, 49)));
    assert_eq!(debug_text(&actions[4]), Some("checking pack 002"));
    assert_eq!(verifying(&actions[5]), Some((1, 49)));
    assert!(matches!(actions[6], InstallAction::ValidatePack { index: 2, .. }));
}

#[test]
fn a_cache_hit_saves_nothing() {
    let (mut installer, _) = install_to("/g", "/t");
    let actions = installer.on_checked(good("pack 001: checksum cache hit (valid)", false), 0);
    assert_eq!(actions.len(), 6);
    assert!(!actions.iter().any(|a| matches!(a, InstallAction::SaveChecksumCache)));
}

#[test]
fn an_oversized_part_is_removed_and_downloaded_again() {
    let (mut installer, _) = install_to("/g", "/t");
    let actions = installer.on_checked(bad("pack 001: size mismatch, have 2000000000, want 1073741824"), 2_000_000_000);
    assert_eq!(installer.phase, InstallPhase::Downloading);
    assert!(installer.cache_dirty);
    assert_eq!(actions.len(), 4);
    assert_eq!(
        debug_text(&actions[1]),
        Some("pack 001 is oversized (2000000000 > 1073741824), restarting")
    );
    assert!(matches!(actions[2], InstallAction::RemovePack { index: 1 }));
    match &actions[3] {
        InstallAction::DownloadPack { index, url, expected_size, already_downloaded, total_bytes } => {
            assert_eq!(*index, 1);
            assert_eq!(url, &format!("{PACKAGE_PACK_BASE_URL}001"));
            assert_eq!(*expected_size, PACKAGE_PACK_SIZE);
            assert_eq!(*already_downloaded, 0);
            assert_eq!(*total_bytes, known_full_package().download_size());
        }
        other => panic!("unexpected action {other:?}"),
    }
}

#[test]
fn a_partial_part_is_resumed() {
    let (mut installer, _) = install_to("/g", "/t");
    let actions = installer.on_checked(bad("pack 001: size mismatch, have 10, want 1073741824"), 10);
    assert_eq!(actions.len(), 3);
    assert_eq!(debug_text(&actions[1]), Some("resuming pack 001 from 10 bytes"));
    let (mut fresh, _) = install_to("/g", "/t");
    let actions = fresh.on_checked(bad("pack 001: not downloaded yet"), 0);
    assert_eq!(debug_text(&actions[1]), Some("downloading pack 001"));
}

#[test]
fn a_corrupt_download_fails_the_install() {
    let (mut installer, _) = install_to("/g", "/t");
    installer.on_checked(good("ok", false), 0);
    installer.on_checked(bad("pack 002: not downloaded yet"), 0);
    let actions = installer.on_downloaded();
    assert_eq!(installer.phase, InstallPhase::Rechecking);
    assert_eq!(verifying(&actions[0]), Some((1, 49)));
    assert!(matches!(actions[1], InstallAction::RevalidatePack { index: 2, .. }));
    let actions = installer.on_rechecked(bad("pack 002: checksum cache miss, calculated md5 (invalid)"));
    assert_eq!(installer.phase, InstallPhase::Failed);
    assert_eq!(actions.len(), 3);
    assert!(matches!(actions[1], InstallAction::DiscardPack { index: 2 }));
    match &actions[2] {
        InstallAction::Fail { message } => {
            assert_eq!(message, "Factory game pack 002 failed MD5 verification")
        }
        other => panic!("unexpected action {other:?}"),
    }
    assert_eq!(installer.downloaded_bytes, PACKAGE_PACK_SIZE);
}

#[test]
fn a_full_install_reaches_the_version_marker() {
    let (mut installer, first) = install_to("/g", "/t");
    let mut reports: Vec<(usize, usize)> = first.iter().filter_map(verifying).collect();
    let mut last: Vec<InstallAction> = Vec::new();
    for index in 1..=49usize {
        assert_eq!(installer.index, index);
        if index % 2 == 0 {
            let checked = installer.on_checked(bad("missing"), 0);
            reports.extend(checked.iter().filter_map(verifying));
            let downloaded = installer.on_downloaded();
            reports.extend(downloaded.iter().filter_map(verifying));
            last = installer.on_rechecked(good("fresh", true));
            reports.extend(last.iter().filter_map(verifying));
            assert_eq!(debug_text(&last[2]), Some(format!("pack {index:03} downloaded and verified").as_str()));
        } else {
            last = installer.on_checked(good("cached", false), 0);
            reports.extend(last.iter().filter_map(verifying));
        }
        assert!(installer.downloaded_bytes <= installer.total_bytes);
    }
    assert_eq!(reports[0], (0, 49));
    assert_eq!(*reports.last().unwrap(), (49, 49));
    for pair in reports.windows(2) {
        assert_eq!(pair[1].1, 49);
        assert!(pair[1].0 == pair[0].0 || pair[1].0 == pair[0].0 + 1);
    }
    assert_eq!(installer.phase, InstallPhase::Unpacking);
    assert_eq!(installer.downloaded_bytes, 48 * PACKAGE_PACK_SIZE + PACKAGE_LAST_PACK_SIZE);
    let n = last.len();
    assert!(matches!(last[n - 2], InstallAction::Report(InstallUpdate::Unpacking)));
    assert!(matches!(last[n - 1], InstallAction::Unpack));
    let actions = installer.on_unpacked();
    assert_eq!(installer.phase, InstallPhase::Finished);
    match &actions[0] {
        InstallAction::WriteVersionMarker { contents } => assert_eq!(contents, "1.3.3\n"),
        other => panic!("unexpected action {other:?}"),
    }
}

#[test]
fn new_installers_start_empty() {
    let installer = Installer::new("/g", "/t/");
    assert_eq!(installer.phase, InstallPhase::NotStarted);
    assert_eq!(installer.download_dir, "/t/factory-game-download/1.3.3");
    assert_eq!(installer.total_bytes, 51_711_871_552);
}

#[test]
fn downloads_resume_with_a_range() {
    let s = download_start(100, 1000);
    assert_eq!(s.offset, 100);
    assert_eq!(s.range.as_deref(), Some("bytes=100-"));
    assert!(!s.remove_existing);
    let s = download_start(1000, 1000);
    assert_eq!((s.offset, s.range.clone(), s.remove_existing), (0, None, true));
    let s = download_start(0, 1000);
    assert_eq!((s.offset, s.range.clone(), s.remove_existing), (0, None, false));
    assert_eq!(response_offset(100, Some(1000), 1000), 0);
    assert_eq!(response_offset(100, Some(900), 1000), 100);
    assert_eq!(response_offset(100, None, 1000), 100);
    assert_eq!(response_offset(0, Some(1000), 1000), 0);
    match download_progress(5, 7, 100) {
        InstallUpdate::Downloading { downloaded_bytes, total_bytes } => {
            assert_eq!((downloaded_bytes, total_bytes), (12, 100))
        }
        other => panic!("unexpected update {other:?}"),
    }
}
