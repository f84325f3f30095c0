use a_factory_game_launcher::cli::{
    debug_file_log_level, is_noisy_target, parse_args, stdout_log_level, str_contains, LogLevel,
};
use a_factory_game_launcher::config::{
    configured_game_dir, default_game_dir, fallback_dir, installed_version_from, is_installed_in,
    legacy_app_folder_names, normalize_config_paths, rewrite_legacy_path, xdg_dir_candidate,
    ConfigPaths, GameEdition, XdgEnv, XdgKind,
};
use a_factory_game_launcher::package::PREFERRED_WINE_VERSION;

fn env(xdg: Option<&str>, home: Option<&str>, user: Option<&str>, username: Option<&str>) -> XdgEnv {
    XdgEnv {
        xdg_home: xdg.map(str::to_string),
        home: home.map(str::to_string),
        user: user.map(str::to_string),
        username: username.map(str::to_string),
    }
}

fn legacy_config() -> ConfigPaths {
    ConfigPaths {
        wine_prefix: "/home/u/.local/share/anime-game-launcher/prefix".to_string(),
        wine_builds: "/home/u/.local/share/anime-game-launcher/runners".to_string(),
        dxvk_builds: "/opt/dxvks".to_string(),
        game_path_global: "/home/u/.local/share/anime-game-launcher/Genshin Impact".to_string(),
        game_path_china: "/games/YuanShen".to_string(),
        components_path: "/home/u/.local/share/anime-game-launcher/components".to_string(),
        fps_unlocker_path: "/home/u/.local/share/anime-game-launcher/fps".to_string(),
        launcher_temp: Some("/home/u/.local/share/anime-game-launcher".to_string()),
        wine_selected: Some("spritz-wine-cachyos-9.0".to_string()),
        edition: GameEdition::Global,
    }
}

#[test]
fn xdg_directories_follow_the_environment() {
    let f = "a-factory-game-launcher";
    assert_eq!(
        xdg_dir_candidate(XdgKind::Data, &env(Some("/x"), Some("/h"), None, None), f).as_deref(),
        Some("/h/.local/share/a-factory-game-launcher")
    );
    assert_eq!(
        xdg_dir_candidate(XdgKind::Cache, &env(Some("/x"), Some("/h"), None, None), f).as_deref(),
        Some("/h/.cache/a-factory-game-launcher")
    );
    assert_eq!(
        xdg_dir_candidate(XdgKind::Data, &env(Some("/x"), None, Some("al"), None), f).as_deref(),
        Some("/x/a-factory-game-launcher")
    );
    assert_eq!(
        xdg_dir_candidate(XdgKind::Data, &env(None, Some("/h"), None, None), f).as_deref(),
        Some("/h/.local/share/a-factory-game-launcher")
    );
    assert_eq!(
        xdg_dir_candidate(XdgKind::Cache, &env(None, Some("/h"), None, None), f).as_deref(),
        Some("/h/.cache/a-factory-game-launcher")
    );
    assert_eq!(
        xdg_dir_candidate(XdgKind::Cache, &env(None, None, None, Some("bob")), f).as_deref(),
        Some("/home/bob/.cache/a-factory-game-launcher")
    );
    assert_eq!(
        xdg_dir_candidate(XdgKind::Data, &env(None, None, Some("al"), Some("bob")), f).as_deref(),
        Some("/home/al/.local/share/a-factory-game-launcher")
    );
    assert_eq!(xdg_dir_candidate(XdgKind::Data, &env(None, None, None, None), f), None);
    assert_eq!(fallback_dir(XdgKind::Data, "/cwd"), "/cwd/data");
    assert_eq!(fallback_dir(XdgKind::Cache, "/cwd/"), "/cwd/cache");
    assert_eq!(legacy_app_folder_names(), vec!["a-factory-game-launcher", "anime-game-launcher"]);
}

#[test]
fn game_dirs_and_install_markers() {
    assert_eq!(default_game_dir("/l"), "/l/Factory Game");
    assert!(!a_factory_game_launcher::paths::is_default_genshin_path(&default_game_dir("/YuanShen/")));
    let mut c = legacy_config();
    assert_eq!(configured_game_dir(&c), c.game_path_global);
    c.edition = GameEdition::China;
    assert_eq!(configured_game_dir(&c), "/games/YuanShen");
    assert_eq!(installed_version_from(Some(" 1.3.3\n")).as_deref(), Some("1.3.3"));
    assert_eq!(installed_version_from(Some(" \n")), None);
    assert_eq!(installed_version_from(None), None);
    assert!(is_installed_in(true, Some("1.3.3\n")));
    assert!(!is_installed_in(false, Some("1.3.3\n")));
    assert!(!is_installed_in(true, Some("   ")));
    assert!(!is_installed_in(true, None));
}

#[test]
fn legacy_paths_move_to_the_current_launcher() {
    let mut p = "/old/launcher/prefix".to_string();
    assert!(rewrite_legacy_path(&mut p, "/old/launcher", "/new"));
    assert_eq!(p, "/new/prefix");
    let mut q = "/old/launcherx/prefix".to_string();
    assert!(!rewrite_legacy_path(&mut q, "/old/launcher", "/new"));
    assert_eq!(q, "/old/launcherx/prefix");
    let mut r = "/same/a".to_string();
    assert!(!rewrite_legacy_path(&mut r, "/same", "/same/"));
    assert_eq!(r, "/same/a");
}

#[test]
fn normalization_repairs_old_configurations() {
    let mut c = legacy_config();
    let legacies = vec![
        "/home/u/.local/share/a-factory-game-launcher".to_string(),
        "/home/u/.local/share/anime-game-launcher".to_string(),
    ];
    let current = "/home/u/.local/share/a-factory-game-launcher";
    let default_dir = "/home/u/.local/share/a-factory-game-launcher/Factory Game";
    assert!(normalize_config_paths(&mut c, current, &legacies, default_dir));
    assert_eq!(c.wine_prefix, "/home/u/.local/share/a-factory-game-launcher/prefix");
    assert_eq!(c.wine_builds, "/home/u/.local/share/a-factory-game-launcher/runners");
    assert_eq!(c.dxvk_builds, "/opt/dxvks");
    assert_eq!(c.game_path_global, default_dir);
    assert_eq!(c.game_path_china, default_dir);
    assert_eq!(c.components_path, "/home/u/.local/share/a-factory-game-launcher/components");
    assert_eq!(c.fps_unlocker_path, "/home/u/.local/share/a-factory-game-launcher/fps");
    assert_eq!(c.launcher_temp.as_deref(), Some("/home/u/.local/share/a-factory-game-launcher/"));
    assert_eq!(c.wine_selected.as_deref(), Some(PREFERRED_WINE_VERSION));

    // A normalized configuration is left as it is.
    assert!(!normalize_config_paths(&mut c, current, &legacies, default_dir));
    assert_eq!(c.wine_selected.as_deref(), Some(PREFERRED_WINE_VERSION));
    assert_eq!(c.game_path_global, default_dir);
}

#[test]
fn normalization_keeps_a_chosen_wine() {
    let mut c = legacy_config();
    c.wine_selected = Some("wine-ge-8".to_string());
    c.launcher_temp = None;
    normalize_config_paths(&mut c, "/n", &vec![], "/n/Factory Game");
    assert_eq!(c.wine_selected.as_deref(), Some("wine-ge-8"));
    assert_eq!(c.launcher_temp, None);
    c.wine_selected = None;
    assert!(normalize_config_paths(&mut c, "/n", &vec![], "/n/Factory Game"));
    assert_eq!(c.wine_selected.as_deref(), Some(PREFERRED_WINE_VERSION));
}

#[test]
fn command_line_flags() {
    let args: Vec<String> = ["launcher", "--debug", "--session", "work", "--debug", "--run-game", "-x"]
        .iter()
        .map(|s| s.to_string())
        .collect();
    let a = parse_args(&args);
    assert_eq!(a.force_debug, 2);
    assert!(a.run_game);
    assert!(!a.just_run_game);
    assert!(!a.no_verbose_tracing);
    assert_eq!(a.session.as_deref(), Some("work"));
    assert_eq!(a.gtk_args, vec!["launcher", "work", "-x"]);

    let args: Vec<String> = ["l", "--just-run-game", "--no-verbose-tracing", "--session"]
        .iter()
        .map(|s| s.to_string())
        .collect();
    let a = parse_args(&args);
    assert!(a.just_run_game && a.no_verbose_tracing);
    assert_eq!(a.session, None);
    assert_eq!(a.gtk_args, vec!["l"]);
}

#[test]
fn log_levels_and_filters() {
    assert_eq!(stdout_log_level(0, false), LogLevel::Warn);
    assert_eq!(stdout_log_level(0, true), LogLevel::Debug);
    assert_eq!(stdout_log_level(1, false), LogLevel::Debug);
    assert_eq!(stdout_log_level(2, false), LogLevel::Trace);
    assert_eq!(debug_file_log_level(0), LogLevel::Debug);
    assert_eq!(debug_file_log_level(3), LogLevel::Trace);
    assert!(is_noisy_target("rustls::client"));
    assert!(is_noisy_target("hyper_util::client::legacy"));
    assert!(is_noisy_target("h2::codec"));
    assert!(!is_noisy_target("a_factory_game_launcher::install"));
    assert!(str_contains("abc", ""));
    assert!(str_contains("abc", "bc"));
    assert!(!str_contains("ab", "abc"));
    assert!(!str_contains("", "a"));
}
