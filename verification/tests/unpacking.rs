use a_factory_game_launcher::game::{
    archive_needs_download, seven_zip_files, seven_zip_layout, seven_zip_plan, unpack_command,
    SevenZipAction,
};
use a_factory_game_launcher::package::InstallUpdate;
use a_factory_game_launcher::sevenzip::{
    clean_7z_line, collapse_line, join_string_lines, LineSplitter, OutputStream, UnpackMonitor,
};

fn message(u: &InstallUpdate) -> &str {
    match u {
        InstallUpdate::Debug { message } => message.as_str(),
        other => panic!("not a debug line: {other:?}"),
    }
}

#[test]
fn splitter_cuts_lines_at_carriage_returns_and_line_feeds() {
    let mut s = LineSplitter::new();
    let mut lines = Vec::new();
    for b in b"  3% 1 - a\r 10% 2 - b\r\n\nEverything is Ok" {
        if let Some(line) = s.push_byte(*b) {
            lines.push(line);
        }
    }
    if let Some(line) = s.finish() {
        lines.push(line);
    }
    assert_eq!(lines, vec!["3% 1 - a", "10% 2 - b", "Everything is Ok"]);
}

#[test]
fn monitor_reports_new_percentages_once() {
    let mut m = UnpackMonitor::new();
    let u = m.on_line(OutputStream::Stdout, " 42% 7 - file.bin".to_string());
    assert_eq!(u.len(), 2);
    assert!(matches!(u[0], InstallUpdate::UnpackingProgress { percent: 42 }));
    assert_eq!(message(&u[1]), "7z stdout:  42% 7 - file.bin");
    assert_eq!(m.last_percent, Some(42));

    // The same line again says nothing new.
    let u = m.on_line(OutputStream::Stdout, " 42% 7 - file.bin".to_string());
    assert!(u.is_empty());

    // Another line at the same percentage is only logged.
    let u = m.on_line(OutputStream::Stdout, "42% 8 - other.bin".to_string());
    assert_eq!(u.len(), 1);
    assert_eq!(message(&u[0]), "7z stdout: 42% 8 - other.bin");
    assert!(m.stderr_tail.is_empty());
}

#[test]
fn monitor_keeps_the_last_twenty_stderr_lines() {
    let mut m = UnpackMonitor::new();
    for i in 0..25 {
        m.on_line(OutputStream::Stderr, format!("error {i}"));
    }
    assert_eq!(m.stderr_tail.len(), 20);
    assert_eq!(m.stderr_tail[0], "error 5");
    assert_eq!(m.stderr_tail[19], "error 24");
    let (u, r) = m.on_exit(false, 3, "exit status: 2");
    assert_eq!(message(&u), "7z exited after 3s with exit status: 2");
    let e = r.unwrap_err();
    assert!(e.starts_with("7z failed to unpack factory game: error 5\nerror 6\n"));
    assert!(e.ends_with("\nerror 24"));
    let (_, ok) = m.on_exit(true, 3, "exit status: 0");
    assert_eq!(ok, Ok(()));
}

#[test]
fn monitor_heartbeat_every_five_seconds() {
    let mut m = UnpackMonitor::new();
    assert!(m.heartbeat(4, 12).is_none());
    let h = m.heartbeat(5, 12).unwrap();
    assert_eq!(message(&h), "7z still running: elapsed=12s, last_progress=0%");
    m.on_line(OutputStream::Stdout, "17%".to_string());
    let h = m.heartbeat(9, 30).unwrap();
    assert_eq!(message(&h), "7z still running: elapsed=30s, last_progress=17%");
    let closed = UnpackMonitor::on_stream_closed(OutputStream::Stderr);
    assert_eq!(message(&closed), "7z stderr: stream closed");
    let done = UnpackMonitor::on_success();
    assert!(matches!(done[0], InstallUpdate::UnpackingProgress { percent: 100 }));
    assert_eq!(message(&done[1]), "7z finished successfully");
}

#[test]
fn joined_lines_use_line_feeds() {
    assert_eq!(join_string_lines(&vec![]), "");
    assert_eq!(join_string_lines(&vec!["a".to_string()]), "a");
    assert_eq!(join_string_lines(&vec!["a".to_string(), "".to_string(), "b".to_string()]), "a\n\nb");
}

#[test]
fn cleaned_lines_are_single_spaced_on_samples() {
    for sample in [&b" \t a \r\n b\x0b\x0c c  "[..], b"x", b"\r\r", b" 42% 123 - file.bin\r"] {
        if let Some(line) = clean_7z_line(sample) {
            assert!(!line.contains("  "));
            assert!(!line.starts_with(' ') && !line.ends_with(' '));
            assert!(!line.contains('\r') && !line.contains('\n') && !line.contains('\t'));
        }
    }
    for sample in [&b" 42% 123 - file.bin\r"[..], b"a\rb", b"a\nb", b"\xffx  y", b"\t\xc3\xa9t\xc3\xa9 "] {
        let line = clean_7z_line(sample).unwrap();
        assert_eq!(clean_7z_line(line.as_bytes()).as_deref(), Some(line.as_str()));
    }
    assert_eq!(clean_7z_line(b"a\rb").as_deref(), Some("ab"));
    assert_eq!(clean_7z_line(b"a\nb").as_deref(), Some("a b"));
    assert_eq!(collapse_line(" a \u{3000} b ").as_deref(), Some("a b"));
    assert_eq!(collapse_line("").as_deref(), None);
}

#[test]
fn seven_zip_lives_in_the_prefix_and_the_cache() {
    let l = seven_zip_layout("/pfx", "/cache");
    assert_eq!(l.target_dir, "/pfx/drive_c/factory-game-tools/7zip");
    assert_eq!(l.target_exe, "/pfx/drive_c/factory-game-tools/7zip/7za.exe");
    assert_eq!(l.tools_dir, "/cache/tools/7zip");
    assert_eq!(l.archive, "/cache/tools/7zip/7z2601-extra.7z");
    assert_eq!(l.extract_dir, "/cache/tools/7zip/7z2601-extra");
    assert_eq!(l.extracted_x64, "/cache/tools/7zip/7z2601-extra/x64");
    assert_eq!(seven_zip_files(), vec!["7za.exe", "7za.dll", "7zxa.dll"]);
    assert!(archive_needs_download(false, 10));
    assert!(archive_needs_download(true, 0));
    assert!(!archive_needs_download(true, 10));
}

#[test]
fn unpack_command_spells_paths_for_wine() {
    let c = unpack_command("/dl/a.zip.001", "/games/fg", "/pfx/7za.exe", "/wine/bin/wine64", 1024);
    assert_eq!(c.archive, r"Z:\dl\a.zip.001");
    assert_eq!(c.output_arg, r"-oZ:\games\fg");
    assert_eq!(c.args, vec!["/pfx/7za.exe", "x", r"Z:\dl\a.zip.001", r"-oZ:\games\fg", "-y", "-bsp1"]);
    let lines: Vec<&str> = c.updates.iter().map(message).collect();
    assert_eq!(
        lines,
        vec![
            "7z archive: /dl/a.zip.001",
            "7z output: /games/fg",
            "7z first part size: 1024 bytes",
            "7z exe: /pfx/7za.exe",
            "wine: /wine/bin/wine64",
            r"7z command: wine '/pfx/7za.exe' x 'Z:\dl\a.zip.001' '-oZ:\games\fg' -y -bsp1",
        ]
    );
}

fn describe(a: &SevenZipAction) -> String {
    match a {
        SevenZipAction::Report(u) => format!("say {}", message(u)),
        SevenZipAction::CreateDir { path } => format!("mkdir {path}"),
        SevenZipAction::Download { url, to } => format!("get {url} {to}"),
        SevenZipAction::Extract { archive, into } => format!("7z {archive} {into}"),
        SevenZipAction::Copy { from, to } => format!("cp {from} {to}"),
    }
}

#[test]
fn seven_zip_is_installed_once() {
    let l = seven_zip_layout("/p", "/c");
    let steps: Vec<String> = seven_zip_plan(&l, true, false, 0, false).iter().map(describe).collect();
    assert_eq!(steps, vec!["say Windows 7-Zip already installed: /p/drive_c/factory-game-tools/7zip/7za.exe"]);

    let steps: Vec<String> = seven_zip_plan(&l, false, true, 0, false).iter().map(describe).collect();
    assert_eq!(
        steps,
        vec![
            "say installing Windows 7-Zip 26.01 into Wine prefix",
            "mkdir /p/drive_c/factory-game-tools/7zip",
            "mkdir /c/tools/7zip",
            "say downloading Windows 7-Zip from https://www.7-zip.org/a/7z2601-extra.7z",
            "get https://www.7-zip.org/a/7z2601-extra.7z /c/tools/7zip/7z2601-extra.7z",
            "mkdir /c/tools/7zip/7z2601-extra",
            "say extracting Windows 7-Zip extra archive to /c/tools/7zip/7z2601-extra",
            "7z /c/tools/7zip/7z2601-extra.7z /c/tools/7zip/7z2601-extra",
            "cp /c/tools/7zip/7z2601-extra/x64/7za.exe /p/drive_c/factory-game-tools/7zip/7za.exe",
            "cp /c/tools/7zip/7z2601-extra/x64/7za.dll /p/drive_c/factory-game-tools/7zip/7za.dll",
            "cp /c/tools/7zip/7z2601-extra/x64/7zxa.dll /p/drive_c/factory-game-tools/7zip/7zxa.dll",
            "say Windows 7-Zip installed: /p/drive_c/factory-game-tools/7zip/7za.exe",
        ]
    );

    let steps: Vec<String> = seven_zip_plan(&l, false, true, 10, true).iter().map(describe).collect();
    assert_eq!(steps.len(), 8);
    assert_eq!(steps[3], "say using cached Windows 7-Zip archive: /c/tools/7zip/7z2601-extra.7z");
    assert_eq!(steps[4], "cp /c/tools/7zip/7z2601-extra/x64/7za.exe /p/drive_c/factory-game-tools/7zip/7za.exe");
}
