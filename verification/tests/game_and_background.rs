use a_factory_game_launcher::background::{
    background_at, cached_uri_matches, conversion_command, image_is_current, content_matches_hash, finish_steps, get_img_hash_from_uri,
    get_uri, img_uri_cache_path, needs_conversion, select_background, supports_webp, Background,
    BackgroundError, BackgroundSpec, BannerImage, BannerResponse, BatchProxyRequest,
    BatchProxyResponse, DownloadStep, FinishStep, ImageRole, MainBackgroundImage,
    MainBackgroundResponse, PixbufFormat, ProxyResponse,
};
use a_factory_game_launcher::game::{
    caption_key, choose_wine, launch_plan, progress_display, replace_keywords, replace_str,
    KeywordValues, LaunchEnv, LaunchError, ProgressAmount, ProgressCaption, ProgressDisplay,
    WineBuild, WineChoice, WineVersion,
};
use a_factory_game_launcher::hashing::{lower_hex, md5_hex, FileChecksum};
use a_factory_game_launcher::package::InstallUpdate;

const HASH: &str = "0123456789abcdef0123456789ABCDEF";

fn pair(k: &str, v: &str) -> (String, String) {
    (k.to_string(), v.to_string())
}

fn response(main: Option<(&str, Option<&str>, Option<&str>)>, banners: &[&str]) -> BatchProxyResponse {
    let mut rsps = Vec::new();
    rsps.push(ProxyResponse {
        kind: "other".to_string(),
        get_main_bg_image_rsp: None,
        get_banner_rsp: None,
    });
    if let Some((url, md5, video)) = main {
        rsps.push(ProxyResponse {
            kind: "get_main_bg_image".to_string(),
            get_main_bg_image_rsp: Some(MainBackgroundResponse {
                main_bg_image: Some(MainBackgroundImage {
                    url: url.to_string(),
                    md5: md5.map(str::to_string),
                    video_url: video.map(str::to_string),
                }),
            }),
            get_banner_rsp: None,
        });
    }
    rsps.push(ProxyResponse {
        kind: "get_banner".to_string(),
        get_main_bg_image_rsp: None,
        get_banner_rsp: Some(BannerResponse {
            banners: banners
                .iter()
                .map(|u| BannerImage { url: u.to_string(), md5: None })
                .collect(),
        }),
    });
    BatchProxyResponse { proxy_rsps: rsps }
}

fn picture(uri: &str) -> Background {
    Background { uri: uri.to_string(), hash: None }
}

#[test]
fn keywords_are_replaced_in_order() {
    assert_eq!(replace_str("aXbXXc", "X", "yy"), "ayybyyyyc");
    assert_eq!(replace_str("aaa", "aa", "b"), "ba");
    assert_eq!(replace_str("ab", "", "x"), "xaxbx");
    assert_eq!(replace_str("", "", "x"), "x");
    assert_eq!(replace_str("é", "", "-"), "-é-");
    let k = KeywordValues {
        build: "/w/b".to_string(),
        prefix: "/p".to_string(),
        temp: "/tmp".to_string(),
        launcher: "/l".to_string(),
        game: "/g".to_string(),
    };
    assert_eq!(
        replace_keywords("%build%/bin %prefix% %temp% %launcher% %game% %other%", &k),
        "/w/b/bin /p /tmp /l /g %other%"
    );
}

#[test]
fn launch_needs_an_install_and_a_wine() {
    let env = LaunchEnv { wine_features: vec![], dxvk_features: vec![], game: vec![] };
    let wine = WineBuild { name: "w".to_string(), wine64: None, wine: "bin/wine".to_string() };
    let r = launch_plan(false, Some(&wine), None, "/b", "/p", "/g", "/t", "/l", &env);
    assert!(matches!(r, Err(LaunchError::NotInstalled)));
    let r = launch_plan(true, None, None, "/b", "/p", "/g", "/t", "/l", &env);
    assert!(matches!(r, Err(LaunchError::NoWine)));
}

#[test]
fn launch_plan_builds_the_command_and_environment() {
    let env = LaunchEnv {
        wine_features: vec![pair("WINEDLLPATH", "%build%/lib")],
        dxvk_features: vec![pair("DXVK_DIR", "%game%/dxvk")],
        game: vec![pair("MANGOHUD", "%game%")],
    };
    let wine = WineBuild {
        name: "wine-dwproton".to_string(),
        wine64: Some("bin/wine64".to_string()),
        wine: "bin/wine".to_string(),
    };
    let plan = match launch_plan(true, Some(&wine), None, "/b", "/p", "/g", "/t", "/l", &env) {
        Ok(plan) => plan,
        Err(e) => panic!("no plan: {e:?}"),
    };
    assert_eq!(plan.script, "'/b/wine-dwproton/bin/wine64' Endfield.exe");
    assert_eq!(plan.current_dir, "/g");
    assert_eq!(
        plan.env,
        vec![
            pair("WINEARCH", "win64"),
            pair("WINEPREFIX", "/p"),
            pair("WINEDLLPATH", "/b/wine-dwproton/lib"),
            pair("DXVK_DIR", "/g/dxvk"),
            pair("MANGOHUD", "%game%"),
        ]
    );
    let plan = match launch_plan(true, Some(&wine), Some("%build%/run --"), "/b", "/p", "/g", "/t", "/l", &env) {
        Ok(plan) => plan,
        Err(e) => panic!("no plan: {e:?}"),
    };
    assert_eq!(plan.script, "/b/wine-dwproton/run -- Endfield.exe");
}

#[test]
fn wine_choice_prefers_the_pinned_version() {
    let v = |n: &str| WineVersion { name: n.to_string(), uri: format!("https://x/{n}") };
    match choose_wine(Some(v("pinned")), true, Some(v("sel")), Some(v("latest"))) {
        WineChoice::SelectDownloaded { name } => assert_eq!(name, "pinned"),
        other => panic!("unexpected {other:?}"),
    }
    match choose_wine(Some(v("pinned")), false, None, Some(v("latest"))) {
        WineChoice::Install { version } => assert_eq!(version.name, "pinned"),
        other => panic!("unexpected {other:?}"),
    }
    match choose_wine(None, false, Some(v("sel")), Some(v("latest"))) {
        WineChoice::Install { version } => assert_eq!(version.name, "sel"),
        other => panic!("unexpected {other:?}"),
    }
    match choose_wine(None, true, None, Some(v("latest"))) {
        WineChoice::Install { version } => assert_eq!(version.uri, "https://x/latest"),
        other => panic!("unexpected {other:?}"),
    }
}

#[test]
fn progress_updates_fill_the_bar() {
    let d = progress_display(InstallUpdate::Downloading { downloaded_bytes: 5, total_bytes: 9 });
    assert!(matches!(d, ProgressDisplay::Bar {
        show_fraction: true,
        caption: ProgressCaption::Downloading,
        amount: ProgressAmount::Bytes { done: 5, total: 9 },
    }));
    let d = progress_display(InstallUpdate::Verifying { current: 3, total: 49 });
    assert!(matches!(d, ProgressDisplay::Bar {
        caption: ProgressCaption::VerifyingFiles,
        amount: ProgressAmount::Count { done: 3, total: 49 },
        ..
    }));
    let d = progress_display(InstallUpdate::Unpacking);
    assert!(matches!(d, ProgressDisplay::Bar {
        show_fraction: false,
        amount: ProgressAmount::Bytes { done: 0, total: 100 },
        ..
    }));
    let d = progress_display(InstallUpdate::UnpackingProgress { percent: 64 });
    assert!(matches!(d, ProgressDisplay::Bar {
        caption: ProgressCaption::Unpacking,
        amount: ProgressAmount::Bytes { done: 64, total: 100 },
        ..
    }));
    match progress_display(InstallUpdate::Debug { message: "hi".to_string() }) {
        ProgressDisplay::DebugLog { message } => assert_eq!(message, "hi"),
        other => panic!("unexpected {other:?}"),
    }
    assert_eq!(caption_key(ProgressCaption::Downloading), "downloading");
    assert_eq!(caption_key(ProgressCaption::VerifyingFiles), "verifying-files");
    assert_eq!(caption_key(ProgressCaption::Unpacking), "unpacking");
}

#[test]
fn image_hashes_come_from_file_names() {
    assert_eq!(get_uri(), "https://launcher.gryphline.com/api/proxy/web/batch_proxy");
    assert_eq!(
        get_img_hash_from_uri(&format!("https://cdn/x/{HASH}_1920.webp")).as_deref(),
        Some(HASH)
    );
    assert_eq!(get_img_hash_from_uri(&format!("https://cdn/{HASH}.png")).as_deref(), Some(HASH));
    assert_eq!(get_img_hash_from_uri("https://cdn/0123.png"), None);
    assert_eq!(
        get_img_hash_from_uri("https://cdn/g123456789abcdef0123456789abcdef.png"),
        None
    );
    assert_eq!(get_img_hash_from_uri(HASH).as_deref(), Some(HASH));
    let b = Background::from_uri(format!("https://cdn/{HASH}.webp")).unwrap();
    assert_eq!(b.hash.as_deref(), Some(HASH));
    let b = Background::from_uri_with_hash(format!("https://cdn/{HASH}.webp"), Some("abc".to_string())).unwrap();
    assert_eq!(b.hash.as_deref(), Some("abc"));
    assert_eq!(Background::from_uri(String::new()).unwrap_err(), BackgroundError::EmptyUrl);
}

#[test]
fn api_answers_become_backgrounds() {
    let r = response(Some(("https://cdn/main.webp", Some("m5"), Some("https://cdn/v.mp4"))), &["https://cdn/b.png"]);
    let list = BackgroundSpec::from_batch_proxy_response(&r).unwrap();
    assert_eq!(list.len(), 1);
    match &list[0] {
        BackgroundSpec::Video { background, video, overlay } => {
            assert_eq!(background.uri, "https://cdn/main.webp");
            assert_eq!(background.hash.as_deref(), Some("m5"));
            assert_eq!(video.uri, "https://cdn/v.mp4");
            assert!(overlay.is_none());
        }
        other => panic!("unexpected {other:?}"),
    }

    let r = response(Some(("https://cdn/main.webp", None, Some(""))), &[]);
    let list = BackgroundSpec::from_batch_proxy_response(&r).unwrap();
    assert!(matches!(&list[0], BackgroundSpec::Normal { background } if background.uri == "https://cdn/main.webp"));

    let r = response(Some(("", None, Some("https://cdn/v.mp4"))), &["", "https://cdn/b.png"]);
    let list = BackgroundSpec::from_batch_proxy_response(&r).unwrap();
    assert!(matches!(&list[0], BackgroundSpec::Normal { background } if background.uri == "https://cdn/b.png"));

    let r = response(None, &[""]);
    assert_eq!(BackgroundSpec::from_batch_proxy_response(&r).unwrap_err(), BackgroundError::NoBackground);
}

#[test]
fn the_first_suitable_background_is_selected() {
    let normal = BackgroundSpec::Normal { background: picture("n") };
    let video = BackgroundSpec::Video { background: picture("b"), video: picture("v"), overlay: None };
    let list = vec![normal.clone(), video.clone(), normal.clone()];
    assert_eq!(select_background(&list, true, 0), Some(1));
    assert_eq!(select_background(&list, false, 0), Some(0));
    assert_eq!(select_background(&list, false, 2), Some(2));
    assert_eq!(select_background(&list, true, 2), Some(2));
    assert_eq!(select_background(&list, true, 7), Some(0));
    assert_eq!(select_background(&vec![], true, 0), None);
    assert_eq!(background_at(&list, 1), Some(1));
    assert_eq!(background_at(&list, 3), Some(0));
    assert_eq!(background_at(&vec![], 0), None);
}

#[test]
fn download_and_finish_steps() {
    let normal = BackgroundSpec::Normal { background: picture("n.webp") };
    let video = BackgroundSpec::Video {
        background: picture("b"),
        video: picture("v"),
        overlay: Some(picture("o")),
    };
    let bare_video = BackgroundSpec::Video { background: picture("b"), video: picture("v"), overlay: None };
    assert_eq!(normal.download_steps(true), vec![DownloadStep::Fetch { image: ImageRole::Background }]);
    assert_eq!(
        video.download_steps(true),
        vec![
            DownloadStep::Fetch { image: ImageRole::Background },
            DownloadStep::Fetch { image: ImageRole::Overlay },
            DownloadStep::Fetch { image: ImageRole::Video },
        ]
    );
    assert_eq!(
        bare_video.download_steps(false),
        vec![DownloadStep::Fetch { image: ImageRole::Background }, DownloadStep::RemoveOverlays]
    );
    assert_eq!(video.conversion_steps(), vec![ImageRole::Background, ImageRole::Overlay]);
    assert_eq!(bare_video.conversion_steps(), vec![ImageRole::Background]);
    assert_eq!(normal.background().uri, "n.webp");
    assert_eq!(normal.image(ImageRole::Background).map(|b| b.uri.as_str()), Some("n.webp"));
    assert!(normal.image(ImageRole::Video).is_none());
    assert_eq!(video.image(ImageRole::Overlay).map(|b| b.uri.as_str()), Some("o"));
    assert_eq!(video.image(ImageRole::Video).map(|b| b.uri.as_str()), Some("v"));
    assert!(bare_video.image(ImageRole::Overlay).is_none());
    assert_eq!(
        finish_steps(&normal, true, true),
        vec![FinishStep::CopyBackground, FinishStep::RemoveProcessedOverlay, FinishStep::RemoveVideo]
    );
    assert_eq!(
        finish_steps(&video, true, true),
        vec![FinishStep::CopyBackground, FinishStep::CopyOverlayIfPresent]
    );
    assert_eq!(finish_steps(&video, true, false), vec![FinishStep::ConvertAndCopy]);
    assert_eq!(finish_steps(&video, false, false), vec![]);
    assert_eq!(
        finish_steps(&normal, false, true),
        vec![FinishStep::RemoveProcessedOverlay, FinishStep::RemoveVideo]
    );
    assert!(needs_conversion(&picture("https://x/a.webp")));
    assert!(!needs_conversion(&picture("https://x/a.WEBP")));
}

#[test]
fn pictures_on_disk_are_checked() {
    assert!(content_matches_hash(b"abc", "900150983CD24FB0D6963F7D28E17F72"));
    assert!(!content_matches_hash(b"abd", "900150983cd24fb0d6963f7d28e17f72"));
    assert!(cached_uri_matches(Some("https://x/a.png\n"), "https://x/a.png"));
    assert!(!cached_uri_matches(Some("https://x/b.png"), "https://x/a.png"));
    assert!(!cached_uri_matches(None, "https://x/a.png"));
    assert_eq!(img_uri_cache_path("/l/background"), "/l/background.url");
    assert_eq!(img_uri_cache_path("/l/bg.webp"), "/l/bg.url");
}

#[test]
fn webp_support_is_found_by_name_or_extension() {
    let f = |name: Option<&str>, ext: &[&str]| PixbufFormat {
        name: name.map(str::to_string),
        extensions: ext.iter().map(|s| s.to_string()).collect(),
    };
    assert!(supports_webp(&vec![f(Some("png"), &["png"]), f(Some("WebP"), &[])]));
    assert!(supports_webp(&vec![f(None, &["jpg", "WEBP"])]));
    assert!(!supports_webp(&vec![f(Some("png"), &["png"]), f(None, &["webpx"])]));
    assert!(!supports_webp(&vec![]));
}

#[test]
fn the_background_request_asks_for_picture_and_banners() {
    let r = BatchProxyRequest::main_background("en-us".to_string());
    assert_eq!(r.proxy_reqs.len(), 2);
    assert_eq!(r.proxy_reqs[0].kind, "get_main_bg_image");
    let q = r.proxy_reqs[0].get_main_bg_image_req.as_ref().unwrap();
    assert_eq!((q.appcode, q.language.as_str(), q.channel, q.sub_channel), ("YDUTE5gscDZ229CW", "en-us", "6", "9999"));
    assert_eq!((q.platform, q.source), ("Windows", "launcher"));
    assert!(r.proxy_reqs[0].get_banner_req.is_none());
    assert_eq!(r.proxy_reqs[1].kind, "get_banner");
    assert!(r.proxy_reqs[1].get_banner_req.is_some());
}

#[test]
fn hex_spelling_of_digests() {
    assert_eq!(lower_hex(&[0x00, 0x0f, 0xa5, 0xff]), "000fa5ff");
    assert_eq!(md5_hex(b""), "d41d8cd98f00b204e9800998ecf8427e");
    assert_eq!(md5_hex(&[7u8; 1000]).len(), 32);
    assert_eq!(md5_hex(b"abc"), "900150983cd24fb0d6963f7d28e17f72");
    let mut c = FileChecksum::new();
    c.update(b"ab");
    c.update(b"");
    c.update(b"c");
    assert_eq!(c.finish(), md5_hex(b"abc"));
    assert_eq!(FileChecksum::new().finish(), "d41d8cd98f00b204e9800998ecf8427e");
}

#[test]
fn current_pictures_are_not_downloaded_again() {
    let h = "900150983cd24fb0d6963f7d28e17f72";
    assert!(image_is_current(true, Some(h), b"abc", None, "u"));
    assert!(!image_is_current(false, Some(h), b"abc", None, "u"));
    assert!(!image_is_current(true, Some(h), b"abd", Some("u"), "u"));
    assert!(image_is_current(true, None, b"", Some(" u \n"), "u"));
    assert!(!image_is_current(true, None, b"", None, "u"));
    assert_eq!(
        conversion_command(true, true, "/a.webp", "/b"),
        Some(vec!["dwebp".to_string(), "/a.webp".to_string(), "-o".to_string(), "/b".to_string()])
    );
    assert_eq!(
        conversion_command(false, true, "/a.webp", "/b"),
        Some(vec!["magick".to_string(), "/a.webp".to_string(), "PNG:/b".to_string()])
    );
    assert_eq!(conversion_command(false, false, "/a.webp", "/b"), None);
}
