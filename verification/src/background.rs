//! The launcher background: which picture (and video) the GRYPHLINK API
//! offers, and the decisions around downloading and preparing it.
use vstd::prelude::*;

use crate::hashing::{lower_hex_spec, md5_digest, md5_hex};
use crate::paths::{path_with_extension, with_extension};
use crate::text::{
    ascii_lower_seq, chars_of, char_is_hex_digit, ends_with, eq_ignore_ascii_case, has_suffix,
    is_hex_digit, str_eq, string_of_range, trim, trimmed,
};

verus! {

pub const GRYPHLINE_BATCH_PROXY_API: &'static str = "https://launcher.gryphline.com/api/proxy/web/batch_proxy";
pub const PLATFORM: &'static str = "Windows";
pub const SOURCE: &'static str = "launcher";

/// The URL of the launcher's batch proxy API.
pub fn get_uri() -> (r: String)
    ensures
        r@ == GRYPHLINE_BATCH_PROXY_API@,
{
    GRYPHLINE_BATCH_PROXY_API.to_owned()
}

// ---------------------------------------------------------------------------
// Pictures
// ---------------------------------------------------------------------------

/// A picture or video to download, and its MD5 checksum when known.
#[derive(Debug, Clone)]
pub struct Background {
    pub uri: String,
    pub hash: Option<String>,
}

pub struct BackgroundView {
    pub uri: Seq<char>,
    pub hash: Option<Seq<char>>,
}

pub open spec fn opt_view(o: Option<String>) -> Option<Seq<char>> {
    match o {
        Some(s) => Some(s@),
        None => None,
    }
}

impl View for Background {
    type V = BackgroundView;

    open spec fn view(&self) -> BackgroundView {
        BackgroundView { uri: self.uri@, hash: opt_view(self.hash) }
    }
}

/// Why no background could be made.
#[derive(Debug, Clone, Copy, PartialEq, Eq, Structural)]
pub enum BackgroundError {
    /// The API gave an empty URL.
    EmptyUrl,
    /// The API offered neither a main background nor a banner.
    NoBackground,
}

/// Index of the last `/` in `s[..n]`, or -1.
pub open spec fn last_slash(s: Seq<char>, n: int) -> int
    decreases n,
{
    if n <= 0 {
        -1
    } else if s[n - 1] == '/' {
        n - 1
    } else {
        last_slash(s, n - 1)
    }
}

/// Index of the first `_` or `.` in `s[i..]`, or `s.len()`.
pub open spec fn first_stem_end(s: Seq<char>, i: int) -> int
    decreases s.len() - i,
{
    if i >= s.len() || i < 0 {
        s.len() as int
    } else if s[i] == '_' || s[i] == '.' {
        i
    } else {
        first_stem_end(s, i + 1)
    }
}

/// The checksum that a picture's URL carries: its file name up to the first
/// `_` or `.`, when that is 32 hex digits (`…/0a1b…9f_bg.png`).
pub open spec fn hash_in_uri(uri: Seq<char>) -> Option<Seq<char>> {
    let name = uri.skip(last_slash(uri, uri.len() as int) + 1);
    let stem = name.take(first_stem_end(name, 0));
    if stem.len() == 32 && forall|i: int| 0 <= i < stem.len() ==> is_hex_digit(#[trigger] stem[i]) {
        Some(stem)
    } else {
        None
    }
}

proof fn lemma_last_slash(s: Seq<char>, n: int)
    requires
        0 <= n <= s.len(),
    ensures
        -1 <= last_slash(s, n) < n,
    decreases n,
{
    if n > 0 && s[n - 1] != '/' {
        lemma_last_slash(s, n - 1);
    }
}

/// The checksum that `uri` carries in its file name, if any.
pub fn get_img_hash_from_uri(uri: &str) -> (r: Option<String>)
    ensures
        opt_view(r) == hash_in_uri(uri@),
{
    let v = chars_of(uri);
    let mut b: usize = v.len();
    while b > 0 && v[b - 1] != '/'
        invariant
            b <= v@.len(),
            v@ == uri@,
            last_slash(uri@, b as int) == last_slash(uri@, uri@.len() as int),
        decreases b,
    {
        b -= 1;
    }
    proof {
        lemma_last_slash(uri@, uri@.len() as int);
    }
    assert(last_slash(uri@, uri@.len() as int) + 1 == b);
    let ghost name = uri@.skip(b as int);
    let mut e: usize = b;
    while e < v.len() && v[e] != '_' && v[e] != '.'
        invariant
            b <= e <= v@.len(),
            v@ == uri@,
            name == uri@.skip(b as int),
            first_stem_end(name, e - b) == first_stem_end(name, 0),
        decreases v@.len() - e,
    {
        e += 1;
    }
    assert(first_stem_end(name, e - b) == e - b);
    let ghost stem = name.take(e - b);
    assert(stem =~= v@.subrange(b as int, e as int));
    assert(stem.len() == e - b);
    assert(name == uri@.skip(last_slash(uri@, uri@.len() as int) + 1));
    assert(stem == name.take(first_stem_end(name, 0)));
    if e - b != 32 {
        assert(stem.len() != 32);
        assert(hash_in_uri(uri@) is None);
        return None;
    }
    let mut i: usize = b;
    while i < e
        invariant
            b <= i <= e <= v@.len(),
            stem == v@.subrange(b as int, e as int),
            name == uri@.skip(last_slash(uri@, uri@.len() as int) + 1),
            stem == name.take(first_stem_end(name, 0)),
            stem.len() == 32,
            forall|j: int| 0 <= j < i - b ==> is_hex_digit(#[trigger] stem[j]),
        decreases e - i,
    {
        if !char_is_hex_digit(v[i]) {
            assert(!is_hex_digit(stem[i - b]));
            assert(!(forall|j: int| 0 <= j < stem.len() ==> is_hex_digit(#[trigger] stem[j])));
            return None;
        }
        i += 1;
    }
    Some(string_of_range(v.as_slice(), b, e))
}

/// A picture with the checksum given, or else the one its URL carries.
pub open spec fn background_from(uri: Seq<char>, hash: Option<Seq<char>>) -> BackgroundView {
    BackgroundView {
        uri,
        hash: match hash {
            Some(h) => Some(h),
            None => hash_in_uri(uri),
        },
    }
}

impl Background {
    /// A picture at `uri`, its checksum taken from the URL.
    pub fn from_uri(uri: String) -> (r: Result<Self, BackgroundError>)
        ensures
            r is Err <==> uri@.len() == 0,
            r matches Err(e) ==> e == BackgroundError::EmptyUrl,
            r matches Ok(b) ==> b@ == background_from(uri@, None),
    {
        Self::from_uri_with_hash(uri, None)
    }

    /// A picture at `uri` with checksum `hash`, or the one its URL carries.
    pub fn from_uri_with_hash(uri: String, hash: Option<String>) -> (r: Result<
        Self,
        BackgroundError,
    >)
        ensures
            r is Err <==> uri@.len() == 0,
            r matches Err(e) ==> e == BackgroundError::EmptyUrl,
            r matches Ok(b) ==> b@ == background_from(uri@, opt_view(hash)),
    {
        if uri.as_str().is_empty() {
            return Err(BackgroundError::EmptyUrl);
        }
        let hash = match hash {
            Some(h) => Some(h),
            None => get_img_hash_from_uri(uri.as_str()),
        };
        Ok(Background { hash, uri })
    }
}

// ---------------------------------------------------------------------------
// The API's answer
// ---------------------------------------------------------------------------

pub struct BatchProxyResponse {
    pub proxy_rsps: Vec<ProxyResponse>,
}

pub struct ProxyResponse {
    pub kind: String,
    pub get_main_bg_image_rsp: Option<MainBackgroundResponse>,
    pub get_banner_rsp: Option<BannerResponse>,
}

pub struct MainBackgroundResponse {
    pub main_bg_image: Option<MainBackgroundImage>,
}

pub struct MainBackgroundImage {
    pub url: String,
    pub md5: Option<String>,
    pub video_url: Option<String>,
}

pub struct BannerResponse {
    pub banners: Vec<BannerImage>,
}

pub struct BannerImage {
    pub url: String,
    pub md5: Option<String>,
}

/// The first answer of kind `kind`.
pub open spec fn first_of_kind(rsps: Seq<ProxyResponse>, kind: Seq<char>) -> Option<ProxyResponse>
    decreases rsps.len(),
{
    if rsps.len() == 0 {
        None
    } else if rsps[0].kind@ == kind {
        Some(rsps[0])
    } else {
        first_of_kind(rsps.drop_first(), kind)
    }
}

/// The main background picture of the answer, if it has one with a URL.
pub open spec fn main_image_of(r: BatchProxyResponse) -> Option<MainBackgroundImage> {
    match first_of_kind(r.proxy_rsps@, "get_main_bg_image"@) {
        Some(rsp) => match rsp.get_main_bg_image_rsp {
            Some(m) => match m.main_bg_image {
                Some(img) => if img.url@.len() > 0 {
                    Some(img)
                } else {
                    None
                },
                None => None,
            },
            None => None,
        },
        None => None,
    }
}

/// The first banner with a URL.
pub open spec fn first_banner(banners: Seq<BannerImage>) -> Option<BannerImage>
    decreases banners.len(),
{
    if banners.len() == 0 {
        None
    } else if banners[0].url@.len() > 0 {
        Some(banners[0])
    } else {
        first_banner(banners.drop_first())
    }
}

/// The banner to fall back on, if the answer has one with a URL.
pub open spec fn fallback_banner_of(r: BatchProxyResponse) -> Option<BannerImage> {
    match first_of_kind(r.proxy_rsps@, "get_banner"@) {
        Some(rsp) => match rsp.get_banner_rsp {
            Some(b) => first_banner(b.banners@),
            None => None,
        },
        None => None,
    }
}

/// The video of the main background, if it has a non-empty one.
pub open spec fn video_of(r: BatchProxyResponse) -> Option<Seq<char>> {
    match main_image_of(r) {
        Some(img) => match img.video_url {
            Some(v) => if v@.len() > 0 {
                Some(v@)
            } else {
                None
            },
            None => None,
        },
        None => None,
    }
}

/// A background: a picture, or a picture with a video (and an overlay
/// picture) to play over it.
#[derive(Debug, Clone)]
pub enum BackgroundSpec {
    Normal { background: Background },
    Video { background: Background, video: Background, overlay: Option<Background> },
}

pub enum BackgroundSpecView {
    Normal { background: BackgroundView },
    Video { background: BackgroundView, video: BackgroundView, overlay: Option<BackgroundView> },
}

impl View for BackgroundSpec {
    type V = BackgroundSpecView;

    open spec fn view(&self) -> BackgroundSpecView {
        match self {
            BackgroundSpec::Normal { background } => BackgroundSpecView::Normal {
                background: background@,
            },
            BackgroundSpec::Video { background, video, overlay } => BackgroundSpecView::Video {
                background: background@,
                video: video@,
                overlay: match overlay {
                    Some(o) => Some(o@),
                    None => None,
                },
            },
        }
    }
}

/// The backgrounds that an answer of the API describes: the main background
/// picture (or else the first banner), with its video when it has one.
pub open spec fn backgrounds_of(r: BatchProxyResponse) -> Option<BackgroundSpecView> {
    let picture = match main_image_of(r) {
        Some(img) => Some(background_from(img.url@, opt_view(img.md5))),
        None => match fallback_banner_of(r) {
            Some(b) => Some(background_from(b.url@, opt_view(b.md5))),
            None => None,
        },
    };
    match picture {
        None => None,
        Some(p) => match video_of(r) {
            Some(v) => Some(
                BackgroundSpecView::Video {
                    background: p,
                    video: background_from(v, None),
                    overlay: None,
                },
            ),
            None => Some(BackgroundSpecView::Normal { background: p }),
        },
    }
}

/// The backgrounds of an answer: the picture is the main background when it
/// has a URL (with the checksum the API gives, or else the one its URL
/// carries), and a video background's video is the main background's video
/// URL with only the checksum that URL carries, and no overlay.
pub proof fn video_carries_its_own_checksum(r: BatchProxyResponse)
    ensures
        backgrounds_of(r) matches Some(BackgroundSpecView::Video { background, video, overlay })
            ==> {
            &&& main_image_of(r) matches Some(img)
            &&& img.url@.len() > 0
            &&& background.uri == img.url@
            &&& background.hash == match img.md5 {
                Some(h) => Some(h@),
                None => hash_in_uri(img.url@),
            }
            &&& img.video_url matches Some(v)
            &&& v@.len() > 0
            &&& video.uri == v@
            &&& video.hash == hash_in_uri(v@)
            &&& overlay is None
        },
        backgrounds_of(r) matches Some(BackgroundSpecView::Normal { .. }) ==> match main_image_of(r) {
            Some(img) => !(img.video_url matches Some(v) && v@.len() > 0),
            None => true,
        },
{
}

fn find_kind(rsps: &Vec<ProxyResponse>, kind: &str) -> (r: Option<usize>)
    ensures
        r matches Some(i) ==> i < rsps@.len() && first_of_kind(rsps@, kind@) == Some(
            rsps@[i as int],
        ),
        r is None ==> first_of_kind(rsps@, kind@) is None,
{
    let mut i: usize = 0;
    assert(rsps@.skip(0) =~= rsps@);
    while i < rsps.len()
        invariant
            i <= rsps@.len(),
            first_of_kind(rsps@, kind@) == first_of_kind(rsps@.skip(i as int), kind@),
        decreases rsps@.len() - i,
    {
        assert(rsps@.skip(i as int).drop_first() =~= rsps@.skip(i + 1));
        if str_eq(rsps[i].kind.as_str(), kind) {
            return Some(i);
        }
        i += 1;
    }
    None
}

fn find_banner(banners: &Vec<BannerImage>) -> (r: Option<usize>)
    ensures
        r matches Some(i) ==> i < banners@.len() && first_banner(banners@) == Some(
            banners@[i as int],
        ) && banners@[i as int].url@.len() > 0,
        r is None ==> first_banner(banners@) is None,
{
    let mut i: usize = 0;
    assert(banners@.skip(0) =~= banners@);
    while i < banners.len()
        invariant
            i <= banners@.len(),
            first_banner(banners@) == first_banner(banners@.skip(i as int)),
        decreases banners@.len() - i,
    {
        assert(banners@.skip(i as int).drop_first() =~= banners@.skip(i + 1));
        if !banners[i].url.as_str().is_empty() {
            return Some(i);
        }
        i += 1;
    }
    None
}

fn clone_opt(o: &Option<String>) -> (r: Option<String>)
    ensures
        r == *o,
{
    match o {
        Some(s) => Some(s.clone()),
        None => None,
    }
}

impl BackgroundSpec {
    /// The backgrounds that the API's answer describes; an error when it
    /// offers neither a main background nor a banner.
    pub fn from_batch_proxy_response(response: &BatchProxyResponse) -> (r: Result<
        Vec<Self>,
        BackgroundError,
    >)
        ensures
            r is Err <==> backgrounds_of(*response) is None,
            r matches Err(e) ==> e == BackgroundError::NoBackground,
            r matches Ok(v) ==> v@.len() == 1 && Some(v@[0]@) == backgrounds_of(*response),
    {
        let rsps = &response.proxy_rsps;
        let mut main: Option<&MainBackgroundImage> = None;
        match find_kind(rsps, "get_main_bg_image") {
            Some(i) => match &rsps[i].get_main_bg_image_rsp {
                Some(m) => match &m.main_bg_image {
                    Some(img) => {
                        if !img.url.as_str().is_empty() {
                            main = Some(img);
                        }
                    },
                    None => {},
                },
                None => {},
            },
            None => {},
        }
        assert(main matches Some(m) ==> main_image_of(*response) == Some(*m));
        assert(main is None ==> main_image_of(*response) is None);
        let background = match main {
            Some(img) => Background::from_uri_with_hash(img.url.clone(), clone_opt(&img.md5)),
            None => {
                let mut banner: Option<&BannerImage> = None;
                match find_kind(rsps, "get_banner") {
                    Some(i) => match &rsps[i].get_banner_rsp {
                        Some(b) => match find_banner(&b.banners) {
                            Some(j) => {
                                banner = Some(&b.banners[j]);
                            },
                            None => {},
                        },
                        None => {},
                    },
                    None => {},
                }
                assert(banner matches Some(b) ==> fallback_banner_of(*response) == Some(*b));
                assert(banner is None ==> fallback_banner_of(*response) is None);
                match banner {
                    Some(b) => Background::from_uri_with_hash(b.url.clone(), clone_opt(&b.md5)),
                    None => {
                        return Err(BackgroundError::NoBackground);
                    },
                }
            },
        };
        let background = match background {
            Ok(b) => b,
            Err(e) => {
                return Err(e);
            },
        };
        let mut video_url: Option<&String> = None;
        match main {
            Some(img) => match &img.video_url {
                Some(v) => {
                    if !v.as_str().is_empty() {
                        video_url = Some(v);
                    }
                },
                None => {},
            },
            None => {},
        }
        let mut out: Vec<Self> = Vec::new();
        match video_url {
            Some(v) => {
                let video = match Background::from_uri(v.clone()) {
                    Ok(b) => b,
                    Err(e) => {
                        return Err(e);
                    },
                };
                out.push(BackgroundSpec::Video { background, video, overlay: None });
            },
            None => {
                out.push(BackgroundSpec::Normal { background });
            },
        }
        Ok(out)
    }
}

} // verus!

verus! {

// ---------------------------------------------------------------------------
// Choosing a background
// ---------------------------------------------------------------------------

pub open spec fn is_video(b: BackgroundSpec) -> bool {
    b matches BackgroundSpec::Video { .. }
}

/// Background `b` suits: it has a video, or videos are not wanted.
pub open spec fn suits(b: BackgroundSpec, with_video: bool) -> bool {
    !with_video || is_video(b)
}

/// No background from `index` on suits.
pub open spec fn none_suits_from(list: Seq<BackgroundSpec>, with_video: bool, index: int) -> bool {
    forall|j: int| index <= j < list.len() ==> !suits(#[trigger] list[j], with_video)
}

/// `k` is the first background from `index` on that suits.
pub open spec fn first_suiting(list: Seq<BackgroundSpec>, with_video: bool, index: int, k: int) -> bool {
    &&& index <= k < list.len()
    &&& suits(list[k], with_video)
    &&& forall|j: int| index <= j < k ==> !suits(#[trigger] list[j], with_video)
}

/// The background to download and show (`download_background`), by its
/// position in `list`; `None` when the list is empty.
pub fn select_background(list: &Vec<BackgroundSpec>, with_video: bool, index: u8) -> (r: Option<
    usize,
>)
    ensures
        r is None <==> list@.len() == 0,
        r matches Some(k) ==> k < list@.len(),
        r matches Some(k) ==> first_suiting(list@, with_video, index as int, k as int) || (
        none_suits_from(list@, with_video, index as int) && k == (if (index as int)
            < list@.len() {
            index as int
        } else {
            0
        })),
{
    let mut i: usize = index as usize;
    while i < list.len()
        invariant
            index <= i,
            forall|j: int| index <= j < i && j < list@.len() ==> !suits(#[trigger] list@[j], with_video),
        decreases list@.len() - i,
    {
        let video = match &list[i] {
            BackgroundSpec::Video { .. } => true,
            BackgroundSpec::Normal { .. } => false,
        };
        assert(video == is_video(list@[i as int]));
        if !with_video || video {
            return Some(i);
        }
        i += 1;
    }
    if (index as usize) < list.len() {
        Some(index as usize)
    } else if list.len() > 0 {
        Some(0)
    } else {
        None
    }
}

/// The background at `index`, or else the first (`get_background_info`).
pub fn background_at(list: &Vec<BackgroundSpec>, index: u8) -> (r: Option<usize>)
    ensures
        r is None <==> list@.len() == 0,
        r matches Some(k) ==> k == (if (index as int) < list@.len() {
            index as int
        } else {
            0
        }),
{
    if (index as usize) < list.len() {
        Some(index as usize)
    } else if list.len() > 0 {
        Some(0)
    } else {
        None
    }
}

impl BackgroundSpec {
    /// The picture of this background.
    pub fn background(&self) -> (r: &Background)
        ensures
            r == (match self {
                BackgroundSpec::Normal { background } => background,
                BackgroundSpec::Video { background, .. } => background,
            }),
    {
        match self {
            BackgroundSpec::Normal { background } => background,
            BackgroundSpec::Video { background, .. } => background,
        }
    }

    /// The image of this background in the role `role`: the picture always,
    /// the video and the overlay (when there is one) of a video background.
    pub fn image(&self, role: ImageRole) -> (r: Option<&Background>)
        ensures
            r == (match (role, *self) {
                (ImageRole::Background, BackgroundSpec::Normal { background }) => Some(&background),
                (ImageRole::Background, BackgroundSpec::Video { background, .. }) => Some(&background),
                (ImageRole::Video, BackgroundSpec::Video { video, .. }) => Some(&video),
                (ImageRole::Overlay, BackgroundSpec::Video { overlay: Some(o), .. }) => Some(&o),
                _ => None,
            }),
    {
        match role {
            ImageRole::Background => Some(self.background()),
            ImageRole::Video => match self {
                BackgroundSpec::Video { video, .. } => Some(video),
                BackgroundSpec::Normal { .. } => None,
            },
            ImageRole::Overlay => match self {
                BackgroundSpec::Video { overlay: Some(o), .. } => Some(o),
                _ => None,
            },
        }
    }

    /// What downloading this background involves (`BackgroundSpec::download`):
    /// the picture; for a video background, its overlay (or, without one,
    /// removing old overlay files) and, when wanted, the video.
    pub fn download_steps(&self, with_video: bool) -> (steps: Vec<DownloadStep>)
        ensures
            steps@.len() >= 1,
            steps@[0] == (DownloadStep::Fetch { image: ImageRole::Background }),
            self matches BackgroundSpec::Normal { .. } ==> steps@.len() == 1,
            self matches BackgroundSpec::Video { overlay, .. } ==> steps@ == seq![
                DownloadStep::Fetch { image: ImageRole::Background },
                if overlay is Some {
                    DownloadStep::Fetch { image: ImageRole::Overlay }
                } else {
                    DownloadStep::RemoveOverlays
                },
            ] + if with_video {
                seq![DownloadStep::Fetch { image: ImageRole::Video }]
            } else {
                Seq::empty()
            },
    {
        let mut steps = Vec::new();
        steps.push(DownloadStep::Fetch { image: ImageRole::Background });
        match self {
            BackgroundSpec::Video { overlay, .. } => {
                if overlay.is_some() {
                    steps.push(DownloadStep::Fetch { image: ImageRole::Overlay });
                } else {
                    steps.push(DownloadStep::RemoveOverlays);
                }
                if with_video {
                    steps.push(DownloadStep::Fetch { image: ImageRole::Video });
                }
            },
            BackgroundSpec::Normal { .. } => {},
        }
        steps
    }

    /// The pictures that `convert_and_copy` prepares: the background, and
    /// the overlay of a video background that has one.
    pub fn conversion_steps(&self) -> (steps: Vec<ImageRole>)
        ensures
            steps@ == seq![ImageRole::Background] + if self matches BackgroundSpec::Video {
                overlay: Some(_),
                ..
            } {
                seq![ImageRole::Overlay]
            } else {
                Seq::empty()
            },
    {
        let mut steps = Vec::new();
        steps.push(ImageRole::Background);
        match self {
            BackgroundSpec::Video { overlay: Some(_), .. } => {
                steps.push(ImageRole::Overlay);
            },
            _ => {},
        }
        steps
    }
}

/// The images of a background.
#[derive(Debug, Clone, Copy, PartialEq, Eq, Structural)]
pub enum ImageRole {
    Background,
    Overlay,
    Video,
}

/// A step of downloading a background.
#[derive(Debug, Clone, Copy, PartialEq, Eq, Structural)]
pub enum DownloadStep {
    /// Download the image unless the copy on disk is current.
    Fetch { image: ImageRole },
    /// Delete the overlay and its prepared copy, if there are any.
    RemoveOverlays,
}

/// A step after downloading, to make the pictures ready for display.
#[derive(Debug, Clone, Copy, PartialEq, Eq, Structural)]
pub enum FinishStep {
    /// Copy the picture as it is.
    CopyBackground,
    /// Copy the overlay as it is, if it was downloaded.
    CopyOverlayIfPresent,
    /// Convert the pictures (see `BackgroundSpec::conversion_steps`).
    ConvertAndCopy,
    /// Delete the prepared overlay (ignoring errors).
    RemoveProcessedOverlay,
    /// Delete the video (ignoring errors).
    RemoveVideo,
}

/// What follows the download of `info` (`download_background`): when a
/// picture changed, copy it as it is if WebP pictures can be shown, else
/// convert it; a plain background leaves no overlay or video behind.
pub fn finish_steps(info: &BackgroundSpec, regenerate: bool, webp_supported: bool) -> (steps: Vec<
    FinishStep,
>)
    ensures
        steps@ == (if regenerate {
            if webp_supported {
                seq![FinishStep::CopyBackground] + if is_video(*info) {
                    seq![FinishStep::CopyOverlayIfPresent]
                } else {
                    Seq::empty()
                }
            } else {
                seq![FinishStep::ConvertAndCopy]
            }
        } else {
            Seq::empty()
        }) + if is_video(*info) {
            Seq::empty()
        } else {
            seq![FinishStep::RemoveProcessedOverlay, FinishStep::RemoveVideo]
        },
{
    let video = match info {
        BackgroundSpec::Video { .. } => true,
        BackgroundSpec::Normal { .. } => false,
    };
    let mut steps = Vec::new();
    if regenerate {
        if webp_supported {
            steps.push(FinishStep::CopyBackground);
            if video {
                steps.push(FinishStep::CopyOverlayIfPresent);
            }
        } else {
            steps.push(FinishStep::ConvertAndCopy);
        }
    }
    if !video {
        steps.push(FinishStep::RemoveProcessedOverlay);
        steps.push(FinishStep::RemoveVideo);
    }
    proof {
        if regenerate && webp_supported && video {
            assert(steps@ =~= seq![FinishStep::CopyBackground, FinishStep::CopyOverlayIfPresent]);
        }
    }
    assert(steps@ =~= (if regenerate {
            if webp_supported {
                seq![FinishStep::CopyBackground] + if video {
                    seq![FinishStep::CopyOverlayIfPresent]
                } else {
                    Seq::empty()
                }
            } else {
                seq![FinishStep::ConvertAndCopy]
            }
        } else {
            Seq::empty()
        }) + if video {
            Seq::empty()
        } else {
            seq![FinishStep::RemoveProcessedOverlay, FinishStep::RemoveVideo]
        });
    steps
}

/// A picture is converted to PNG when its URL names a WebP file.
pub fn needs_conversion(image: &Background) -> (b: bool)
    ensures
        b == has_suffix(image.uri@, ".webp"@),
{
    ends_with(image.uri.as_str(), ".webp")
}

// ---------------------------------------------------------------------------
// Is the copy on disk current?
// ---------------------------------------------------------------------------

/// A downloaded picture with a known checksum is current when the MD5 of
/// its contents matches it, up to ASCII case.
pub fn content_matches_hash(content: &[u8], expected_hash: &str) -> (b: bool)
    ensures
        b == (ascii_lower_seq(lower_hex_spec(md5_digest(content@))) == ascii_lower_seq(
            expected_hash@,
        )),
{
    let hash = md5_hex(content);
    eq_ignore_ascii_case(hash.as_str(), expected_hash)
}

/// A downloaded picture without a checksum is current when the URL recorded
/// beside it (whitespace trimmed) is the one to download.
pub fn cached_uri_matches(cached: Option<&str>, uri: &str) -> (b: bool)
    ensures
        b == (cached matches Some(c) && trimmed(c@) == uri@),
{
    match cached {
        Some(c) => {
            let t = trim(c);
            str_eq(t.as_str(), uri)
        },
        None => false,
    }
}

/// Where the URL of a downloaded picture at `path` is recorded: `path` with
/// the extension `url`.
pub fn img_uri_cache_path(path: &str) -> (r: String)
    ensures
        r@ == path_with_extension(path@, "url"@),
{
    proof {
        reveal_strlit("url");
        assert(!"url"@.contains('/')) by {
            assert forall|i: int| 0 <= i < "url"@.len() implies "url"@[i] != '/' by {}
        }
    }
    with_extension(path, "url")
}

/// Whether the picture on disk is current (`check_img_file`): it has to
/// exist; with a known checksum its contents must match it, else the URL
/// recorded beside it must be `uri`.  `content` holds the picture's bytes
/// (only read when it exists and a checksum is known) and `cached_uri` the
/// recorded URL (only read when it exists and no checksum is known).
pub fn image_is_current(
    exists: bool,
    expected_hash: Option<&str>,
    content: &[u8],
    cached_uri: Option<&str>,
    uri: &str,
) -> (b: bool)
    ensures
        b == (exists && match expected_hash {
            Some(h) => ascii_lower_seq(lower_hex_spec(md5_digest(content@))) == ascii_lower_seq(h@),
            None => cached_uri matches Some(c) && trimmed(c@) == uri@,
        }),
{
    if !exists {
        return false;
    }
    match expected_hash {
        Some(h) => content_matches_hash(content, h),
        None => cached_uri_matches(cached_uri, uri),
    }
}

/// The command that converts the WebP picture `from` into a PNG at `to`:
/// with `dwebp` if it is installed, else with ImageMagick's `magick`; `None`
/// when neither is.
pub fn conversion_command(
    dwebp_available: bool,
    magick_available: bool,
    from: &str,
    to: &str,
) -> (r: Option<Vec<String>>)
    ensures
        dwebp_available ==> (r matches Some(c) && c@.len() == 4 && c@[0]@ == "dwebp"@ && c@[1]@
            == from@ && c@[2]@ == "-o"@ && c@[3]@ == to@),
        !dwebp_available && magick_available ==> (r matches Some(c) && c@.len() == 3 && c@[0]@
            == "magick"@ && c@[1]@ == from@ && c@[2]@ == "PNG:"@ + to@),
        !dwebp_available && !magick_available ==> r is None,
{
    if dwebp_available {
        let mut c: Vec<String> = Vec::new();
        c.push("dwebp".to_owned());
        c.push(from.to_owned());
        c.push("-o".to_owned());
        c.push(to.to_owned());
        Some(c)
    } else if magick_available {
        let mut c: Vec<String> = Vec::new();
        c.push("magick".to_owned());
        c.push(from.to_owned());
        c.push(crate::text::concat("PNG:", to));
        Some(c)
    } else {
        None
    }
}

/// What GDK-Pixbuf reports of one of its image loaders.
#[derive(Debug, Clone)]
pub struct PixbufFormat {
    pub name: Option<String>,
    pub extensions: Vec<String>,
}

pub open spec fn is_webp_word(s: Seq<char>) -> bool {
    ascii_lower_seq(s) == ascii_lower_seq("webp"@)
}

pub open spec fn format_is_webp(f: PixbufFormat) -> bool {
    (f.name matches Some(n) && is_webp_word(n@)) || exists|i: int|
        0 <= i < f.extensions@.len() && is_webp_word(#[trigger] f.extensions@[i]@)
}

/// WebP pictures can be shown when some loader is named `webp` or reads
/// `.webp` files (in any case).
pub fn supports_webp(formats: &Vec<PixbufFormat>) -> (b: bool)
    ensures
        b == exists|i: int| 0 <= i < formats@.len() && format_is_webp(#[trigger] formats@[i]),
{
    let mut i: usize = 0;
    while i < formats.len()
        invariant
            i <= formats@.len(),
            forall|j: int| 0 <= j < i ==> !format_is_webp(#[trigger] formats@[j]),
        decreases formats@.len() - i,
    {
        let f = &formats[i];
        let named = match &f.name {
            Some(n) => eq_ignore_ascii_case(n.as_str(), "webp"),
            None => false,
        };
        if named {
            assert(format_is_webp(formats@[i as int]));
            return true;
        }
        let mut k: usize = 0;
        while k < f.extensions.len()
            invariant
                k <= f.extensions@.len(),
                i < formats@.len(),
                *f == formats@[i as int],
                forall|j: int| 0 <= j < k ==> !is_webp_word(#[trigger] f.extensions@[j]@),
            decreases f.extensions@.len() - k,
        {
            if eq_ignore_ascii_case(f.extensions[k].as_str(), "webp") {
                assert(is_webp_word(f.extensions@[k as int]@));
                assert(format_is_webp(formats@[i as int]));
                return true;
            }
            k += 1;
        }
        i += 1;
    }
    false
}

// ---------------------------------------------------------------------------
// The request
// ---------------------------------------------------------------------------

/// One request of the batch: its kind, and its parameters.
pub struct ProxyRequest {
    pub kind: &'static str,
    pub get_main_bg_image_req: Option<MainBackgroundRequest>,
    pub get_banner_req: Option<MainBackgroundRequest>,
}

/// The parameters of a background or banner request.
pub struct MainBackgroundRequest {
    pub appcode: &'static str,
    pub language: String,
    pub channel: &'static str,
    pub sub_channel: &'static str,
    pub platform: &'static str,
    pub source: &'static str,
}

/// A batch of requests to the proxy API.
pub struct BatchProxyRequest {
    pub proxy_reqs: Vec<ProxyRequest>,
}

/// `q` asks for the factory game's pictures in `language`.
pub open spec fn is_request_for(q: MainBackgroundRequest, language: Seq<char>) -> bool {
    &&& q.appcode == crate::package::GAME_APP_CODE
    &&& q.language@ == language
    &&& q.channel == crate::package::CHANNEL
    &&& q.sub_channel == crate::package::SUB_CHANNEL
    &&& q.platform == PLATFORM
    &&& q.source == SOURCE
}

impl MainBackgroundRequest {
    /// The parameters of the factory game in `language`.
    pub fn new(language: String) -> (r: Self)
        ensures
            r.appcode == crate::package::GAME_APP_CODE,
            r.language == language,
            r.channel == crate::package::CHANNEL,
            r.sub_channel == crate::package::SUB_CHANNEL,
            r.platform == PLATFORM,
            r.source == SOURCE,
    {
        MainBackgroundRequest {
            appcode: crate::package::GAME_APP_CODE,
            language,
            channel: crate::package::CHANNEL,
            sub_channel: crate::package::SUB_CHANNEL,
            platform: PLATFORM,
            source: SOURCE,
        }
    }
}

impl BatchProxyRequest {
    /// Asks for the main background and for the banners, in `language`.
    pub fn main_background(language: String) -> (r: Self)
        ensures
            r.proxy_reqs@.len() == 2,
            r.proxy_reqs@[0].kind == "get_main_bg_image",
            r.proxy_reqs@[0].get_main_bg_image_req matches Some(q) && is_request_for(q, language@),
            r.proxy_reqs@[0].get_banner_req is None,
            r.proxy_reqs@[1].kind == "get_banner",
            r.proxy_reqs@[1].get_main_bg_image_req is None,
            r.proxy_reqs@[1].get_banner_req matches Some(q) && is_request_for(q, language@),
    {
        let first = MainBackgroundRequest::new(language.clone());
        let second = MainBackgroundRequest::new(language);
        let mut proxy_reqs = Vec::new();
        proxy_reqs.push(
            ProxyRequest {
                kind: "get_main_bg_image",
                get_main_bg_image_req: Some(first),
                get_banner_req: None,
            },
        );
        proxy_reqs.push(
            ProxyRequest { kind: "get_banner", get_main_bg_image_req: None, get_banner_req: Some(second) },
        );
        BatchProxyRequest { proxy_reqs }
    }
}

} // verus!
