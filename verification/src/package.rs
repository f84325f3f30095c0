//! The factory game's download package: where its archive parts live, how big
//! they are, and the launcher bootstrap query.
use vstd::prelude::*;

use crate::text::{concat, decimal, parsed_u64, parse_u64, push_str, zero_padded, zero_padded_string};

verus! {

pub const LAUNCHER_BOOTSTRAP_API: &'static str = "https://launcher.gryphline.com/api/launcher/get_latest_launcher";
pub const LAUNCHER_APP_CODE: &'static str = "TiaytKBUIEdoEwRT";
pub const GAME_APP_CODE: &'static str = "YDUTE5gscDZ229CW";
pub const CHANNEL: &'static str = "6";
pub const SUB_CHANNEL: &'static str = "9999";
pub const PACKAGE_SUB_CHANNEL: &'static str = "6";
pub const REGION: &'static str = "sg";
pub const REMOTE_TARGET_APP: &'static str = "EndField";
pub const TRACKING: &'static str = "GRYPHLINKDownloader";
pub const LAUNCHER_VERSION: &'static str = "1.4.0";
pub const LAUNCHER_VERSION_DETAIL: &'static str = "1.4.0.1407";
pub const GAME_VERSION: &'static str = "1.3.3";
pub const GAME_DIR_NAME: &'static str = "Factory Game";
pub const GAME_EXECUTABLE: &'static str = "Endfield.exe";
pub const PREFERRED_WINE_VERSION: &'static str = "wine-dwproton-wow64-11.0-3";
pub const VERSION_MARKER: &'static str = ".factory-game-version";
pub const CHECKSUM_CACHE: &'static str = ".factory-game-checksums.json";
pub const SEVEN_ZIP_VERSION: &'static str = "26.01";
pub const SEVEN_ZIP_EXTRA_URL: &'static str = "https://www.7-zip.org/a/7z2601-extra.7z";
pub const GAME_UUID: &'static str = "cd2d0f009b9c3997c1e4d319ed1a0eae";
pub const GAME_FILES_MD5: &'static str = "088b578e66a1cb3ffe3219cc9ca7a25d";
pub const PACKAGE_TOTAL_SIZE: u64 = 114517544273;
pub const PACKAGE_FILE_LIST_URL: &'static str = "https://beyond.hg-cdn.com/YDUTE5gscDZ229CW/1.3/update/6/6/Windows/1.3.3_BGlQHu2HgMlqTuqG/files";
pub const PACKAGE_PACK_BASE_URL: &'static str = "https://beyond.hg-cdn.com/YDUTE5gscDZ229CW/1.3/update/6/6/Windows/1.3.3_BGlQHu2HgMlqTuqG/packs/Beyond_Release_v1d3-Rel-os-7123154-1_prod_obt_official.zip.";
pub const PACKAGE_PACK_FILE_PREFIX: &'static str = "Beyond_Release_v1d3-Rel-os-7123154-1_prod_obt_official.zip.";
pub const PACKAGE_PACK_COUNT: usize = 49;
pub const PACKAGE_PACK_SIZE: u64 = 1073741824;
pub const PACKAGE_LAST_PACK_SIZE: u64 = 172264000;

/// The launcher release that the bootstrap API announces.
#[derive(Debug, Clone)]
pub struct LatestLauncher {
    pub action: u8,
    pub version: String,
    pub request_version: String,
    pub exe_url: String,
    pub exe_size: String,
}

/// Why a launcher size could not be read.
#[derive(Debug, Clone, PartialEq, Eq)]
pub enum LauncherSizeError {
    /// The announced size is not a decimal number that fits in 64 bits.
    InvalidSize,
}

impl LatestLauncher {
    /// The announced size of the launcher executable, in bytes.
    pub fn exe_size_bytes(&self) -> (r: Result<u64, LauncherSizeError>)
        ensures
            r matches Ok(n) ==> parsed_u64(self.exe_size@) == Some(n),
            r is Err <==> parsed_u64(self.exe_size@) is None,
    {
        match parse_u64(self.exe_size.as_str()) {
            Some(n) => Ok(n),
            None => Err(LauncherSizeError::InvalidSize),
        }
    }
}

/// A full game package: the archive is split into `pack_count` parts, all of
/// `pack_size` bytes but the last.
#[derive(Debug, Clone)]
pub struct KnownPackage {
    pub version: &'static str,
    pub file_list_url: &'static str,
    pub pack_base_url: &'static str,
    pub pack_count: usize,
    pub pack_size: u64,
    pub last_pack_size: u64,
    pub total_size: u64,
    pub game_files_md5: &'static str,
    pub pack_md5: Vec<&'static str>,
}

/// What `KnownPackage::pack_size` answers for part `index`: the parts of the
/// released archive are numbered 1 to 49, the 49th being the short one.
pub open spec fn spec_pack_size(p: KnownPackage, index: int) -> Option<u64> {
    if 1 <= index <= 48 {
        Some(p.pack_size)
    } else if index == 49 {
        Some(p.last_pack_size)
    } else {
        None
    }
}

/// The size of all parts together: `pack_count - 1` full parts and the last one.
pub open spec fn spec_download_size(p: KnownPackage) -> int {
    (p.pack_count - 1) * p.pack_size + p.last_pack_size
}

/// The sum of the sizes of parts `1..=n` (parts without a size count as 0).
pub open spec fn sum_pack_sizes(p: KnownPackage, n: int) -> int
    decreases n,
{
    if n <= 0 {
        0
    } else {
        sum_pack_sizes(p, n - 1) + match spec_pack_size(p, n) {
            Some(s) => s as int,
            None => 0,
        }
    }
}

/// The file name of archive part `index` (`…zip.001`).
pub open spec fn pack_file_name_spec(index: nat) -> Seq<char> {
    PACKAGE_PACK_FILE_PREFIX@ + zero_padded(index, 3)
}

impl KnownPackage {
    /// The download URL of archive part `index`, for `1 <= index <= pack_count`.
    pub fn pack_url(&self, index: usize) -> (r: Option<String>)
        ensures
            r is Some <==> 1 <= index <= self.pack_count,
            r matches Some(u) ==> u@ == self.pack_base_url@ + zero_padded(index as nat, 3),
    {
        if 1 <= index && index <= self.pack_count {
            let n = zero_padded_string(index as u64, 3);
            Some(concat(self.pack_base_url, n.as_str()))
        } else {
            None
        }
    }

    /// The size of archive part `index`.
    pub fn pack_size(&self, index: usize) -> (r: Option<u64>)
        ensures
            r == spec_pack_size(*self, index as int),
    {
        if 1 <= index && index <= 48 {
            Some(self.pack_size)
        } else if index == 49 {
            Some(self.last_pack_size)
        } else {
            None
        }
    }

    /// The number of bytes to download for the whole package.
    pub fn download_size(&self) -> (r: u64)
        requires
            self.pack_count >= 1,
            spec_download_size(*self) <= u64::MAX,
        ensures
            r == spec_download_size(*self),
    {
        let full: u64 = (self.pack_count as u64) - 1;
        assert(full * self.pack_size <= spec_download_size(*self)) by (nonlinear_arith)
            requires
                full == self.pack_count - 1,
                spec_download_size(*self) == (self.pack_count - 1) * self.pack_size
                    + self.last_pack_size,
        ;
        full * self.pack_size + self.last_pack_size
    }
}

/// For a package of 49 parts, exactly the parts that have a download URL
/// have a size.
pub proof fn parts_with_urls_have_sizes(p: KnownPackage, index: int)
    requires
        p.pack_count == 49,
    ensures
        (1 <= index <= p.pack_count) <==> spec_pack_size(p, index) is Some,
{
}

/// For a package of 49 parts, the download size is the sum of the sizes that
/// `pack_size` gives for the parts `1..=49`.
pub proof fn download_size_is_sum_of_pack_sizes(p: KnownPackage)
    requires
        p.pack_count == 49,
    ensures
        sum_pack_sizes(p, 49) == spec_download_size(p),
{
    assert forall|n: int| 0 <= n <= 48 implies sum_pack_sizes(p, n) == n * p.pack_size by {
        lemma_sum_full_parts(p, n);
    }
    assert(sum_pack_sizes(p, 49) == sum_pack_sizes(p, 48) + p.last_pack_size);
}

proof fn lemma_sum_full_parts(p: KnownPackage, n: int)
    requires
        0 <= n <= 48,
    ensures
        sum_pack_sizes(p, n) == n * p.pack_size,
    decreases n,
{
    if n > 0 {
        lemma_sum_full_parts(p, n - 1);
        assert((n - 1) * p.pack_size + p.pack_size == n * p.pack_size) by (nonlinear_arith);
    } else {
        assert(0 * p.pack_size == 0) by (nonlinear_arith);
    }
}

/// The MD5 checksums of the 49 archive parts, in order.
pub open spec fn pack_md5_list() -> Seq<&'static str> {
    seq![
        "2f9c207dabf7ebaef5000f77916a6b98",
        "3ddc5e4bd8c9d1cb0c1c198245c8eb2f",
        "4b0769003bea4cb76b5455a72a5d6fb3",
        "57f3f635354e312281028f9b5486d12c",
        "2d3ca0c7e8de05e8cad4217175357fbb",
        "3b36ff26d0e0744945ab5e274bf1f2c3",
        "e0ea6ef515cf824d125cbbaee75e74e8",
        "33a479edcb0873cf0b930fc6d0ad8124",
        "a18b37f7d60b78caf08b1a4d720e04d2",
        "e3a7ea1768566a38f30547d793610fc4",
        "2071e617140317e03ea57dc1456e5041",
        "67f06cc4be227bff1f4230250e3ded2b",
        "f0955e00a18916109be58e09d4566912",
        "60746fc96727d42858115288d2e9def2",
        "1ce86d321f91edd8cf116364d91c74e2",
        "92ef7c5b737fcd92dd76a91834ed7cd0",
        "6b7556f07cc36276f4d084b53262732a",
        "e597a9fbe6cc7f1ee04ab4ce273b431c",
        "009b4b2e3e3b3c1f7720f84ac1d1c6b9",
        "229e9ed243ea6580cbe442a68b6c47ba",
        "b4d1449175f4f0485eabe5237d16a213",
        "8106fbce5133f68429abf1c0a830f8d7",
        "53a4ee9c9e3ae66f966232885f407ebd",
        "11d830a2244db3a73000b40da7d527fe",
        "02a1a2f38202288bb363f911d615c09f",
        "07993bdd2b7df00d539094a6b7a44a5d",
        "89607a4a4d72a0a16f57ff9accd7ee2f",
        "37fc8067a5b78cbb5e042738d20494d7",
        "9a934c99a5c5fad0fbe41ab313785353",
        "a30a7459a6a8a1e44f3de1df6fe8ae2d",
        "dcc6fdbaf30d29da9512e8326bf625de",
        "ac0f4b1255339f6392bb81bc7710a813",
        "0f03b90b07f092da05c9b3f46a10872e",
        "0d03fe19e83ac42c5047c10aa9f35cc4",
        "cf66a649c31a16339f683135c5ce5278",
        "03dfd034e4680cf5f325f0fdd2e1eddb",
        "e85a1681973622cd7ec6b0907690e1ae",
        "906c0ba24c1698448a2c5c2a63e0d3c2",
        "98b01ad8a1aa6ccfc73e2eec53634138",
        "8568271e384274216e8ff48723255907",
        "afe5d090ce46f2f1b8123ab26926a23f",
        "aefd536e1f616bd03eba1c431addd11c",
        "3f13a03d945df76118d6fe55a9241d02",
        "59567a136d54f42a77252a47b4999273",
        "0de54e3c1aa99cc72e441b83aeb40609",
        "c01a7fd401fe9fc373f85379d30f9e91",
        "de9d0895ef6873ce9e36fd1cdfc4a280",
        "87b786d19b1b134a9db14f09c52cd6ed",
        "89da08a94b98f85c9bf193f3fd1c495d",
    ]
}

/// The MD5 checksums of the 49 archive parts, in order.
pub fn package_pack_md5() -> (r: Vec<&'static str>)
    ensures
        r@ == pack_md5_list(),
{
    let v = vec![
        "2f9c207dabf7ebaef5000f77916a6b98",
        "3ddc5e4bd8c9d1cb0c1c198245c8eb2f",
        "4b0769003bea4cb76b5455a72a5d6fb3",
        "57f3f635354e312281028f9b5486d12c",
        "2d3ca0c7e8de05e8cad4217175357fbb",
        "3b36ff26d0e0744945ab5e274bf1f2c3",
        "e0ea6ef515cf824d125cbbaee75e74e8",
        "33a479edcb0873cf0b930fc6d0ad8124",
        "a18b37f7d60b78caf08b1a4d720e04d2",
        "e3a7ea1768566a38f30547d793610fc4",
        "2071e617140317e03ea57dc1456e5041",
        "67f06cc4be227bff1f4230250e3ded2b",
        "f0955e00a18916109be58e09d4566912",
        "60746fc96727d42858115288d2e9def2",
        "1ce86d321f91edd8cf116364d91c74e2",
        "92ef7c5b737fcd92dd76a91834ed7cd0",
        "6b7556f07cc36276f4d084b53262732a",
        "e597a9fbe6cc7f1ee04ab4ce273b431c",
        "009b4b2e3e3b3c1f7720f84ac1d1c6b9",
        "229e9ed243ea6580cbe442a68b6c47ba",
        "b4d1449175f4f0485eabe5237d16a213",
        "8106fbce5133f68429abf1c0a830f8d7",
        "53a4ee9c9e3ae66f966232885f407ebd",
        "11d830a2244db3a73000b40da7d527fe",
        "02a1a2f38202288bb363f911d615c09f",
        "07993bdd2b7df00d539094a6b7a44a5d",
        "89607a4a4d72a0a16f57ff9accd7ee2f",
        "37fc8067a5b78cbb5e042738d20494d7",
        "9a934c99a5c5fad0fbe41ab313785353",
        "a30a7459a6a8a1e44f3de1df6fe8ae2d",
        "dcc6fdbaf30d29da9512e8326bf625de",
        "ac0f4b1255339f6392bb81bc7710a813",
        "0f03b90b07f092da05c9b3f46a10872e",
        "0d03fe19e83ac42c5047c10aa9f35cc4",
        "cf66a649c31a16339f683135c5ce5278",
        "03dfd034e4680cf5f325f0fdd2e1eddb",
        "e85a1681973622cd7ec6b0907690e1ae",
        "906c0ba24c1698448a2c5c2a63e0d3c2",
        "98b01ad8a1aa6ccfc73e2eec53634138",
        "8568271e384274216e8ff48723255907",
        "afe5d090ce46f2f1b8123ab26926a23f",
        "aefd536e1f616bd03eba1c431addd11c",
        "3f13a03d945df76118d6fe55a9241d02",
        "59567a136d54f42a77252a47b4999273",
        "0de54e3c1aa99cc72e441b83aeb40609",
        "c01a7fd401fe9fc373f85379d30f9e91",
        "de9d0895ef6873ce9e36fd1cdfc4a280",
        "87b786d19b1b134a9db14f09c52cd6ed",
        "89da08a94b98f85c9bf193f3fd1c495d",
    ];
    assert(v@ =~= pack_md5_list());
    v
}

/// The full package of game version 1.3.3.
pub fn known_full_package() -> (p: KnownPackage)
    ensures
        p.version == GAME_VERSION,
        p.file_list_url == PACKAGE_FILE_LIST_URL,
        p.pack_base_url == PACKAGE_PACK_BASE_URL,
        p.pack_count == PACKAGE_PACK_COUNT,
        p.pack_size == PACKAGE_PACK_SIZE,
        p.last_pack_size == PACKAGE_LAST_PACK_SIZE,
        p.total_size == PACKAGE_TOTAL_SIZE,
        p.game_files_md5 == GAME_FILES_MD5,
        p.pack_md5@ == pack_md5_list(),
{
    KnownPackage {
        version: GAME_VERSION,
        file_list_url: PACKAGE_FILE_LIST_URL,
        pack_base_url: PACKAGE_PACK_BASE_URL,
        pack_count: PACKAGE_PACK_COUNT,
        pack_size: PACKAGE_PACK_SIZE,
        last_pack_size: PACKAGE_LAST_PACK_SIZE,
        total_size: PACKAGE_TOTAL_SIZE,
        game_files_md5: GAME_FILES_MD5,
        pack_md5: package_pack_md5(),
    }
}

/// The query that asks the bootstrap API for the latest launcher.
pub open spec fn latest_launcher_url_spec() -> Seq<char> {
    LAUNCHER_BOOTSTRAP_API@ + "?appcode="@ + LAUNCHER_APP_CODE@ + "&channel="@ + CHANNEL@
        + "&sub_channel="@ + SUB_CHANNEL@ + "&ua=&ta="@ + REMOTE_TARGET_APP@ + "&tracking="@
        + TRACKING@
}

/// The URL of the launcher bootstrap query.
pub fn latest_launcher_url() -> (r: String)
    ensures
        r@ == latest_launcher_url_spec(),
{
    let mut s = concat(LAUNCHER_BOOTSTRAP_API, "?appcode=");
    push_str(&mut s, LAUNCHER_APP_CODE);
    push_str(&mut s, "&channel=");
    push_str(&mut s, CHANNEL);
    push_str(&mut s, "&sub_channel=");
    push_str(&mut s, SUB_CHANNEL);
    push_str(&mut s, "&ua=&ta=");
    push_str(&mut s, REMOTE_TARGET_APP);
    push_str(&mut s, "&tracking=");
    push_str(&mut s, TRACKING);
    s
}

/// The file name of archive part `index` in the download directory.
pub fn pack_file_name(index: usize) -> (r: String)
    ensures
        r@ == pack_file_name_spec(index as nat),
{
    let n = zero_padded_string(index as u64, 3);
    concat(PACKAGE_PACK_FILE_PREFIX, n.as_str())
}

/// What an install reports while it runs.
#[derive(Debug, Clone)]
pub enum InstallUpdate {
    Downloading { downloaded_bytes: u64, total_bytes: u64 },
    Verifying { current: usize, total: usize },
    Unpacking,
    UnpackingProgress { percent: u8 },
    Debug { message: String },
}

/// An `InstallUpdate` with its message taken as characters.
pub enum UpdateView {
    Downloading { downloaded_bytes: u64, total_bytes: u64 },
    Verifying { current: usize, total: usize },
    Unpacking,
    UnpackingProgress { percent: u8 },
    Debug { message: Seq<char> },
}

impl View for InstallUpdate {
    type V = UpdateView;

    open spec fn view(&self) -> UpdateView {
        match self {
            InstallUpdate::Downloading { downloaded_bytes, total_bytes } => UpdateView::Downloading {
                downloaded_bytes: *downloaded_bytes,
                total_bytes: *total_bytes,
            },
            InstallUpdate::Verifying { current, total } => UpdateView::Verifying {
                current: *current,
                total: *total,
            },
            InstallUpdate::Unpacking => UpdateView::Unpacking,
            InstallUpdate::UnpackingProgress { percent } => UpdateView::UnpackingProgress {
                percent: *percent,
            },
            InstallUpdate::Debug { message } => UpdateView::Debug { message: message@ },
        }
    }
}

} // verus!

verus! {

/// Where archive part `index` is kept in `download_dir`.
pub fn pack_path(download_dir: &str, index: usize) -> (r: String)
    ensures
        r@ == crate::paths::joined(download_dir@, pack_file_name_spec(index as nat)),
{
    let name = pack_file_name(index);
    crate::paths::path_join(download_dir, name.as_str())
}

} // verus!
