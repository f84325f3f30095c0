//! The install of the factory game, as a state machine: the installer
//! decides, the caller performs each action (file system, network, 7-Zip)
//! and hands back what came of it.
use vstd::prelude::*;

use crate::checksum::PackValidation;
use crate::package::{
    download_size_is_sum_of_pack_sizes, known_full_package, pack_md5_list, spec_download_size, spec_pack_size,
    sum_pack_sizes, InstallUpdate, KnownPackage, UpdateView, GAME_VERSION, PACKAGE_LAST_PACK_SIZE,
    PACKAGE_PACK_BASE_URL, PACKAGE_PACK_COUNT, PACKAGE_PACK_SIZE,
};
use crate::paths::{joined, path_join};
use crate::text::{concat, decimal, decimal_string, push_str, zero_padded, zero_padded_string};

verus! {

/// Something the caller of the installer has to do.
#[derive(Debug)]
pub enum InstallAction {
    /// Pass the update on to whoever follows the install.
    Report(InstallUpdate),
    /// Create the download and game directories, then load the checksum
    /// cache from the download directory.
    PrepareDirectories { download_dir: String, game_dir: String },
    /// Save the checksum cache into the download directory.
    SaveChecksumCache,
    /// Check archive part `index` (with `check_pack`, hashing it if needed),
    /// measure the file, and hand both to `Installer::on_checked`.
    ValidatePack { index: usize, expected_size: u64, expected_md5: &'static str },
    /// Delete archive part `index`: it is larger than it should be.
    RemovePack { index: usize },
    /// Download archive part `index` from `url`, then call
    /// `Installer::on_downloaded`.
    DownloadPack {
        index: usize,
        url: String,
        expected_size: u64,
        already_downloaded: u64,
        total_bytes: u64,
    },
    /// Check archive part `index` again, after its download, and hand the
    /// verdict to `Installer::on_rechecked`.
    RevalidatePack { index: usize, expected_size: u64, expected_md5: &'static str },
    /// Delete archive part `index`, ignoring any error: it is corrupt.
    DiscardPack { index: usize },
    /// Stop: the install failed.
    Fail { message: String },
    /// Unpack the archive into the game directory, then call
    /// `Installer::on_unpacked`.
    Unpack,
    /// Write `contents` to the version marker in the game directory.  The
    /// install is then complete.
    WriteVersionMarker { contents: String },
}

/// An `InstallAction` with its text taken as characters.
pub enum ActionView {
    Report(UpdateView),
    PrepareDirectories { download_dir: Seq<char>, game_dir: Seq<char> },
    SaveChecksumCache,
    ValidatePack { index: usize, expected_size: u64, expected_md5: Seq<char> },
    RemovePack { index: usize },
    DownloadPack {
        index: usize,
        url: Seq<char>,
        expected_size: u64,
        already_downloaded: u64,
        total_bytes: u64,
    },
    RevalidatePack { index: usize, expected_size: u64, expected_md5: Seq<char> },
    DiscardPack { index: usize },
    Fail { message: Seq<char> },
    Unpack,
    WriteVersionMarker { contents: Seq<char> },
}

impl View for InstallAction {
    type V = ActionView;

    open spec fn view(&self) -> ActionView {
        match self {
            InstallAction::Report(u) => ActionView::Report(u@),
            InstallAction::PrepareDirectories { download_dir, game_dir } => ActionView::PrepareDirectories {
                download_dir: download_dir@,
                game_dir: game_dir@,
            },
            InstallAction::SaveChecksumCache => ActionView::SaveChecksumCache,
            InstallAction::ValidatePack { index, expected_size, expected_md5 } => ActionView::ValidatePack {
                index: *index,
                expected_size: *expected_size,
                expected_md5: expected_md5@,
            },
            InstallAction::RemovePack { index } => ActionView::RemovePack { index: *index },
            InstallAction::DownloadPack {
                index,
                url,
                expected_size,
                already_downloaded,
                total_bytes,
            } => ActionView::DownloadPack {
                index: *index,
                url: url@,
                expected_size: *expected_size,
                already_downloaded: *already_downloaded,
                total_bytes: *total_bytes,
            },
            InstallAction::RevalidatePack { index, expected_size, expected_md5 } => ActionView::RevalidatePack {
                index: *index,
                expected_size: *expected_size,
                expected_md5: expected_md5@,
            },
            InstallAction::DiscardPack { index } => ActionView::DiscardPack { index: *index },
            InstallAction::Fail { message } => ActionView::Fail { message: message@ },
            InstallAction::Unpack => ActionView::Unpack,
            InstallAction::WriteVersionMarker { contents } => ActionView::WriteVersionMarker {
                contents: contents@,
            },
        }
    }
}

pub open spec fn action_views(v: Seq<InstallAction>) -> Seq<ActionView> {
    v.map_values(|a: InstallAction| a@)
}

/// Where an install stands.
#[derive(Debug, Clone, Copy, PartialEq, Eq, Structural)]
pub enum InstallPhase {
    NotStarted,
    /// Waiting for the first check of the current part.
    Checking,
    /// Waiting for the download of the current part.
    Downloading,
    /// Waiting for the check of the freshly downloaded current part.
    Rechecking,
    /// Waiting for the archive to be unpacked.
    Unpacking,
    Finished,
    Failed,
}

/// The install of the known full package into `game_dir`, downloading into
/// `download_dir`.
pub struct Installer {
    pub package: KnownPackage,
    pub download_dir: String,
    pub game_dir: String,
    pub total_bytes: u64,
    /// Bytes of the parts before the current one, all present and verified.
    pub downloaded_bytes: u64,
    /// The checksum cache has changes not yet saved.
    pub cache_dirty: bool,
    /// The part being handled (numbered from 1).
    pub index: usize,
    pub phase: InstallPhase,
    /// Every action handed out so far, in order.
    pub reports: Ghost<Seq<ActionView>>,
}

// ---------------------------------------------------------------------------
// What the installer says and does, as sequences of actions
// ---------------------------------------------------------------------------

pub open spec fn debug(message: Seq<char>) -> ActionView {
    ActionView::Report(UpdateView::Debug { message })
}

pub open spec fn verifying(current: int, total: int) -> ActionView {
    ActionView::Report(UpdateView::Verifying { current: current as usize, total: total as usize })
}

pub open spec fn nnn(index: int) -> Seq<char> {
    zero_padded(index as nat, 3)
}

pub open spec fn save_if(dirty: bool) -> Seq<ActionView> {
    if dirty {
        seq![ActionView::SaveChecksumCache]
    } else {
        Seq::empty()
    }
}

/// The size and checksum expected of part `index`.
pub open spec fn expected_size_of(p: KnownPackage, index: int) -> u64 {
    spec_pack_size(p, index)->0
}

pub open spec fn expected_md5_of(p: KnownPackage, index: int) -> Seq<char> {
    p.pack_md5@[index - 1]@
}

/// Starting on part `index`.
pub open spec fn check_actions(p: KnownPackage, index: int) -> Seq<ActionView> {
    seq![
        debug("checking pack "@ + nnn(index)),
        verifying(index - 1, p.pack_count as int),
        ActionView::ValidatePack {
            index: index as usize,
            expected_size: expected_size_of(p, index),
            expected_md5: expected_md5_of(p, index),
        },
    ]
}

/// After part `index` is done: on to the next part, or to unpacking after
/// the last one (saving the cache first if it still has changes).
pub open spec fn next_actions(p: KnownPackage, index: int, dirty: bool) -> Seq<ActionView> {
    if index < p.pack_count {
        check_actions(p, index + 1)
    } else {
        seq![ActionView::Report(UpdateView::Unpacking)] + save_if(dirty) + seq![ActionView::Unpack]
    }
}

/// The download directory of a package version under `temp_dir`.
pub open spec fn download_dir_of(temp_dir: Seq<char>) -> Seq<char> {
    joined(joined(temp_dir, "factory-game-download"@), GAME_VERSION@)
}

/// The installer's invariant: the known 49-part package, with the checksums
/// its parts are checked against; the bytes counted
/// as downloaded are exactly the sizes of the parts verified so far; and
/// unpacking starts only after the last part.
pub open spec fn installer_wf(s: Installer) -> bool {
    &&& s.package.pack_count == PACKAGE_PACK_COUNT
    &&& s.package.pack_size == PACKAGE_PACK_SIZE
    &&& s.package.last_pack_size == PACKAGE_LAST_PACK_SIZE
    &&& s.package.pack_base_url == PACKAGE_PACK_BASE_URL
    &&& s.package.version == GAME_VERSION
    &&& s.package.pack_md5@ == pack_md5_list()
    &&& s.package.pack_md5@.len() == PACKAGE_PACK_COUNT
    &&& s.total_bytes == spec_download_size(s.package)
    &&& 1 <= s.index <= PACKAGE_PACK_COUNT
    &&& s.downloaded_bytes == sum_pack_sizes(s.package, parts_done(s))
    &&& (s.phase == InstallPhase::Unpacking || s.phase == InstallPhase::Finished) ==> s.index
        == PACKAGE_PACK_COUNT
    &&& s.phase == InstallPhase::NotStarted ==> s.index == 1
}

/// How many parts are present and verified.
pub open spec fn parts_done(s: Installer) -> int {
    if s.phase == InstallPhase::Unpacking || s.phase == InstallPhase::Finished {
        s.index as int
    } else {
        s.index - 1
    }
}

proof fn lemma_sum_bounds(p: KnownPackage, n: int)
    requires
        p.pack_count == PACKAGE_PACK_COUNT,
        p.pack_size == PACKAGE_PACK_SIZE,
        p.last_pack_size == PACKAGE_LAST_PACK_SIZE,
        0 <= n <= 49,
    ensures
        sum_pack_sizes(p, n) <= spec_download_size(p),
        n <= 48 ==> sum_pack_sizes(p, n) == n * PACKAGE_PACK_SIZE,
    decreases n,
{
    if n > 0 {
        lemma_sum_bounds(p, n - 1);
    }
}

impl Installer {
    /// The installer's invariant, and that all it has handed out so far
    /// reports in order, up to where it stands.
    pub open spec fn wf(&self) -> bool {
        &&& installer_wf(*self)
        &&& reports_in_order(0, self.reports@)
        &&& verified_after(0, self.reports@) == reported(*self)
    }

    /// An install of the known full package into `game_dir`, downloading into
    /// `temp_dir/factory-game-download/<version>`.
    pub fn new(game_dir: &str, temp_dir: &str) -> (s: Self)
        ensures
            s.wf(),
            s.phase == InstallPhase::NotStarted,
            s.index == 1,
            s.downloaded_bytes == 0,
            !s.cache_dirty,
            s.download_dir@ == download_dir_of(temp_dir@),
            s.game_dir@ == game_dir@,
            s.reports@ == Seq::<ActionView>::empty(),
    {
        let package = known_full_package();
        let d = path_join(temp_dir, "factory-game-download");
        let download_dir = path_join(d.as_str(), package.version);
        let total_bytes = package.download_size();
        let s = Installer {
            package,
            download_dir,
            game_dir: game_dir.to_owned(),
            total_bytes,
            downloaded_bytes: 0,
            cache_dirty: false,
            index: 1,
            phase: InstallPhase::NotStarted,
            reports: Ghost(Seq::empty()),
        };
        assert(sum_pack_sizes(s.package, 0) == 0);
        s
    }

    /// The first actions of the install: log the directories, prepare them,
    /// report that verification begins, and check part 1.
    pub fn start(&mut self) -> (actions: Vec<InstallAction>)
        requires
            old(self).wf(),
            old(self).phase == InstallPhase::NotStarted,
        ensures
            final(self).wf(),
            final(self).phase == InstallPhase::Checking,
            final(self).index == old(self).index,
            final(self).downloaded_bytes == old(self).downloaded_bytes,
            final(self).cache_dirty == old(self).cache_dirty,
            final(self).package == old(self).package,
            final(self).download_dir == old(self).download_dir,
            final(self).game_dir == old(self).game_dir,
            action_views(actions@) == seq![
                debug("download dir: "@ + old(self).download_dir@),
                debug("game dir: "@ + old(self).game_dir@),
                ActionView::PrepareDirectories {
                    download_dir: old(self).download_dir@,
                    game_dir: old(self).game_dir@,
                },
                verifying(0, PACKAGE_PACK_COUNT as int),
            ] + check_actions(old(self).package, old(self).index as int),
            reports_in_order(reported(*old(self)), action_views(actions@)),
            verified_after(reported(*old(self)), action_views(actions@)) == reported(*final(self)),
            final(self).reports@ == old(self).reports@ + action_views(actions@),
    {
        let mut actions: Vec<InstallAction> = Vec::new();
        push_action(&mut actions, debug_action(concat("download dir: ", self.download_dir.as_str())));
        push_action(&mut actions, debug_action(concat("game dir: ", self.game_dir.as_str())));
        push_action(
            &mut actions,
            InstallAction::PrepareDirectories {
                download_dir: self.download_dir.clone(),
                game_dir: self.game_dir.clone(),
            },
        );
        push_action(
            &mut actions,
            InstallAction::Report(InstallUpdate::Verifying { current: 0, total: self.package.pack_count }),
        );
        self.push_check_actions(&mut actions);
        self.phase = InstallPhase::Checking;
        assert(action_views(actions@) =~= seq![
                debug("download dir: "@ + old(self).download_dir@),
                debug("game dir: "@ + old(self).game_dir@),
                ActionView::PrepareDirectories {
                    download_dir: old(self).download_dir@,
                    game_dir: old(self).game_dir@,
                },
                verifying(0, PACKAGE_PACK_COUNT as int),
            ] + check_actions(old(self).package, old(self).index as int));
        proof {
            let head = seq![
                debug("download dir: "@ + old(self).download_dir@),
                debug("game dir: "@ + old(self).game_dir@),
                ActionView::PrepareDirectories {
                    download_dir: old(self).download_dir@,
                    game_dir: old(self).game_dir@,
                },
            ];
            let v = seq![verifying(0, PACKAGE_PACK_COUNT as int)];
            assert(seq![
                debug("download dir: "@ + old(self).download_dir@),
                debug("game dir: "@ + old(self).game_dir@),
                ActionView::PrepareDirectories {
                    download_dir: old(self).download_dir@,
                    game_dir: old(self).game_dir@,
                },
                verifying(0, PACKAGE_PACK_COUNT as int),
            ] =~= head + v);
            lemma_quiet(0, head);
            lemma_one(0, v[0]);
            assert(v =~= seq![v[0]]);
            reports_in_order_concat(0, head, v);
            lemma_check_actions(old(self).package, 1);
            reports_in_order_concat(0, head + v, check_actions(old(self).package, 1));
        }
        self.reports = Ghost(self.reports@ + action_views(actions@));
        proof {
            reports_in_order_concat(0, old(self).reports@, action_views(actions@));
        }
        actions
    }

    /// Part `index` is present and verified: count its bytes, report it, and
    /// move to the next part or, after the last one, to unpacking.
    fn finish_part(&mut self, actions: &mut Vec<InstallAction>)
        requires
            installer_wf(*old(self)),
            old(self).phase == InstallPhase::Checking || old(self).phase == InstallPhase::Rechecking,
            !old(self).cache_dirty,
        ensures
            installer_wf(*final(self)),
            final(self).reports == old(self).reports,
            final(self).package == old(self).package,
            final(self).download_dir == old(self).download_dir,
            final(self).game_dir == old(self).game_dir,
            !final(self).cache_dirty,
            final(self).downloaded_bytes == old(self).downloaded_bytes + expected_size_of(
                old(self).package,
                old(self).index as int,
            ),
            old(self).index < PACKAGE_PACK_COUNT ==> {
                &&& final(self).index == old(self).index + 1
                &&& final(self).phase == InstallPhase::Checking
            },
            old(self).index == PACKAGE_PACK_COUNT ==> {
                &&& final(self).index == old(self).index
                &&& final(self).phase == InstallPhase::Unpacking
            },
            action_views(final(actions)@) == action_views(old(actions)@) + seq![
                verifying(old(self).index as int, PACKAGE_PACK_COUNT as int),
            ] + next_actions(old(self).package, old(self).index as int, false),
    {
        let ghost before = action_views(actions@);
        let size = self.expected_size();
        proof {
            lemma_sum_bounds(self.package, self.index as int);
            assert(sum_pack_sizes(self.package, self.index as int) == sum_pack_sizes(
                self.package,
                self.index - 1,
            ) + size);
        }
        self.downloaded_bytes = self.downloaded_bytes + size;
        push_action(
            actions,
            InstallAction::Report(InstallUpdate::Verifying { current: self.index, total: self.package.pack_count }),
        );
        if self.index < self.package.pack_count {
            self.index = self.index + 1;
            self.phase = InstallPhase::Checking;
            self.push_check_actions(actions);
        } else {
            self.phase = InstallPhase::Unpacking;
            push_action(actions, InstallAction::Report(InstallUpdate::Unpacking));
            push_action(actions, InstallAction::Unpack);
        }
        assert(action_views(actions@) =~= before + seq![
                verifying(old(self).index as int, PACKAGE_PACK_COUNT as int),
            ] + next_actions(old(self).package, old(self).index as int, false));
    }

    /// The verdict of the first check of the current part, and how large its
    /// file is (0 when there is none).  A good part is counted and the next
    /// one checked; otherwise the part is downloaded: from scratch (after
    /// deleting it) when the file is too large, resumed when it is shorter.
    pub fn on_checked(&mut self, validation: PackValidation, existing_size: u64) -> (actions: Vec<
        InstallAction,
    >)
        requires
            old(self).wf(),
            old(self).phase == InstallPhase::Checking,
        ensures
            final(self).wf(),
            final(self).package == old(self).package,
            final(self).download_dir == old(self).download_dir,
            final(self).game_dir == old(self).game_dir,
            ({
                let p = old(self).package;
                let i = old(self).index as int;
                let es = expected_size_of(p, i);
                let dirty = old(self).cache_dirty || validation.cache_updated;
                if validation.valid {
                    &&& action_views(actions@) == seq![
                        debug(validation.message@),
                        debug("pack "@ + nnn(i) + " is valid"@),
                    ] + save_if(dirty) + seq![verifying(i, PACKAGE_PACK_COUNT as int)]
                        + next_actions(p, i, false)
                    &&& final(self).downloaded_bytes == old(self).downloaded_bytes + es
                    &&& !final(self).cache_dirty
                    &&& i < PACKAGE_PACK_COUNT ==> final(self).index == i + 1 && final(self).phase
                        == InstallPhase::Checking
                    &&& i == PACKAGE_PACK_COUNT ==> final(self).index == i && final(self).phase
                        == InstallPhase::Unpacking
                } else {
                    &&& action_views(actions@) == seq![debug(validation.message@)] + (if existing_size
                        > es {
                        seq![
                            debug(
                                "pack "@ + nnn(i) + " is oversized ("@ + decimal(existing_size as nat)
                                    + " > "@ + decimal(es as nat) + "), restarting"@,
                            ),
                            ActionView::RemovePack { index: i as usize },
                        ]
                    } else if existing_size > 0 {
                        seq![
                            debug(
                                "resuming pack "@ + nnn(i) + " from "@ + decimal(existing_size as nat)
                                    + " bytes"@,
                            ),
                        ]
                    } else {
                        seq![debug("downloading pack "@ + nnn(i))]
                    }) + seq![
                        ActionView::DownloadPack {
                            index: i as usize,
                            url: p.pack_base_url@ + nnn(i),
                            expected_size: es,
                            already_downloaded: old(self).downloaded_bytes,
                            total_bytes: old(self).total_bytes,
                        },
                    ]
                    &&& final(self).phase == InstallPhase::Downloading
                    &&& final(self).index == old(self).index
                    &&& final(self).downloaded_bytes == old(self).downloaded_bytes
                    &&& final(self).cache_dirty == dirty
                }
            }),
            reports_in_order(reported(*old(self)), action_views(actions@)),
            verified_after(reported(*old(self)), action_views(actions@)) == reported(*final(self)),
            final(self).reports@ == old(self).reports@ + action_views(actions@),
    {
        let mut actions: Vec<InstallAction> = Vec::new();
        self.cache_dirty = self.cache_dirty || validation.cache_updated;
        let i = self.index;
        let n = zero_padded_string(i as u64, 3);
        let size = self.expected_size();
        let valid = validation.valid;
        let ghost vm = validation.message@;
        push_action(&mut actions, debug_action(validation.message));
        if valid {
            let mut m = concat("pack ", n.as_str());
            push_str(&mut m, " is valid");
            push_action(&mut actions, debug_action(m));
            if self.cache_dirty {
                push_action(&mut actions, InstallAction::SaveChecksumCache);
                self.cache_dirty = false;
            }
            let ghost mid = action_views(actions@);
            self.finish_part(&mut actions);
            assert(action_views(actions@) =~= seq![
                debug(vm),
                debug("pack "@ + nnn(i as int) + " is valid"@),
            ] + save_if(old(self).cache_dirty || validation.cache_updated) + seq![
                verifying(i as int, PACKAGE_PACK_COUNT as int),
            ] + next_actions(old(self).package, i as int, false));
            proof {
                let d = seq![debug(vm), debug("pack "@ + nnn(i as int) + " is valid"@)];
                let sv = save_if(old(self).cache_dirty || validation.cache_updated);
                lemma_quiet(i - 1, d);
                lemma_save_if(i - 1, old(self).cache_dirty || validation.cache_updated);
                reports_in_order_concat(i - 1, d, sv);
                lemma_finish(old(self).package, i as int, d + sv);
            }
        } else {
            let ghost es = size;
            if existing_size > size {
                let mut m = concat("pack ", n.as_str());
                push_str(&mut m, " is oversized (");
                let e = decimal_string(existing_size);
                push_str(&mut m, e.as_str());
                push_str(&mut m, " > ");
                let w = decimal_string(size);
                push_str(&mut m, w.as_str());
                push_str(&mut m, "), restarting");
                push_action(&mut actions, debug_action(m));
                push_action(&mut actions, InstallAction::RemovePack { index: i });
            } else if existing_size > 0 {
                let mut m = concat("resuming pack ", n.as_str());
                push_str(&mut m, " from ");
                let e = decimal_string(existing_size);
                push_str(&mut m, e.as_str());
                push_str(&mut m, " bytes");
                push_action(&mut actions, debug_action(m));
            } else {
                push_action(&mut actions, debug_action(concat("downloading pack ", n.as_str())));
            }
            let url = concat(self.package.pack_base_url, n.as_str());
            push_action(
                &mut actions,
                InstallAction::DownloadPack {
                    index: i,
                    url,
                    expected_size: size,
                    already_downloaded: self.downloaded_bytes,
                    total_bytes: self.total_bytes,
                },
            );
            self.phase = InstallPhase::Downloading;
            let ghost p = old(self).package;
            assert(action_views(actions@) =~= seq![debug(vm)] + (if existing_size > es {
                seq![
                    debug(
                        "pack "@ + nnn(i as int) + " is oversized ("@ + decimal(existing_size as nat)
                            + " > "@ + decimal(es as nat) + "), restarting"@,
                    ),
                    ActionView::RemovePack { index: i },
                ]
            } else if existing_size > 0 {
                seq![
                    debug(
                        "resuming pack "@ + nnn(i as int) + " from "@ + decimal(existing_size as nat)
                            + " bytes"@,
                    ),
                ]
            } else {
                seq![debug("downloading pack "@ + nnn(i as int))]
            }) + seq![
                ActionView::DownloadPack {
                    index: i,
                    url: p.pack_base_url@ + nnn(i as int),
                    expected_size: es,
                    already_downloaded: old(self).downloaded_bytes,
                    total_bytes: old(self).total_bytes,
                },
            ]);
            proof {
                let q = seq![debug(vm)] + (if existing_size > es {
                    seq![
                        debug(
                            "pack "@ + nnn(i as int) + " is oversized ("@ + decimal(existing_size as nat)
                                + " > "@ + decimal(es as nat) + "), restarting"@,
                        ),
                        ActionView::RemovePack { index: i },
                    ]
                } else if existing_size > 0 {
                    seq![
                        debug(
                            "resuming pack "@ + nnn(i as int) + " from "@ + decimal(existing_size as nat)
                                + " bytes"@,
                        ),
                    ]
                } else {
                    seq![debug("downloading pack "@ + nnn(i as int))]
                });
                let dl = seq![
                    ActionView::DownloadPack {
                        index: i,
                        url: p.pack_base_url@ + nnn(i as int),
                        expected_size: es,
                        already_downloaded: old(self).downloaded_bytes,
                        total_bytes: old(self).total_bytes,
                    },
                ];
                assert forall|k: int| 0 <= k < q.len() implies is_quiet(#[trigger] q[k]) by {
                    if k > 0 {
                        assert(q[k] == (q.subrange(1, q.len() as int))[k - 1]);
                    }
                }
                lemma_quiet(i - 1, q);
                lemma_one(i - 1, dl[0]);
                assert(dl =~= seq![dl[0]]);
                reports_in_order_concat(i - 1, q, dl);
            }
        }
        self.reports = Ghost(self.reports@ + action_views(actions@));
        proof {
            reports_in_order_concat(0, old(self).reports@, action_views(actions@));
        }
        actions
    }

    /// The current part has been downloaded: report, and check it again.
    pub fn on_downloaded(&mut self) -> (actions: Vec<InstallAction>)
        requires
            old(self).wf(),
            old(self).phase == InstallPhase::Downloading,
        ensures
            final(self).wf(),
            final(self).phase == InstallPhase::Rechecking,
            final(self).index == old(self).index,
            final(self).package == old(self).package,
            final(self).download_dir == old(self).download_dir,
            final(self).game_dir == old(self).game_dir,
            final(self).downloaded_bytes == old(self).downloaded_bytes,
            final(self).cache_dirty == old(self).cache_dirty,
            action_views(actions@) == seq![
                verifying(old(self).index - 1, PACKAGE_PACK_COUNT as int),
                ActionView::RevalidatePack {
                    index: old(self).index,
                    expected_size: expected_size_of(old(self).package, old(self).index as int),
                    expected_md5: expected_md5_of(old(self).package, old(self).index as int),
                },
            ],
            reports_in_order(reported(*old(self)), action_views(actions@)),
            verified_after(reported(*old(self)), action_views(actions@)) == reported(*final(self)),
            final(self).reports@ == old(self).reports@ + action_views(actions@),
    {
        let mut actions: Vec<InstallAction> = Vec::new();
        let i = self.index;
        push_action(
            &mut actions,
            InstallAction::Report(InstallUpdate::Verifying { current: i - 1, total: self.package.pack_count }),
        );
        let size = self.expected_size();
        push_action(
            &mut actions,
            InstallAction::RevalidatePack {
                index: i,
                expected_size: size,
                expected_md5: self.package.pack_md5[i - 1],
            },
        );
        self.phase = InstallPhase::Rechecking;
        assert(action_views(actions@) =~= seq![
                verifying(old(self).index - 1, PACKAGE_PACK_COUNT as int),
                ActionView::RevalidatePack {
                    index: old(self).index,
                    expected_size: expected_size_of(old(self).package, old(self).index as int),
                    expected_md5: expected_md5_of(old(self).package, old(self).index as int),
                },
            ]);
        proof {
            let v = seq![verifying(old(self).index - 1, PACKAGE_PACK_COUNT as int)];
            let r = seq![
                ActionView::RevalidatePack {
                    index: old(self).index,
                    expected_size: expected_size_of(old(self).package, old(self).index as int),
                    expected_md5: expected_md5_of(old(self).package, old(self).index as int),
                },
            ];
            assert(action_views(actions@) =~= v + r);
            lemma_one(old(self).index - 1, v[0]);
            assert(v =~= seq![v[0]]);
            lemma_one(old(self).index - 1, r[0]);
            assert(r =~= seq![r[0]]);
            reports_in_order_concat(old(self).index - 1, v, r);
        }
        self.reports = Ghost(self.reports@ + action_views(actions@));
        proof {
            reports_in_order_concat(0, old(self).reports@, action_views(actions@));
        }
        actions
    }

    /// The verdict on the freshly downloaded current part.  A corrupt part is
    /// discarded and the install fails; a good one is counted and the next
    /// part checked.
    pub fn on_rechecked(&mut self, validation: PackValidation) -> (actions: Vec<InstallAction>)
        requires
            old(self).wf(),
            old(self).phase == InstallPhase::Rechecking,
        ensures
            final(self).wf(),
            final(self).package == old(self).package,
            final(self).download_dir == old(self).download_dir,
            final(self).game_dir == old(self).game_dir,
            ({
                let p = old(self).package;
                let i = old(self).index as int;
                let dirty = old(self).cache_dirty || validation.cache_updated;
                if validation.valid {
                    &&& action_views(actions@) == seq![debug(validation.message@)] + save_if(dirty)
                        + seq![debug("pack "@ + nnn(i) + " downloaded and verified"@)] + seq![
                        verifying(i, PACKAGE_PACK_COUNT as int),
                    ] + next_actions(p, i, false)
                    &&& final(self).downloaded_bytes == old(self).downloaded_bytes
                        + expected_size_of(p, i)
                    &&& !final(self).cache_dirty
                    &&& i < PACKAGE_PACK_COUNT ==> final(self).index == i + 1 && final(self).phase
                        == InstallPhase::Checking
                    &&& i == PACKAGE_PACK_COUNT ==> final(self).index == i && final(self).phase
                        == InstallPhase::Unpacking
                } else {
                    &&& action_views(actions@) == seq![
                        debug(validation.message@),
                        ActionView::DiscardPack { index: i as usize },
                        ActionView::Fail {
                            message: "Factory game pack "@ + nnn(i) + " failed MD5 verification"@,
                        },
                    ]
                    &&& final(self).phase == InstallPhase::Failed
                    &&& final(self).index == old(self).index
                    &&& final(self).downloaded_bytes == old(self).downloaded_bytes
                }
            }),
            reports_in_order(reported(*old(self)), action_views(actions@)),
            verified_after(reported(*old(self)), action_views(actions@)) == reported(*final(self)),
            final(self).reports@ == old(self).reports@ + action_views(actions@),
    {
        let mut actions: Vec<InstallAction> = Vec::new();
        self.cache_dirty = self.cache_dirty || validation.cache_updated;
        let i = self.index;
        let n = zero_padded_string(i as u64, 3);
        let valid = validation.valid;
        let ghost vm = validation.message@;
        push_action(&mut actions, debug_action(validation.message));
        if !valid {
            push_action(&mut actions, InstallAction::DiscardPack { index: i });
            let mut m = concat("Factory game pack ", n.as_str());
            push_str(&mut m, " failed MD5 verification");
            push_action(&mut actions, InstallAction::Fail { message: m });
            self.phase = InstallPhase::Failed;
            assert(action_views(actions@) =~= seq![
                        debug(vm),
                        ActionView::DiscardPack { index: i },
                        ActionView::Fail {
                            message: "Factory game pack "@ + nnn(i as int) + " failed MD5 verification"@,
                        },
                    ]);
            proof {
                let q = action_views(actions@);
                assert forall|k: int| 0 <= k < q.len() implies is_quiet(#[trigger] q[k]) by {}
                lemma_quiet(i - 1, q);
            }
            self.reports = Ghost(self.reports@ + action_views(actions@));
            proof {
                reports_in_order_concat(0, old(self).reports@, action_views(actions@));
            }
            return actions;
        }
        if self.cache_dirty {
            push_action(&mut actions, InstallAction::SaveChecksumCache);
            self.cache_dirty = false;
        }
        let mut m = concat("pack ", n.as_str());
        push_str(&mut m, " downloaded and verified");
        push_action(&mut actions, debug_action(m));
        self.finish_part(&mut actions);
        assert(action_views(actions@) =~= seq![debug(vm)] + save_if(
            old(self).cache_dirty || validation.cache_updated,
        ) + seq![debug("pack "@ + nnn(i as int) + " downloaded and verified"@)] + seq![
                        verifying(i as int, PACKAGE_PACK_COUNT as int),
                    ] + next_actions(old(self).package, i as int, false));
        proof {
            let d1 = seq![debug(vm)];
            let sv = save_if(old(self).cache_dirty || validation.cache_updated);
            let d2 = seq![debug("pack "@ + nnn(i as int) + " downloaded and verified"@)];
            lemma_quiet(i - 1, d1);
            lemma_save_if(i - 1, old(self).cache_dirty || validation.cache_updated);
            lemma_quiet(i - 1, d2);
            reports_in_order_concat(i - 1, d1, sv);
            reports_in_order_concat(i - 1, d1 + sv, d2);
            lemma_finish(old(self).package, i as int, d1 + sv + d2);
        }
        self.reports = Ghost(self.reports@ + action_views(actions@));
        proof {
            reports_in_order_concat(0, old(self).reports@, action_views(actions@));
        }
        actions
    }

    /// The archive is unpacked: write the version marker.
    pub fn on_unpacked(&mut self) -> (actions: Vec<InstallAction>)
        requires
            old(self).wf(),
            old(self).phase == InstallPhase::Unpacking,
        ensures
            final(self).wf(),
            final(self).phase == InstallPhase::Finished,
            final(self).index == old(self).index,
            final(self).package == old(self).package,
            final(self).downloaded_bytes == old(self).downloaded_bytes,
            action_views(actions@) == seq![
                ActionView::WriteVersionMarker { contents: old(self).package.version@ + "\n"@ },
            ],
            reports_in_order(reported(*old(self)), action_views(actions@)),
            verified_after(reported(*old(self)), action_views(actions@)) == reported(*final(self)),
            final(self).reports@ == old(self).reports@ + action_views(actions@),
    {
        let mut actions: Vec<InstallAction> = Vec::new();
        let contents = concat(self.package.version, "\n");
        push_action(&mut actions, InstallAction::WriteVersionMarker { contents });
        self.phase = InstallPhase::Finished;
        assert(action_views(actions@) =~= seq![
                ActionView::WriteVersionMarker { contents: old(self).package.version@ + "\n"@ },
            ]);
        proof {
            lemma_one(PACKAGE_PACK_COUNT + 1, action_views(actions@)[0]);
        }
        self.reports = Ghost(self.reports@ + action_views(actions@));
        proof {
            reports_in_order_concat(0, old(self).reports@, action_views(actions@));
        }
        actions
    }

    /// Appends `check_actions` of the current part.
    fn push_check_actions(&self, actions: &mut Vec<InstallAction>)
        requires
            installer_wf(*self),
        ensures
            action_views(final(actions)@) == action_views(old(actions)@) + check_actions(
                self.package,
                self.index as int,
            ),
    {
        let i = self.index;
        let ghost before = action_views(actions@);
        let n = zero_padded_string(i as u64, 3);
        push_action(actions, debug_action(concat("checking pack ", n.as_str())));
        push_action(
            actions,
            InstallAction::Report(InstallUpdate::Verifying { current: i - 1, total: self.package.pack_count }),
        );
        let size = self.expected_size();
        push_action(
            actions,
            InstallAction::ValidatePack {
                index: i,
                expected_size: size,
                expected_md5: self.package.pack_md5[i - 1],
            },
        );
        assert(action_views(actions@) =~= before + check_actions(self.package, self.index as int));
    }

    /// The size of the current part.
    fn expected_size(&self) -> (r: u64)
        requires
            installer_wf(*self),
        ensures
            r == expected_size_of(self.package, self.index as int),
            spec_pack_size(self.package, self.index as int) is Some,
    {
        match self.package.pack_size(self.index) {
            Some(s) => s,
            None => {
                assert(false);
                0
            },
        }
    }
}

/// Begins the install of the known full package into `game_dir`,
/// downloading into `temp_dir`: the installer, and the first actions to
/// perform.
pub fn install_to(game_dir: &str, temp_dir: &str) -> (r: (Installer, Vec<InstallAction>))
    ensures
        r.0.wf(),
        r.0.phase == InstallPhase::Checking,
        r.0.index == 1,
        r.0.downloaded_bytes == 0,
        !r.0.cache_dirty,
        r.0.download_dir@ == download_dir_of(temp_dir@),
        r.0.game_dir@ == game_dir@,
        action_views(r.1@) == seq![
            debug("download dir: "@ + download_dir_of(temp_dir@)),
            debug("game dir: "@ + game_dir@),
            ActionView::PrepareDirectories {
                download_dir: download_dir_of(temp_dir@),
                game_dir: game_dir@,
            },
            verifying(0, PACKAGE_PACK_COUNT as int),
        ] + check_actions(r.0.package, 1),
        reports_in_order(0, action_views(r.1@)),
        verified_after(0, action_views(r.1@)) == 0,
        r.0.reports@ == action_views(r.1@),
{
    let mut installer = Installer::new(game_dir, temp_dir);
    let actions = installer.start();
    (installer, actions)
}

fn debug_action(message: String) -> (a: InstallAction)
    ensures
        a@ == debug(message@),
{
    InstallAction::Report(InstallUpdate::Debug { message })
}

fn push_action(v: &mut Vec<InstallAction>, a: InstallAction)
    ensures
        action_views(final(v)@) == action_views(old(v)@).push(a@),
{
    let ghost av = a@;
    v.push(a);
    assert(action_views(v@) =~= action_views(old(v)@).push(av));
}

} // verus!

verus! {

/// The bytes of the whole known package.
pub open spec fn package_bytes() -> int {
    (PACKAGE_PACK_COUNT - 1) * PACKAGE_PACK_SIZE + PACKAGE_LAST_PACK_SIZE
}

/// Where the progress reports of `acts` leave off, starting from `prev`:
/// the number of the last part reported verified, or 50 once unpacking is
/// reported.
pub open spec fn verified_after(prev: int, acts: Seq<ActionView>) -> int
    decreases acts.len(),
{
    if acts.len() == 0 {
        prev
    } else {
        match acts.last() {
            ActionView::Report(UpdateView::Verifying { current, .. }) => current as int,
            ActionView::Report(UpdateView::Unpacking) => PACKAGE_PACK_COUNT + 1,
            _ => verified_after(prev, acts.drop_last()),
        }
    }
}

/// Where the reports of an installer in state `s` have left off.
pub open spec fn reported(s: Installer) -> int {
    if s.phase == InstallPhase::Unpacking || s.phase == InstallPhase::Finished {
        PACKAGE_PACK_COUNT + 1
    } else {
        parts_done(s)
    }
}

/// The progress reports in `acts`, after `prev` parts were reported
/// verified, are in order: each "verifying" report is out of 49 parts and
/// repeats the last number or adds one to it; unpacking is reported once,
/// after part 49, and nothing is reported verified after it; every download
/// is counted against the whole package.
pub open spec fn reports_in_order(prev: int, acts: Seq<ActionView>) -> bool
    decreases acts.len(),
{
    if acts.len() == 0 {
        true
    } else {
        let p = verified_after(prev, acts.drop_last());
        &&& reports_in_order(prev, acts.drop_last())
        &&& match acts.last() {
            ActionView::Report(UpdateView::Verifying { current, total }) => {
                &&& total == PACKAGE_PACK_COUNT
                &&& current <= PACKAGE_PACK_COUNT
                &&& (current == p || current == p + 1)
            },
            ActionView::Report(UpdateView::Unpacking) => p == PACKAGE_PACK_COUNT,
            ActionView::DownloadPack { total_bytes, .. } => total_bytes == package_bytes(),
            _ => true,
        }
    }
}

/// An action that reports no progress and counts no bytes.
pub open spec fn is_quiet(a: ActionView) -> bool {
    match a {
        ActionView::Report(UpdateView::Verifying { .. }) => false,
        ActionView::Report(UpdateView::Unpacking) => false,
        ActionView::DownloadPack { .. } => false,
        _ => true,
    }
}

/// Reports that are in order, followed by reports in order from where the
/// first left off, are in order together: what each step of an install
/// reports continues what the steps before it reported.
pub proof fn reports_in_order_concat(prev: int, a: Seq<ActionView>, b: Seq<ActionView>)
    ensures
        reports_in_order(prev, a + b) == (reports_in_order(prev, a) && reports_in_order(
            verified_after(prev, a),
            b,
        )),
        verified_after(prev, a + b) == verified_after(verified_after(prev, a), b),
    decreases b.len(),
{
    if b.len() == 0 {
        assert(a + b =~= a);
    } else {
        reports_in_order_concat(prev, a, b.drop_last());
        assert((a + b).drop_last() =~= a + b.drop_last());
        assert((a + b).last() == b.last());
    }
}

/// Every part is checked against its own size and checksum: part `i` (of
/// the 49) against the `i`-th checksum of the package's list, both on its
/// first check and on the check after its download; for the known package
/// that is the `i`-th of the checksums it is published with.
pub proof fn parts_are_checked_against_their_own_checksums(p: KnownPackage, i: int)
    requires
        p.pack_count == PACKAGE_PACK_COUNT,
        p.pack_md5@.len() == PACKAGE_PACK_COUNT,
        1 <= i <= PACKAGE_PACK_COUNT,
    ensures
        check_actions(p, i).len() == 3,
        check_actions(p, i)[2] == (ActionView::ValidatePack {
            index: i as usize,
            expected_size: if i < PACKAGE_PACK_COUNT {
                p.pack_size
            } else {
                p.last_pack_size
            },
            expected_md5: p.pack_md5@[i - 1]@,
        }),
        expected_md5_of(p, i) == p.pack_md5@[i - 1]@,
        expected_size_of(p, i) == if i < PACKAGE_PACK_COUNT {
            p.pack_size
        } else {
            p.last_pack_size
        },
        p.pack_md5@ == pack_md5_list() ==> expected_md5_of(p, i) == pack_md5_list()[i - 1]@,
{
}

/// Over a whole install: every installer keeps all it has handed out, from
/// its creation on (`reports`, which each step extends by exactly the actions
/// it returns), and those report in order: "verifying" counts out of 49 that
/// start at 0 and never go back nor skip a part, unpacking reported once and
/// after part 49, downloads counted against the whole package.
pub proof fn install_reports_stay_in_order(s: Installer)
    requires
        s.wf(),
    ensures
        reports_in_order(0, s.reports@),
        verified_after(0, s.reports@) == reported(s),
{
}

/// Over a whole run: when each step's actions report in order from where
/// the step before left off (`marks[k]` parts reported verified before step
/// `k`), as every step of `Installer` ensures, then all the actions of the
/// run, taken together, report in order: "verifying" counts out of 49 that
/// never go back nor skip a part, unpacking reported once, after part 49 and
/// before nothing more is reported verified, and downloads counted against
/// the whole package.
pub proof fn run_reports_in_order(marks: Seq<int>, steps: Seq<Seq<ActionView>>)
    requires
        marks.len() == steps.len() + 1,
        forall|k: int|
            0 <= k < steps.len() ==> reports_in_order(marks[k], #[trigger] steps[k])
                && verified_after(marks[k], steps[k]) == marks[k + 1],
    ensures
        reports_in_order(marks[0], steps.flatten()),
        verified_after(marks[0], steps.flatten()) == marks.last(),
    decreases steps.len(),
{
    if steps.len() == 0 {
        assert(reports_in_order(marks[0], Seq::<ActionView>::empty()));
    } else {
        let ms = marks.drop_first();
        let ss = steps.drop_first();
        assert forall|k: int| 0 <= k < ss.len() implies reports_in_order(ms[k], #[trigger] ss[k])
            && verified_after(ms[k], ss[k]) == ms[k + 1] by {
            assert(ss[k] == steps[k + 1]);
        }
        run_reports_in_order(ms, ss);
        assert(steps[0] == steps.first());
        reports_in_order_concat(marks[0], steps.first(), ss.flatten());
    }
}

proof fn lemma_quiet(prev: int, a: Seq<ActionView>)
    requires
        forall|k: int| 0 <= k < a.len() ==> is_quiet(#[trigger] a[k]),
    ensures
        reports_in_order(prev, a),
        verified_after(prev, a) == prev,
    decreases a.len(),
{
    if a.len() > 0 {
        let b = a.drop_last();
        assert forall|k: int| 0 <= k < b.len() implies is_quiet(#[trigger] b[k]) by {
            assert(b[k] == a[k]);
        }
        lemma_quiet(prev, b);
        assert(is_quiet(a[a.len() - 1]));
    }
}

proof fn lemma_one(prev: int, x: ActionView)
    ensures
        reports_in_order(prev, seq![x]) == match x {
            ActionView::Report(UpdateView::Verifying { current, total }) => {
                &&& total == PACKAGE_PACK_COUNT
                &&& current <= PACKAGE_PACK_COUNT
                &&& (current == prev || current == prev + 1)
            },
            ActionView::Report(UpdateView::Unpacking) => prev == PACKAGE_PACK_COUNT,
            ActionView::DownloadPack { total_bytes, .. } => total_bytes == package_bytes(),
            _ => true,
        },
        verified_after(prev, seq![x]) == match x {
            ActionView::Report(UpdateView::Verifying { current, .. }) => current as int,
            ActionView::Report(UpdateView::Unpacking) => PACKAGE_PACK_COUNT + 1,
            _ => prev,
        },
{
    let s = seq![x];
    assert(s.drop_last() =~= Seq::<ActionView>::empty());
    assert(s.last() == x);
    assert(verified_after(prev, s.drop_last()) == prev);
    assert(reports_in_order(prev, s.drop_last()));
}

proof fn lemma_save_if(prev: int, dirty: bool)
    ensures
        reports_in_order(prev, save_if(dirty)),
        verified_after(prev, save_if(dirty)) == prev,
{
    lemma_quiet(prev, save_if(dirty));
}

proof fn lemma_check_actions(p: KnownPackage, i: int)
    requires
        p.pack_count == PACKAGE_PACK_COUNT,
        1 <= i <= PACKAGE_PACK_COUNT,
    ensures
        reports_in_order(i - 1, check_actions(p, i)),
        verified_after(i - 1, check_actions(p, i)) == i - 1,
{
    let a = seq![debug("checking pack "@ + nnn(i))];
    let v = seq![verifying(i - 1, p.pack_count as int)];
    let c = seq![
        ActionView::ValidatePack {
            index: i as usize,
            expected_size: expected_size_of(p, i),
            expected_md5: expected_md5_of(p, i),
        },
    ];
    assert(check_actions(p, i) =~= a + v + c);
    lemma_one(i - 1, a[0]);
    assert(a =~= seq![a[0]]);
    lemma_one(i - 1, v[0]);
    assert(v =~= seq![v[0]]);
    lemma_one(i - 1, c[0]);
    assert(c =~= seq![c[0]]);
    reports_in_order_concat(i - 1, a, v);
    reports_in_order_concat(i - 1, a + v, c);
}

proof fn lemma_next_actions(p: KnownPackage, i: int)
    requires
        p.pack_count == PACKAGE_PACK_COUNT,
        1 <= i <= PACKAGE_PACK_COUNT,
    ensures
        reports_in_order(i, next_actions(p, i, false)),
        verified_after(i, next_actions(p, i, false)) == if i < PACKAGE_PACK_COUNT {
            i
        } else {
            PACKAGE_PACK_COUNT + 1
        },
{
    if i < PACKAGE_PACK_COUNT {
        lemma_check_actions(p, i + 1);
    } else {
        let u = seq![ActionView::Report(UpdateView::Unpacking)];
        let w = seq![ActionView::Unpack];
        assert(save_if(false) =~= Seq::<ActionView>::empty());
        assert(next_actions(p, i, false) =~= u + w);
        lemma_one(i, u[0]);
        assert(u =~= seq![u[0]]);
        lemma_one(PACKAGE_PACK_COUNT + 1, w[0]);
        assert(w =~= seq![w[0]]);
        reports_in_order_concat(i, u, w);
    }
}

/// After part `i` is done: report it verified, then go on.
proof fn lemma_finish(p: KnownPackage, i: int, head: Seq<ActionView>)
    requires
        p.pack_count == PACKAGE_PACK_COUNT,
        1 <= i <= PACKAGE_PACK_COUNT,
        reports_in_order(i - 1, head),
        verified_after(i - 1, head) == i - 1,
    ensures
        reports_in_order(i - 1, head + seq![verifying(i, PACKAGE_PACK_COUNT as int)] + next_actions(
            p,
            i,
            false,
        )),
        verified_after(
            i - 1,
            head + seq![verifying(i, PACKAGE_PACK_COUNT as int)] + next_actions(p, i, false),
        ) == if i < PACKAGE_PACK_COUNT {
            i
        } else {
            PACKAGE_PACK_COUNT + 1
        },
{
    let v = seq![verifying(i, PACKAGE_PACK_COUNT as int)];
    lemma_one(i - 1, v[0]);
    assert(v =~= seq![v[0]]);
    lemma_next_actions(p, i);
    reports_in_order_concat(i - 1, head, v);
    reports_in_order_concat(i - 1, head + v, next_actions(p, i, false));
}

/// While an install runs, the bytes counted as downloaded never exceed the
/// size of the whole package, and neither do they once the current part is
/// added to them.
pub proof fn install_progress_within_total(s: Installer)
    requires
        s.wf(),
    ensures
        s.downloaded_bytes <= s.total_bytes,
        parts_done(s) == s.index - 1 ==> s.downloaded_bytes + expected_size_of(
            s.package,
            s.index as int,
        ) <= s.total_bytes,
{
    lemma_sum_bounds(s.package, parts_done(s));
    lemma_sum_bounds(s.package, s.index as int);
}

/// Unpacking begins only once every part is downloaded and verified: by
/// then the bytes counted are the size of the whole package.
pub proof fn unpacking_follows_the_whole_download(s: Installer)
    requires
        s.wf(),
        s.phase == InstallPhase::Unpacking || s.phase == InstallPhase::Finished,
    ensures
        s.index == PACKAGE_PACK_COUNT,
        s.downloaded_bytes == s.total_bytes,
{
    download_size_is_sum_of_pack_sizes(s.package);
}

/// How to start downloading a part of which `existing_len` bytes are on disk.
#[derive(Debug, Clone, PartialEq, Eq)]
pub struct DownloadStart {
    /// Where the download begins (bytes already on disk that are kept).
    pub offset: u64,
    /// The `Range` header to send, when resuming.
    pub range: Option<String>,
    /// Delete the file on disk first (it is complete or too large).
    pub remove_existing: bool,
}

/// Resume a partial part with a `Range` request; start over (deleting the
/// file) when it is already as large as the part or larger.
pub fn download_start(existing_len: u64, expected_size: u64) -> (r: DownloadStart)
    ensures
        0 < existing_len < expected_size ==> {
            &&& r.offset == existing_len
            &&& r.range matches Some(h) && h@ == "bytes="@ + decimal(existing_len as nat) + "-"@
            &&& !r.remove_existing
        },
        existing_len >= expected_size ==> r.offset == 0 && r.range is None && r.remove_existing,
        existing_len == 0 && expected_size > 0 ==> r.offset == 0 && r.range is None
            && !r.remove_existing,
{
    if existing_len > 0 && existing_len < expected_size {
        let mut h = String::new();
        push_str(&mut h, "bytes=");
        let n = decimal_string(existing_len);
        push_str(&mut h, n.as_str());
        push_str(&mut h, "-");
        DownloadStart { offset: existing_len, range: Some(h), remove_existing: false }
    } else if existing_len >= expected_size {
        DownloadStart { offset: 0, range: None, remove_existing: true }
    } else {
        DownloadStart { offset: 0, range: None, remove_existing: false }
    }
}

/// Where the written file begins once the server has answered: a server
/// that ignores the range and sends the whole part (its length is the part's
/// size) makes the download start over.
pub fn response_offset(offset: u64, content_length: Option<u64>, expected_size: u64) -> (r: u64)
    ensures
        r == (if offset > 0 && content_length == Some(expected_size) {
            0
        } else {
            offset
        }),
{
    if offset > 0 && content_length == Some(expected_size) {
        0
    } else {
        offset
    }
}

/// The progress report after `current` bytes of a part are on disk, with
/// `already_downloaded` bytes of earlier parts.
pub fn download_progress(already_downloaded: u64, current: u64, total_bytes: u64) -> (u:
    InstallUpdate)
    requires
        already_downloaded + current <= u64::MAX,
    ensures
        u@ == (UpdateView::Downloading {
            downloaded_bytes: (already_downloaded + current) as u64,
            total_bytes,
        }),
{
    InstallUpdate::Downloading { downloaded_bytes: already_downloaded + current, total_bytes }
}

} // verus!
