//! The checksum cache of downloaded archive parts, and the check that decides
//! whether a part on disk is complete and intact.
use std::collections::HashMap;

use vstd::prelude::*;

use crate::text::{
    ascii_lower_seq, concat, decimal, decimal_string, eq_ignore_ascii_case, push_str, zero_padded,
    zero_padded_string,
};

verus! {

broadcast use vstd::std_specs::hash::group_hash_axioms;

/// The checksum of a part as it was when it was last hashed.
#[derive(Debug)]
pub struct CachedChecksum {
    pub size: u64,
    pub modified: u64,
    pub md5: String,
}

/// The checksums of parts already hashed, by part number.
#[derive(Debug)]
pub struct ChecksumCache {
    pub packs: HashMap<u64, CachedChecksum>,
}

/// What a cache holds for part `key`.
pub open spec fn lookup(packs: Map<u64, CachedChecksum>, key: u64) -> Option<CachedChecksum> {
    if packs.contains_key(key) {
        Some(packs[key])
    } else {
        None
    }
}

impl ChecksumCache {
    /// An empty cache.
    pub fn new() -> (c: Self)
        ensures
            c.packs@ == Map::<u64, CachedChecksum>::empty(),
    {
        ChecksumCache { packs: HashMap::new() }
    }

    /// The checksum cached for part `key`.
    pub fn get(&self, key: u64) -> (r: Option<&CachedChecksum>)
        ensures
            r matches Some(c) ==> lookup(self.packs@, key) == Some(*c),
            r is None <==> lookup(self.packs@, key) is None,
    {
        self.packs.get(&key)
    }

    /// Forgets the checksum of part `key`.
    pub fn remove(&mut self, key: u64)
        ensures
            final(self).packs@ == old(self).packs@.remove(key),
    {
        self.packs.remove(&key);
    }

    /// Caches `checksum` for part `key`, replacing what was there.
    pub fn insert(&mut self, key: u64, checksum: CachedChecksum)
        ensures
            final(self).packs@ == old(self).packs@.insert(key, checksum),
    {
        self.packs.insert(key, checksum);
    }
}

} // verus!

verus! {

/// What is known of an archive part on disk: its length and, where the file
/// system reports it, its modification time in whole seconds since 1970.
#[derive(Debug, Clone, Copy)]
pub struct PackFile {
    pub len: u64,
    pub modified: Option<u64>,
}

/// The verdict on one archive part.
#[derive(Debug)]
pub struct PackValidation {
    /// The part is complete and its checksum matches.
    pub valid: bool,
    /// The checksum cache was changed and should be saved.
    pub cache_updated: bool,
    /// A line for the debug log.
    pub message: String,
}

/// The first step of checking a part: either a verdict, or the news that the
/// part must be hashed (the cache has nothing for it as it is now).
#[derive(Debug)]
pub enum PackCheck {
    Done(PackValidation),
    NeedsChecksum { modified: u64 },
}

/// The outcome of `check_pack`, without its message.
pub enum CheckOutcome {
    Done { valid: bool, cache_updated: bool },
    NeedsChecksum { modified: u64 },
}

/// Two checksums match when they are equal up to ASCII case.
pub open spec fn md5_matches(md5: Seq<char>, expected: Seq<char>) -> bool {
    ascii_lower_seq(md5) == ascii_lower_seq(expected)
}

/// `pack 001` for part 1.
pub open spec fn pack_label(index: nat) -> Seq<char> {
    "pack "@ + zero_padded(index, 3)
}

pub open spec fn validity_word(valid: bool) -> Seq<char> {
    if valid {
        "valid"@
    } else {
        "invalid"@
    }
}

/// What `check_pack` decides, from the file, the expectation and the cache.
pub open spec fn check_outcome(
    file: Option<PackFile>,
    index: nat,
    expected_size: u64,
    expected_md5: Seq<char>,
    packs: Map<u64, CachedChecksum>,
) -> CheckOutcome {
    match file {
        None => CheckOutcome::Done { valid: false, cache_updated: false },
        Some(f) => {
            if f.len != expected_size {
                CheckOutcome::Done { valid: false, cache_updated: true }
            } else {
                let m = match f.modified {
                    Some(m) => m,
                    None => 0,
                };
                match lookup(packs, index as u64) {
                    Some(c) => {
                        if c.size == f.len && c.modified == m {
                            CheckOutcome::Done {
                                valid: md5_matches(c.md5@, expected_md5),
                                cache_updated: false,
                            }
                        } else {
                            CheckOutcome::NeedsChecksum { modified: m }
                        }
                    },
                    None => CheckOutcome::NeedsChecksum { modified: m },
                }
            }
        },
    }
}

/// The debug-log line of a verdict that `check_pack` gives.
pub open spec fn check_message(
    file: Option<PackFile>,
    index: nat,
    expected_size: u64,
    valid: bool,
) -> Seq<char> {
    match file {
        None => pack_label(index) + ": not downloaded yet"@,
        Some(f) => {
            if f.len != expected_size {
                pack_label(index) + ": size mismatch, have "@ + decimal(f.len as nat) + ", want "@
                    + decimal(expected_size as nat)
            } else {
                pack_label(index) + ": checksum cache hit ("@ + validity_word(valid) + ")"@
            }
        },
    }
}

impl PackCheck {
    pub open spec fn outcome(&self) -> CheckOutcome {
        match self {
            PackCheck::Done(v) => CheckOutcome::Done {
                valid: v.valid,
                cache_updated: v.cache_updated,
            },
            PackCheck::NeedsChecksum { modified } => CheckOutcome::NeedsChecksum {
                modified: *modified,
            },
        }
    }
}

fn label_string(index: usize) -> (s: String)
    ensures
        s@ == pack_label(index as nat),
{
    let n = zero_padded_string(index as u64, 3);
    concat("pack ", n.as_str())
}

fn validity_string(valid: bool) -> (s: &'static str)
    ensures
        s@ == validity_word(valid),
{
    if valid {
        "valid"
    } else {
        "invalid"
    }
}

/// Checks archive part `index` against its expected size and checksum,
/// as far as that can be done without hashing it.
///
/// - No file: not valid.
/// - Wrong size: not valid, and the part's cache entry is dropped.
/// - Right size, and the cache holds a checksum taken at the same size and
///   modification time (missing times count as 0): valid when that checksum
///   matches `expected_md5` up to ASCII case.
/// - Otherwise the part has to be hashed; see `record_pack_checksum`.
pub fn check_pack(
    file: Option<PackFile>,
    index: usize,
    expected_size: u64,
    expected_md5: &str,
    cache: &mut ChecksumCache,
) -> (r: PackCheck)
    ensures
        r.outcome() == check_outcome(
            file,
            index as nat,
            expected_size,
            expected_md5@,
            old(cache).packs@,
        ),
        r matches PackCheck::Done(v) ==> v.message@ == check_message(
            file,
            index as nat,
            expected_size,
            v.valid,
        ),
        (file matches Some(f) && f.len != expected_size) ==> final(cache).packs@ == old(
            cache,
        ).packs@.remove(index as u64),
        !(file matches Some(f) && f.len != expected_size) ==> final(cache).packs@ == old(
            cache,
        ).packs@,
{
    let label = label_string(index);
    let f = match file {
        None => {
            let mut m = label;
            push_str(&mut m, ": not downloaded yet");
            return PackCheck::Done(
                PackValidation { valid: false, cache_updated: false, message: m },
            );
        },
        Some(f) => f,
    };
    let key = index as u64;
    if f.len != expected_size {
        cache.remove(key);
        let mut m = label;
        push_str(&mut m, ": size mismatch, have ");
        let have = decimal_string(f.len);
        push_str(&mut m, have.as_str());
        push_str(&mut m, ", want ");
        let want = decimal_string(expected_size);
        push_str(&mut m, want.as_str());
        return PackCheck::Done(PackValidation { valid: false, cache_updated: true, message: m });
    }
    let modified: u64 = match f.modified {
        Some(m) => m,
        None => 0,
    };
    match cache.get(key) {
        Some(cached) => {
            if cached.size == f.len && cached.modified == modified {
                let valid = eq_ignore_ascii_case(cached.md5.as_str(), expected_md5);
                let mut m = label;
                push_str(&mut m, ": checksum cache hit (");
                push_str(&mut m, validity_string(valid));
                push_str(&mut m, ")");
                return PackCheck::Done(
                    PackValidation { valid, cache_updated: false, message: m },
                );
            }
        },
        None => {},
    }
    PackCheck::NeedsChecksum { modified }
}

/// The cache entry that `record_pack_checksum` keeps for a good part.
pub open spec fn recorded(size: u64, modified: u64, md5: String) -> CachedChecksum {
    CachedChecksum { size, modified, md5 }
}

/// Records the checksum `md5` computed for part `index` (of `size` bytes,
/// modified at `modified`): the part is valid when it matches `expected_md5`
/// up to ASCII case, and only then is the checksum kept in the cache.
pub fn record_pack_checksum(
    index: usize,
    size: u64,
    modified: u64,
    md5: String,
    expected_md5: &str,
    cache: &mut ChecksumCache,
) -> (r: PackValidation)
    ensures
        r.valid == md5_matches(md5@, expected_md5@),
        r.cache_updated,
        r.message@ == pack_label(index as nat) + ": checksum cache miss, calculated md5 ("@
            + validity_word(r.valid) + ")"@,
        r.valid ==> final(cache).packs@ == old(cache).packs@.insert(
            index as u64,
            recorded(size, modified, md5),
        ),
        !r.valid ==> final(cache).packs@ == old(cache).packs@.remove(index as u64),
{
    let valid = eq_ignore_ascii_case(md5.as_str(), expected_md5);
    let key = index as u64;
    if valid {
        cache.insert(key, CachedChecksum { size, modified, md5 });
    } else {
        cache.remove(key);
    }
    let mut m = label_string(index);
    push_str(&mut m, ": checksum cache miss, calculated md5 (");
    push_str(&mut m, validity_string(valid));
    push_str(&mut m, ")");
    PackValidation { valid, cache_updated: true, message: m }
}

/// A checksum recorded for a good part is reused: checking the part again,
/// unchanged (same size and modification time), gives "valid" from the
/// cache, without hashing and without changing the cache.
pub proof fn recorded_checksum_is_reused(
    packs: Map<u64, CachedChecksum>,
    index: nat,
    size: u64,
    modified: u64,
    md5: String,
    expected_md5: Seq<char>,
)
    requires
        md5_matches(md5@, expected_md5),
        lookup(packs, index as u64) == Some(recorded(size, modified, md5)),
    ensures
        check_outcome(
            Some(PackFile { len: size, modified: Some(modified) }),
            index,
            size,
            expected_md5,
            packs,
        ) == (CheckOutcome::Done { valid: true, cache_updated: false }),
{
}

} // verus!
