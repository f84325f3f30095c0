use a_factory_game_launcher::checksum::{
    check_pack, record_pack_checksum, CachedChecksum, ChecksumCache, PackCheck, PackFile,
};
use a_factory_game_launcher::text::{
    decimal_string, ends_with, eq_ignore_ascii_case, parse_u64, starts_with, trim,
    zero_padded_string,
};

fn checksum(size: u64, modified: u64, md5: &str) -> CachedChecksum {
    CachedChecksum { size, modified, md5: md5.to_string() }
}

#[test]
fn cache_reads_back_what_was_written() {
    let mut cache = ChecksumCache::new();
    assert!(cache.get(1).is_none());
    cache.insert(1, checksum(3, 10, "aa"));
    cache.insert(2, checksum(4, 11, "bb"));
    cache.insert(1, checksum(5, 12, "cc"));
    assert_eq!(cache.get(1).map(|c| (c.size, c.modified, c.md5.as_str())), Some((5, 12, "cc")));
    assert_eq!(cache.get(2).map(|c| c.md5.as_str()), Some("bb"));
    assert_eq!(cache.packs.len(), 2);
    cache.remove(1);
    assert!(cache.get(1).is_none());
    assert_eq!(cache.get(2).map(|c| c.size), Some(4));
    cache.remove(3);
    assert_eq!(cache.packs.len(), 1);
}

#[test]
fn missing_and_mis_sized_parts_are_not_valid() {
    let mut cache = ChecksumCache::new();
    cache.insert(7, checksum(3, 1, "x"));
    match check_pack(None, 7, 3, "x", &mut cache) {
        PackCheck::Done(v) => {
            assert!(!v.valid && !v.cache_updated);
            assert_eq!(v.message, "pack 007: not downloaded yet");
        }
        other => panic!("unexpected {other:?}"),
    }
    assert!(cache.get(7).is_some());
    match check_pack(Some(PackFile { len: 2, modified: Some(1) }), 7, 3, "x", &mut cache) {
        PackCheck::Done(v) => {
            assert!(!v.valid && v.cache_updated);
            assert_eq!(v.message, "pack 007: size mismatch, have 2, want 3");
        }
        other => panic!("unexpected {other:?}"),
    }
    assert!(cache.get(7).is_none());
}

#[test]
fn stale_cache_entries_ask_for_a_checksum() {
    let mut cache = ChecksumCache::new();
    cache.insert(1, checksum(3, 100, "900150983cd24fb0d6963f7d28e17f72"));
    match check_pack(Some(PackFile { len: 3, modified: Some(101) }), 1, 3, "x", &mut cache) {
        PackCheck::NeedsChecksum { modified } => assert_eq!(modified, 101),
        other => panic!("unexpected {other:?}"),
    }
    match check_pack(Some(PackFile { len: 3, modified: None }), 2, 3, "x", &mut cache) {
        PackCheck::NeedsChecksum { modified } => assert_eq!(modified, 0),
        other => panic!("unexpected {other:?}"),
    }
    match check_pack(Some(PackFile { len: 3, modified: Some(100) }), 1, 3, "900150983CD24FB0D6963F7D28E17F72", &mut cache) {
        PackCheck::Done(v) => {
            assert!(v.valid && !v.cache_updated);
            assert_eq!(v.message, "pack 001: checksum cache hit (valid)");
        }
        other => panic!("unexpected {other:?}"),
    }
    match check_pack(Some(PackFile { len: 3, modified: Some(100) }), 1, 3, "ffff", &mut cache) {
        PackCheck::Done(v) => {
            assert!(!v.valid && !v.cache_updated);
            assert_eq!(v.message, "pack 001: checksum cache hit (invalid)");
        }
        other => panic!("unexpected {other:?}"),
    }
}

#[test]
fn a_bad_checksum_is_not_kept() {
    let mut cache = ChecksumCache::new();
    cache.insert(4, checksum(3, 1, "old"));
    let v = record_pack_checksum(4, 3, 2, "abcd".to_string(), "abce", &mut cache);
    assert!(!v.valid && v.cache_updated);
    assert_eq!(v.message, "pack 004: checksum cache miss, calculated md5 (invalid)");
    assert!(cache.get(4).is_none());
    let v = record_pack_checksum(4, 3, 2, "ABCD".to_string(), "abcd", &mut cache);
    assert!(v.valid);
    assert_eq!(cache.get(4).map(|c| (c.size, c.modified, c.md5.as_str())), Some((3, 2, "ABCD")));
}

#[test]
fn text_helpers() {
    assert_eq!(trim("  a b \n"), "a b");
    assert_eq!(trim("\u{3000}x\u{a0}"), "x");
    assert!(eq_ignore_ascii_case("AbC", "aBc"));
    assert!(!eq_ignore_ascii_case("Ä", "ä"));
    assert!(starts_with("spritz-wine-cachyos-9", "spritz-wine-cachyos"));
    assert!(!starts_with("spritz", "spritz-wine"));
    assert!(ends_with("a.webp", ".webp"));
    assert_eq!(decimal_string(0), "0");
    assert_eq!(decimal_string(u64::MAX), "18446744073709551615");
    assert_eq!(zero_padded_string(7, 3), "007");
    assert_eq!(zero_padded_string(1234, 3), "1234");
    assert_eq!(parse_u64("42"), Some(42));
    assert_eq!(parse_u64("+0"), Some(0));
    assert_eq!(parse_u64("+"), None);
    assert_eq!(parse_u64(" 1"), None);
}
