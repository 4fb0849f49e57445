use hydrascan::hash::{
    compute_md5, compute_md5_with_chunk, compute_sha1, compute_sha1_with_chunk, to_hex,
};
use hydrascan::scan::{classify_digests, scan_file};
use hydrascan::store::SigTable;
use hydrascan::walk::{scan_directory, scan_tree, FsTree, Summary};

const HELLO_MD5: &str = "5d41402abc4b2a76b9719d911017c592";
const HELLO_SHA1: &str = "aaf4c61ddcc5e8a2dabede0f3b482cd9aea9434d";
const EMPTY_MD5: &str = "d41d8cd98f00b204e9800998ecf8427e";
const EMPTY_SHA1: &str = "da39a3ee5e6b4b0d3255bfef95601890afd80709";

fn empty_table() -> SigTable {
    SigTable::new()
}

fn table_with(key: &str, label: &str) -> SigTable {
    let mut t = SigTable::new();
    t.insert(key, label.to_string());
    t
}

#[test]
fn to_hex_renders_lowercase_two_digits_per_byte() {
    assert_eq!(to_hex(&[]), "");
    assert_eq!(to_hex(&[0x00]), "00");
    assert_eq!(to_hex(&[0x00, 0xff, 0x1a]), "00ff1a");
    assert_eq!(to_hex(&[0xab, 0xcd, 0xef]), "abcdef");
}

#[test]
fn digest_known_values() {
    assert_eq!(compute_md5(b"hello"), HELLO_MD5);
    assert_eq!(compute_sha1(b"hello"), HELLO_SHA1);
    assert_eq!(compute_md5(b""), EMPTY_MD5);
    assert_eq!(compute_sha1(b""), EMPTY_SHA1);
}

#[test]
fn digest_deterministic() {
    let data: Vec<u8> = (0..3000u32).map(|i| (i % 251) as u8).collect();
    assert_eq!(compute_md5(&data), compute_md5(&data));
    assert_eq!(compute_sha1(&data), compute_sha1(&data));
}

#[test]
fn digest_streaming_invariance() {
    let data: Vec<u8> = (0..3000u32).map(|i| (i % 251) as u8).collect();
    let one_shot_md5 = compute_md5_with_chunk(&data, data.len());
    for chunk in [1usize, 3, 7, 1024, 4096] {
        assert_eq!(compute_md5_with_chunk(&data, chunk), one_shot_md5);
    }
    let one_shot_sha1 = compute_sha1_with_chunk(&data, data.len());
    for chunk in [1usize, 3, 7, 1024, 4096] {
        assert_eq!(compute_sha1_with_chunk(&data, chunk), one_shot_sha1);
    }
}

#[test]
fn table_lookup_normalizes_case_on_both_sides() {
    let upper = HELLO_MD5.to_uppercase();
    let t = table_with(&upper, "up");
    assert_eq!(t.lookup(HELLO_MD5), Some("up".to_string()));
    assert_eq!(t.lookup(&upper), Some("up".to_string()));
    assert_eq!(t.lookup(EMPTY_MD5), None);
}

#[test]
fn table_insert_overwrites_existing_key() {
    let mut t = SigTable::new();
    t.insert(HELLO_MD5, "first".to_string());
    t.insert(HELLO_MD5, "second".to_string());
    assert_eq!(t.lookup(HELLO_MD5), Some("second".to_string()));
}

#[test]
fn empty_file_is_clean_even_if_its_digest_is_listed() {
    let md5_db = table_with(EMPTY_MD5, "EmptySig");
    let sha1_db = table_with(EMPTY_SHA1, "EmptySig");
    let vs_db = table_with(EMPTY_MD5, "virusshare");
    let ms_db = table_with(EMPTY_SHA1, "malsharesha1");
    let v = scan_file(b"", &md5_db, &sha1_db, &vs_db, &ms_db);
    assert!(!v.infected);
    assert_eq!(v.size, 0);
    assert_eq!(v.label, None);
}

#[test]
fn classify_treats_zero_size_as_clean() {
    let md5_db = table_with(HELLO_MD5, "X");
    let v = classify_digests(
        0,
        HELLO_MD5,
        HELLO_SHA1,
        &md5_db,
        &empty_table(),
        &empty_table(),
        &empty_table(),
    );
    assert!(!v.infected);
    assert_eq!(v.size, 0);
    assert_eq!(v.label, None);
}

#[test]
fn clean_file_matches_no_table() {
    let v = scan_file(
        b"hello",
        &empty_table(),
        &empty_table(),
        &empty_table(),
        &empty_table(),
    );
    assert!(!v.infected);
    assert_eq!(v.size, 5);
    assert_eq!(v.label, None);
}

#[test]
fn infected_when_any_single_table_matches() {
    let cases: [(SigTable, SigTable, SigTable, SigTable, &str); 4] = [
        (
            table_with(HELLO_MD5, "m"),
            empty_table(),
            empty_table(),
            empty_table(),
            "m",
        ),
        (
            empty_table(),
            table_with(HELLO_SHA1, "s"),
            empty_table(),
            empty_table(),
            "s",
        ),
        (
            empty_table(),
            empty_table(),
            table_with(HELLO_MD5, "virusshare"),
            empty_table(),
            "virusshare",
        ),
        (
            empty_table(),
            empty_table(),
            empty_table(),
            table_with(HELLO_SHA1, "malsharesha1"),
            "malsharesha1",
        ),
    ];
    for (md5_db, sha1_db, vs_db, ms_db, expected) in cases {
        let v = scan_file(b"hello", &md5_db, &sha1_db, &vs_db, &ms_db);
        assert!(v.infected);
        assert_eq!(v.size, 5);
        assert_eq!(v.label, Some(expected.to_string()));
    }
}

#[test]
fn label_follows_fixed_precedence_order() {
    let md5_db = table_with(HELLO_MD5, "primary128");
    let sha1_db = table_with(HELLO_SHA1, "primary160");
    let vs_db = table_with(HELLO_MD5, "alternate128");
    let ms_db = table_with(HELLO_SHA1, "alternate160");

    let v = scan_file(b"hello", &md5_db, &sha1_db, &vs_db, &ms_db);
    assert!(v.infected);
    assert_eq!(v.label, Some("primary128".to_string()));

    let v = scan_file(b"hello", &empty_table(), &sha1_db, &vs_db, &ms_db);
    assert!(v.infected);
    assert_eq!(v.label, Some("primary160".to_string()));

    let v = scan_file(b"hello", &empty_table(), &empty_table(), &vs_db, &ms_db);
    assert!(v.infected);
    assert_eq!(v.label, Some("alternate128".to_string()));

    let v = scan_file(b"hello", &empty_table(), &empty_table(), &empty_table(), &ms_db);
    assert!(v.infected);
    assert_eq!(v.label, Some("alternate160".to_string()));
}

#[test]
fn scenario_known_md5_signature_matches() {
    let md5_db = table_with(HELLO_MD5, "EICAR-Test");
    let v = scan_file(
        b"hello",
        &md5_db,
        &empty_table(),
        &empty_table(),
        &empty_table(),
    );
    assert!(v.infected);
    assert_eq!(v.size, 5);
    assert_eq!(v.label, Some("EICAR-Test".to_string()));
}

#[test]
fn scenario_directory_with_empty_and_unmatched_file() {
    let entries = vec![
        FsTree::File(Vec::new()),
        FsTree::File(b"0123456789".to_vec()),
    ];
    let s = scan_directory(
        &entries,
        &empty_table(),
        &empty_table(),
        &empty_table(),
        &empty_table(),
    );
    assert_eq!(s.files_scanned, 2);
    assert_eq!(s.files_infected, 0);
    assert_eq!(s.directories_scanned, 1);
    assert_eq!(s.bytes_scanned, 10);
}

#[test]
fn scenario_nested_tree_with_one_match() {
    let a_content = b"clean contents".to_vec();
    let b_content = b"hello".to_vec();
    let md5_db = table_with(HELLO_MD5, "EICAR-Test");
    let root = vec![
        FsTree::File(a_content.clone()),
        FsTree::Dir(vec![FsTree::File(b_content.clone())]),
    ];
    let s = scan_directory(
        &root,
        &md5_db,
        &empty_table(),
        &empty_table(),
        &empty_table(),
    );
    assert_eq!(s.files_scanned, 2);
    assert_eq!(s.files_infected, 1);
    assert_eq!(s.directories_scanned, 2);
    assert_eq!(s.bytes_scanned, (a_content.len() + b_content.len()) as u64);
}

#[test]
fn directory_aggregation_sums_subdirectory_summaries() {
    let md5_db = table_with(HELLO_MD5, "X");
    let sub1 = vec![FsTree::File(b"hello".to_vec()), FsTree::File(b"aa".to_vec())];
    let sub2 = vec![FsTree::File(b"bbb".to_vec())];
    let direct = FsTree::File(b"cccc".to_vec());

    let s1 = scan_directory(&sub1, &md5_db, &empty_table(), &empty_table(), &empty_table());
    let s2 = scan_directory(&sub2, &md5_db, &empty_table(), &empty_table(), &empty_table());
    let direct_verdict = scan_file(b"cccc", &md5_db, &empty_table(), &empty_table(), &empty_table());

    let whole = vec![
        FsTree::Dir(sub1),
        FsTree::Dir(sub2),
        direct,
    ];
    let s = scan_directory(&whole, &md5_db, &empty_table(), &empty_table(), &empty_table());

    assert_eq!(s.files_scanned, s1.files_scanned + s2.files_scanned + 1);
    assert_eq!(
        s.files_infected,
        s1.files_infected + s2.files_infected + if direct_verdict.infected { 1 } else { 0 }
    );
    assert_eq!(
        s.directories_scanned,
        s1.directories_scanned + s2.directories_scanned + 1
    );
    assert_eq!(
        s.bytes_scanned,
        s1.bytes_scanned + s2.bytes_scanned + direct_verdict.size
    );
}

#[test]
fn single_file_root_gives_degenerate_summary() {
    let md5_db = table_with(HELLO_MD5, "X");
    let t = FsTree::File(b"hello".to_vec());
    let s = scan_tree(&t, &md5_db, &empty_table(), &empty_table(), &empty_table());
    assert_eq!(s.files_scanned, 1);
    assert_eq!(s.files_infected, 1);
    assert_eq!(s.directories_scanned, 0);
    assert_eq!(s.bytes_scanned, 5);

    let t = FsTree::File(b"other".to_vec());
    let s = scan_tree(&t, &md5_db, &empty_table(), &empty_table(), &empty_table());
    assert_eq!(s.files_scanned, 1);
    assert_eq!(s.files_infected, 0);
    assert_eq!(s.directories_scanned, 0);
    assert_eq!(s.bytes_scanned, 5);
}

#[test]
fn summary_folding_is_elementwise() {
    let mut a = Summary::new();
    a.add_dir();
    let mut b = Summary::new();
    b.add_dir();
    b.add_dir();
    let v = scan_file(b"xy", &empty_table(), &empty_table(), &empty_table(), &empty_table());
    b.add_file(&v);
    a.add(&b);
    assert_eq!(a.files_scanned, 1);
    assert_eq!(a.files_infected, 0);
    assert_eq!(a.directories_scanned, 3);
    assert_eq!(a.bytes_scanned, 2);
}
