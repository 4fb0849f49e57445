//! Scanning a single file.
//!
//! A file is classified by computing its two digests and consulting four
//! signature tables: two keyed by the 128-bit digest (primary and alternate
//! source) and two keyed by the 160-bit digest (primary and alternate
//! source).  An empty file is classified as clean without hashing.  The
//! reported label is the first hit in the fixed precedence order
//! primary-128, primary-160, alternate-128, alternate-160, while `infected`
//! is true as soon as any of the four tables hits.

use vstd::prelude::*;
use crate::hash::{compute_md5, compute_sha1, hex_of, hex_char, md5_of, sha1_of};
use crate::store::{SigTable, lower_char, lower_seq, lemma_lower_seq};

verus! {

/// The contents of the four signature tables, as maps from digest text to
/// label text.
pub ghost struct TablesView {
    pub md5: Map<Seq<char>, Seq<char>>,
    pub sha1: Map<Seq<char>, Seq<char>>,
    pub virusshare: Map<Seq<char>, Seq<char>>,
    pub malsharesha1: Map<Seq<char>, Seq<char>>,
}

/// The contents of four signature tables.
pub open spec fn tables_view(
    db_md5: &SigTable,
    db_sha1: &SigTable,
    db_virusshare: &SigTable,
    db_malsharesha1: &SigTable,
) -> TablesView {
    TablesView {
        md5: db_md5@,
        sha1: db_sha1@,
        virusshare: db_virusshare@,
        malsharesha1: db_malsharesha1@,
    }
}

/// What scanning one file reports: whether it matched a signature, its
/// byte length, and the label of the first matching signature, if any.
pub ghost struct VerdictView {
    pub infected: bool,
    pub size: nat,
    pub label: Option<Seq<char>>,
}

/// The outcome of scanning one file.
pub struct FileVerdict {
    pub infected: bool,
    pub size: u64,
    pub label: Option<String>,
}

impl View for FileVerdict {
    type V = VerdictView;

    open spec fn view(&self) -> VerdictView {
        VerdictView {
            infected: self.infected,
            size: self.size as nat,
            label: match self.label {
                Some(l) => Some(l@),
                None => None,
            },
        }
    }
}

/// Whether any of the four tables contains the file's corresponding
/// digest: the two 128-bit-keyed tables are consulted with the MD5 hex
/// text, the two 160-bit-keyed ones with the SHA-1 hex text.
pub open spec fn spec_infected(md5_hex: Seq<char>, sha1_hex: Seq<char>, t: TablesView) -> bool {
    ||| t.md5.contains_key(md5_hex)
    ||| t.sha1.contains_key(sha1_hex)
    ||| t.virusshare.contains_key(md5_hex)
    ||| t.malsharesha1.contains_key(sha1_hex)
}

/// The label of the first matching table in the fixed precedence order:
/// primary-128, primary-160, alternate-128, alternate-160.
pub open spec fn spec_label(md5_hex: Seq<char>, sha1_hex: Seq<char>, t: TablesView) -> Option<
    Seq<char>,
> {
    if t.md5.contains_key(md5_hex) {
        Some(t.md5[md5_hex])
    } else if t.sha1.contains_key(sha1_hex) {
        Some(t.sha1[sha1_hex])
    } else if t.virusshare.contains_key(md5_hex) {
        Some(t.virusshare[md5_hex])
    } else if t.malsharesha1.contains_key(sha1_hex) {
        Some(t.malsharesha1[sha1_hex])
    } else {
        None
    }
}

/// The verdict for a file of the given size whose digests read as the
/// given hex texts: a zero-size file is clean and unscanned; otherwise the
/// digests, normalized to lowercase, are looked up in the four tables.
pub open spec fn spec_classify(
    size: nat,
    md5_hex: Seq<char>,
    sha1_hex: Seq<char>,
    t: TablesView,
) -> VerdictView {
    if size == 0 {
        VerdictView { infected: false, size: 0, label: None }
    } else {
        VerdictView {
            infected: spec_infected(lower_seq(md5_hex), lower_seq(sha1_hex), t),
            size: size,
            label: spec_label(lower_seq(md5_hex), lower_seq(sha1_hex), t),
        }
    }
}

/// The verdict for a file with the given content: empty content is clean
/// and unscanned, even if an empty file's digest appears in a table;
/// otherwise both digests are computed and looked up.
pub open spec fn spec_scan_file(data: Seq<u8>, t: TablesView) -> VerdictView {
    if data.len() == 0 {
        VerdictView { infected: false, size: 0, label: None }
    } else {
        VerdictView {
            infected: spec_infected(hex_of(md5_of(data)), hex_of(sha1_of(data)), t),
            size: data.len(),
            label: spec_label(hex_of(md5_of(data)), hex_of(sha1_of(data)), t),
        }
    }
}

/// Hex renderings consist of digits and lowercase letters only, so
/// lowercasing them changes nothing.
pub proof fn lemma_hex_lower(bytes: Seq<u8>)
    ensures
        lower_seq(hex_of(bytes)) == hex_of(bytes),
    decreases bytes.len(),
{
    lemma_lower_seq(hex_of(bytes));
    assert forall|n: int| lower_char(hex_char(n)) == hex_char(n) by {
    }
    if bytes.len() == 0 {
        assert(lower_seq(hex_of(bytes)) =~= hex_of(bytes));
    } else {
        lemma_hex_lower(bytes.drop_last());
        lemma_lower_seq(hex_of(bytes.drop_last()));
        assert(lower_seq(hex_of(bytes)) =~= hex_of(bytes));
    }
}

/// Classifies a file from its size and the hex texts of its two digests.
/// A zero-size file is clean and unscanned; otherwise the digests are
/// looked up in all four tables, `infected` is true as soon as any table
/// hits, and the label follows the fixed precedence order.
pub fn classify_digests(
    size: u64,
    md5_hex: &str,
    sha1_hex: &str,
    db_md5: &SigTable,
    db_sha1: &SigTable,
    db_virusshare: &SigTable,
    db_malsharesha1: &SigTable,
) -> (r: FileVerdict)
    ensures
        r@ == spec_classify(
            size as nat,
            md5_hex@,
            sha1_hex@,
            tables_view(db_md5, db_sha1, db_virusshare, db_malsharesha1),
        ),
{
    if size == 0 {
        return FileVerdict { infected: false, size: 0, label: None };
    }
    let m = db_md5.lookup(md5_hex);
    let s1 = db_sha1.lookup(sha1_hex);
    let v = db_virusshare.lookup(md5_hex);
    let ms = db_malsharesha1.lookup(sha1_hex);
    let infected = m.is_some() || s1.is_some() || v.is_some() || ms.is_some();
    let label = if m.is_some() {
        m
    } else if s1.is_some() {
        s1
    } else if v.is_some() {
        v
    } else {
        ms
    };
    FileVerdict { infected, size, label }
}

/// Scans one file's content: computes both digests (unless the content is
/// empty, which short-circuits to a clean verdict) and consults the four
/// signature tables.
pub fn scan_file(
    data: &[u8],
    db_md5: &SigTable,
    db_sha1: &SigTable,
    db_virusshare: &SigTable,
    db_malsharesha1: &SigTable,
) -> (r: FileVerdict)
    ensures
        r@ == spec_scan_file(data@, tables_view(db_md5, db_sha1, db_virusshare, db_malsharesha1)),
{
    if data.len() == 0 {
        return FileVerdict { infected: false, size: 0, label: None };
    }
    let m = compute_md5(data);
    let s = compute_sha1(data);
    let r = classify_digests(
        data.len() as u64,
        m.as_str(),
        s.as_str(),
        db_md5,
        db_sha1,
        db_virusshare,
        db_malsharesha1,
    );
    proof {
        lemma_hex_lower(md5_of(data@));
        lemma_hex_lower(sha1_of(data@));
    }
    r
}

/// An empty file always scans as clean with size 0 and no label, whatever
/// the signature tables hold.
pub proof fn lemma_empty_file_clean(t: TablesView)
    ensures
        spec_scan_file(Seq::<u8>::empty(), t) == (VerdictView {
            infected: false,
            size: 0 as nat,
            label: None::<Seq<char>>,
        }),
{
}

/// A non-empty file is infected exactly when at least one of the four
/// tables contains its corresponding digest, and the reported label is
/// that of the first hit in the fixed precedence order primary-128,
/// primary-160, alternate-128, alternate-160.
pub proof fn lemma_infected_iff(data: Seq<u8>, t: TablesView)
    requires
        data.len() > 0,
    ensures
        spec_scan_file(data, t).infected <==> (t.md5.contains_key(hex_of(md5_of(data)))
            || t.sha1.contains_key(hex_of(sha1_of(data))) || t.virusshare.contains_key(
            hex_of(md5_of(data)),
        ) || t.malsharesha1.contains_key(hex_of(sha1_of(data)))),
        spec_scan_file(data, t).size == data.len(),
        t.md5.contains_key(hex_of(md5_of(data))) ==> spec_scan_file(data, t).label == Some(
            t.md5[hex_of(md5_of(data))],
        ),
        !t.md5.contains_key(hex_of(md5_of(data))) && t.sha1.contains_key(hex_of(sha1_of(data)))
            ==> spec_scan_file(data, t).label == Some(t.sha1[hex_of(sha1_of(data))]),
        !t.md5.contains_key(hex_of(md5_of(data))) && !t.sha1.contains_key(hex_of(sha1_of(data)))
            && t.virusshare.contains_key(hex_of(md5_of(data))) ==> spec_scan_file(data, t).label
            == Some(t.virusshare[hex_of(md5_of(data))]),
        !t.md5.contains_key(hex_of(md5_of(data))) && !t.sha1.contains_key(hex_of(sha1_of(data)))
            && !t.virusshare.contains_key(hex_of(md5_of(data))) && t.malsharesha1.contains_key(
            hex_of(sha1_of(data)),
        ) ==> spec_scan_file(data, t).label == Some(t.malsharesha1[hex_of(sha1_of(data))]),
        !spec_scan_file(data, t).infected ==> spec_scan_file(data, t).label is None,
{
}

} // verus!
