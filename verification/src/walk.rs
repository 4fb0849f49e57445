//! Scanning a directory tree and aggregating totals.
//!
//! A subtree is modeled by content: a regular file carries its bytes, a
//! directory its entries.  Scanning visits every entry depth-first,
//! delegates each file to the file scanner, and folds counts and byte
//! totals bottom-up; each directory also counts itself once.

use vstd::prelude::*;
use crate::scan::{FileVerdict, TablesView, VerdictView, scan_file, spec_scan_file, tables_view};
use crate::store::SigTable;

verus! {

/// Aggregate totals over a scanned subtree, as mathematical counts.
#[verifier::ext_equal]
pub ghost struct Totals {
    pub files: nat,
    pub infected: nat,
    pub dirs: nat,
    pub bytes: nat,
}

/// No files, no directories, no bytes.
pub open spec fn totals_zero() -> Totals {
    Totals { files: 0, infected: 0, dirs: 0, bytes: 0 }
}

/// One directory, nothing else: what a directory contributes for itself.
pub open spec fn totals_one_dir() -> Totals {
    Totals { files: 0, infected: 0, dirs: 1, bytes: 0 }
}

/// Elementwise sum of two totals.
pub open spec fn totals_add(a: Totals, b: Totals) -> Totals {
    Totals {
        files: a.files + b.files,
        infected: a.infected + b.infected,
        dirs: a.dirs + b.dirs,
        bytes: a.bytes + b.bytes,
    }
}

/// What one scanned file contributes to the totals.
pub open spec fn verdict_totals(v: VerdictView) -> Totals {
    Totals {
        files: 1,
        infected: if v.infected { 1nat } else { 0nat },
        dirs: 0,
        bytes: v.size,
    }
}

/// A filesystem subtree, modeled by content: a regular file with its
/// bytes, or a directory with its entries.
pub enum FsTree {
    File(Vec<u8>),
    Dir(Vec<FsTree>),
}

/// The totals of scanning one tree node against the given tables.
pub open spec fn spec_scan_tree(t: FsTree, tv: TablesView) -> Totals
    decreases t,
{
    match t {
        FsTree::File(data) => verdict_totals(spec_scan_file(data@, tv)),
        FsTree::Dir(children) => totals_add(spec_scan_entries(children@, tv), totals_one_dir()),
    }
}

/// The totals of scanning a sequence of directory entries, folded from
/// the left.
pub open spec fn spec_scan_entries(s: Seq<FsTree>, tv: TablesView) -> Totals
    decreases s,
{
    if s.len() == 0 {
        totals_zero()
    } else {
        totals_add(spec_scan_entries(s.drop_last(), tv), spec_scan_tree(s.last(), tv))
    }
}

/// The totals of scanning a directory given its entries: the entries'
/// totals plus one for the directory itself.
pub open spec fn spec_scan_dir(s: Seq<FsTree>, tv: TablesView) -> Totals {
    totals_add(spec_scan_entries(s, tv), totals_one_dir())
}

/// The structural part of a tree's totals, independent of any signature
/// table: file count, directory count and byte total.  Its `infected`
/// component is zero.
pub open spec fn tree_shape(t: FsTree) -> Totals
    decreases t,
{
    match t {
        FsTree::File(data) => Totals { files: 1, infected: 0, dirs: 0, bytes: data@.len() },
        FsTree::Dir(children) => totals_add(entries_shape(children@), totals_one_dir()),
    }
}

/// The structural part of a sequence of entries' totals.
pub open spec fn entries_shape(s: Seq<FsTree>) -> Totals
    decreases s,
{
    if s.len() == 0 {
        totals_zero()
    } else {
        totals_add(entries_shape(s.drop_last()), tree_shape(s.last()))
    }
}

/// Summing totals is associative.
pub proof fn lemma_totals_add_assoc(a: Totals, b: Totals, c: Totals)
    ensures
        totals_add(totals_add(a, b), c) == totals_add(a, totals_add(b, c)),
{
}

/// Summing totals is commutative.
pub proof fn lemma_totals_add_comm(a: Totals, b: Totals)
    ensures
        totals_add(a, b) == totals_add(b, a),
{
}

/// Zero is the identity of summing totals.
pub proof fn lemma_totals_add_zero(a: Totals)
    ensures
        totals_add(a, totals_zero()) == a,
        totals_add(totals_zero(), a) == a,
{
    assert(totals_add(a, totals_zero()) =~= a);
    assert(totals_add(totals_zero(), a) =~= a);
}

/// Scanning totals agree with the structural totals on files, directories
/// and bytes, and the infected count never exceeds the file count.
pub proof fn lemma_scan_tree_shape(t: FsTree, tv: TablesView)
    ensures
        spec_scan_tree(t, tv).files == tree_shape(t).files,
        spec_scan_tree(t, tv).dirs == tree_shape(t).dirs,
        spec_scan_tree(t, tv).bytes == tree_shape(t).bytes,
        spec_scan_tree(t, tv).infected <= tree_shape(t).files,
    decreases t,
{
    match t {
        FsTree::File(data) => {
        },
        FsTree::Dir(children) => {
            lemma_scan_entries_shape(children@, tv);
        },
    }
}

/// Entry-sequence version of `lemma_scan_tree_shape`.
pub proof fn lemma_scan_entries_shape(s: Seq<FsTree>, tv: TablesView)
    ensures
        spec_scan_entries(s, tv).files == entries_shape(s).files,
        spec_scan_entries(s, tv).dirs == entries_shape(s).dirs,
        spec_scan_entries(s, tv).bytes == entries_shape(s).bytes,
        spec_scan_entries(s, tv).infected <= entries_shape(s).files,
    decreases s,
{
    if s.len() > 0 {
        lemma_scan_entries_shape(s.drop_last(), tv);
        lemma_scan_tree_shape(s.last(), tv);
    }
}

/// Splitting a sequence of entries splits its structural totals.
pub proof fn lemma_entries_shape_split(s: Seq<FsTree>, i: int)
    requires
        0 <= i <= s.len(),
    ensures
        entries_shape(s) == totals_add(
            entries_shape(s.subrange(0, i)),
            entries_shape(s.subrange(i, s.len() as int)),
        ),
    decreases s.len(),
{
    if i == s.len() {
        assert(s.subrange(0, i) =~= s);
        assert(s.subrange(i, s.len() as int) =~= Seq::<FsTree>::empty());
        lemma_totals_add_zero(entries_shape(s));
    } else {
        let pre = s.drop_last();
        lemma_entries_shape_split(pre, i);
        assert(pre.subrange(0, i) =~= s.subrange(0, i));
        let suf = s.subrange(i, s.len() as int);
        assert(suf.drop_last() =~= pre.subrange(i, pre.len() as int));
        assert(suf.last() == s.last());
        lemma_totals_add_assoc(
            entries_shape(s.subrange(0, i)),
            entries_shape(suf.drop_last()),
            tree_shape(s.last()),
        );
    }
}

/// Directory aggregation is associative: the totals of scanning the
/// concatenation of two entry sequences are the elementwise sum of the
/// totals of scanning each, so sibling entries may be folded in any
/// grouping without changing the result.
pub proof fn lemma_scan_entries_concat(a: Seq<FsTree>, b: Seq<FsTree>, tv: TablesView)
    ensures
        spec_scan_entries(a + b, tv) == totals_add(
            spec_scan_entries(a, tv),
            spec_scan_entries(b, tv),
        ),
    decreases b.len(),
{
    if b.len() == 0 {
        assert(a + b =~= a);
        lemma_totals_add_zero(spec_scan_entries(a, tv));
    } else {
        assert((a + b).drop_last() =~= a + b.drop_last());
        assert((a + b).last() == b.last());
        lemma_scan_entries_concat(a, b.drop_last(), tv);
        lemma_totals_add_assoc(
            spec_scan_entries(a, tv),
            spec_scan_entries(b.drop_last(), tv),
            spec_scan_tree(b.last(), tv),
        );
    }
}

/// Scanning a directory that holds two subdirectories and then its own
/// direct children yields totals equal to the elementwise sum of scanning
/// each subdirectory, plus its direct children's totals, plus one for the
/// directory itself.
pub proof fn lemma_directory_aggregation(
    sub1: Vec<FsTree>,
    sub2: Vec<FsTree>,
    direct: Seq<FsTree>,
    tv: TablesView,
)
    ensures
        spec_scan_dir(seq![FsTree::Dir(sub1), FsTree::Dir(sub2)] + direct, tv) == totals_add(
            totals_add(
                totals_add(spec_scan_dir(sub1@, tv), spec_scan_dir(sub2@, tv)),
                spec_scan_entries(direct, tv),
            ),
            totals_one_dir(),
        ),
{
    let pair = seq![FsTree::Dir(sub1), FsTree::Dir(sub2)];
    lemma_scan_entries_concat(pair, direct, tv);
    assert(pair.drop_last() =~= seq![FsTree::Dir(sub1)]);
    assert(pair.last() == FsTree::Dir(sub2));
    assert(seq![FsTree::Dir(sub1)].drop_last() =~= Seq::<FsTree>::empty());
    assert(seq![FsTree::Dir(sub1)].last() == FsTree::Dir(sub1));
    lemma_totals_add_zero(spec_scan_tree(FsTree::Dir(sub1), tv));
    assert(spec_scan_entries(Seq::<FsTree>::empty(), tv) == totals_zero());
    assert(spec_scan_entries(seq![FsTree::Dir(sub1)], tv) == totals_add(
        totals_zero(),
        spec_scan_tree(FsTree::Dir(sub1), tv),
    ));
    assert(spec_scan_entries(pair, tv) == totals_add(
        spec_scan_entries(seq![FsTree::Dir(sub1)], tv),
        spec_scan_tree(FsTree::Dir(sub2), tv),
    ));
    assert(spec_scan_entries(pair, tv) == totals_add(
        spec_scan_tree(FsTree::Dir(sub1), tv),
        spec_scan_tree(FsTree::Dir(sub2), tv),
    ));
    assert(spec_scan_tree(FsTree::Dir(sub1), tv) == totals_add(
        spec_scan_entries(sub1@, tv),
        totals_one_dir(),
    ));
    assert(spec_scan_tree(FsTree::Dir(sub2), tv) == totals_add(
        spec_scan_entries(sub2@, tv),
        totals_one_dir(),
    ));
}

/// Aggregate counts over a scanned subtree: how many files were scanned,
/// how many matched a signature, how many directories were visited, and
/// how many bytes the scanned files held in all.
pub struct Summary {
    pub files_scanned: usize,
    pub files_infected: usize,
    pub directories_scanned: usize,
    pub bytes_scanned: u64,
}

impl View for Summary {
    type V = Totals;

    open spec fn view(&self) -> Totals {
        Totals {
            files: self.files_scanned as nat,
            infected: self.files_infected as nat,
            dirs: self.directories_scanned as nat,
            bytes: self.bytes_scanned as nat,
        }
    }
}

impl Summary {
    /// An empty summary: nothing scanned yet.
    pub fn new() -> (r: Summary)
        ensures
            r@ == totals_zero(),
    {
        Summary { files_scanned: 0, files_infected: 0, directories_scanned: 0, bytes_scanned: 0 }
    }

    /// Folds one file's verdict into the running totals.
    pub fn add_file(&mut self, verdict: &FileVerdict)
        requires
            old(self)@.files < usize::MAX,
            old(self)@.infected < usize::MAX,
            old(self)@.bytes + verdict@.size <= u64::MAX,
        ensures
            final(self)@ == totals_add(old(self)@, verdict_totals(verdict@)),
    {
        self.files_scanned = self.files_scanned + 1;
        if verdict.infected {
            self.files_infected = self.files_infected + 1;
        }
        self.bytes_scanned = self.bytes_scanned + verdict.size;
    }

    /// Folds a subtree's summary into the running totals, elementwise.
    pub fn add(&mut self, other: &Summary)
        requires
            old(self)@.files + other@.files <= usize::MAX,
            old(self)@.infected + other@.infected <= usize::MAX,
            old(self)@.dirs + other@.dirs <= usize::MAX,
            old(self)@.bytes + other@.bytes <= u64::MAX,
        ensures
            final(self)@ == totals_add(old(self)@, other@),
    {
        self.files_scanned = self.files_scanned + other.files_scanned;
        self.files_infected = self.files_infected + other.files_infected;
        self.directories_scanned = self.directories_scanned + other.directories_scanned;
        self.bytes_scanned = self.bytes_scanned + other.bytes_scanned;
    }

    /// Counts one more visited directory.
    pub fn add_dir(&mut self)
        requires
            old(self)@.dirs < usize::MAX,
        ensures
            final(self)@ == totals_add(old(self)@, totals_one_dir()),
    {
        self.directories_scanned = self.directories_scanned + 1;
    }
}

/// Scans the entries of one directory depth-first: each file is scanned
/// and folded into the totals, each subdirectory is scanned recursively,
/// and the directory itself is counted once at the end.
pub fn scan_directory(
    entries: &Vec<FsTree>,
    db_md5: &SigTable,
    db_sha1: &SigTable,
    db_virusshare: &SigTable,
    db_malsharesha1: &SigTable,
) -> (r: Summary)
    requires
        entries_shape(entries@).files <= usize::MAX,
        entries_shape(entries@).dirs < usize::MAX,
        entries_shape(entries@).bytes <= u64::MAX,
    ensures
        r@ == spec_scan_dir(
            entries@,
            tables_view(db_md5, db_sha1, db_virusshare, db_malsharesha1),
        ),
    decreases entries@,
{
    let ghost tv = tables_view(db_md5, db_sha1, db_virusshare, db_malsharesha1);
    let mut summary = Summary::new();
    let mut i: usize = 0;
    proof {
        assert(entries@.subrange(0, 0) =~= Seq::<FsTree>::empty());
    }
    while i < entries.len()
        invariant
            i <= entries@.len(),
            tv == tables_view(db_md5, db_sha1, db_virusshare, db_malsharesha1),
            entries_shape(entries@).files <= usize::MAX,
            entries_shape(entries@).dirs < usize::MAX,
            entries_shape(entries@).bytes <= u64::MAX,
            summary@ == spec_scan_entries(entries@.subrange(0, i as int), tv),
        decreases entries@.len() - i,
    {
        let ghost pre = entries@.subrange(0, i as int);
        let ghost cur = entries@.subrange(0, i + 1 as int);
        proof {
            assert(cur.drop_last() =~= pre);
            assert(cur.last() == entries@[i as int]);
            lemma_scan_entries_shape(pre, tv);
            lemma_entries_shape_split(entries@, i + 1 as int);
            assert(entries_shape(cur) == totals_add(entries_shape(pre), tree_shape(entries@[i as int])));
            lemma_scan_tree_shape(entries@[i as int], tv);
        }
        let entry = &entries[i];
        match entry {
            FsTree::File(data) => {
                let verdict = scan_file(
                    data.as_slice(),
                    db_md5,
                    db_sha1,
                    db_virusshare,
                    db_malsharesha1,
                );
                summary.add_file(&verdict);
            },
            FsTree::Dir(sub) => {
                proof {
                    assert(tree_shape(*entry) == totals_add(entries_shape(sub@), totals_one_dir()));
                }
                let sub_summary = scan_directory(
                    sub,
                    db_md5,
                    db_sha1,
                    db_virusshare,
                    db_malsharesha1,
                );
                summary.add(&sub_summary);
            },
        }
        i += 1;
    }
    proof {
        assert(entries@.subrange(0, entries@.len() as int) =~= entries@);
        lemma_scan_entries_shape(entries@, tv);
    }
    summary.add_dir();
    summary
}

/// Scans one tree node: a single file gives the degenerate summary of one
/// scanned file and no directories; a directory is scanned recursively.
pub fn scan_tree(
    t: &FsTree,
    db_md5: &SigTable,
    db_sha1: &SigTable,
    db_virusshare: &SigTable,
    db_malsharesha1: &SigTable,
) -> (r: Summary)
    requires
        tree_shape(*t).files <= usize::MAX,
        tree_shape(*t).dirs <= usize::MAX,
        tree_shape(*t).bytes <= u64::MAX,
    ensures
        r@ == spec_scan_tree(*t, tables_view(db_md5, db_sha1, db_virusshare, db_malsharesha1)),
{
    match t {
        FsTree::File(data) => {
            let verdict = scan_file(
                data.as_slice(),
                db_md5,
                db_sha1,
                db_virusshare,
                db_malsharesha1,
            );
            let mut summary = Summary::new();
            summary.add_file(&verdict);
            summary
        },
        FsTree::Dir(children) => {
            scan_directory(children, db_md5, db_sha1, db_virusshare, db_malsharesha1)
        },
    }
}

} // verus!
