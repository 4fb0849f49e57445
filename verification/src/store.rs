//! In-memory signature tables.
//!
//! A table maps a digest, as lowercase hexadecimal text, to a label.  Keys
//! are normalized to lowercase both when a signature is inserted and when a
//! digest is looked up, so lookup is an exact string-keyed map lookup.

use vstd::prelude::*;

verus! {

/// What ASCII lowercasing does to one character: letters `'A'` through
/// `'Z'` map to their lowercase equivalent, every other character is
/// unchanged.
pub open spec fn lower_char(c: char) -> char {
    if 'A' <= c && c <= 'Z' {
        ((c as u32) + 32) as char
    } else {
        c
    }
}

/// ASCII lowercasing of a character sequence, character by character.
pub open spec fn lower_seq(s: Seq<char>) -> Seq<char>
    decreases s.len(),
{
    if s.len() == 0 {
        Seq::<char>::empty()
    } else {
        lower_seq(s.drop_last()).push(lower_char(s.last()))
    }
}

/// `lower_seq` keeps the length and lowercases character by character.
pub proof fn lemma_lower_seq(s: Seq<char>)
    ensures
        lower_seq(s).len() == s.len(),
        forall|i: int| 0 <= i < s.len() ==> lower_seq(s)[i] == lower_char(s[i]),
    decreases s.len(),
{
    if s.len() > 0 {
        lemma_lower_seq(s.drop_last());
    }
}

/// Relies on `str::to_ascii_lowercase`: returns a copy of the string with
/// ASCII letters `'A'` through `'Z'` mapped to lowercase and every other
/// character unchanged.
#[verifier::external_body]
fn ascii_lower(s: &str) -> (r: String)
    ensures
        r@ == lower_seq(s@),
{
    s.to_ascii_lowercase()
}

/// The mapping that a sequence of key-label entries stands for: entries
/// are folded in from the front, so a later entry with the same key
/// overrides an earlier one.
pub open spec fn map_of(entries: Seq<(String, String)>) -> Map<Seq<char>, Seq<char>>
    decreases entries.len(),
{
    if entries.len() == 0 {
        Map::<Seq<char>, Seq<char>>::empty()
    } else {
        map_of(entries.drop_last()).insert(entries.last().0@, entries.last().1@)
    }
}

/// One signature table: a mapping from a digest, as lowercase hex text,
/// to the label of the known-malicious file it identifies.
pub struct SigTable {
    entries: Vec<(String, String)>,
}

impl View for SigTable {
    type V = Map<Seq<char>, Seq<char>>;

    closed spec fn view(&self) -> Map<Seq<char>, Seq<char>> {
        map_of(self.entries@)
    }
}

impl SigTable {
    /// An empty table.
    pub fn new() -> (r: SigTable)
        ensures
            r@ == Map::<Seq<char>, Seq<char>>::empty(),
    {
        SigTable { entries: Vec::new() }
    }

    /// Records that the digest written as `key` identifies `label`.  The
    /// key is normalized to lowercase; inserting an already-present key
    /// replaces its label.
    pub fn insert(&mut self, key: &str, label: String)
        ensures
            final(self)@ == old(self)@.insert(lower_seq(key@), label@),
    {
        let k = ascii_lower(key);
        self.entries.push((k, label));
        proof {
            assert(self.entries@.drop_last() =~= old(self).entries@);
        }
    }

    /// Looks the digest up, normalizing it to lowercase first.  Returns
    /// the label stored for it, or `None` where the digest is not a known
    /// signature.
    pub fn lookup(&self, digest: &str) -> (r: Option<String>)
        ensures
            r is Some ==> self@.contains_key(lower_seq(digest@)),
            r is Some ==> (r->0)@ == self@[lower_seq(digest@)],
            r is None ==> !self@.contains_key(lower_seq(digest@)),
    {
        let key = ascii_lower(digest);
        let ghost k = lower_seq(digest@);
        let mut i: usize = self.entries.len();
        proof {
            assert(self.entries@.subrange(0, i as int) =~= self.entries@);
        }
        while i > 0
            invariant
                i <= self.entries@.len(),
                k == lower_seq(digest@),
                key@ == k,
                map_of(self.entries@).contains_key(k)
                    == map_of(self.entries@.subrange(0, i as int)).contains_key(k),
                map_of(self.entries@).contains_key(k) ==> map_of(self.entries@)[k]
                    == map_of(self.entries@.subrange(0, i as int))[k],
            decreases i,
        {
            i = i - 1;
            let entry = &self.entries[i];
            proof {
                let pre = self.entries@.subrange(0, i + 1 as int);
                assert(pre.drop_last() =~= self.entries@.subrange(0, i as int));
                assert(pre.last() == self.entries@[i as int]);
            }
            if entry.0 == key {
                proof {
                    let pre = self.entries@.subrange(0, i + 1 as int);
                    assert(map_of(pre) == map_of(
                        self.entries@.subrange(0, i as int),
                    ).insert(entry.0@, entry.1@));
                    assert(map_of(pre).contains_key(k) && map_of(pre)[k] == entry.1@);
                }
                return Some(entry.1.clone());
            }
            proof {
                let pre = self.entries@.subrange(0, i + 1 as int);
                assert(map_of(pre) == map_of(
                    self.entries@.subrange(0, i as int),
                ).insert(entry.0@, entry.1@));
                assert(entry.0@ != k);
            }
        }
        proof {
            assert(self.entries@.subrange(0, 0) =~= Seq::<(String, String)>::empty());
        }
        None
    }
}

} // verus!
