//! Streaming digest computation.
//!
//! A file's content is hashed by feeding it chunk by chunk into a running
//! hash state, so peak memory is bounded by the chunk size rather than the
//! file size.  The finished digest is rendered as lowercase hexadecimal
//! text, the form in which signature tables are keyed.

use vstd::prelude::*;
use vstd::slice::slice_subrange;
use vstd::string::StringExecFns;
use digest::Digest;

verus! {

/// The 16-byte MD5 digest of a byte sequence, as the md5 crate computes it.
/// The digest is a function of the input bytes alone.
pub uninterp spec fn md5_of(bytes: Seq<u8>) -> Seq<u8>;

/// The 20-byte SHA-1 digest of a byte sequence, as the sha1 crate computes it.
/// The digest is a function of the input bytes alone.
pub uninterp spec fn sha1_of(bytes: Seq<u8>) -> Seq<u8>;

/// Holds the md5 crate's hash state (`md5::Md5`).  The state itself is
/// opaque here; what has been fed into it is tracked by `Md5Hasher`.
#[verifier::external_body]
struct Md5State {
    inner: md5::Md5,
}

/// Holds the sha1 crate's hash state (`sha1::Sha1`).  The state itself is
/// opaque here; what has been fed into it is tracked by `Sha1Hasher`.
#[verifier::external_body]
struct Sha1State {
    inner: sha1::Sha1,
}

/// Relies on `md5::Md5::new` (the digest crate's `Digest::new`): a fresh
/// hash state over which no input has been processed yet, so that the
/// digest finalized from it is the digest of exactly the bytes fed in
/// afterwards.
#[verifier::external_body]
fn md5_state_new() -> Md5State {
    Md5State { inner: md5::Md5::new() }
}

/// Relies on `sha1::Sha1::new` (the digest crate's `Digest::new`): a fresh
/// hash state over which no input has been processed yet, so that the
/// digest finalized from it is the digest of exactly the bytes fed in
/// afterwards.
#[verifier::external_body]
fn sha1_state_new() -> Sha1State {
    Sha1State { inner: sha1::Sha1::new() }
}

/// A running MD5 computation together with the bytes fed into it so far.
pub struct Md5Hasher {
    inner: Md5State,
    fed: Ghost<Seq<u8>>,
}

impl Md5Hasher {
    /// The bytes fed into the hash state so far.
    pub closed spec fn bytes(&self) -> Seq<u8> {
        self.fed@
    }

    /// A fresh MD5 computation over which no input has been processed.
    pub fn new() -> (r: Md5Hasher)
        ensures
            r.bytes() == Seq::<u8>::empty(),
    {
        Md5Hasher { inner: md5_state_new(), fed: Ghost(Seq::empty()) }
    }

    /// Relies on the digest crate's `Digest::update`: processes the chunk,
    /// extending the hashed input stream by exactly those bytes.
    #[verifier::external_body]
    pub fn update(&mut self, chunk: &[u8])
        ensures
            final(self).bytes() == old(self).bytes() + chunk@,
    {
        self.inner.inner.update(chunk);
    }

    /// Relies on the digest crate's `Digest::finalize`: the 16-byte MD5
    /// digest of exactly the bytes fed in, a function of those bytes alone.
    #[verifier::external_body]
    pub fn finalize(self) -> (r: Vec<u8>)
        ensures
            r@ == md5_of(self.bytes()),
            r@.len() == 16,
    {
        self.inner.inner.finalize().to_vec()
    }
}

/// A running SHA-1 computation together with the bytes fed into it so far.
pub struct Sha1Hasher {
    inner: Sha1State,
    fed: Ghost<Seq<u8>>,
}

impl Sha1Hasher {
    /// The bytes fed into the hash state so far.
    pub closed spec fn bytes(&self) -> Seq<u8> {
        self.fed@
    }

    /// A fresh SHA-1 computation over which no input has been processed.
    pub fn new() -> (r: Sha1Hasher)
        ensures
            r.bytes() == Seq::<u8>::empty(),
    {
        Sha1Hasher { inner: sha1_state_new(), fed: Ghost(Seq::empty()) }
    }

    /// Relies on the digest crate's `Digest::update`: processes the chunk,
    /// extending the hashed input stream by exactly those bytes.
    #[verifier::external_body]
    pub fn update(&mut self, chunk: &[u8])
        ensures
            final(self).bytes() == old(self).bytes() + chunk@,
    {
        self.inner.inner.update(chunk);
    }

    /// Relies on the digest crate's `Digest::finalize`: the 20-byte SHA-1
    /// digest of exactly the bytes fed in, a function of those bytes alone.
    #[verifier::external_body]
    pub fn finalize(self) -> (r: Vec<u8>)
        ensures
            r@ == sha1_of(self.bytes()),
            r@.len() == 20,
    {
        self.inner.inner.finalize().to_vec()
    }
}

/// The lowercase hexadecimal digit for a value below 16.
pub open spec fn hex_char(n: int) -> char {
    if n == 0 { '0' }
    else if n == 1 { '1' }
    else if n == 2 { '2' }
    else if n == 3 { '3' }
    else if n == 4 { '4' }
    else if n == 5 { '5' }
    else if n == 6 { '6' }
    else if n == 7 { '7' }
    else if n == 8 { '8' }
    else if n == 9 { '9' }
    else if n == 10 { 'a' }
    else if n == 11 { 'b' }
    else if n == 12 { 'c' }
    else if n == 13 { 'd' }
    else if n == 14 { 'e' }
    else { 'f' }
}

/// Lowercase hexadecimal rendering of a byte sequence: two digits per byte,
/// high nibble first.
pub open spec fn hex_of(bytes: Seq<u8>) -> Seq<char>
    decreases bytes.len(),
{
    if bytes.len() == 0 {
        Seq::<char>::empty()
    } else {
        hex_of(bytes.drop_last())
            + seq![hex_char(bytes.last() as int / 16), hex_char(bytes.last() as int % 16)]
    }
}

/// The one-character string for a single hexadecimal digit.
fn hex_digit_str(n: u8) -> (r: &'static str)
    requires
        n < 16,
    ensures
        r@.len() == 1,
        r@[0] == hex_char(n as int),
{
    if n == 0 { proof { reveal_strlit("0"); } "0" }
    else if n == 1 { proof { reveal_strlit("1"); } "1" }
    else if n == 2 { proof { reveal_strlit("2"); } "2" }
    else if n == 3 { proof { reveal_strlit("3"); } "3" }
    else if n == 4 { proof { reveal_strlit("4"); } "4" }
    else if n == 5 { proof { reveal_strlit("5"); } "5" }
    else if n == 6 { proof { reveal_strlit("6"); } "6" }
    else if n == 7 { proof { reveal_strlit("7"); } "7" }
    else if n == 8 { proof { reveal_strlit("8"); } "8" }
    else if n == 9 { proof { reveal_strlit("9"); } "9" }
    else if n == 10 { proof { reveal_strlit("a"); } "a" }
    else if n == 11 { proof { reveal_strlit("b"); } "b" }
    else if n == 12 { proof { reveal_strlit("c"); } "c" }
    else if n == 13 { proof { reveal_strlit("d"); } "d" }
    else if n == 14 { proof { reveal_strlit("e"); } "e" }
    else { proof { reveal_strlit("f"); } "f" }
}

/// Renders a byte sequence as lowercase hexadecimal text.
pub fn to_hex(bytes: &[u8]) -> (r: String)
    ensures
        r@ == hex_of(bytes@),
{
    let mut s = String::new();
    let mut i: usize = 0;
    while i < bytes.len()
        invariant
            i <= bytes@.len(),
            s@ == hex_of(bytes@.subrange(0, i as int)),
        decreases bytes@.len() - i,
    {
        let b = bytes[i];
        s.append(hex_digit_str(b / 16));
        s.append(hex_digit_str(b % 16));
        proof {
            let cur = bytes@.subrange(0, i + 1 as int);
            assert(cur.drop_last() =~= bytes@.subrange(0, i as int));
            assert(cur.last() == b);
        }
        i += 1;
    }
    proof {
        assert(bytes@.subrange(0, bytes@.len() as int) =~= bytes@);
    }
    s
}

/// Computes the MD5 digest of the given content as lowercase hex text,
/// feeding the hash state `chunk` bytes at a time.  Whatever chunk size is
/// chosen, the result is the digest of the whole content: chunked hashing
/// is equivalent to hashing in one shot.
pub fn compute_md5_with_chunk(data: &[u8], chunk: usize) -> (r: String)
    requires
        chunk >= 1,
    ensures
        r@ == hex_of(md5_of(data@)),
{
    let mut h = Md5Hasher::new();
    let mut i: usize = 0;
    while i < data.len()
        invariant
            chunk >= 1,
            i <= data@.len(),
            h.bytes() == data@.subrange(0, i as int),
        decreases data@.len() - i,
    {
        let end = if data.len() - i < chunk { data.len() } else { i + chunk };
        let part = slice_subrange(data, i, end);
        h.update(part);
        proof {
            assert(data@.subrange(0, i as int) + data@.subrange(i as int, end as int)
                =~= data@.subrange(0, end as int));
        }
        i = end;
    }
    proof {
        assert(data@.subrange(0, data@.len() as int) =~= data@);
    }
    let d = h.finalize();
    to_hex(d.as_slice())
}

/// Computes the SHA-1 digest of the given content as lowercase hex text,
/// feeding the hash state `chunk` bytes at a time.  Whatever chunk size is
/// chosen, the result is the digest of the whole content.
pub fn compute_sha1_with_chunk(data: &[u8], chunk: usize) -> (r: String)
    requires
        chunk >= 1,
    ensures
        r@ == hex_of(sha1_of(data@)),
{
    let mut h = Sha1Hasher::new();
    let mut i: usize = 0;
    while i < data.len()
        invariant
            chunk >= 1,
            i <= data@.len(),
            h.bytes() == data@.subrange(0, i as int),
        decreases data@.len() - i,
    {
        let end = if data.len() - i < chunk { data.len() } else { i + chunk };
        let part = slice_subrange(data, i, end);
        h.update(part);
        proof {
            assert(data@.subrange(0, i as int) + data@.subrange(i as int, end as int)
                =~= data@.subrange(0, end as int));
        }
        i = end;
    }
    proof {
        assert(data@.subrange(0, data@.len() as int) =~= data@);
    }
    let d = h.finalize();
    to_hex(d.as_slice())
}

/// Computes the MD5 digest of the given content as lowercase hex text,
/// reading it in 1024-byte chunks.
pub fn compute_md5(data: &[u8]) -> (r: String)
    ensures
        r@ == hex_of(md5_of(data@)),
{
    compute_md5_with_chunk(data, 1024)
}

/// Computes the SHA-1 digest of the given content as lowercase hex text,
/// reading it in 1024-byte chunks.
pub fn compute_sha1(data: &[u8]) -> (r: String)
    ensures
        r@ == hex_of(sha1_of(data@)),
{
    compute_sha1_with_chunk(data, 1024)
}

/// Digests are deterministic: equal byte content has equal hex renderings,
/// for both algorithms.
pub proof fn lemma_digest_deterministic(a: Seq<u8>, b: Seq<u8>)
    requires
        a == b,
    ensures
        hex_of(md5_of(a)) == hex_of(md5_of(b)),
        hex_of(sha1_of(a)) == hex_of(sha1_of(b)),
{
}

} // verus!
