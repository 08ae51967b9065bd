//! The content digest of an artifact. The algorithm itself comes from the
//! `sha2` crate behind a small trusted surface; the streaming pass over the
//! artifact's bytes is verified here.

use vstd::prelude::*;
use vstd::slice::slice_subrange;
use sha2::Digest;

verus! {

/// The SHA-256 digest of a byte sequence, as its 32 raw digest bytes. The
/// value is fixed by the algorithm's standard and depends on the input bytes
/// alone; it is deliberately not written out here.
pub uninterp spec fn sha256_of(bytes: Seq<u8>) -> Seq<u8>;

#[verifier::external_type_specification]
#[verifier::external_body]
pub struct ExSha256(sha2::Sha256);

/// An incremental digest computation, carrying the bytes absorbed so far.
pub struct Sha256Context {
    inner: sha2::Sha256,
    fed: Ghost<Seq<u8>>,
}

impl Sha256Context {
    /// The stream of bytes absorbed so far.
    pub closed spec fn bytes_fed(&self) -> Seq<u8> {
        self.fed@
    }

    /// Relies on sha2::Sha256::new (through the digest crate's `Digest`
    /// trait): a fresh hasher has absorbed nothing.
    #[verifier::external_body]
    pub fn new() -> (r: Sha256Context)
        ensures
            r.bytes_fed() == Seq::<u8>::empty(),
    {
        Sha256Context { inner: sha2::Sha256::new(), fed: Ghost(Seq::empty()) }
    }

    /// Relies on sha2::Sha256::update: absorbing a chunk appends it to the
    /// stream the digest is taken over.
    #[verifier::external_body]
    pub fn update(&mut self, chunk: &[u8])
        ensures
            final(self).bytes_fed() == old(self).bytes_fed() + chunk@,
    {
        self.inner.update(chunk);
    }

    /// Relies on sha2::Sha256::finalize: the digest of the absorbed stream,
    /// 32 bytes for this algorithm.
    #[verifier::external_body]
    pub fn finalize(self) -> (r: Vec<u8>)
        ensures
            r@ == sha256_of(self.bytes_fed()),
            r@.len() == 32,
    {
        self.inner.finalize().to_vec()
    }
}

/// Computes the digest of `content` in a single streaming pass over
/// fixed-size chunks, as required for large archives.
pub fn sha256_digest(content: &[u8]) -> (r: Vec<u8>)
    ensures
        r@ == sha256_of(content@),
        r@.len() == 32,
{
    let mut ctx = Sha256Context::new();
    let mut i: usize = 0;
    while i < content.len()
        invariant
            i <= content@.len(),
            ctx.bytes_fed() == content@.subrange(0, i as int),
        decreases content@.len() - i,
    {
        let end: usize = if content.len() - i < 65536 {
            content.len()
        } else {
            i + 65536
        };
        let chunk = slice_subrange(content, i, end);
        ctx.update(chunk);
        proof {
            assert(content@.subrange(0, i as int) + content@.subrange(i as int, end as int)
                =~= content@.subrange(0, end as int));
        }
        i = end;
    }
    proof {
        assert(content@.subrange(0, content@.len() as int) =~= content@);
    }
    ctx.finalize()
}

} // verus!
