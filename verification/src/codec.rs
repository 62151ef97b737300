//! Binary patches over byte buffers.
//!
//! A patch asset is a block-compressed container whose decompressed payload
//! is the binary-diff primitive's native patch encoding.  The primitives —
//! the diff/patch pair and the compression codec — are outside collaborators
//! treated as pure functions over byte buffers; this module names their
//! results, applies them, and proves the producer/consumer round trip.

use std::io::Read;
use std::io::Write;
use vstd::prelude::*;

verus! {

/// Why applying a compressed patch failed.
#[derive(Clone, Copy, Debug, PartialEq, Eq, Structural)]
pub enum PatchError {
    /// The compressed container could not be decoded.
    Decompress,
    /// The decoded patch could not be applied to the old artifact.
    Apply,
}

/// What the block codec's best-ratio compressor returns for `data`.
pub uninterp spec fn compressed_of(data: Seq<u8>) -> Seq<u8>;

/// What the block codec's decompressor returns for `data`:
/// the payload, or nothing when `data` is not a valid container.
pub uninterp spec fn decompressed_of(data: Seq<u8>) -> Option<Seq<u8>>;

/// What the binary-diff primitive returns for the pair `old`, `new`.
pub uninterp spec fn diff_of(old: Seq<u8>, new: Seq<u8>) -> Seq<u8>;

/// What applying the binary patch `patch` to `old` returns:
/// the patched buffer, or nothing when the patch is rejected.
pub uninterp spec fn patched_of(old: Seq<u8>, patch: Seq<u8>) -> Option<Seq<u8>>;

/// Relies on bzip2::write::BzEncoder at best compression: a deterministic,
/// lossless encoding whose output decompresses back to the exact input.
/// The encoder fails only when its underlying writer does, and writing to
/// an in-memory buffer cannot fail.
#[verifier::external_body]
fn bz_compress(data: &Vec<u8>) -> (r: Vec<u8>)
    ensures
        r@ == compressed_of(data@),
        decompressed_of(r@) == Some(data@),
{
    let mut out: Vec<u8> = Vec::new();
    let mut encoder = bzip2::write::BzEncoder::new(&mut out, bzip2::Compression::best());
    encoder.write_all(data).expect("writing to a buffer cannot fail");
    encoder.finish().expect("writing to a buffer cannot fail");
    out
}

/// Relies on bzip2::read::BzDecoder: decoding is a function of the input
/// bytes alone; invalid input fails, valid input yields its payload.
#[verifier::external_body]
fn bz_decompress(data: &Vec<u8>) -> (r: Result<Vec<u8>, PatchError>)
    ensures
        match r {
            Ok(v) => decompressed_of(data@) == Some(v@),
            Err(e) => e == PatchError::Decompress && decompressed_of(data@) is None,
        },
{
    let mut out: Vec<u8> = Vec::new();
    let mut decoder = bzip2::read::BzDecoder::new(data.as_slice());
    match decoder.read_to_end(&mut out) {
        Ok(_) => Ok(out),
        Err(_) => Err(PatchError::Decompress),
    }
}

/// Relies on bsdiff::patch: the result is a function of the two buffers
/// alone; a malformed patch is rejected.
#[verifier::external_body]
fn bsdiff_apply(old: &Vec<u8>, patch: &Vec<u8>) -> (r: Result<Vec<u8>, PatchError>)
    ensures
        match r {
            Ok(v) => patched_of(old@, patch@) == Some(v@),
            Err(e) => e == PatchError::Apply && patched_of(old@, patch@) is None,
        },
{
    let mut new: Vec<u8> = Vec::new();
    match bsdiff::patch(old, &mut patch.as_slice(), &mut new) {
        Ok(()) => Ok(new),
        Err(_) => Err(PatchError::Apply),
    }
}

/// Relies on bsdiff::diff: the patch it writes is a function of the two
/// buffers alone, and bsdiff::patch applied to `old` and that patch
/// returns `new` (the crate documents this round trip).  It fails only
/// when its writer does, and writing to an in-memory buffer cannot fail.
#[verifier::external_body]
fn bsdiff_diff(old: &Vec<u8>, new: &Vec<u8>) -> (r: Vec<u8>)
    ensures
        r@ == diff_of(old@, new@),
        patched_of(old@, r@) == Some(new@),
{
    let mut patch: Vec<u8> = Vec::new();
    bsdiff::diff(old, new, &mut patch).expect("writing to a buffer cannot fail");
    patch
}

/// Outcome of applying one compressed patch to an artifact: decompress the
/// container, then apply the binary patch; either step may reject its input.
pub open spec fn apply_outcome(old: Seq<u8>, compressed: Seq<u8>) -> Option<Seq<u8>> {
    match decompressed_of(compressed) {
        Some(p) => patched_of(old, p),
        None => None,
    }
}

/// Decompress a downloaded patch asset and apply it to the old artifact.
pub fn apply_patch(old: &Vec<u8>, compressed_patch: &Vec<u8>) -> (r: Result<Vec<u8>, PatchError>)
    ensures
        match r {
            Ok(v) => apply_outcome(old@, compressed_patch@) == Some(v@),
            Err(e) => {
                &&& apply_outcome(old@, compressed_patch@) is None
                &&& (e == PatchError::Decompress <==> decompressed_of(compressed_patch@) is None)
            },
        },
{
    let patch = match bz_decompress(compressed_patch) {
        Ok(p) => p,
        Err(e) => {
            return Err(e);
        },
    };
    bsdiff_apply(old, &patch)
}

/// Produce a compressed binary patch carrying `old` to `new`.
///
/// The result is the compressed diff of the two artifacts, and applying it
/// back to `old` through [`apply_patch`]'s semantics yields exactly `new`:
/// the producer and the consumer share one format.
pub fn generate_patch(old: &Vec<u8>, new: &Vec<u8>) -> (r: Vec<u8>)
    ensures
        r@ == compressed_of(diff_of(old@, new@)),
        apply_outcome(old@, r@) == Some(new@),
{
    let patch = bsdiff_diff(old, new);
    bz_compress(&patch)
}

/// Cumulative outcome of applying a sequence of compressed patches in
/// order: step `i + 1` operates on the buffer left by step `i`.
pub open spec fn chain_outcome(old: Seq<u8>, patches: Seq<Seq<u8>>) -> Option<Seq<u8>>
    decreases patches.len(),
{
    if patches.len() == 0 {
        Some(old)
    } else {
        match apply_outcome(old, patches[0]) {
            Some(next) => chain_outcome(next, patches.skip(1)),
            None => None,
        }
    }
}

/// Apply a whole chain of compressed patches, strictly in order, stopping
/// at the first step that fails.
pub fn apply_patch_chain(old: Vec<u8>, patches: &Vec<Vec<u8>>) -> (r: Result<Vec<u8>, PatchError>)
    ensures
        match r {
            Ok(v) => chain_outcome(old@, patches.deep_view()) == Some(v@),
            Err(_) => chain_outcome(old@, patches.deep_view()) is None,
        },
{
    let ghost all: Seq<Seq<u8>> = patches.deep_view();
    let mut current = old;
    let mut i: usize = 0;
    proof {
        assert(all.skip(0) =~= all);
    }
    while i < patches.len()
        invariant
            i <= patches@.len(),
            all == patches.deep_view(),
            chain_outcome(old@, all) == chain_outcome(current@, all.skip(i as int)),
        decreases patches@.len() - i,
    {
        proof {
            assert(all[i as int] == patches@[i as int]@);
            assert(all.skip(i as int)[0] == all[i as int]);
            assert(all.skip(i as int).skip(1) =~= all.skip(i as int + 1));
        }
        current = match apply_patch(&current, &patches[i]) {
            Ok(v) => v,
            Err(e) => {
                return Err(e);
            },
        };
        i += 1;
    }
    proof {
        assert(all.skip(i as int) =~= Seq::<Seq<u8>>::empty());
    }
    Ok(current)
}

} // verus!
