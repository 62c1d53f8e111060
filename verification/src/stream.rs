//! Layers of an image: their digests, and what becomes of one that cannot be
//! unpacked.

use crate::text;
use sha2::Digest;
use vstd::prelude::*;
use vstd::slice::*;
use vstd::string::*;

verus! {

pub const DIGEST_SHA256_PREFIX: &'static str = "sha256:";

pub const DIGEST_SHA512_PREFIX: &'static str = "sha512:";

/// `sha2::Sha256`, a hasher that is fed bytes.
#[verifier::external_type_specification]
#[verifier::external_body]
pub struct ExSha256(sha2::Sha256);

/// `sha2::Sha512`, a hasher that is fed bytes.
#[verifier::external_type_specification]
#[verifier::external_body]
pub struct ExSha512(sha2::Sha512);

/// `std::io::Error`, which is carried through.
#[verifier::external_type_specification]
#[verifier::external_body]
pub struct ExIoError(std::io::Error);

/// The bytes that a SHA-256 hasher holds: those that it was fed.
pub uninterp spec fn sha256_fed(hasher: sha2::Sha256) -> Seq<u8>;

/// The bytes that a SHA-512 hasher holds: those that it was fed.
pub uninterp spec fn sha512_fed(hasher: sha2::Sha512) -> Seq<u8>;

/// The SHA-256 digest of bytes.
pub uninterp spec fn sha256(bytes: Seq<u8>) -> Seq<u8>;

/// The SHA-512 digest of bytes.
pub uninterp spec fn sha512(bytes: Seq<u8>) -> Seq<u8>;

/// `Digest::new` of `sha2::Sha256`: a hasher that was fed nothing.
#[verifier::external_body]
fn sha256_new() -> (r: sha2::Sha256)
    ensures
        sha256_fed(r) == Seq::<u8>::empty(),
{
    sha2::Sha256::new()
}

/// `Digest::new` of `sha2::Sha512`: a hasher that was fed nothing.
#[verifier::external_body]
fn sha512_new() -> (r: sha2::Sha512)
    ensures
        sha512_fed(r) == Seq::<u8>::empty(),
{
    sha2::Sha512::new()
}

/// `Digest::update` of `sha2::Sha256`: feeds the hasher more bytes.
#[verifier::external_body]
fn sha256_update(hasher: &mut sha2::Sha256, buf: &[u8])
    ensures
        sha256_fed(*final(hasher)) == sha256_fed(*old(hasher)) + buf@,
{
    hasher.update(buf)
}

/// `Digest::update` of `sha2::Sha512`: feeds the hasher more bytes.
#[verifier::external_body]
fn sha512_update(hasher: &mut sha2::Sha512, buf: &[u8])
    ensures
        sha512_fed(*final(hasher)) == sha512_fed(*old(hasher)) + buf@,
{
    hasher.update(buf)
}

/// `Digest::finalize` of `sha2::Sha256`: the digest of all bytes that the hasher
/// was fed, which is 32 bytes long. What the digest is, is not stated.
#[verifier::external_body]
fn sha256_finalize(hasher: sha2::Sha256) -> (r: Vec<u8>)
    ensures
        r@ == sha256(sha256_fed(hasher)),
        r@.len() == 32,
{
    hasher.finalize().to_vec()
}

/// `Digest::finalize` of `sha2::Sha512`: the digest of all bytes that the hasher
/// was fed, which is 64 bytes long. What the digest is, is not stated.
#[verifier::external_body]
fn sha512_finalize(hasher: sha2::Sha512) -> (r: Vec<u8>)
    ensures
        r@ == sha512(sha512_fed(hasher)),
        r@.len() == 64,
{
    hasher.finalize().to_vec()
}

/// The hexadecimal digit of a four-bit value, in lower case.
pub open spec fn hex_digit(v: int) -> char {
    if v < 10 {
        ('0' as int + v) as char
    } else {
        ('a' as int + (v - 10)) as char
    }
}

/// The hexadecimal text of bytes, two digits for each.
pub open spec fn hex(bytes: Seq<u8>) -> Seq<char>
    decreases bytes.len(),
{
    if bytes.len() == 0 {
        Seq::empty()
    } else {
        hex(bytes.drop_last()) + seq![
            hex_digit(bytes.last() as int / 16),
            hex_digit(bytes.last() as int % 16),
        ]
    }
}

fn digit(v: u8) -> (r: char)
    requires
        v < 16,
    ensures
        r == hex_digit(v as int),
{
    if v < 10 {
        (48u8 + v) as char
    } else {
        (97u8 + (v - 10)) as char
    }
}

/// The hexadecimal text of bytes.
pub fn encode_hex(bytes: &[u8]) -> (r: String)
    ensures
        r@ == hex(bytes@),
{
    let mut r = String::new();
    assert(bytes@.take(0) =~= Seq::<u8>::empty());
    for i in 0..bytes.len()
        invariant
            r@ == hex(bytes@.take(i as int)),
    {
        let b = bytes[i];
        let ghost before = r@;
        r.push(digit(b / 16));
        r.push(digit(b % 16));
        assert(bytes@.take(i + 1).drop_last() =~= bytes@.take(i as int));
        assert(bytes@.take(i + 1).last() == b);
        assert(r@ =~= before + seq![hex_digit(b as int / 16), hex_digit(b as int % 16)]);
    }
    assert(bytes@.take(bytes@.len() as int) =~= bytes@);
    r
}

/// An algorithm by which the digest of a layer is made.
#[derive(Clone, Copy, PartialEq, Eq, Debug, Structural)]
pub enum DigestAlgorithm {
    Sha256,
    Sha512,
}

impl DigestAlgorithm {
    /// What the text of a digest starts with.
    pub open spec fn prefix(self) -> Seq<char> {
        match self {
            DigestAlgorithm::Sha256 => DIGEST_SHA256_PREFIX@,
            DigestAlgorithm::Sha512 => DIGEST_SHA512_PREFIX@,
        }
    }

    /// The digest of bytes.
    pub open spec fn digest(self, bytes: Seq<u8>) -> Seq<u8> {
        match self {
            DigestAlgorithm::Sha256 => sha256(bytes),
            DigestAlgorithm::Sha512 => sha512(bytes),
        }
    }

    /// The text of the digest of a layer.
    pub open spec fn layer_digest(self, layer: Seq<u8>) -> Seq<char> {
        self.prefix() + hex(self.digest(layer))
    }

    /// The text of a digest.
    pub fn digest_text(self, digest: &[u8]) -> (r: String)
        ensures
            r@ == self.prefix() + hex(digest@),
    {
        let prefix = match self {
            DigestAlgorithm::Sha256 => DIGEST_SHA256_PREFIX,
            DigestAlgorithm::Sha512 => DIGEST_SHA512_PREFIX,
        };
        let digits = encode_hex(digest);
        text::joined(prefix, digits.as_str())
    }
}

/// What makes the digest of a layer out of its parts.
pub trait DigestHasher: Sized {
    spec fn algorithm(&self) -> DigestAlgorithm;

    /// The bytes that it was fed.
    spec fn fed(&self) -> Seq<u8>;

    /// Feeds it the next part.
    fn digest_update(&mut self, buf: &[u8])
        ensures
            final(self).algorithm() == old(self).algorithm(),
            final(self).fed() == old(self).fed() + buf@,
    ;

    /// The text of the digest of all parts.
    fn digest_finalize(self) -> (r: String)
        ensures
            r@ == self.algorithm().layer_digest(self.fed()),
    ;
}

/// The hasher of a layer.
pub enum LayerDigestHasher {
    Sha256(sha2::Sha256),
    Sha512(sha2::Sha512),
}

impl LayerDigestHasher {
    /// A hasher that was fed nothing.
    pub fn new(algorithm: DigestAlgorithm) -> (r: Self)
        ensures
            r.algorithm() == algorithm,
            r.fed() == Seq::<u8>::empty(),
    {
        match algorithm {
            DigestAlgorithm::Sha256 => LayerDigestHasher::Sha256(sha256_new()),
            DigestAlgorithm::Sha512 => LayerDigestHasher::Sha512(sha512_new()),
        }
    }
}

impl DigestHasher for LayerDigestHasher {
    open spec fn algorithm(&self) -> DigestAlgorithm {
        match self {
            LayerDigestHasher::Sha256(_) => DigestAlgorithm::Sha256,
            LayerDigestHasher::Sha512(_) => DigestAlgorithm::Sha512,
        }
    }

    open spec fn fed(&self) -> Seq<u8> {
        match self {
            LayerDigestHasher::Sha256(h) => sha256_fed(*h),
            LayerDigestHasher::Sha512(h) => sha512_fed(*h),
        }
    }

    fn digest_update(&mut self, buf: &[u8]) {
        match self {
            LayerDigestHasher::Sha256(h) => sha256_update(h, buf),
            LayerDigestHasher::Sha512(h) => sha512_update(h, buf),
        }
    }

    fn digest_finalize(self) -> (r: String) {
        match self {
            LayerDigestHasher::Sha256(h) => {
                let digest = sha256_finalize(h);
                DigestAlgorithm::Sha256.digest_text(digest.as_slice())
            },
            LayerDigestHasher::Sha512(h) => {
                let digest = sha512_finalize(h);
                DigestAlgorithm::Sha512.digest_text(digest.as_slice())
            },
        }
    }
}

/// A reader whose bytes are hashed as they are read.
pub struct HashReader<R, H> {
    pub reader: R,
    pub hasher: H,
}

impl<R, H: DigestHasher> HashReader<R, H> {
    pub fn new(reader: R, hasher: H) -> (r: Self)
        ensures
            r == (HashReader { reader, hasher }),
    {
        HashReader { reader, hasher }
    }

    /// Hashes what the reader has added to a buffer that was filled up to
    /// `old_position` before.
    pub fn absorb(&mut self, filled: &[u8], old_position: usize)
        requires
            old_position <= filled@.len(),
        ensures
            final(self).reader == old(self).reader,
            final(self).hasher.algorithm() == old(self).hasher.algorithm(),
            final(self).hasher.fed() == old(self).hasher.fed() + filled@.skip(old_position as int),
    {
        let added = slice_subrange(filled, old_position, filled.len());
        assert(added@ =~= filled@.skip(old_position as int));
        self.hasher.digest_update(added);
    }
}

/// Why a layer could not be unpacked.
pub struct UnpackError {
    pub message: String,
}

/// Why a layer is not there.
pub enum StreamError {
    /// What was unpacked could not be removed again.
    FailedToRollBack { source: std::io::Error },
    /// The digest is made by an algorithm that is not known.
    UnsupportedDigestFormat(String),
    /// The layer could not be unpacked.
    UnPackLayerFailed(UnpackError),
}

/// The text of an error.
pub open spec fn stream_error_text(e: StreamError) -> Seq<char> {
    match e {
        StreamError::FailedToRollBack { .. } => "Failed to roll back when unpacking"@,
        StreamError::UnsupportedDigestFormat(diff_id) =>
            "Unsupported uncompressed digest format: "@ + diff_id@,
        StreamError::UnPackLayerFailed(error) => "Failed to unpack layer: "@ + error.message@,
    }
}

impl StreamError {
    /// The text of the error.
    pub fn message(&self) -> (r: String)
        ensures
            r@ == stream_error_text(*self),
    {
        match self {
            StreamError::FailedToRollBack { .. } => "Failed to roll back when unpacking".to_owned(),
            StreamError::UnsupportedDigestFormat(diff_id) => text::joined(
                "Unsupported uncompressed digest format: ",
                diff_id.as_str(),
            ),
            StreamError::UnPackLayerFailed(error) => text::joined(
                "Failed to unpack layer: ",
                error.message.as_str(),
            ),
        }
    }
}

/// An error in the body of a layer as it came over the network. Its text leaves out
/// what caused it, which can hold signed parameters of a URL.
pub struct LayerBlobStreamError {
    pub source: std::io::Error,
}

impl LayerBlobStreamError {
    /// The text of the error, the same whatever caused it.
    pub fn message(&self) -> (r: &'static str)
        ensures
            r@ == "OCI layer body stream failed"@,
    {
        "OCI layer body stream failed"
    }
}

/// The algorithm that an expected digest names.
pub open spec fn algorithm_of(diff_id: Seq<char>) -> Option<DigestAlgorithm> {
    if DIGEST_SHA256_PREFIX@.is_prefix_of(diff_id) {
        Some(DigestAlgorithm::Sha256)
    } else if DIGEST_SHA512_PREFIX@.is_prefix_of(diff_id) {
        Some(DigestAlgorithm::Sha512)
    } else {
        None
    }
}

/// The hasher with which a layer is read, chosen by the digest that it is expected
/// to have.
pub fn stream_processing(diff_id: &str) -> (r: Result<LayerDigestHasher, StreamError>)
    ensures
        match algorithm_of(diff_id@) {
            Some(algorithm) => r matches Ok(hasher) && hasher.algorithm() == algorithm
                && hasher.fed() == Seq::<u8>::empty(),
            None => r matches Err(StreamError::UnsupportedDigestFormat(text)) && text@ == diff_id@,
        },
{
    if text::strip(diff_id, DIGEST_SHA256_PREFIX).is_some() {
        Ok(LayerDigestHasher::new(DigestAlgorithm::Sha256))
    } else if text::strip(diff_id, DIGEST_SHA512_PREFIX).is_some() {
        Ok(LayerDigestHasher::new(DigestAlgorithm::Sha512))
    } else {
        Err(StreamError::UnsupportedDigestFormat(diff_id.to_owned()))
    }
}

/// What becomes of a layer that was read.
pub enum Unpacked {
    /// It is there, and this is the text of its digest.
    Digest(String),
    /// It is not, and what is there of it is to be removed.
    RollBack { error: UnpackError },
}

/// What becomes of a layer, given how unpacking it has ended.
pub fn async_processing<R, H: DigestHasher>(
    hash_reader: HashReader<R, H>,
    unpacked: Result<(), UnpackError>,
) -> (r: Unpacked)
    ensures
        match unpacked {
            Ok(_) => r matches Unpacked::Digest(digest) && digest@
                == hash_reader.hasher.algorithm().layer_digest(hash_reader.hasher.fed()),
            Err(error) => r == (Unpacked::RollBack { error }),
        },
{
    match unpacked {
        Ok(_) => Unpacked::Digest(hash_reader.hasher.digest_finalize()),
        Err(error) => Unpacked::RollBack { error },
    }
}

/// The error of a layer that could not be unpacked, given how removing it has
/// ended.
pub fn rolled_back(error: UnpackError, removed: Result<(), std::io::Error>) -> (r: StreamError)
    ensures
        match removed {
            Ok(_) => r == StreamError::UnPackLayerFailed(error),
            Err(source) => r == (StreamError::FailedToRollBack { source }),
        },
{
    match removed {
        Ok(_) => StreamError::UnPackLayerFailed(error),
        Err(source) => StreamError::FailedToRollBack { source },
    }
}

/// The bytes of a layer that is read in parts.
pub open spec fn all_parts(parts: Seq<Seq<u8>>) -> Seq<u8>
    decreases parts.len(),
{
    if parts.len() == 0 {
        Seq::empty()
    } else {
        all_parts(parts.drop_last()) + parts.last()
    }
}

proof fn lemma_all_parts_of_two_lists(a: Seq<Seq<u8>>, b: Seq<Seq<u8>>)
    ensures
        all_parts(a + b) == all_parts(a) + all_parts(b),
    decreases b.len(),
{
    if b.len() == 0 {
        assert(a + b =~= a);
        assert(all_parts(a) + all_parts(b) =~= all_parts(a));
    } else {
        assert((a + b).drop_last() =~= a + b.drop_last());
        lemma_all_parts_of_two_lists(a, b.drop_last());
        assert(all_parts(a) + (all_parts(b.drop_last()) + b.last()) =~= (all_parts(a) + all_parts(
            b.drop_last(),
        )) + b.last());
    }
}

/// The digest of a layer does not depend on the parts in which it is read: to cut
/// any part in two changes nothing.
pub proof fn law_digest_ignores_the_cuts(
    algorithm: DigestAlgorithm,
    front: Seq<Seq<u8>>,
    x: Seq<u8>,
    y: Seq<u8>,
    back: Seq<Seq<u8>>,
)
    ensures
        algorithm.layer_digest(all_parts(front.push(x + y) + back)) == algorithm.layer_digest(
            all_parts(front.push(x).push(y) + back),
        ),
{
    lemma_all_parts_of_two_lists(front.push(x + y), back);
    lemma_all_parts_of_two_lists(front.push(x).push(y), back);
    assert(front.push(x + y).drop_last() =~= front);
    assert(front.push(x).push(y).drop_last() =~= front.push(x));
    assert(front.push(x).drop_last() =~= front);
    assert(all_parts(front.push(x)) == all_parts(front) + x);
    assert(all_parts(front.push(x).push(y)) == all_parts(front.push(x)) + y);
    assert(all_parts(front.push(x + y)) == all_parts(front) + (x + y));
    assert((all_parts(front) + x) + y =~= all_parts(front) + (x + y));
}

proof fn lemma_hex_injective(a: Seq<u8>, b: Seq<u8>)
    requires
        hex(a) == hex(b),
    ensures
        a == b,
    decreases a.len(),
{
    lemma_hex_len(a);
    lemma_hex_len(b);
    if a.len() == 0 {
        assert(a =~= b);
    } else {
        let s = hex(a);
        let n = s.len() as int;
        let x = a.last() as int;
        let y = b.last() as int;
        lemma_hex_len(a.drop_last());
        assert(s[n - 2] == hex_digit(x / 16));
        assert(s[n - 1] == hex_digit(x % 16));
        assert(hex(b)[n - 2] == hex_digit(y / 16));
        assert(hex(b)[n - 1] == hex_digit(y % 16));
        lemma_hex_digit_injective(x / 16, y / 16);
        lemma_hex_digit_injective(x % 16, y % 16);
        assert(s.take(n - 2) =~= hex(a.drop_last()));
        assert(hex(b).take(n - 2) =~= hex(b.drop_last()));
        lemma_hex_injective(a.drop_last(), b.drop_last());
        assert(a =~= a.drop_last().push(a.last()));
        assert(b =~= b.drop_last().push(b.last()));
    }
}

proof fn lemma_hex_digit_injective(v: int, w: int)
    requires
        0 <= v < 16,
        0 <= w < 16,
        hex_digit(v) == hex_digit(w),
    ensures
        v == w,
{
}

proof fn lemma_hex_len(a: Seq<u8>)
    ensures
        hex(a).len() == 2 * a.len(),
    decreases a.len(),
{
    if a.len() > 0 {
        lemma_hex_len(a.drop_last());
    }
}

/// To compare the texts of two digests is to compare the digests.
pub proof fn law_digest_text_determines_the_digest(
    algorithm: DigestAlgorithm,
    a: Seq<u8>,
    b: Seq<u8>,
)
    requires
        algorithm.layer_digest(a) == algorithm.layer_digest(b),
    ensures
        algorithm.digest(a) == algorithm.digest(b),
{
    let p = algorithm.prefix();
    let x = algorithm.digest(a);
    let y = algorithm.digest(b);
    assert((p + hex(x)).skip(p.len() as int) =~= hex(x));
    assert((p + hex(y)).skip(p.len() as int) =~= hex(y));
    lemma_hex_injective(x, y);
}

/// The digest of a layer starts as the digest that was expected did.
pub proof fn law_digest_has_the_expected_prefix(
    diff_id: Seq<char>,
    algorithm: DigestAlgorithm,
    layer: Seq<u8>,
)
    requires
        algorithm_of(diff_id) == Some(algorithm),
    ensures
        algorithm.prefix().is_prefix_of(diff_id),
        algorithm.prefix().is_prefix_of(algorithm.layer_digest(layer)),
{
    let p = algorithm.prefix();
    assert(algorithm.layer_digest(layer).take(p.len() as int) =~= p);
}

/// The value of a hexadecimal digit.
pub open spec fn hex_value(c: char) -> int {
    if '0' <= c && c <= '9' {
        c as int - '0' as int
    } else {
        c as int - 'a' as int + 10
    }
}

/// The bytes are read back out of their hexadecimal text, two digits for each, in lower
/// case, however many there are.
pub proof fn law_hex_is_read_back(bytes: Seq<u8>, i: int)
    requires
        0 <= i < bytes.len(),
    ensures
        hex(bytes).len() == 2 * bytes.len(),
        16 * hex_value(hex(bytes)[2 * i]) + hex_value(hex(bytes)[2 * i + 1]) == bytes[i],
        ('0' <= hex(bytes)[2 * i] && hex(bytes)[2 * i] <= '9') || ('a' <= hex(bytes)[2 * i]
            && hex(bytes)[2 * i] <= 'f'),
        ('0' <= hex(bytes)[2 * i + 1] && hex(bytes)[2 * i + 1] <= '9') || ('a' <= hex(bytes)[2 * i
            + 1] && hex(bytes)[2 * i + 1] <= 'f'),
    decreases bytes.len(),
{
    lemma_hex_len(bytes);
    let front = bytes.drop_last();
    lemma_hex_len(front);
    if i < bytes.len() - 1 {
        law_hex_is_read_back(front, i);
        assert(front[i] == bytes[i]);
        assert(hex(bytes)[2 * i] == hex(front)[2 * i]);
        assert(hex(bytes)[2 * i + 1] == hex(front)[2 * i + 1]);
    } else {
        let b = bytes.last() as int;
        assert(hex(bytes)[2 * i] == hex_digit(b / 16));
        assert(hex(bytes)[2 * i + 1] == hex_digit(b % 16));
    }
}

/// The algorithm is the one that the expected digest names, whatever follows the name,
/// and there is none where it names neither of the two.
pub proof fn law_algorithm_is_the_one_that_is_named(rest: Seq<char>, other: Seq<char>)
    ensures
        algorithm_of("sha256:"@ + rest) == Some(DigestAlgorithm::Sha256),
        algorithm_of("sha512:"@ + rest) == Some(DigestAlgorithm::Sha512),
        algorithm_of(other) is Some ==> exists|r: Seq<char>|
            other == #[trigger] ("sha256:"@ + r) || other == "sha512:"@ + r,
{
    reveal_strlit("sha256:");
    reveal_strlit("sha512:");
    assert(("sha256:"@ + rest).take(7) =~= "sha256:"@);
    assert(("sha512:"@ + rest).take(7) =~= "sha512:"@);
    assert(("sha512:"@ + rest)[3] == '5');
    assert("sha256:"@[3] == '2');
    if "sha256:"@.is_prefix_of("sha512:"@ + rest) {
        assert(("sha512:"@ + rest).take(7)[3] == "sha256:"@[3]);
    }
    if algorithm_of(other) is Some {
        let r = other.skip(7);
        assert("sha256:"@ + r == "sha256:"@ + r);
        if algorithm_of(other) == Some(DigestAlgorithm::Sha256) {
            assert(other =~= "sha256:"@ + r);
        } else {
            assert(other =~= "sha512:"@ + r);
        }
    }
}

/// The digest of a layer is made of all of its bytes, by the algorithm that is named in
/// front of it, and of nothing else.
pub proof fn law_layer_digest_is_of_the_whole_layer(layer: Seq<u8>)
    ensures
        DigestAlgorithm::Sha256.layer_digest(layer) == "sha256:"@ + hex(sha256(layer)),
        DigestAlgorithm::Sha512.layer_digest(layer) == "sha512:"@ + hex(sha512(layer)),
{
}

/// What is said of a layer tells the digest that was not known, or why the layer could
/// not be unpacked, whole.
pub proof fn law_stream_error_tells_why(text: String, error: UnpackError)
    ensures
        stream_error_text(StreamError::UnsupportedDigestFormat(text))
            == "Unsupported uncompressed digest format: "@ + text@,
        stream_error_text(StreamError::UnPackLayerFailed(error)) == "Failed to unpack layer: "@
            + error.message@,
{
}

} // verus!
