//! Layer digests and what becomes of a layer that cannot be unpacked.

use guest_components::stream::{
    async_processing, encode_hex, rolled_back, stream_processing, DigestAlgorithm, DigestHasher,
    HashReader, LayerBlobStreamError, LayerDigestHasher, StreamError, UnpackError, Unpacked,
    DIGEST_SHA256_PREFIX, DIGEST_SHA512_PREFIX,
};
use sha2::Digest;

fn layer_data() -> Vec<u8> {
    (0..100000u32).map(|i| (i * 31 % 251) as u8).collect()
}

/// Reads the layer in parts of the given size into one buffer.
fn read_in_parts(hasher: LayerDigestHasher, layer: &[u8], part: usize) -> HashReader<(), LayerDigestHasher> {
    let mut reader = HashReader::new((), hasher);
    let mut buffer: Vec<u8> = Vec::new();
    for chunk in layer.chunks(part) {
        let old_position = buffer.len();
        buffer.extend_from_slice(chunk);
        reader.absorb(&buffer, old_position);
    }
    reader
}

fn digest_of(unpacked: Unpacked) -> String {
    match unpacked {
        Unpacked::Digest(digest) => digest,
        Unpacked::RollBack { .. } => panic!("the layer was rolled back"),
    }
}

#[test]
fn test_async_processing() {
    let layer_data = layer_data();
    let digest = sha2::Sha256::digest(&layer_data);
    let layer_digest = format!("{}{}", DIGEST_SHA256_PREFIX, hex::encode(digest));

    let hasher = LayerDigestHasher::new(DigestAlgorithm::Sha256);
    let reader = read_in_parts(hasher, &layer_data, 4096);
    assert_eq!(layer_digest, digest_of(async_processing(reader, Ok(()))));
}

#[test]
fn test_stream_processing() {
    let layer_data = layer_data();

    let digest = sha2::Sha256::digest(&layer_data);
    let layer_digest = format!("{}{}", DIGEST_SHA256_PREFIX, hex::encode(digest));
    let hasher = match stream_processing(&layer_digest) {
        Ok(hasher) => hasher,
        Err(_) => panic!("the digest was refused"),
    };
    let reader = read_in_parts(hasher, &layer_data, 1000);
    assert_eq!(layer_digest, digest_of(async_processing(reader, Ok(()))));

    let digest = sha2::Sha512::digest(&layer_data);
    let layer_digest = format!("{}{}", DIGEST_SHA512_PREFIX, hex::encode(digest));
    let hasher = match stream_processing(&layer_digest) {
        Ok(hasher) => hasher,
        Err(_) => panic!("the digest was refused"),
    };
    let reader = read_in_parts(hasher, &layer_data, 777);
    assert_eq!(layer_digest, digest_of(async_processing(reader, Ok(()))));
}

#[test]
fn marked_body_stream_failure_is_visible_and_rolls_back() {
    let marked = LayerBlobStreamError {
        source: std::io::Error::from(std::io::ErrorKind::UnexpectedEof),
    };
    let reader = HashReader::new((), LayerDigestHasher::new(DigestAlgorithm::Sha256));
    let unpacked = async_processing(
        reader,
        Err(UnpackError {
            message: marked.message().to_string(),
        }),
    );
    let error = match unpacked {
        Unpacked::RollBack { error } => rolled_back(error, Ok(())),
        Unpacked::Digest(_) => panic!("a broken layer has a digest"),
    };
    assert!(error.message().contains("OCI layer body stream failed"));
    assert!(matches!(error, StreamError::UnPackLayerFailed(_)));
}

#[test]
fn failed_roll_back_is_told() {
    let error = rolled_back(
        UnpackError {
            message: "bad tar".to_string(),
        },
        Err(std::io::Error::from(std::io::ErrorKind::PermissionDenied)),
    );
    match &error {
        StreamError::FailedToRollBack { source } => {
            assert_eq!(source.kind(), std::io::ErrorKind::PermissionDenied)
        }
        _ => panic!("another error was made"),
    }
    assert_eq!(error.message(), "Failed to roll back when unpacking");
}

#[test]
fn unknown_digest_formats_are_refused() {
    for diff_id in ["md5:1234", "sha256", "", "SHA256:ab"] {
        match stream_processing(diff_id) {
            Err(error) => assert_eq!(
                error.message(),
                format!("Unsupported uncompressed digest format: {diff_id}")
            ),
            Ok(_) => panic!("accepted {diff_id}"),
        }
    }
}

#[test]
fn digest_does_not_depend_on_the_parts() {
    let layer = layer_data();
    let small = read_in_parts(LayerDigestHasher::new(DigestAlgorithm::Sha512), &layer, 3);
    let large = read_in_parts(
        LayerDigestHasher::new(DigestAlgorithm::Sha512),
        &layer,
        layer.len(),
    );
    assert_eq!(small.hasher.digest_finalize(), large.hasher.digest_finalize());
}

#[test]
fn known_digests() {
    let empty = LayerDigestHasher::new(DigestAlgorithm::Sha256);
    assert_eq!(
        empty.digest_finalize(),
        "sha256:e3b0c44298fc1c149afbf4c8996fb92427ae41e4649b934ca495991b7852b855"
    );
    let mut abc = LayerDigestHasher::new(DigestAlgorithm::Sha256);
    abc.digest_update(b"abc");
    assert_eq!(
        abc.digest_finalize(),
        "sha256:ba7816bf8f01cfea414140de5dae2223b00361a396177a9cb410ff61f20015ad"
    );
    let mut other = LayerDigestHasher::new(DigestAlgorithm::Sha256);
    other.digest_update(b"abd");
    assert_ne!(
        other.digest_finalize(),
        "sha256:ba7816bf8f01cfea414140de5dae2223b00361a396177a9cb410ff61f20015ad"
    );
    assert_eq!(encode_hex(&[0x00, 0x0f, 0xa9, 0xff]), "000fa9ff");
    assert_eq!(DigestAlgorithm::Sha512.digest_text(&[0x10]), "sha512:10");
}
