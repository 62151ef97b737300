use std::io::Write;

use updater::codec::{apply_patch, apply_patch_chain, generate_patch, PatchError};
use updater::digest::digest_string;

#[test]
fn round_trip_reproduces_new_artifact() {
    let old: Vec<u8> = (0u8..200).collect();
    let mut new = old.clone();
    new[10] = 0xff;
    new.extend_from_slice(b"appended tail");

    let patch = generate_patch(&old, &new);
    let result = apply_patch(&old, &patch).expect("patch applies");
    assert_eq!(result, new);
}

#[test]
fn round_trip_on_empty_old_artifact() {
    let old: Vec<u8> = Vec::new();
    let new: Vec<u8> = b"fresh content".to_vec();

    let patch = generate_patch(&old, &new);
    let result = apply_patch(&old, &patch).expect("patch applies");
    assert_eq!(result, new);
}

#[test]
fn corrupt_container_fails_decompression() {
    let old: Vec<u8> = b"installed artifact".to_vec();
    let garbage: Vec<u8> = vec![0x00, 0x01, 0x02, 0x03, 0xff];
    let r = apply_patch(&old, &garbage);
    assert!(matches!(r, Err(PatchError::Decompress)));
}

#[test]
fn valid_container_with_bad_patch_fails_application() {
    let old: Vec<u8> = b"installed artifact".to_vec();
    // A well-formed compressed container whose payload is not a patch.
    let mut compressed: Vec<u8> = Vec::new();
    {
        let mut enc = bzip2::write::BzEncoder::new(&mut compressed, bzip2::Compression::best());
        enc.write_all(b"this is no patch at all, but it is long enough to read")
            .unwrap();
        enc.finish().unwrap();
    }
    let r = apply_patch(&old, &compressed);
    assert!(matches!(r, Err(PatchError::Apply)));
}

#[test]
fn chain_applies_steps_in_order() {
    let v0: Vec<u8> = b"version zero of the artifact".to_vec();
    let v1: Vec<u8> = b"version one, a bit different".to_vec();
    let v2: Vec<u8> = b"version two, different again and longer".to_vec();

    let p1 = generate_patch(&v0, &v1);
    let p2 = generate_patch(&v1, &v2);

    let result = apply_patch_chain(v0.clone(), &vec![p1, p2]).expect("chain applies");
    assert_eq!(result, v2);
}

#[test]
fn chain_stops_at_first_failing_step() {
    let v0: Vec<u8> = b"version zero of the artifact".to_vec();
    let v1: Vec<u8> = b"version one, a bit different".to_vec();

    let p1 = generate_patch(&v0, &v1);
    let garbage: Vec<u8> = vec![9, 9, 9];

    let r = apply_patch_chain(v0, &vec![p1, garbage]);
    assert!(matches!(r, Err(PatchError::Decompress)));
}

#[test]
fn empty_chain_returns_artifact_unchanged() {
    let v0: Vec<u8> = b"already current".to_vec();
    let result = apply_patch_chain(v0.clone(), &Vec::new()).unwrap();
    assert_eq!(result, v0);
}

#[test]
fn digest_of_known_input() {
    let r = digest_string(&b"abc".to_vec());
    assert_eq!(
        r,
        "sha256:ba7816bf8f01cfea414140de5dae2223b00361a396177a9cb410ff61f20015ad"
    );
}

#[test]
fn digest_of_empty_input() {
    let r = digest_string(&Vec::new());
    assert_eq!(
        r,
        "sha256:e3b0c44298fc1c149afbf4c8996fb92427ae41e4649b934ca495991b7852b855"
    );
}
