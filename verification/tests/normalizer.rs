use debug_images::{normalize, NativeIdentifier, NormalizedDebugId};

const GUID: [u8; 16] = [
    0x01, 0x02, 0x03, 0x04, 0x05, 0x06, 0x07, 0x08, 0xAA, 0xBB, 0xCC, 0xDD, 0xEE, 0xFF, 0x00, 0x11,
];

const SWAPPED: [u8; 16] = [
    0x04, 0x03, 0x02, 0x01, 0x06, 0x05, 0x08, 0x07, 0xAA, 0xBB, 0xCC, 0xDD, 0xEE, 0xFF, 0x00, 0x11,
];

#[test]
fn pdb_signature_goes_to_network_order() {
    let id = NativeIdentifier::PdbSignature(GUID, 3);
    assert_eq!(
        normalize(&id),
        Some(NormalizedDebugId {
            uuid: SWAPPED,
            generation: 3
        })
    );
}

#[test]
fn trailing_eight_bytes_are_untouched() {
    let mut guid = [0u8; 16];
    for (i, byte) in guid.iter_mut().enumerate() {
        *byte = 0xF0 + i as u8;
    }
    let normalized = normalize(&NativeIdentifier::PdbSignature(guid, 1)).unwrap();
    assert_eq!(normalized.uuid[8..], guid[8..]);
    assert_eq!(normalized.uuid[..8], [0xF3, 0xF2, 0xF1, 0xF0, 0xF5, 0xF4, 0xF7, 0xF6]);
}

#[test]
fn generation_is_kept_verbatim() {
    for age in [0u32, 1, 3, 0x1234_5678, u32::MAX] {
        let normalized = normalize(&NativeIdentifier::PdbSignature(GUID, age)).unwrap();
        assert_eq!(normalized.generation, age);
        assert_eq!(normalized.uuid, SWAPPED);
    }
}

#[test]
fn normalizing_twice_restores_the_guid() {
    let once = normalize(&NativeIdentifier::PdbSignature(GUID, 9)).unwrap();
    assert_ne!(once.uuid, GUID);
    let twice = normalize(&NativeIdentifier::PdbSignature(once.uuid, once.generation)).unwrap();
    assert_eq!(twice.uuid, GUID);
    assert_eq!(twice.generation, 9);
}

#[test]
fn symmetric_fields_stay_as_they_are() {
    let guid = [7u8; 16];
    let normalized = normalize(&NativeIdentifier::PdbSignature(guid, 0)).unwrap();
    assert_eq!(normalized.uuid, guid);
    assert_eq!(normalized.generation, 0);
}

#[test]
fn the_argument_is_not_changed() {
    let id = NativeIdentifier::PdbSignature(GUID, 3);
    let _ = normalize(&id);
    assert_eq!(id, NativeIdentifier::PdbSignature(GUID, 3));
}

#[test]
fn unique_uuid_is_not_applicable() {
    assert_eq!(normalize(&NativeIdentifier::UniqueUuid(GUID)), None);
}

#[test]
fn gnu_build_id_is_not_applicable() {
    assert_eq!(normalize(&NativeIdentifier::GnuBuildId(GUID.to_vec())), None);
    assert_eq!(normalize(&NativeIdentifier::GnuBuildId(Vec::new())), None);
    assert_eq!(normalize(&NativeIdentifier::GnuBuildId(vec![0xAB; 20])), None);
}

#[test]
fn pe_signature_is_not_applicable() {
    assert_eq!(normalize(&NativeIdentifier::PeSignature(0x5F00_0000, 0x1000)), None);
}
