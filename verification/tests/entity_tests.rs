use cave_world::error::GameError;
use cave_world::map::{NPCData, BASE_ID};

fn entity_stream(version: u8, count: u32, records: &[u8]) -> Vec<u8> {
    let mut data = vec![b'P', b'X', b'E', version];
    data.extend_from_slice(&count.to_le_bytes());
    data.extend_from_slice(records);
    data
}

fn record_bytes(x: i16, y: i16, fields: [u16; 4], layer: Option<u8>) -> Vec<u8> {
    let mut bytes = Vec::new();
    bytes.extend_from_slice(&x.to_le_bytes());
    bytes.extend_from_slice(&y.to_le_bytes());
    for field in fields {
        bytes.extend_from_slice(&field.to_le_bytes());
    }
    if let Some(layer) = layer {
        bytes.push(layer);
    }
    bytes
}

#[test]
fn base_id_is_170() {
    assert_eq!(BASE_ID, 170);
}

#[test]
fn three_records_get_three_increasing_ids() {
    let mut records = Vec::new();
    records.extend(record_bytes(10, 20, [1, 2, 3, 4], None));
    records.extend(record_bytes(30, 40, [5, 6, 7, 8], None));
    records.extend(record_bytes(50, 60, [9, 10, 11, 12], None));
    let npcs = NPCData::load_from(&entity_stream(0, 3, &records)).unwrap();
    assert_eq!(npcs.len(), 3);
    assert_eq!(npcs[0].id, BASE_ID);
    assert_eq!(npcs[1].id, BASE_ID + 1);
    assert_eq!(npcs[2].id, BASE_ID + 2);
    assert_eq!(npcs[0].id, 170);
    assert_eq!(npcs[1].id, 171);
    assert_eq!(npcs[2].id, 172);
    assert!(npcs[0].id < npcs[1].id && npcs[1].id < npcs[2].id);
    assert_eq!((npcs[0].x, npcs[1].x, npcs[2].x), (10, 30, 50));
}

#[test]
fn fields_are_read_in_their_order() {
    let bytes = [
        b'P', b'X', b'E', 0x10, // tag, version
        1, 0, 0, 0, // count
        0x34, 0x12, // x = 0x1234
        0xFE, 0xFF, // y = -2
        0x01, 0x80, // flag_num = 0x8001
        0xFF, 0xFF, // event_num = 0xFFFF
        0x2A, 0x00, // npc_type = 42
        0x00, 0x20, // flags = 0x2000
        0x07, // layer
    ];
    let npcs = NPCData::load_from(&bytes).unwrap();
    assert_eq!(
        npcs,
        vec![NPCData {
            id: 170,
            x: 0x1234,
            y: -2,
            flag_num: 0x8001,
            event_num: 0xFFFF,
            npc_type: 42,
            flags: 0x2000,
            layer: 7,
        }]
    );
}

#[test]
fn signed_coordinates_cover_their_range() {
    let mut records = Vec::new();
    records.extend(record_bytes(i16::MIN, i16::MAX, [0, 0, 0, 0], None));
    records.extend(record_bytes(-1, 0, [0, 0, 0, 0], None));
    let npcs = NPCData::load_from(&entity_stream(0, 2, &records)).unwrap();
    assert_eq!((npcs[0].x, npcs[0].y), (-32768, 32767));
    assert_eq!((npcs[1].x, npcs[1].y), (-1, 0));
}

#[test]
fn count_is_a_little_endian_32_bit_number() {
    // 0x0000_0102 = 258 records
    let mut data = vec![b'P', b'X', b'E', 0, 0x02, 0x01, 0x00, 0x00];
    for i in 0..258u16 {
        data.extend(record_bytes(i as i16, 0, [i, 0, 0, 0], None));
    }
    let npcs = NPCData::load_from(&data).unwrap();
    assert_eq!(npcs.len(), 258);
    assert_eq!(npcs[257].id, 170 + 257);
    assert_eq!(npcs[257].flag_num, 257);
    for (i, npc) in npcs.iter().enumerate() {
        assert_eq!(npc.id, 170 + i as u64);
        assert_eq!(npc.x, i as i16);
    }
}

#[test]
fn no_records_is_an_empty_sequence() {
    let npcs = NPCData::load_from(&entity_stream(0x10, 0, &[])).unwrap();
    assert!(npcs.is_empty());
    let npcs = NPCData::load_from(&entity_stream(0, 0, &[1, 2, 3])).unwrap();
    assert!(npcs.is_empty());
}

#[test]
fn legacy_version_has_no_layer_byte() {
    let mut records = Vec::new();
    records.extend(record_bytes(1, 2, [3, 4, 5, 6], None));
    records.extend(record_bytes(7, 8, [9, 10, 11, 12], None));
    assert_eq!(records.len(), 24);
    let npcs = NPCData::load_from(&entity_stream(0, 2, &records)).unwrap();
    assert_eq!(npcs.len(), 2);
    assert!(npcs.iter().all(|npc| npc.layer == 0));
    // The second record starts right after the twelfth byte of the first.
    assert_eq!((npcs[1].x, npcs[1].y, npcs[1].flags), (7, 8, 12));
}

#[test]
fn current_version_reads_one_layer_byte_per_record() {
    let mut records = Vec::new();
    records.extend(record_bytes(1, 2, [3, 4, 5, 6], Some(0x21)));
    records.extend(record_bytes(7, 8, [9, 10, 11, 12], Some(0x22)));
    assert_eq!(records.len(), 26);
    let npcs = NPCData::load_from(&entity_stream(0x10, 2, &records)).unwrap();
    assert_eq!(npcs.len(), 2);
    assert_eq!(npcs[0].layer, 0x21);
    assert_eq!(npcs[1].layer, 0x22);
    assert_eq!((npcs[1].x, npcs[1].y, npcs[1].flags), (7, 8, 12));
}

#[test]
fn the_same_bytes_read_differently_under_each_version() {
    // 26 bytes: two records of the current layout, or two of the legacy one
    // and two bytes to spare.
    let mut records = Vec::new();
    records.extend(record_bytes(1, 2, [3, 4, 5, 6], Some(0x21)));
    records.extend(record_bytes(7, 8, [9, 10, 11, 12], Some(0x22)));
    let legacy = NPCData::load_from(&entity_stream(0, 2, &records)).unwrap();
    assert_eq!(legacy[0].layer, 0);
    assert_eq!(legacy[1].layer, 0);
    // The legacy reading of the second record starts at the first one's layer byte.
    assert_eq!(legacy[1].x, i16::from_le_bytes([0x21, 7]));
}

#[test]
fn truncated_mid_record_returns_no_records() {
    let mut records = Vec::new();
    for i in 0..4 {
        records.extend(record_bytes(i, i, [1, 2, 3, 4], None));
    }
    let res = NPCData::load_from(&entity_stream(0, 5, &records));
    assert!(matches!(res, Err(GameError::TruncatedData)));
    // A fifth record that stops one byte short does not help.
    records.extend(&record_bytes(4, 4, [1, 2, 3, 4], None)[..11]);
    let res = NPCData::load_from(&entity_stream(0, 5, &records));
    assert!(matches!(res, Err(GameError::TruncatedData)));
    records.push(0);
    let npcs = NPCData::load_from(&entity_stream(0, 5, &records)).unwrap();
    assert_eq!(npcs.len(), 5);
}

#[test]
fn truncated_layer_byte_is_truncated_data() {
    let records = record_bytes(1, 2, [3, 4, 5, 6], None);
    let res = NPCData::load_from(&entity_stream(0x10, 1, &records));
    assert!(matches!(res, Err(GameError::TruncatedData)));
}

#[test]
fn a_huge_count_without_records_is_truncated_data() {
    let res = NPCData::load_from(&entity_stream(0x10, u32::MAX, &[0; 100]));
    assert!(matches!(res, Err(GameError::TruncatedData)));
    let res = NPCData::load_from(&entity_stream(0, u32::MAX, &[]));
    assert!(matches!(res, Err(GameError::TruncatedData)));
}

#[test]
fn short_entity_headers_are_truncated_data() {
    let whole = entity_stream(0, 0, &[]);
    for len in 0..8 {
        let res = NPCData::load_from(&whole[..len]);
        assert!(matches!(res, Err(GameError::TruncatedData)), "length {}", len);
    }
    assert!(NPCData::load_from(&whole).is_ok());
}

#[test]
fn wrong_entity_magic_is_invalid_magic() {
    let mut data = entity_stream(0, 0, &[]);
    data[2] = b'M';
    assert!(matches!(NPCData::load_from(&data), Err(GameError::InvalidMagic)));
    assert!(matches!(NPCData::load_from(b"XXX"), Err(GameError::InvalidMagic)));
    assert!(matches!(NPCData::load_from(b"pxe\x00\x00\x00\x00\x00"), Err(GameError::InvalidMagic)));
}

#[test]
fn unknown_entity_version_is_unsupported_version() {
    for version in [1u8, 0x0F, 0x11, 0x20, 0xFF] {
        let data = entity_stream(version, 0, &[]);
        match NPCData::load_from(&data) {
            Err(GameError::UnsupportedVersion(v)) => assert_eq!(v, version),
            other => panic!("version {:#x} gave {:?}", version, other),
        }
    }
}

#[test]
fn bytes_after_the_records_are_ignored() {
    let mut records = record_bytes(1, 2, [3, 4, 5, 6], Some(9));
    records.extend_from_slice(&[0xAA; 7]);
    let npcs = NPCData::load_from(&entity_stream(0x10, 1, &records)).unwrap();
    assert_eq!(npcs.len(), 1);
    assert_eq!(npcs[0].layer, 9);
}
