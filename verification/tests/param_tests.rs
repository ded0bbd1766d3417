use eldenring::param_repository::{
    FD4ParamRepository, FD4ParamResCap, ParamData, ParamFileHeader, ParamTypeDescriptor,
};

fn header(row_count: u16, name_offset: u32) -> ParamFileHeader {
    ParamFileHeader {
        strings_offset: 0,
        short_data_offset: 0,
        unk6: 0,
        paramdef_version: 0,
        row_count,
        param_type: ParamTypeDescriptor { unk0: 0, name_offset, _pad8: [0; 24] },
        endianness: 0,
        flags_2d: 0,
        flags_2e: 0,
        paramdef_format_version: 0,
        unk30: [0; 0x10],
    }
}

/// A param file with rows 10 and 20 (data at 0x70 and 0x74) and the name "EQUIP_PARAM".
fn file() -> ParamData {
    named_file("EQUIP_PARAM", 1)
}

/// A param file with rows 10 and 20 whose data bytes start with `first`.
fn named_file(name: &str, first: u8) -> ParamData {
    let mut bytes = vec![0u8; 0x40];
    for (id, offset) in [(10u32, 0x70u64), (20, 0x74)] {
        bytes.extend_from_slice(&id.to_ne_bytes());
        bytes.extend_from_slice(&0u32.to_ne_bytes());
        bytes.extend_from_slice(&offset.to_ne_bytes());
        bytes.extend_from_slice(&0u64.to_ne_bytes());
    }
    assert_eq!(bytes.len(), 0x70);
    bytes.extend_from_slice(&[first, 2, 3, 4, 5, 6, 7, 8]);
    bytes.extend_from_slice(name.as_bytes());
    bytes.extend_from_slice(b"\0tail");
    ParamData { header: header(2, 0x78), bytes }
}

#[test]
fn param_name() {
    assert_eq!(file().name(), "EQUIP_PARAM");
}

#[test]
fn param_rows_by_id() {
    let f = file();
    assert_eq!(&f.get(10).unwrap()[..4], &[1, 2, 3, 4]);
    assert_eq!(&f.get(20).unwrap()[..4], &[5, 6, 7, 8]);
    assert!(f.get(30).is_none());
}

#[test]
fn repository_finds_file_by_name() {
    let repo = FD4ParamRepository {
        res_caps: vec![
            FD4ParamResCap { size: 0, data: Box::new(named_file("NPC_PARAM", 9)) },
            FD4ParamResCap { size: 0, data: Box::new(named_file("EQUIP_PARAM", 1)) },
            FD4ParamResCap { size: 0, data: Box::new(named_file("EQUIP_PARAM", 7)) },
        ],
        allocator: 0,
    };
    assert_eq!(repo.get("EQUIP_PARAM", 10).unwrap()[0], 1);
    assert_eq!(repo.get("NPC_PARAM", 10).unwrap()[0], 9);
    assert!(repo.get("EQUIP_PARAM", 11).is_none());
    assert!(repo.get("MAGIC_PARAM", 10).is_none());
}

#[test]
fn param_rows_by_id_for_changing() {
    let mut f = file();
    f.get_mut(20).unwrap()[0] = 50;
    assert_eq!(f.bytes[0x74], 50);
    assert_eq!(&f.get(20).unwrap()[..4], &[50, 6, 7, 8]);
    assert!(f.get_mut(30).is_none());
    assert_eq!(f.name(), "EQUIP_PARAM");
}

#[test]
fn repository_changes_the_first_file_with_the_name() {
    let mut repo = FD4ParamRepository {
        res_caps: vec![
            FD4ParamResCap { size: 0, data: Box::new(named_file("NPC_PARAM", 9)) },
            FD4ParamResCap { size: 0, data: Box::new(named_file("EQUIP_PARAM", 1)) },
            FD4ParamResCap { size: 0, data: Box::new(named_file("EQUIP_PARAM", 7)) },
        ],
        allocator: 0,
    };
    repo.get_mut("EQUIP_PARAM", 10).unwrap()[1] = 42;
    assert_eq!(repo.get("EQUIP_PARAM", 10).unwrap()[..2], [1, 42]);
    assert_eq!(repo.res_caps[2].data.bytes[0x71], 2);
    assert_eq!(repo.res_caps[0].data.bytes[0x71], 2);
    assert!(repo.get_mut("EQUIP_PARAM", 11).is_none());
    assert!(repo.get_mut("MAGIC_PARAM", 10).is_none());
}

#[test]
fn repository_reads_no_file_past_the_match() {
    let mut unnamed = named_file("LATER", 3);
    // No NUL after the name: this file's name cannot be read, but no lookup gets to it.
    unnamed.bytes.truncate(0x78 + 5);
    let repo = FD4ParamRepository {
        res_caps: vec![
            FD4ParamResCap { size: 0, data: Box::new(named_file("EQUIP_PARAM", 1)) },
            FD4ParamResCap { size: 0, data: Box::new(unnamed) },
        ],
        allocator: 0,
    };
    assert_eq!(repo.get("EQUIP_PARAM", 20).unwrap()[0], 5);
}
