use ne_header::endian::{Lu16, Lu32};
use ne_header::header::{HeaderError, NeHeader, NE_HEADER_SIZE};

/// Common view of the data without CPU specifics (independent of endianness).
#[derive(Debug, Clone, Copy, PartialEq, Eq, PartialOrd, Ord)]
struct NeHeader2 {
    magic: [u8; 2],
    major_linker_version: u8,
    minor_linker_version: u8,
    entry_table_offset: u16,
    entry_table_length: u16,
    file_load_crc: u32,
    flags: u16,
    auto_data_segment_index: u16,
    init_heap_size: u16,
    init_stack_size: u16,
    entry_point: u32,
    init_stack: u32,
    segment_count: u16,
    module_references: u16,
    non_resident_names_size: u16,
    segment_table_offset: u16,
    resource_table_offset: u16,
    resident_names_table_offset: u16,
    module_reference_table_offset: u16,
    import_name_table_offset: u16,
    non_resident_names_table_offset: u32,
    movable_entry_point_count: u16,
    file_alignment_shift_count: u16,
    resource_table_entries: u16,
    target_os: u8,
    os2_exe_flags: u8,
    return_thunk_offset: u16,
    segment_reference_thunk_offset: u16,
    min_code_swap: u16,
    expected_win_ver: [u8; 2],
}

impl From<NeHeader> for NeHeader2 {
    fn from(h: NeHeader) -> Self {
        Self {
            magic: h.magic,
            major_linker_version: h.major_linker_version,
            minor_linker_version: h.minor_linker_version,
            entry_table_offset: h.entry_table_offset.value(),
            entry_table_length: h.entry_table_length.value(),
            file_load_crc: h.file_load_crc.value(),
            flags: h.flags.value(),
            auto_data_segment_index: h.auto_data_segment_index.value(),
            init_heap_size: h.init_heap_size.value(),
            init_stack_size: h.init_stack_size.value(),
            entry_point: h.entry_point.value(),
            init_stack: h.init_stack.value(),
            segment_count: h.segment_count.value(),
            module_references: h.module_references.value(),
            non_resident_names_size: h.non_resident_names_size.value(),
            segment_table_offset: h.segment_table_offset.value(),
            resource_table_offset: h.resource_table_offset.value(),
            resident_names_table_offset: h.resident_names_table_offset.value(),
            module_reference_table_offset: h.module_reference_table_offset.value(),
            import_name_table_offset: h.import_name_table_offset.value(),
            non_resident_names_table_offset: h.non_resident_names_table_offset.value(),
            movable_entry_point_count: h.movable_entry_point_count.value(),
            file_alignment_shift_count: h.file_alignment_shift_count.value(),
            resource_table_entries: h.resource_table_entries.value(),
            target_os: h.target_os,
            os2_exe_flags: h.os2_exe_flags,
            return_thunk_offset: h.return_thunk_offset.value(),
            segment_reference_thunk_offset: h.segment_reference_thunk_offset.value(),
            min_code_swap: h.min_code_swap.value(),
            expected_win_ver: h.expected_win_ver,
        }
    }
}

const SAMPLE: [u8; 0x40] = *b"\
    NE\x05\x0A\x6C\x01\x02\x00\x46\x45\x52\x47\x12\x03\x02\x00\
    \x00\x10\x00\x50\x10\x00\x01\x00\x00\x00\x02\x00\x09\x00\x01\x00\
    \x1C\x00\x40\x00\x90\x00\x54\x01\x60\x01\x62\x01\x6E\x07\x00\x00\
    \x00\x00\x08\x00\xFF\xFF\x02\x08\x00\x00\x00\x00\x00\x00\x00\x03\
";

#[test]
fn test_ne_header_size() {
    assert_eq!(std::mem::size_of::<NeHeader>(), 0x40);
}

#[test]
fn test_ne_header() {
    let buf: [u8; 0x40] = *b"\
        NE\x05\x0A\x6C\x01\x02\x00\x46\x45\x52\x47\x12\x03\x02\x00\
        \x00\x10\x00\x50\x10\x00\x01\x00\x00\x00\x02\x00\x09\x00\x01\x00\
        \x1C\x00\x40\x00\x90\x00\x54\x01\x60\x01\x62\x01\x6E\x07\x00\x00\
        \x00\x00\x08\x00\xFF\xFF\x02\x08\x00\x00\x00\x00\x00\x00\x00\x03\
    ";
    let h = NeHeader::read(&buf).unwrap();
    assert_eq!(
        NeHeader2::from(h),
        NeHeader2 {
            magic: *b"NE",
            major_linker_version: 5,
            minor_linker_version: 10,
            entry_table_offset: 0x016C,
            entry_table_length: 0x0002,
            file_load_crc: 0x47524546,
            flags: 0x0312,
            auto_data_segment_index: 0x0002,
            init_heap_size: 0x1000,
            init_stack_size: 0x5000,
            entry_point: 0x00010010,
            init_stack: 0x00020000,
            segment_count: 0x0009,
            module_references: 0x0001,
            non_resident_names_size: 0x001C,
            segment_table_offset: 0x0040,
            resource_table_offset: 0x0090,
            resident_names_table_offset: 0x0154,
            module_reference_table_offset: 0x0160,
            import_name_table_offset: 0x0162,
            non_resident_names_table_offset: 0x076E,
            movable_entry_point_count: 0x0000,
            file_alignment_shift_count: 0x0008,
            resource_table_entries: 0xFFFF,
            target_os: 0x02,
            os2_exe_flags: 0x08,
            return_thunk_offset: 0x0000,
            segment_reference_thunk_offset: 0x0000,
            min_code_swap: 0x0000,
            expected_win_ver: [0x00, 0x03],
        }
    );
}

#[test]
fn sample_header_passes_signature_check() {
    let h = NeHeader::read(&SAMPLE).unwrap();
    assert_eq!(h.check_magic(), Ok(()));
}

#[test]
fn mz_signature_decodes_but_fails_check() {
    let mut buf = SAMPLE;
    buf[0] = 0x4D;
    buf[1] = 0x5A;
    let h = NeHeader::read(&buf).unwrap();
    assert_eq!(h.magic, *b"MZ");
    assert_eq!(h.major_linker_version, 5);
    assert_eq!(h.check_magic(), Err(HeaderError::InvalidMagic));
}

#[test]
fn any_64_bytes_decode() {
    let zeros = [0u8; 64];
    assert!(NeHeader::read(&zeros).is_ok());
    let ones = [0xFFu8; 64];
    let h = NeHeader::read(&ones).unwrap();
    assert_eq!(h.file_load_crc.value(), 0xFFFF_FFFF);
    let mut counting = [0u8; 64];
    for (i, b) in counting.iter_mut().enumerate() {
        *b = i as u8;
    }
    let h = NeHeader::read(&counting).unwrap();
    assert_eq!(h.magic, [0, 1]);
    assert_eq!(h.expected_win_ver, [0x3E, 0x3F]);
    assert_eq!(h.target_os, 0x36);
    assert_eq!(h.os2_exe_flags, 0x37);
    assert_eq!(NE_HEADER_SIZE, 64);
}

#[test]
fn short_input_is_truncated() {
    assert_eq!(NeHeader::read(&[]), Err(HeaderError::Truncated));
    assert_eq!(NeHeader::read(&SAMPLE[..63]), Err(HeaderError::Truncated));
    assert_eq!(NeHeader::read(&SAMPLE[..2]), Err(HeaderError::Truncated));
}

#[test]
fn longer_input_reads_first_64_bytes() {
    let mut buf = SAMPLE.to_vec();
    buf.extend_from_slice(&[0xAA; 16]);
    let long = NeHeader::read(&buf).unwrap();
    let exact = NeHeader::read(&SAMPLE).unwrap();
    assert_eq!(long, exact);
}

#[test]
fn integer_fields_are_little_endian() {
    let mut counting = [0u8; 64];
    for (i, b) in counting.iter_mut().enumerate() {
        *b = i as u8;
    }
    let h = NeHeader::read(&counting).unwrap();
    assert_eq!(h.entry_table_offset.value(), 0x0504);
    assert_eq!(h.file_load_crc.value(), 0x0B0A_0908);
    assert_eq!(h.non_resident_names_table_offset.value(), 0x2F2E_2D2C);
    assert_eq!(h.min_code_swap.value(), 0x3D3C);
    assert_eq!(h.entry_table_offset.0, [0x04, 0x05]);
}

#[test]
fn endian_wrappers_convert() {
    assert_eq!(Lu16::new([0x34, 0x12]).value(), 0x1234);
    assert_eq!(Lu16::new([0xFF, 0x00]).value(), 0x00FF);
    assert_eq!(Lu16::new([0xFF, 0xFF]).value(), u16::MAX);
    assert_eq!(Lu32::new([0x78, 0x56, 0x34, 0x12]).value(), 0x1234_5678);
    assert_eq!(Lu32::new([0x00, 0x00, 0x00, 0x80]).value(), 0x8000_0000);
    assert_eq!(Lu32::new([0xFF; 4]).value(), u32::MAX);
}

#[test]
fn signature_check_looks_at_first_two_bytes_only() {
    for (a, b) in [(0x4Eu8, 0x00u8), (0x00, 0x45), (0x45, 0x4E), (0x6E, 0x65)] {
        let mut buf = [0u8; 64];
        buf[0] = a;
        buf[1] = b;
        let h = NeHeader::read(&buf).unwrap();
        assert_eq!(h.check_magic(), Err(HeaderError::InvalidMagic));
    }
    let mut buf = [0xFFu8; 64];
    buf[0] = 0x4E;
    buf[1] = 0x45;
    assert_eq!(NeHeader::read(&buf).unwrap().check_magic(), Ok(()));
}

#[test]
fn signature_check_is_repeatable() {
    let good = NeHeader::read(&SAMPLE).unwrap();
    assert_eq!(good.check_magic(), good.check_magic());
    let mut buf = SAMPLE;
    buf[0] = b'M';
    let bad = NeHeader::read(&buf).unwrap();
    let first = bad.check_magic();
    let second = bad.check_magic();
    assert_eq!(first, Err(HeaderError::InvalidMagic));
    assert_eq!(first, second);
}
