//! The New Executable header record: its byte layout, its decoder and its
//! signature check.
use vstd::prelude::*;

use crate::endian::{lemma_le_value_2, lemma_le_value_4, Lu16, Lu32};

verus! {

/// Number of bytes the header occupies on disk and in memory.
pub const NE_HEADER_SIZE: usize = 64;

/// Why a header could not be decoded or accepted.
#[derive(Clone, Copy, Debug, PartialEq, Eq, Structural)]
pub enum HeaderError {
    /// The byte source held fewer than 64 bytes.
    Truncated,
    /// The record does not begin with the `NE` signature.
    InvalidMagic,
}

/// The New Executable header, field for field as it lies on disk.
///
/// Every field is a byte or an array of bytes, so the record has no padding
/// and occupies exactly 64 bytes; multi-byte integers keep their stored
/// little-endian bytes and are converted only when read.
#[derive(Clone, Copy, Debug, PartialEq, Eq)]
pub struct NeHeader {
    /// The `NE` signature.
    pub magic: [u8; 2],
    /// Major version of the linker.
    pub major_linker_version: u8,
    /// Minor version of the linker.
    pub minor_linker_version: u8,
    /// Offset of the entry table.
    pub entry_table_offset: Lu16,
    /// Length of the entry table in bytes.
    pub entry_table_length: Lu16,
    /// Checksum of the whole file.
    pub file_load_crc: Lu32,
    /// Module flags, passed through uninterpreted.
    pub flags: Lu16,
    /// Index of the automatic data segment.
    pub auto_data_segment_index: Lu16,
    /// Initial size of the local heap.
    pub init_heap_size: Lu16,
    /// Initial size of the stack.
    pub init_stack_size: Lu16,
    /// Entry point, as segment and offset.
    pub entry_point: Lu32,
    /// Initial stack pointer, as segment and offset.
    pub init_stack: Lu32,
    /// Number of entries in the segment table.
    pub segment_count: Lu16,
    /// Number of entries in the module reference table.
    pub module_references: Lu16,
    /// Size of the non-resident names table.
    pub non_resident_names_size: Lu16,
    /// Offset of the segment table.
    pub segment_table_offset: Lu16,
    /// Offset of the resource table.
    pub resource_table_offset: Lu16,
    /// Offset of the resident names table.
    pub resident_names_table_offset: Lu16,
    /// Offset of the module reference table.
    pub module_reference_table_offset: Lu16,
    /// Offset of the imported names table.
    pub import_name_table_offset: Lu16,
    /// Offset of the non-resident names table, from the start of the file.
    pub non_resident_names_table_offset: Lu32,
    /// Number of movable entry points.
    pub movable_entry_point_count: Lu16,
    /// Logical sector alignment, as a shift count.
    pub file_alignment_shift_count: Lu16,
    /// Number of resource table entries.
    pub resource_table_entries: Lu16,
    /// Target operating system.
    pub target_os: u8,
    /// Further executable flags, passed through uninterpreted.
    pub os2_exe_flags: u8,
    /// Offset of the return thunks.
    pub return_thunk_offset: Lu16,
    /// Offset of the segment reference thunks.
    pub segment_reference_thunk_offset: Lu16,
    /// Minimum code swap area size.
    pub min_code_swap: Lu16,
    /// Expected Windows version, as major and minor bytes.
    pub expected_win_ver: [u8; 2],
}

/// Copies two bytes starting at `off`.
fn take2(b: &[u8], off: usize) -> (r: [u8; 2])
    requires
        off + 2 <= b@.len(),
    ensures
        r@ == b@.subrange(off as int, off + 2),
{
    let r = [b[off], b[off + 1]];
    assert(r@ =~= b@.subrange(off as int, off + 2));
    r
}

/// Copies four bytes starting at `off`.
fn take4(b: &[u8], off: usize) -> (r: [u8; 4])
    requires
        off + 4 <= b@.len(),
    ensures
        r@ == b@.subrange(off as int, off + 4),
{
    let r = [b[off], b[off + 1], b[off + 2], b[off + 3]];
    assert(r@ =~= b@.subrange(off as int, off + 4));
    r
}

impl NeHeader {
    /// `b` is a 64-byte record and every field holds the bytes found at its
    /// offset in `b`, in the order they were stored.
    pub open spec fn laid_out_as(self, b: Seq<u8>) -> bool {
        b.len() == 64
        && self.magic@ == b.subrange(0x00, 0x02)
        && self.major_linker_version == b[0x02]
        && self.minor_linker_version == b[0x03]
        && self.entry_table_offset.0@ == b.subrange(0x04, 0x06)
        && self.entry_table_length.0@ == b.subrange(0x06, 0x08)
        && self.file_load_crc.0@ == b.subrange(0x08, 0x0C)
        && self.flags.0@ == b.subrange(0x0C, 0x0E)
        && self.auto_data_segment_index.0@ == b.subrange(0x0E, 0x10)
        && self.init_heap_size.0@ == b.subrange(0x10, 0x12)
        && self.init_stack_size.0@ == b.subrange(0x12, 0x14)
        && self.entry_point.0@ == b.subrange(0x14, 0x18)
        && self.init_stack.0@ == b.subrange(0x18, 0x1C)
        && self.segment_count.0@ == b.subrange(0x1C, 0x1E)
        && self.module_references.0@ == b.subrange(0x1E, 0x20)
        && self.non_resident_names_size.0@ == b.subrange(0x20, 0x22)
        && self.segment_table_offset.0@ == b.subrange(0x22, 0x24)
        && self.resource_table_offset.0@ == b.subrange(0x24, 0x26)
        && self.resident_names_table_offset.0@ == b.subrange(0x26, 0x28)
        && self.module_reference_table_offset.0@ == b.subrange(0x28, 0x2A)
        && self.import_name_table_offset.0@ == b.subrange(0x2A, 0x2C)
        && self.non_resident_names_table_offset.0@ == b.subrange(0x2C, 0x30)
        && self.movable_entry_point_count.0@ == b.subrange(0x30, 0x32)
        && self.file_alignment_shift_count.0@ == b.subrange(0x32, 0x34)
        && self.resource_table_entries.0@ == b.subrange(0x34, 0x36)
        && self.target_os == b[0x36]
        && self.os2_exe_flags == b[0x37]
        && self.return_thunk_offset.0@ == b.subrange(0x38, 0x3A)
        && self.segment_reference_thunk_offset.0@ == b.subrange(0x3A, 0x3C)
        && self.min_code_swap.0@ == b.subrange(0x3C, 0x3E)
        && self.expected_win_ver@ == b.subrange(0x3E, 0x40)
    }

    /// The record's bytes, field after field, as they lie on disk.
    pub open spec fn raw_bytes(self) -> Seq<u8> {
        self.magic@
            + seq![self.major_linker_version]
            + seq![self.minor_linker_version]
            + self.entry_table_offset.0@
            + self.entry_table_length.0@
            + self.file_load_crc.0@
            + self.flags.0@
            + self.auto_data_segment_index.0@
            + self.init_heap_size.0@
            + self.init_stack_size.0@
            + self.entry_point.0@
            + self.init_stack.0@
            + self.segment_count.0@
            + self.module_references.0@
            + self.non_resident_names_size.0@
            + self.segment_table_offset.0@
            + self.resource_table_offset.0@
            + self.resident_names_table_offset.0@
            + self.module_reference_table_offset.0@
            + self.import_name_table_offset.0@
            + self.non_resident_names_table_offset.0@
            + self.movable_entry_point_count.0@
            + self.file_alignment_shift_count.0@
            + self.resource_table_entries.0@
            + seq![self.target_os]
            + seq![self.os2_exe_flags]
            + self.return_thunk_offset.0@
            + self.segment_reference_thunk_offset.0@
            + self.min_code_swap.0@
            + self.expected_win_ver@
    }

    /// What the signature check answers for this record.
    pub open spec fn magic_check(self) -> Result<(), HeaderError> {
        if self.magic@ == seq![0x4Eu8, 0x45u8] {
            Ok(())
        } else {
            Err(HeaderError::InvalidMagic)
        }
    }

    /// Decodes a header from the first 64 bytes of `bytes`.
    ///
    /// Fails with `Truncated` when fewer than 64 bytes are given; any 64 bytes
    /// decode, whatever they hold. Bytes past the first 64 are not read.
    pub fn read(bytes: &[u8]) -> (r: Result<NeHeader, HeaderError>)
        ensures
            r is Ok <==> bytes@.len() >= 64,
            r is Ok ==> r->Ok_0.laid_out_as(bytes@.subrange(0, 64)),
            r is Ok ==> r->Ok_0.raw_bytes() == bytes@.subrange(0, 64),
            r is Err ==> r->Err_0 == HeaderError::Truncated,
    {
        if bytes.len() < NE_HEADER_SIZE {
            return Err(HeaderError::Truncated);
        }
        let ghost b = bytes@.subrange(0, 64);
        assert forall|i: int, j: int| 0 <= i <= j <= 64 implies #[trigger] b.subrange(i, j)
            == bytes@.subrange(i, j) by {
            assert(b.subrange(i, j) =~= bytes@.subrange(i, j));
        }
        let h = NeHeader {
            magic: take2(bytes, 0x00),
            major_linker_version: bytes[0x02],
            minor_linker_version: bytes[0x03],
            entry_table_offset: Lu16::new(take2(bytes, 0x04)),
            entry_table_length: Lu16::new(take2(bytes, 0x06)),
            file_load_crc: Lu32::new(take4(bytes, 0x08)),
            flags: Lu16::new(take2(bytes, 0x0C)),
            auto_data_segment_index: Lu16::new(take2(bytes, 0x0E)),
            init_heap_size: Lu16::new(take2(bytes, 0x10)),
            init_stack_size: Lu16::new(take2(bytes, 0x12)),
            entry_point: Lu32::new(take4(bytes, 0x14)),
            init_stack: Lu32::new(take4(bytes, 0x18)),
            segment_count: Lu16::new(take2(bytes, 0x1C)),
            module_references: Lu16::new(take2(bytes, 0x1E)),
            non_resident_names_size: Lu16::new(take2(bytes, 0x20)),
            segment_table_offset: Lu16::new(take2(bytes, 0x22)),
            resource_table_offset: Lu16::new(take2(bytes, 0x24)),
            resident_names_table_offset: Lu16::new(take2(bytes, 0x26)),
            module_reference_table_offset: Lu16::new(take2(bytes, 0x28)),
            import_name_table_offset: Lu16::new(take2(bytes, 0x2A)),
            non_resident_names_table_offset: Lu32::new(take4(bytes, 0x2C)),
            movable_entry_point_count: Lu16::new(take2(bytes, 0x30)),
            file_alignment_shift_count: Lu16::new(take2(bytes, 0x32)),
            resource_table_entries: Lu16::new(take2(bytes, 0x34)),
            target_os: bytes[0x36],
            os2_exe_flags: bytes[0x37],
            return_thunk_offset: Lu16::new(take2(bytes, 0x38)),
            segment_reference_thunk_offset: Lu16::new(take2(bytes, 0x3A)),
            min_code_swap: Lu16::new(take2(bytes, 0x3C)),
            expected_win_ver: take2(bytes, 0x3E),
        };
        proof {
            lemma_record_is_its_bytes(h, b);
        }
        Ok(h)
    }

    /// Accepts the record when its first two bytes are `NE`, and fails with
    /// `InvalidMagic` otherwise. Reads nothing else and changes nothing.
    pub fn check_magic(&self) -> (r: Result<(), HeaderError>)
        ensures
            r == self.magic_check(),
    {
        if self.magic[0] == 0x4E && self.magic[1] == 0x45 {
            assert(self.magic@ =~= seq![0x4Eu8, 0x45u8]);
            Ok(())
        } else {
            Err(HeaderError::InvalidMagic)
        }
    }
}

/// A decoded record is exactly the 64 bytes it came from: the fields tile
/// the record with no gap, overlap or padding.
pub proof fn lemma_record_is_its_bytes(h: NeHeader, b: Seq<u8>)
    requires
        h.laid_out_as(b),
    ensures
        h.raw_bytes() == b,
        h.raw_bytes().len() == 64,
{
    assert(h.raw_bytes() =~= b);
}

/// Every integer field reads its bytes least significant first, as the
/// format fixes it; the value does not depend on the host's byte order.
pub proof fn lemma_fields_little_endian(h: NeHeader, b: Seq<u8>)
    requires
        h.laid_out_as(b),
    ensures
        h.entry_table_offset.spec_value() == b[0x04] as nat + 256 * b[0x05] as nat,
        h.entry_table_length.spec_value() == b[0x06] as nat + 256 * b[0x07] as nat,
        h.file_load_crc.spec_value() == b[0x08] as nat + 256 * b[0x09] as nat + 65536 * b[0x0A] as nat
            + 16777216 * b[0x0B] as nat,
        h.flags.spec_value() == b[0x0C] as nat + 256 * b[0x0D] as nat,
        h.auto_data_segment_index.spec_value() == b[0x0E] as nat + 256 * b[0x0F] as nat,
        h.init_heap_size.spec_value() == b[0x10] as nat + 256 * b[0x11] as nat,
        h.init_stack_size.spec_value() == b[0x12] as nat + 256 * b[0x13] as nat,
        h.entry_point.spec_value() == b[0x14] as nat + 256 * b[0x15] as nat + 65536 * b[0x16] as nat
            + 16777216 * b[0x17] as nat,
        h.init_stack.spec_value() == b[0x18] as nat + 256 * b[0x19] as nat + 65536 * b[0x1A] as nat
            + 16777216 * b[0x1B] as nat,
        h.segment_count.spec_value() == b[0x1C] as nat + 256 * b[0x1D] as nat,
        h.module_references.spec_value() == b[0x1E] as nat + 256 * b[0x1F] as nat,
        h.non_resident_names_size.spec_value() == b[0x20] as nat + 256 * b[0x21] as nat,
        h.segment_table_offset.spec_value() == b[0x22] as nat + 256 * b[0x23] as nat,
        h.resource_table_offset.spec_value() == b[0x24] as nat + 256 * b[0x25] as nat,
        h.resident_names_table_offset.spec_value() == b[0x26] as nat + 256 * b[0x27] as nat,
        h.module_reference_table_offset.spec_value() == b[0x28] as nat + 256 * b[0x29] as nat,
        h.import_name_table_offset.spec_value() == b[0x2A] as nat + 256 * b[0x2B] as nat,
        h.non_resident_names_table_offset.spec_value() == b[0x2C] as nat + 256 * b[0x2D] as nat + 65536 * b[0x2E] as nat
            + 16777216 * b[0x2F] as nat,
        h.movable_entry_point_count.spec_value() == b[0x30] as nat + 256 * b[0x31] as nat,
        h.file_alignment_shift_count.spec_value() == b[0x32] as nat + 256 * b[0x33] as nat,
        h.resource_table_entries.spec_value() == b[0x34] as nat + 256 * b[0x35] as nat,
        h.return_thunk_offset.spec_value() == b[0x38] as nat + 256 * b[0x39] as nat,
        h.segment_reference_thunk_offset.spec_value() == b[0x3A] as nat + 256 * b[0x3B] as nat,
        h.min_code_swap.spec_value() == b[0x3C] as nat + 256 * b[0x3D] as nat,
{
    lemma_le_value_2(h.entry_table_offset.0@);
    lemma_le_value_2(h.entry_table_length.0@);
    lemma_le_value_4(h.file_load_crc.0@);
    lemma_le_value_2(h.flags.0@);
    lemma_le_value_2(h.auto_data_segment_index.0@);
    lemma_le_value_2(h.init_heap_size.0@);
    lemma_le_value_2(h.init_stack_size.0@);
    lemma_le_value_4(h.entry_point.0@);
    lemma_le_value_4(h.init_stack.0@);
    lemma_le_value_2(h.segment_count.0@);
    lemma_le_value_2(h.module_references.0@);
    lemma_le_value_2(h.non_resident_names_size.0@);
    lemma_le_value_2(h.segment_table_offset.0@);
    lemma_le_value_2(h.resource_table_offset.0@);
    lemma_le_value_2(h.resident_names_table_offset.0@);
    lemma_le_value_2(h.module_reference_table_offset.0@);
    lemma_le_value_2(h.import_name_table_offset.0@);
    lemma_le_value_4(h.non_resident_names_table_offset.0@);
    lemma_le_value_2(h.movable_entry_point_count.0@);
    lemma_le_value_2(h.file_alignment_shift_count.0@);
    lemma_le_value_2(h.resource_table_entries.0@);
    lemma_le_value_2(h.return_thunk_offset.0@);
    lemma_le_value_2(h.segment_reference_thunk_offset.0@);
    lemma_le_value_2(h.min_code_swap.0@);
}

/// The signature check of a decoded record accepts exactly when the first
/// two bytes are `4E 45`, whatever the other 62 bytes hold.
pub proof fn lemma_signature_decides(h: NeHeader, b: Seq<u8>)
    requires
        h.laid_out_as(b),
    ensures
        h.magic_check() == Ok::<(), HeaderError>(()) <==> (b[0] == 0x4E && b[1] == 0x45),
        h.magic_check() != Ok::<(), HeaderError>(()) ==> h.magic_check() == Err::<
            (),
            HeaderError,
        >(HeaderError::InvalidMagic),
{
    if b[0] == 0x4E && b[1] == 0x45 {
        assert(h.magic@ =~= seq![0x4Eu8, 0x45u8]);
    } else {
        assert(h.magic@[0] == b[0] && h.magic@[1] == b[1]);
    }
}

/// The signature check reads the signature alone and keeps no state: two
/// records with the same signature, or the same record checked twice, get
/// the same answer.
pub proof fn lemma_check_magic_repeatable(h1: NeHeader, h2: NeHeader)
    requires
        h1.magic@ == h2.magic@,
    ensures
        h1.magic_check() == h2.magic_check(),
{
}

} // verus!
