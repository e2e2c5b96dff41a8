//! Telling archive formats apart by the first bytes of a file.
use vstd::prelude::*;

verus! {

/// The archive formats that are unpacked.
#[derive(Clone, Copy, Debug, PartialEq, Eq, Structural)]
pub enum ArchiveFormat {
    Zip,
    Gz,
    Xz,
    Bz2,
    Zst,
}

pub const ZIP_MAGIC_BYTES: [u8; 4] = [0x50, 0x4B, 0x03, 0x04];

pub const GZIP_MAGIC_BYTES: [u8; 2] = [0x1F, 0x8B];

pub const XZ_MAGIC_BYTES: [u8; 6] = [0xFD, 0x37, 0x7A, 0x58, 0x5A, 0x00];

pub const BZIP2_MAGIC_BYTES: [u8; 3] = [0x42, 0x5A, 0x68];

pub const ZSTD_MAGIC_BYTES: [u8; 4] = [0x28, 0xB5, 0x2F, 0xFD];

/// The format whose magic bytes open `magic`; where two would fit, the
/// first of zip, gzip, xz, bzip2, zstd.
pub open spec fn format_of(magic: Seq<u8>) -> Option<ArchiveFormat> {
    if ZIP_MAGIC_BYTES@.is_prefix_of(magic) {
        Some(ArchiveFormat::Zip)
    } else if GZIP_MAGIC_BYTES@.is_prefix_of(magic) {
        Some(ArchiveFormat::Gz)
    } else if XZ_MAGIC_BYTES@.is_prefix_of(magic) {
        Some(ArchiveFormat::Xz)
    } else if BZIP2_MAGIC_BYTES@.is_prefix_of(magic) {
        Some(ArchiveFormat::Bz2)
    } else if ZSTD_MAGIC_BYTES@.is_prefix_of(magic) {
        Some(ArchiveFormat::Zst)
    } else {
        None
    }
}

/// Whether `data` begins with `pattern`.
pub fn starts_with(data: &[u8], pattern: &[u8]) -> (r: bool)
    ensures
        r == pattern@.is_prefix_of(data@),
{
    if data.len() < pattern.len() {
        return false;
    }
    let mut i: usize = 0;
    while i < pattern.len()
        invariant
            i <= pattern.len() <= data.len(),
            forall|j: int| 0 <= j < i ==> data@[j] == pattern@[j],
        decreases pattern.len() - i,
    {
        if data[i] != pattern[i] {
            assert(data@.subrange(0, pattern@.len() as int)[i as int] == data@[i as int]);
            return false;
        }
        i += 1;
    }
    assert(data@.subrange(0, pattern@.len() as int) =~= pattern@);
    true
}

/// Tells the archive format of a file from its first bytes.
pub fn detect_archive_format(magic: &[u8]) -> (r: Option<ArchiveFormat>)
    ensures
        r == format_of(magic@),
{
    if starts_with(magic, &ZIP_MAGIC_BYTES) {
        return Some(ArchiveFormat::Zip);
    }
    if starts_with(magic, &GZIP_MAGIC_BYTES) {
        return Some(ArchiveFormat::Gz);
    }
    if starts_with(magic, &XZ_MAGIC_BYTES) {
        return Some(ArchiveFormat::Xz);
    }
    if starts_with(magic, &BZIP2_MAGIC_BYTES) {
        return Some(ArchiveFormat::Bz2);
    }
    if starts_with(magic, &ZSTD_MAGIC_BYTES) {
        return Some(ArchiveFormat::Zst);
    }
    None
}

} // verus!
