//! `AWKN` native-kernel image header.
//!
//! The native kernel ships as a flat binary image whose first bytes are a
//! fixed 64-byte header. The header is the single source of truth for where
//! the image must be placed and how much memory it needs, so the UEFI loader
//! never hardcodes a load address or recomputes a BSS size.
//!
//! The kernel is linked non-relocatable at `AwknImageHeader::load_base`.
//! Loading it anywhere else silently corrupts every absolute reference in the
//! image, so the loader must treat a failed fixed-address allocation as a fatal
//! boot error rather than falling back to an arbitrary address.

use vstd::prelude::*;
use crate::kernel_core::UEFI_PAGE_SIZE;
use crate::le_bytes::{u32_le, u64_le, read_u32_le, read_u64_le};

verus! {

pub const AWKN_IMAGE_MAGIC: u32 = 0x4e4b_5741;
pub const AWKN_IMAGE_VERSION: u32 = 1;
pub const AWKN_IMAGE_HEADER_BYTES: u64 = 64;
/// Largest memory footprint an image may declare.
pub const MAX_IMAGE_BYTES: u64 = 0x1000_0000;

#[derive(Clone, Copy, Debug, PartialEq, Eq, Structural)]
pub enum ImageHeaderError {
    TooSmall,
    InvalidMagic,
    UnsupportedVersion,
    InvalidHeaderLength,
    InvalidLoadBase,
    InvalidLength,
    InvalidBssWindow,
    InvalidEntryPoint,
    FileLengthMismatch,
    AddressOverflow,
}

#[derive(Clone, Copy, Debug, PartialEq, Eq, Structural)]
pub struct AwknImageHeader {
    pub load_base: u64,
    pub file_byte_len: u64,
    pub memory_byte_len: u64,
    pub entry_point: u64,
    pub bss_offset: u64,
    pub bss_byte_len: u64,
}

/// Why the layout fields of a header are inconsistent, if they are.
pub open spec fn spec_layout_error(h: AwknImageHeader) -> Option<ImageHeaderError> {
    if h.load_base == 0 || h.load_base % UEFI_PAGE_SIZE != 0 {
        Some(ImageHeaderError::InvalidLoadBase)
    } else if h.file_byte_len == 0 || h.file_byte_len % UEFI_PAGE_SIZE != 0 || h.memory_byte_len
        % UEFI_PAGE_SIZE != 0 || h.memory_byte_len < h.file_byte_len || h.memory_byte_len
        > MAX_IMAGE_BYTES {
        Some(ImageHeaderError::InvalidLength)
    } else if h.bss_offset + h.bss_byte_len > u64::MAX || h.bss_offset < h.file_byte_len
        || h.bss_offset + h.bss_byte_len > h.memory_byte_len {
        Some(ImageHeaderError::InvalidBssWindow)
    } else if h.entry_point < h.load_base || h.entry_point - h.load_base < AWKN_IMAGE_HEADER_BYTES
        || h.entry_point - h.load_base >= h.file_byte_len {
        Some(ImageHeaderError::InvalidEntryPoint)
    } else if h.load_base + h.memory_byte_len > u64::MAX {
        Some(ImageHeaderError::AddressOverflow)
    } else {
        None
    }
}

/// The header fields stored in the first 64 bytes of an image.
pub open spec fn spec_decoded_header(s: Seq<u8>) -> AwknImageHeader {
    AwknImageHeader {
        load_base: u64_le(s, 8),
        file_byte_len: u64_le(s, 16),
        memory_byte_len: u64_le(s, 24),
        entry_point: u64_le(s, 32),
        bss_offset: u64_le(s, 40),
        bss_byte_len: u64_le(s, 48),
    }
}

/// What `AwknImageHeader::parse` answers for an image.
pub open spec fn spec_parse_image(s: Seq<u8>) -> Result<AwknImageHeader, ImageHeaderError> {
    if s.len() < AWKN_IMAGE_HEADER_BYTES {
        Err(ImageHeaderError::TooSmall)
    } else if u32_le(s, 0) != AWKN_IMAGE_MAGIC {
        Err(ImageHeaderError::InvalidMagic)
    } else if u32_le(s, 4) != AWKN_IMAGE_VERSION {
        Err(ImageHeaderError::UnsupportedVersion)
    } else if u64_le(s, 56) != AWKN_IMAGE_HEADER_BYTES {
        Err(ImageHeaderError::InvalidHeaderLength)
    } else {
        let h = spec_decoded_header(s);
        match spec_layout_error(h) {
            Some(e) => Err(e),
            None => if s.len() > h.file_byte_len {
                Err(ImageHeaderError::FileLengthMismatch)
            } else {
                Ok(h)
            },
        }
    }
}

impl AwknImageHeader {
    /// Parses and validates the header of a flat kernel image. The file may be
    /// shorter than the declared file length (a zero tail is dropped by the
    /// image tool) but never longer.
    pub fn parse(image: &[u8]) -> (r: Result<Self, ImageHeaderError>)
        ensures
            r == spec_parse_image(image@),
    {
        if (image.len() as u64) < AWKN_IMAGE_HEADER_BYTES {
            return Err(ImageHeaderError::TooSmall);
        }
        if read_u32_le(image, 0) != AWKN_IMAGE_MAGIC {
            return Err(ImageHeaderError::InvalidMagic);
        }
        if read_u32_le(image, 4) != AWKN_IMAGE_VERSION {
            return Err(ImageHeaderError::UnsupportedVersion);
        }
        if read_u64_le(image, 56) != AWKN_IMAGE_HEADER_BYTES {
            return Err(ImageHeaderError::InvalidHeaderLength);
        }
        let header = Self {
            load_base: read_u64_le(image, 8),
            file_byte_len: read_u64_le(image, 16),
            memory_byte_len: read_u64_le(image, 24),
            entry_point: read_u64_le(image, 32),
            bss_offset: read_u64_le(image, 40),
            bss_byte_len: read_u64_le(image, 48),
        };
        match header.validate() {
            Ok(()) => {},
            Err(e) => return Err(e),
        }
        if image.len() as u64 > header.file_byte_len {
            return Err(ImageHeaderError::FileLengthMismatch);
        }
        Ok(header)
    }

    fn validate(&self) -> (r: Result<(), ImageHeaderError>)
        ensures
            match r {
                Ok(()) => spec_layout_error(*self) is None,
                Err(e) => spec_layout_error(*self) == Some(e),
            },
    {
        if self.load_base == 0 || self.load_base % UEFI_PAGE_SIZE != 0 {
            return Err(ImageHeaderError::InvalidLoadBase);
        }
        if self.file_byte_len == 0 || self.file_byte_len % UEFI_PAGE_SIZE != 0
            || self.memory_byte_len % UEFI_PAGE_SIZE != 0 || self.memory_byte_len < self.file_byte_len
            || self.memory_byte_len > MAX_IMAGE_BYTES {
            return Err(ImageHeaderError::InvalidLength);
        }
        let bss_end = match self.bss_offset.checked_add(self.bss_byte_len) {
            Some(e) => e,
            None => return Err(ImageHeaderError::InvalidBssWindow),
        };
        if self.bss_offset < self.file_byte_len || bss_end > self.memory_byte_len {
            return Err(ImageHeaderError::InvalidBssWindow);
        }
        if self.entry_point < self.load_base {
            return Err(ImageHeaderError::InvalidEntryPoint);
        }
        let entry_offset = self.entry_point - self.load_base;
        if entry_offset < AWKN_IMAGE_HEADER_BYTES || entry_offset >= self.file_byte_len {
            return Err(ImageHeaderError::InvalidEntryPoint);
        }
        if self.load_base.checked_add(self.memory_byte_len).is_none() {
            return Err(ImageHeaderError::AddressOverflow);
        }
        Ok(())
    }

    /// Number of UEFI pages covering the memory footprint.
    pub fn page_count(&self) -> (r: u64)
        ensures
            r == (self.memory_byte_len + UEFI_PAGE_SIZE - 1) / (UEFI_PAGE_SIZE as int),
    {
        self.memory_byte_len / UEFI_PAGE_SIZE + if self.memory_byte_len % UEFI_PAGE_SIZE != 0 {
            1
        } else {
            0
        }
    }

    /// First address after the loaded image.
    pub fn memory_end_exclusive(&self) -> (r: u64)
        requires
            self.load_base + self.memory_byte_len <= u64::MAX,
        ensures
            r == self.load_base + self.memory_byte_len,
    {
        self.load_base + self.memory_byte_len
    }
}

/// A parsed header describes an image whose entry point lies in bytes that
/// come from the file, whose BSS lies past the file bytes and inside the
/// memory footprint, and whose end address is representable.
pub proof fn lemma_parsed_header_is_loadable(s: Seq<u8>)
    requires
        spec_parse_image(s) is Ok,
    ensures
        ({
            let h = spec_parse_image(s)->Ok_0;
            &&& h.load_base % UEFI_PAGE_SIZE == 0
            &&& h.load_base + AWKN_IMAGE_HEADER_BYTES <= h.entry_point < h.load_base + h.file_byte_len
            &&& h.file_byte_len <= h.bss_offset
            &&& h.bss_offset + h.bss_byte_len <= h.memory_byte_len <= MAX_IMAGE_BYTES
            &&& h.load_base + h.memory_byte_len <= u64::MAX
            &&& s.len() <= h.file_byte_len
        }),
{
}

} // verus!
