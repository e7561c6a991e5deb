//! The cartridge image format: a 16-byte header followed by the program ROM.
//!
//! Only the header fields this core consumes are modelled.  Reading the image
//! from disk is the caller's concern; parsing operates on a byte buffer.

use vstd::prelude::*;
use crate::error::RomError;

verus! {

/// Number of bytes in the header.
pub const HEADER_SIZE_BYTES: usize = 16;

/// The program ROM size is a multiple of 16KiB.
pub const PRG_ROM_MULTIPLE: usize = 16384;

/// Whether the first four header bytes are the expected magic.
pub open spec fn magic_ok(header: Seq<u8>) -> bool {
    header[0] == 0x4Eu8 && header[1] == 0x45u8 && header[2] == 0x53u8 && header[3] == 0x1Au8
}

/// Whether the header bytes this core does not understand are all clear.
pub open spec fn tail_clear(header: Seq<u8>) -> bool {
    forall|i: int| 6 <= i < 16 ==> header[i] == 0u8
}

/// The parsed header of a cartridge image.
#[derive(Clone, Copy, Debug, PartialEq, Eq, Structural)]
pub struct Header {
    /// Program ROM size in multiples of 16KiB.
    pub prg_rom_multiple_size: u8,
}

impl Header {
    /// Parse the raw 16 header bytes.  Succeeds exactly when the magic bytes
    /// are present and every header byte this core does not understand is
    /// zero.
    pub fn new(header: [u8; 16]) -> (r: Result<Header, RomError>)
        ensures
            r is Ok <==> magic_ok(header@) && tail_clear(header@),
            r is Ok ==> r.unwrap().prg_rom_multiple_size == header@[4],
            !magic_ok(header@) ==> r == Err::<Header, RomError>(RomError::InvalidMagic),
            magic_ok(header@) && !tail_clear(header@) ==> r == Err::<Header, RomError>(
                RomError::UnsupportedFormat,
            ),
    {
        if header[0] != 0x4E || header[1] != 0x45 || header[2] != 0x53 || header[3] != 0x1A {
            return Err(RomError::InvalidMagic);
        }
        let mut i: usize = 6;
        while i < 16
            invariant
                6 <= i <= 16,
                magic_ok(header@),
                forall|j: int| 6 <= j < i ==> header@[j] == 0u8,
            decreases 16 - i,
        {
            if header[i] != 0 {
                return Err(RomError::UnsupportedFormat);
            }
            i = i + 1;
        }
        Ok(Header { prg_rom_multiple_size: header[4] })
    }

    /// The program ROM size in bytes.
    pub fn get_prg_rom_size(&self) -> (r: usize)
        ensures
            r == self.prg_rom_multiple_size * PRG_ROM_MULTIPLE,
    {
        self.prg_rom_multiple_size as usize * PRG_ROM_MULTIPLE
    }
}

/// A parsed cartridge image: the program ROM buffer handed to the core.
#[derive(Debug)]
pub struct NesFile {
    /// The program ROM.
    pub prg_rom: Vec<u8>,
}

/// Whether a byte buffer is a cartridge image this core accepts: valid
/// header, a program bank count the fixed 16/32KiB mapping supports, and
/// enough bytes to cover the promised ROM.
pub open spec fn image_ok(bytes: Seq<u8>) -> bool {
    &&& bytes.len() >= 16
    &&& magic_ok(bytes)
    &&& tail_clear(bytes.subrange(0, 16))
    &&& (bytes[4] == 1u8 || bytes[4] == 2u8)
    &&& bytes.len() >= 16 + bytes[4] * 16384
}

impl NesFile {
    /// Parse a whole cartridge image.  Succeeds exactly on the buffers
    /// `image_ok` describes, and then hands back the program ROM bytes that
    /// follow the header.
    pub fn parse(bytes: &Vec<u8>) -> (r: Result<NesFile, RomError>)
        ensures
            r is Ok <==> image_ok(bytes@),
            r is Ok ==> r.unwrap().prg_rom@ == bytes@.subrange(16, 16 + bytes@[4] * 16384),
    {
        if bytes.len() < 16 {
            return Err(RomError::TruncatedImage);
        }
        let header: [u8; 16] = [bytes[0], bytes[1], bytes[2], bytes[3], bytes[4], bytes[5],
            bytes[6], bytes[7], bytes[8], bytes[9], bytes[10], bytes[11], bytes[12], bytes[13],
            bytes[14], bytes[15]];
        proof {
            assert(header@ =~= bytes@.subrange(0, 16));
        }
        let parsed = match Header::new(header) {
            Ok(h) => h,
            Err(e) => {
                return Err(e);
            },
        };
        if parsed.prg_rom_multiple_size != 1 && parsed.prg_rom_multiple_size != 2 {
            return Err(RomError::UnsupportedFormat);
        }
        let size = parsed.get_prg_rom_size();
        if bytes.len() < 16 + size {
            return Err(RomError::TruncatedImage);
        }
        let mut prg_rom: Vec<u8> = Vec::new();
        let mut k: usize = 0;
        while k < size
            invariant
                k <= size,
                size == parsed.prg_rom_multiple_size * 16384,
                parsed.prg_rom_multiple_size <= 2,
                bytes@.len() >= 16 + size,
                prg_rom@.len() == k,
                forall|j: int| 0 <= j < k ==> prg_rom@[j] == bytes@[16 + j],
            decreases size - k,
        {
            prg_rom.push(bytes[16 + k]);
            k = k + 1;
        }
        proof {
            assert(prg_rom@ =~= bytes@.subrange(16, 16 + bytes@[4] * 16384));
        }
        Ok(NesFile { prg_rom })
    }
}

} // verus!
