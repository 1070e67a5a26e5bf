use crate::mapper::decimal;
use crate::ppu::{bit_of, lemma_bit_masks};
use vstd::prelude::*;
use vstd::std_specs::convert::{FromSpecImpl, TryFromSpecImpl};

verus! {

#[verifier::external_type_specification]
#[verifier::external_body]
pub struct ExIoError(std::io::Error);

/// `std::io::Error::from(ErrorKind::UnexpectedEof)`: the error that a read of a given
/// number of bytes gives when the data ends before them. Nothing is claimed of the value.
#[verifier::external_body]
fn unexpected_end_of_file() -> std::io::Error {
    std::io::Error::from(std::io::ErrorKind::UnexpectedEof)
}

pub struct INES {
    pub header: INESHeader,
    /// Trainer, if present (0 or 512 bytes)
    pub trainer: Option<Vec<u8>>,
    /// PRG ROM data (16384 * x bytes)
    pub prg_rom: Vec<u8>,
    /// CHR ROM data, if present (8192 * y bytes)
    pub chr_rom: Option<Vec<u8>>,
    /// PlayChoice INST-ROM, if present (0 or 8192 bytes)
    pub playchoice_inst_rom: Option<Vec<u8>>,
    /// PlayChoice PROM, if present (16 bytes Data, 16 bytes CounterOut) (this is often missing; see PC10 ROM-Images for details)
    pub playchoice_prom: Option<Vec<u8>>,
    pub prg_ram: Option<Vec<u8>>,
}

#[derive(Debug)]
pub enum InesParseError {
    HeaderTooShort { size: usize },
    InvalidHeader,
    Io(std::io::Error),
}

impl From<std::io::Error> for InesParseError {
    fn from(e: std::io::Error) -> (r: Self) {
        InesParseError::Io(e)
    }
}

impl FromSpecImpl<std::io::Error> for InesParseError {
    open spec fn obeys_from_spec() -> bool {
        true
    }

    open spec fn from_spec(e: std::io::Error) -> InesParseError {
        InesParseError::Io(e)
    }
}

/// `format!("iNES header too short: got {} bytes, need 16", size)`, the size in decimal.
#[verifier::external_body]
fn header_too_short_message(size: usize) -> (r: String)
    ensures
        r@ == "iNES header too short: got "@ + decimal(size as nat) + " bytes, need 16"@,
{
    format!("iNES header too short: got {} bytes, need 16", size)
}

/// `format!("I/O error: {}", e)`. What `Display` writes for an I/O error depends on the
/// operating system's messages, so only the prefix is claimed.
#[verifier::external_body]
fn io_error_message(e: &std::io::Error) -> (r: String)
    ensures
        r@.len() >= 11,
        r@.subrange(0, 11) == "I/O error: "@,
{
    format!("I/O error: {}", e)
}

impl InesParseError {
    /// The message of the error.
    pub fn to_string(&self) -> (r: String)
        ensures
            match self {
                InesParseError::HeaderTooShort { size } => r@ == "iNES header too short: got "@
                    + decimal(*size as nat) + " bytes, need 16"@,
                InesParseError::InvalidHeader => r@ == "invalid iNES magic (expected NES\\x1A)"@,
                InesParseError::Io(_) => r@.len() >= 11 && r@.subrange(0, 11) == "I/O error: "@,
            },
    {
        match self {
            InesParseError::HeaderTooShort { size } => header_too_short_message(*size),
            InesParseError::InvalidHeader => "invalid iNES magic (expected NES\\x1A)".to_owned(),
            InesParseError::Io(e) => io_error_message(e),
        }
    }
}

#[derive(Debug, PartialEq, Eq, Structural)]
pub enum NametableArrangement {
    Vertical,
    Horizontal,
}

#[derive(Debug)]
pub struct INESHeader {
    /// Size of PRG ROM in 16 KB units
    pub prg_rom_size: usize,
    /// Size of CHR ROM in 8 KB units (value 0 means the board uses CHR RAM)
    pub chr_rom_size: usize,
    pub nametable_arrangement: NametableArrangement,
    pub has_battery: bool,
    pub has_trainer: bool,
    pub use_alternative_nametable_layout: bool,
    pub mapper_number: u8,
}

/// The four bytes that open an iNES file: "NES" and an MS-DOS end-of-file.
pub open spec fn has_magic(header: Seq<u8>) -> bool {
    header.len() >= 4 && header[0] == 0x4E && header[1] == 0x45 && header[2] == 0x53 && header[3]
        == 0x1A
}

/// The header that the first sixteen bytes of an iNES file describe. Flags 6 holds the
/// nametable arrangement (bit 0), the battery (bit 1), the trainer (bit 2), the
/// alternative nametable layout (bit 3) and the low nibble of the mapper number (high
/// nibble); flags 7 holds the high nibble of the mapper number (high nibble).
pub open spec fn spec_header(header: Seq<u8>) -> INESHeader {
    INESHeader {
        prg_rom_size: header[4] as usize,
        chr_rom_size: header[5] as usize,
        nametable_arrangement: if bit_of(header[6], 0) {
            NametableArrangement::Horizontal
        } else {
            NametableArrangement::Vertical
        },
        has_battery: bit_of(header[6], 1),
        has_trainer: bit_of(header[6], 2),
        use_alternative_nametable_layout: bit_of(header[6], 3),
        mapper_number: ((header[7] / 16) * 16 + header[6] / 16) as u8,
    }
}

pub open spec fn spec_parse_header(header: Seq<u8>) -> Result<INESHeader, InesParseError> {
    if header.len() < 16 {
        Err(InesParseError::HeaderTooShort { size: header.len() as usize })
    } else if !has_magic(header) {
        Err(InesParseError::InvalidHeader)
    } else {
        Ok(spec_header(header))
    }
}

impl<'a> TryFromSpecImpl<&'a [u8]> for INESHeader {
    open spec fn obeys_try_from_spec() -> bool {
        true
    }

    open spec fn try_from_spec(header: &'a [u8]) -> Result<INESHeader, InesParseError> {
        spec_parse_header(header@)
    }
}

impl<'a> TryFrom<&'a [u8]> for INESHeader {
    type Error = InesParseError;

    fn try_from(header: &'a [u8]) -> (r: Result<Self, Self::Error>) {
        if header.len() < 16 {
            return Err(InesParseError::HeaderTooShort { size: header.len() });
        }
        if !(header[0] == 0x4E && header[1] == 0x45 && header[2] == 0x53 && header[3] == 0x1A) {
            return Err(InesParseError::InvalidHeader);
        }
        let flags6 = header[6];
        let flags7 = header[7];
        proof {
            lemma_bit_masks(flags6);
        }
        assert((flags7 & 0xF0) | ((flags6 & 0xF0) >> 4) == (flags7 / 16) * 16 + flags6 / 16)
            by (bit_vector);
        Ok(
            INESHeader {
                prg_rom_size: header[4] as usize,
                chr_rom_size: header[5] as usize,
                nametable_arrangement: if header[6] & 0x01 == 0 {
                    NametableArrangement::Vertical
                } else {
                    NametableArrangement::Horizontal
                },
                has_battery: header[6] & 0x02 > 0,
                has_trainer: header[6] & 0x04 > 0,
                use_alternative_nametable_layout: header[6] & 0x08 > 0,
                mapper_number: (header[7] & 0xF0) | ((header[6] & 0xF0) >> 4),
            },
        )
    }
}

/// The bytes of an optional block.
pub open spec fn opt_bytes(o: Option<Vec<u8>>) -> Option<Seq<u8>> {
    match o {
        Some(v) => Some(v@),
        None => None,
    }
}

/// The size of the trainer block, which comes right after the header when present.
pub open spec fn trainer_len(h: INESHeader) -> int {
    if h.has_trainer {
        512
    } else {
        0
    }
}

/// The number of bytes that an iNES image with this header occupies: header, trainer,
/// PRG ROM (16 KiB units) and CHR ROM (8 KiB units). Bytes after them are not read.
pub open spec fn image_len(h: INESHeader) -> int {
    16 + trainer_len(h) + 16384 * h.prg_rom_size + 8192 * h.chr_rom_size
}

/// The image as its blocks: trainer, PRG ROM and CHR ROM in this order after the header.
pub open spec fn image_blocks_match(ines: INES, data: Seq<u8>) -> bool {
    let h = ines.header;
    let t = trainer_len(h);
    let p = 16384 * h.prg_rom_size;
    let c = 8192 * h.chr_rom_size;
    &&& ines.header == spec_header(data.subrange(0, 16))
    &&& opt_bytes(ines.trainer) == if h.has_trainer {
        Some(data.subrange(16, 16 + t))
    } else {
        None
    }
    &&& ines.prg_rom@ == data.subrange(16 + t, 16 + t + p)
    &&& opt_bytes(ines.chr_rom) == if c > 0 {
        Some(data.subrange(16 + t + p, 16 + t + p + c))
    } else {
        None
    }
    &&& ines.playchoice_inst_rom is None
    &&& ines.playchoice_prom is None
    &&& ines.prg_ram is None
}

/// A copy of `len` bytes of `data` from `start`.
fn copy_bytes(data: &[u8], start: usize, len: usize) -> (r: Vec<u8>)
    requires
        start + len <= data@.len(),
    ensures
        r@ == data@.subrange(start as int, start + len),
{
    let mut out: Vec<u8> = Vec::new();
    let mut i: usize = 0;
    while i < len
        invariant
            i <= len,
            start + len <= data.len(),
            out@ == data@.subrange(start as int, start + i),
        decreases len - i,
    {
        out.push(data[start + i]);
        i += 1;
        assert(out@ =~= data@.subrange(start as int, start + i));
    }
    out
}

/// Parses an iNES image held in memory. The blocks are read in order; when the data ends
/// before a block does, the error is the I/O error of reading past the end.
pub fn parse_rom(data: &[u8]) -> (r: Result<INES, InesParseError>)
    ensures
        data@.len() < 16 ==> (r matches Err(InesParseError::Io(_))),
        data@.len() >= 16 && !has_magic(data@) ==> (r matches Err(InesParseError::InvalidHeader)),
        data@.len() >= 16 && has_magic(data@) ==> ({
            let h = spec_header(data@.subrange(0, 16));
            &&& data@.len() < image_len(h) ==> (r matches Err(InesParseError::Io(_)))
            &&& data@.len() >= image_len(h) ==> (r matches Ok(ines) && image_blocks_match(
                ines,
                data@,
            ))
        }),
{
    if data.len() < 16 {
        return Err(InesParseError::Io(unexpected_end_of_file()));
    }
    let header = copy_bytes(data, 0, 16);
    let parsed_header = match INESHeader::try_from(header.as_slice()) {
        Ok(h) => h,
        Err(e) => {
            return Err(e);
        },
    };
    let mut offset: usize = 16;
    let trainer = if parsed_header.has_trainer {
        if data.len() - offset < 512 {
            return Err(InesParseError::Io(unexpected_end_of_file()));
        }
        let buf = copy_bytes(data, offset, 512);
        offset = offset + 512;
        Some(buf)
    } else {
        None
    };

    let prg_len = 16384 * parsed_header.prg_rom_size;
    if data.len() - offset < prg_len {
        return Err(InesParseError::Io(unexpected_end_of_file()));
    }
    let prg_rom = copy_bytes(data, offset, prg_len);
    offset = offset + prg_len;

    let chr_rom = if parsed_header.chr_rom_size > 0 {
        let chr_len = 8192 * parsed_header.chr_rom_size;
        if data.len() - offset < chr_len {
            return Err(InesParseError::Io(unexpected_end_of_file()));
        }
        Some(copy_bytes(data, offset, chr_len))
    } else {
        None
    };

    Ok(
        INES {
            header: parsed_header,
            trainer,
            prg_rom,
            chr_rom,
            playchoice_inst_rom: None,
            playchoice_prom: None,
            prg_ram: None,
        },
    )
}

} // verus!
