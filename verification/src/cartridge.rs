//! The cartridge image: a 16-byte header, an optional trainer, the program
//! banks and the character banks, with nothing after them.
use vstd::prelude::*;
use vstd::slice::{slice_subrange, slice_to_vec};
use crate::common::{Device, MirroringMode};

verus! {

pub const HEADER_LEN: usize = 16;
pub const TRAINER_LEN: usize = 512;
pub const PRG_BANK_LEN: usize = 16384;
pub const CHR_BANK_LEN: usize = 8192;

/// The highest mapper number that is implemented.
pub const LAST_MAPPER: u8 = 4;

#[derive(Clone, Copy, Debug, PartialEq, Eq, Structural)]
pub enum CartridgeError {
    /// The image ends before the data that its header announces.
    FileError,
    /// The image does not start with the format's four magic bytes.
    HeaderError,
    /// The image goes on for this many bytes after its last bank.
    TooLargeFile(u64),
    /// The header names a mapper that is not implemented.
    MapperNotImplemented(u8),
}

#[derive(Clone, Copy, Debug, PartialEq, Eq, Structural)]
pub enum MapperKind {
    Mapper0,
    Mapper1,
    Mapper2,
    Mapper3,
    Mapper4,
}

/// Which bank-switching circuit the cartridge carries, and the bank counts
/// that it was set up with.
#[derive(Clone, Copy, Debug, PartialEq, Eq, Structural)]
pub struct Mapper {
    pub kind: MapperKind,
    pub prg_count: u8,
    pub chr_count: u8,
}

pub struct Cartridge {
    pub size_prg: u8,
    pub size_chr: u8,
    pub mapper_id: u8,
    pub mirroring_vertical: bool,
    pub contain_sram: bool,
    pub contain_trainer: bool,
    pub use_4_screen_mirroring: bool,
    pub vs_unisystem: bool,
    pub playchoice_10_hint: bool,
    pub is_nes_2: bool,
    pub trainer_data: Vec<u8>,
    pub prg_data: Vec<u8>,
    pub chr_data: Vec<u8>,
    pub mapper: Mapper,
}

/// The four bytes that every image starts with: "NES" and end-of-file.
pub open spec fn magic() -> Seq<u8> {
    seq![0x4Eu8, 0x45u8, 0x53u8, 0x1Au8]
}

/// The mapper number, from the high halves of the two flag bytes.
pub open spec fn mapper_id_of(flags_6: u8, flags_7: u8) -> u8 {
    (flags_7 >> 4) << 4 | (flags_6 >> 4)
}

/// The circuit with the number `id`.
pub open spec fn kind_of(id: u8) -> MapperKind
    recommends
        id <= LAST_MAPPER,
{
    if id == 0 {
        MapperKind::Mapper0
    } else if id == 1 {
        MapperKind::Mapper1
    } else if id == 2 {
        MapperKind::Mapper2
    } else if id == 3 {
        MapperKind::Mapper3
    } else {
        MapperKind::Mapper4
    }
}

/// The length of the trainer that the header of `data` announces.
pub open spec fn trainer_len(data: Seq<u8>) -> int
    recommends
        data.len() >= HEADER_LEN,
{
    if (data[6] >> 2) & 1 != 0 {
        TRAINER_LEN as int
    } else {
        0
    }
}

/// Where the program banks end.
pub open spec fn prg_end(data: Seq<u8>) -> int
    recommends
        data.len() >= HEADER_LEN,
{
    HEADER_LEN + trainer_len(data) + data[4] * PRG_BANK_LEN
}

/// The length of an image with the header of `data`.
pub open spec fn image_len(data: Seq<u8>) -> int
    recommends
        data.len() >= HEADER_LEN,
{
    prg_end(data) + data[5] * CHR_BANK_LEN
}

/// What is wrong with the image `data`, the first fault in reading order,
/// or `None` for a sound one.
pub open spec fn image_error(data: Seq<u8>) -> Option<CartridgeError> {
    if data.len() < HEADER_LEN {
        Some(CartridgeError::FileError)
    } else if data.subrange(0, 4) != magic() {
        Some(CartridgeError::HeaderError)
    } else if mapper_id_of(data[6], data[7]) > LAST_MAPPER {
        Some(CartridgeError::MapperNotImplemented(mapper_id_of(data[6], data[7])))
    } else if data.len() < image_len(data) {
        Some(CartridgeError::FileError)
    } else if data.len() > image_len(data) {
        Some(CartridgeError::TooLargeFile((data.len() - image_len(data)) as u64))
    } else {
        None
    }
}

/// `n` zero bytes.
pub open spec fn zeros(n: nat) -> Seq<u8> {
    Seq::new(n, |i: int| 0u8)
}

fn zeroed(n: usize) -> (bytes: Vec<u8>)
    ensures
        bytes@ == zeros(n as nat),
{
    let mut bytes: Vec<u8> = Vec::new();
    while bytes.len() < n
        invariant
            bytes.len() <= n,
            forall|i: int| 0 <= i < bytes.len() ==> bytes[i] == 0,
        decreases n - bytes.len(),
    {
        bytes.push(0);
    }
    assert(bytes@ =~= zeros(n as nat));
    bytes
}

impl Cartridge {
    /// Whether `self` holds what the image `data` says: the header's fields,
    /// the three stretches of data, with one zeroed bank of character memory
    /// where the image brings none, and the mapper set up with the bank
    /// counts.
    pub open spec fn decodes(self, data: Seq<u8>) -> bool
        recommends
            image_error(data) is None,
    {
        &&& self.size_prg == data[4]
        &&& self.size_chr == data[5]
        &&& self.mirroring_vertical == (data[6] & 1 != 0)
        &&& self.contain_sram == ((data[6] >> 1) & 1 != 0)
        &&& self.contain_trainer == ((data[6] >> 2) & 1 != 0)
        &&& self.use_4_screen_mirroring == ((data[6] >> 3) & 1 != 0)
        &&& self.vs_unisystem == (data[7] & 1 != 0)
        &&& self.playchoice_10_hint == ((data[7] >> 1) & 1 != 0)
        &&& self.is_nes_2 == ((data[7] >> 2) & 0b11 == 2)
        &&& self.mapper_id == mapper_id_of(data[6], data[7])
        &&& self.trainer_data@ == data.subrange(
            HEADER_LEN as int,
            HEADER_LEN + trainer_len(data),
        )
        &&& self.prg_data@ == data.subrange(HEADER_LEN + trainer_len(data), prg_end(data))
        &&& self.chr_data@ == if data[5] != 0 {
            data.subrange(prg_end(data), image_len(data))
        } else {
            zeros(CHR_BANK_LEN as nat)
        }
        &&& self.mapper == (Mapper {
            kind: kind_of(self.mapper_id),
            prg_count: data[4],
            chr_count: data[5],
        })
    }

    /// Reads a cartridge from the bytes of an image file.
    pub fn from_bytes(data: &[u8]) -> (result: Result<Cartridge, CartridgeError>)
        ensures
            match result {
                Ok(cartridge) => image_error(data@) is None && cartridge.decodes(data@),
                Err(error) => image_error(data@) == Some(error),
            },
    {
        if data.len() < HEADER_LEN {
            return Err(CartridgeError::FileError);
        }
        match Self::check_magic(slice_subrange(data, 0, 4)) {
            Ok(()) => {},
            Err(error) => {
                return Err(error);
            },
        }
        let size_prg: u8 = data[4];
        let size_chr: u8 = data[5];
        let flags_6: u8 = data[6];
        let flags_7: u8 = data[7];
        let mapper_id: u8 = (flags_7 >> 4) << 4 | (flags_6 >> 4);
        if mapper_id > LAST_MAPPER {
            return Err(CartridgeError::MapperNotImplemented(mapper_id));
        }
        let mapper: Mapper = Self::get_mapper(mapper_id, size_prg, size_chr);
        let contain_trainer: bool = (flags_6 >> 2) & 1 != 0;
        let trainer_end: usize = if contain_trainer { HEADER_LEN + TRAINER_LEN } else { HEADER_LEN };
        let prg_end: usize = trainer_end + (size_prg as usize) * PRG_BANK_LEN;
        let chr_end: usize = prg_end + (size_chr as usize) * CHR_BANK_LEN;
        if data.len() < chr_end {
            return Err(CartridgeError::FileError);
        }
        if data.len() > chr_end {
            return Err(CartridgeError::TooLargeFile((data.len() - chr_end) as u64));
        }
        let trainer_data: Vec<u8> = slice_to_vec(slice_subrange(data, HEADER_LEN, trainer_end));
        let prg_data: Vec<u8> = slice_to_vec(slice_subrange(data, trainer_end, prg_end));
        let chr_data: Vec<u8> = if size_chr != 0 {
            slice_to_vec(slice_subrange(data, prg_end, chr_end))
        } else {
            zeroed(CHR_BANK_LEN)
        };
        Ok(
            Cartridge {
                size_prg,
                size_chr,
                mapper_id,
                mirroring_vertical: flags_6 & 1 != 0,
                contain_sram: (flags_6 >> 1) & 1 != 0,
                contain_trainer,
                use_4_screen_mirroring: (flags_6 >> 3) & 1 != 0,
                vs_unisystem: flags_7 & 1 != 0,
                playchoice_10_hint: (flags_7 >> 1) & 1 != 0,
                is_nes_2: (flags_7 >> 2) & 0b11 == 2,
                trainer_data,
                prg_data,
                chr_data,
                mapper,
            },
        )
    }

    pub fn is_vertical_mirroring(&self) -> (vertical: bool)
        ensures
            vertical == self.mirroring_vertical,
    {
        self.mirroring_vertical
    }

    /// Accepts the four magic bytes and nothing else.
    pub fn check_magic(header: &[u8]) -> (result: Result<(), CartridgeError>)
        ensures
            result == if header@ == magic() {
                Ok::<(), CartridgeError>(())
            } else {
                Err::<(), CartridgeError>(CartridgeError::HeaderError)
            },
    {
        if header.len() == 4 && header[0] == 0x4E && header[1] == 0x45 && header[2] == 0x53
            && header[3] == 0x1A {
            assert(header@ =~= magic());
            Ok(())
        } else {
            assert(header@ != magic()) by {
                if header@ == magic() {
                    assert(magic().len() == 4);
                    assert(magic()[0] == 0x4E && magic()[1] == 0x45 && magic()[2] == 0x53
                        && magic()[3] == 0x1A);
                }
            }
            Err(CartridgeError::HeaderError)
        }
    }

    /// The mapper with the number `mapper_id`, set up with the bank counts.
    pub fn get_mapper(mapper_id: u8, prg_count: u8, chr_count: u8) -> (mapper: Mapper)
        requires
            mapper_id <= LAST_MAPPER,
        ensures
            mapper == (Mapper { kind: kind_of(mapper_id), prg_count, chr_count }),
    {
        let kind: MapperKind = match mapper_id {
            0 => MapperKind::Mapper0,
            1 => MapperKind::Mapper1,
            2 => MapperKind::Mapper2,
            3 => MapperKind::Mapper3,
            _ => MapperKind::Mapper4,
        };
        Mapper { kind, prg_count, chr_count }
    }

    /// Whether the character memory is writable: it is where the image
    /// brought no character bank.
    pub fn is_chr_ram(&self) -> (ram: bool)
        ensures
            ram == (self.size_chr == 0),
    {
        self.size_chr == 0
    }

    /// The byte at `address`, an offset that the mapper has already mapped
    /// into the program data for the CPU and into the character data for the
    /// PPU.
    pub fn read(&self, address: usize, device: Device) -> (value: u8)
        requires
            device == Device::CPU ==> address < self.prg_data@.len(),
            device == Device::PPU ==> address < self.chr_data@.len(),
        ensures
            value == match device {
                Device::CPU => self.prg_data@[address as int],
                Device::PPU => self.chr_data@[address as int],
            },
    {
        match device {
            Device::CPU => self.prg_data[address],
            Device::PPU => self.chr_data[address],
        }
    }

    /// Whether a write changes the data: only the PPU writes, and only to
    /// character memory that is RAM.
    pub open spec fn writable(self, device: Device) -> bool {
        device == Device::PPU && self.size_chr == 0
    }

    /// Stores `data` at `address` where the memory is writable; program data
    /// is read-only, and so are character banks that the image brought.
    pub fn write(&mut self, address: u16, data: u8, device: Device)
        requires
            old(self).writable(device) ==> address < old(self).chr_data@.len(),
        ensures
            final(self).chr_data@ == if old(self).writable(device) {
                old(self).chr_data@.update(address as int, data)
            } else {
                old(self).chr_data@
            },
            final(self).prg_data@ == old(self).prg_data@,
            final(self).trainer_data@ == old(self).trainer_data@,
            final(self).size_prg == old(self).size_prg,
            final(self).size_chr == old(self).size_chr,
            final(self).mapper_id == old(self).mapper_id,
            final(self).mapper == old(self).mapper,
            final(self).mirroring_vertical == old(self).mirroring_vertical,
            final(self).use_4_screen_mirroring == old(self).use_4_screen_mirroring,
    {
        match device {
            Device::CPU => {},
            Device::PPU => {
                if self.is_chr_ram() {
                    self.chr_data.set(address as usize, data);
                }
            },
        }
    }

    /// The mirroring in force: four-screen where the header asks for it;
    /// else the header's own where the mapper's mirroring is hardwired, and
    /// the mapper's where it is not.
    pub fn mirroring_mode(&self, hardwired: bool, mapper_mode: MirroringMode) -> (mode:
        MirroringMode)
        ensures
            mode == if self.use_4_screen_mirroring {
                MirroringMode::FourScreen
            } else if !hardwired {
                mapper_mode
            } else if self.mirroring_vertical {
                MirroringMode::Vertical
            } else {
                MirroringMode::Horizontal
            },
    {
        if self.use_4_screen_mirroring {
            MirroringMode::FourScreen
        } else if hardwired {
            if self.mirroring_vertical {
                MirroringMode::Vertical
            } else {
                MirroringMode::Horizontal
            }
        } else {
            mapper_mode
        }
    }
}

} // verus!
