use vstd::prelude::*;
use vstd::string::StringExecFns;
use crate::mapper::{Cartridge, Cnrom, GameMemory, Nrom, Pirate225};

verus! {

pub const INES_HEADER_SIZE: usize = 0x10;
pub const INES_TRAINER_SIZE: usize = 0x0200;
pub const INES_PRG_ROM_CHUNK: usize = 0x4000;
pub const INES_PRG_RAM_CHUNK: usize = 0x2000;
pub const INES_CHR_ROM_CHUNK: usize = 0x2000;
pub const INES_CHR_RAM_SIZE: usize = 0x2000;
pub const INES_BAT_RAM_SIZE: usize = 0x2000;

pub const NES2_SIGN_MASK: u8 = 0xC0;
pub const NES2_SIGNATURE: u8 = 0x80;

pub const FLAGS_VMIRROR: u8 = 0x01;
pub const FLAGS_BATTERY: u8 = 0x02;
pub const FLAGS_TRAINER: u8 = 0x04;
pub const FLAGS_4SCREEN: u8 = 0x08;

/// The fields of an iNES header that the emulator uses.
pub struct Header {
    pub mapper: u16,
    pub flags: u8,
    pub prg_rom_size: usize,
    pub prg_ram_size: usize,
    pub prg_bat_size: usize,
    pub chr_rom_size: usize,
    pub chr_ram_size: usize,
    pub chr_bat_size: usize,
}

/// The iNES signature "NES" followed by MS-DOS end of file.
pub open spec fn has_signature(rom: Seq<u8>) -> bool {
    rom.len() >= 4 && rom[0] == 0x4E && rom[1] == 0x45 && rom[2] == 0x53 && rom[3] == 0x1A
}

/// The header that the first sixteen bytes of a ROM image describe: the mapper number
/// from the high nibbles of bytes 6 and 7, the flags from their low nibbles, and the
/// memory sizes in their units; PRG RAM defaults to 8 KiB, and CHR RAM of 8 KiB is
/// assumed when there is no CHR ROM.
pub open spec fn header_of(h: Seq<u8>) -> Header {
    let flags = (h[6] % 16 + (h[7] % 16) * 16) as u8;
    Header {
        mapper: (h[6] / 16 + (h[7] / 16) * 16) as u16,
        flags: flags,
        prg_rom_size: (h[4] * INES_PRG_ROM_CHUNK) as usize,
        prg_ram_size: if h[8] == 0 {
            INES_PRG_RAM_CHUNK
        } else {
            (h[8] * INES_PRG_RAM_CHUNK) as usize
        },
        prg_bat_size: if flags & FLAGS_BATTERY != 0 {
            INES_BAT_RAM_SIZE
        } else {
            0
        },
        chr_rom_size: (h[5] * INES_CHR_ROM_CHUNK) as usize,
        chr_ram_size: if h[5] == 0 {
            INES_CHR_RAM_SIZE
        } else {
            0
        },
        chr_bat_size: 0,
    }
}

/// The decimal digits of `n`.
pub open spec fn decimal(n: nat) -> Seq<char>
    decreases n,
{
    if n < 10 {
        seq![(48 + n) as char]
    } else {
        decimal(n / 10) + seq![(48 + n % 10) as char]
    }
}

fn digit_str(d: u16) -> (r: &'static str)
    requires
        d < 10,
    ensures
        r@ == seq![(48 + d) as char],
{
    match d {
        0 => {
            proof {
                reveal_strlit("0");
            }
            "0"
        },
        1 => {
            proof {
                reveal_strlit("1");
            }
            "1"
        },
        2 => {
            proof {
                reveal_strlit("2");
            }
            "2"
        },
        3 => {
            proof {
                reveal_strlit("3");
            }
            "3"
        },
        4 => {
            proof {
                reveal_strlit("4");
            }
            "4"
        },
        5 => {
            proof {
                reveal_strlit("5");
            }
            "5"
        },
        6 => {
            proof {
                reveal_strlit("6");
            }
            "6"
        },
        7 => {
            proof {
                reveal_strlit("7");
            }
            "7"
        },
        8 => {
            proof {
                reveal_strlit("8");
            }
            "8"
        },
        _ => {
            proof {
                reveal_strlit("9");
            }
            "9"
        },
    }
}

/// Appends `n` in decimal.
pub fn push_decimal(out: &mut String, n: u16)
    ensures
        final(out)@ == old(out)@ + decimal(n as nat),
    decreases n,
{
    if n >= 10 {
        push_decimal(out, n / 10);
    }
    out.append(digit_str(n % 10));
    assert(final(out)@ =~= old(out)@ + decimal(n as nat));
}

/// Copies `len` bytes of `rom` from `start` on.
fn copy_range(rom: &[u8], start: usize, len: usize) -> (r: Vec<u8>)
    requires
        start + len <= rom@.len(),
    ensures
        r@ == rom@.subrange(start as int, start + len),
{
    let mut v: Vec<u8> = Vec::new();
    let n = rom.len();
    let mut i: usize = 0;
    while i < len
        invariant
            n == rom@.len(),
            i <= len,
            start + len <= rom@.len(),
            v@ == rom@.subrange(start as int, start + i),
        decreases len - i,
    {
        v.push(rom[start + i]);
        i = i + 1;
        assert(v@ =~= rom@.subrange(start as int, start + i));
    }
    v
}

impl Header {
    /// Reads the header at the start of a ROM image.
    pub fn load_rom(rom: &[u8]) -> (r: Result<Header, String>)
        ensures
            rom@.len() < INES_HEADER_SIZE ==> (r matches Err(e) && e@ == "Couldn't read ROM header"@),
            rom@.len() >= INES_HEADER_SIZE && !has_signature(rom@) ==> (r matches Err(e) && e@
                == "Invalid iNES Header"@),
            rom@.len() >= INES_HEADER_SIZE && has_signature(rom@) ==> (r matches Ok(h) && h
                == header_of(rom@)),
    {
        if rom.len() < INES_HEADER_SIZE {
            return Err(String::from_str("Couldn't read ROM header"));
        }
        if !(rom[0] == 0x4E && rom[1] == 0x45 && rom[2] == 0x53 && rom[3] == 0x1A) {
            return Err(String::from_str("Invalid iNES Header"));
        }
        let h6 = rom[6];
        let h7 = rom[7];
        // The mapper number is split in the high nibbles of bytes 6 and 7, the flags
        // in their low nibbles.
        let mapper = (h6 / 16 + (h7 / 16) * 16) as u16;
        let flags = h6 % 16 + (h7 % 16) * 16;
        let prg_rom_size = rom[4] as usize * INES_PRG_ROM_CHUNK;
        let mut prg_ram_size = rom[8] as usize * INES_PRG_RAM_CHUNK;
        let mut prg_bat_size: usize = 0;
        let chr_rom_size = rom[5] as usize * INES_CHR_ROM_CHUNK;
        let mut chr_ram_size: usize = 0;
        // Only one game is known to have battery backed chr ram
        let chr_bat_size: usize = 0;
        if flags & FLAGS_BATTERY > 0 {
            prg_bat_size = INES_BAT_RAM_SIZE;
        }
        // PRG RAM size was later added on iNES, it was 8KiB by default
        if prg_ram_size == 0 {
            prg_ram_size = INES_PRG_RAM_CHUNK;
        }
        // iNES doesn't specify CHR RAM size, we asume 8KiB if there is no ROM
        if chr_rom_size == 0 {
            chr_ram_size = INES_CHR_RAM_SIZE;
        }
        Ok(
            Header {
                mapper: mapper,
                flags: flags,
                prg_rom_size: prg_rom_size,
                prg_ram_size: prg_ram_size,
                prg_bat_size: prg_bat_size,
                chr_rom_size: chr_rom_size,
                chr_ram_size: chr_ram_size,
                chr_bat_size: chr_bat_size,
            },
        )
    }

    /// An iNES 2.0 header, whose extra fields are not read.
    pub fn is_nes2(&self) -> (r: bool)
        ensures
            r == (self.flags & NES2_SIGN_MASK == NES2_SIGNATURE),
    {
        self.flags & NES2_SIGN_MASK == NES2_SIGNATURE
    }

    /// Where the PRG ROM starts: after the header and the trainer, if any.
    pub open spec fn data_offset(&self) -> int {
        INES_HEADER_SIZE + if self.flags & FLAGS_TRAINER != 0 {
            INES_TRAINER_SIZE
        } else {
            0
        }
    }

    /// Whether the image holds the PRG and the CHR ROM that the header announces.
    pub open spec fn data_present(&self, rom: Seq<u8>) -> bool {
        self.data_offset() + self.prg_rom_size + self.chr_rom_size <= rom.len()
    }

    /// Whether `g` holds the cartridge memories of the image: the PRG ROM after the
    /// header (and the trainer), the CHR ROM after it, zeroed RAMs of the sizes the header
    /// gives, and the mirroring flags.
    pub open spec fn memory_of(&self, g: GameMemory, rom: Seq<u8>) -> bool {
        let start = self.data_offset();
        &&& g.prg_rom@ == rom.subrange(start, start + self.prg_rom_size)
        &&& g.chr_rom@ == rom.subrange(
            start + self.prg_rom_size,
            start + self.prg_rom_size + self.chr_rom_size,
        )
        &&& g.prg_ram@ == Seq::new(self.prg_ram_size as nat, |i: int| 0u8)
        &&& g.prg_bat@ == Seq::new(self.prg_bat_size as nat, |i: int| 0u8)
        &&& g.chr_ram@ == Seq::new(self.chr_ram_size as nat, |i: int| 0u8)
        &&& g.chr_bat@ == Seq::new(self.chr_bat_size as nat, |i: int| 0u8)
        &&& g.vmirror == (self.flags & FLAGS_VMIRROR != 0)
        &&& g.screen4 == (self.flags & FLAGS_4SCREEN != 0)
    }

    /// The cartridge memories: the PRG ROM after the header (and the trainer), the CHR
    /// ROM after it, and zeroed RAMs of the sizes the header gives.
    pub fn get_game_memory(&self, rom: &[u8]) -> (r: Result<GameMemory, String>)
        ensures
            !self.data_present(rom@) ==> (r matches Err(e) && e@ == "Couldn't read ROM data"@),
            self.data_present(rom@) ==> (r matches Ok(g) && self.memory_of(g, rom@)),
    {
        let mut offset = INES_HEADER_SIZE;
        if self.flags & FLAGS_TRAINER > 0 {
            offset = offset + INES_TRAINER_SIZE;
        }
        if rom.len() < offset || rom.len() - offset < self.prg_rom_size || rom.len() - offset
            - self.prg_rom_size < self.chr_rom_size {
            return Err(String::from_str("Couldn't read ROM data"));
        }
        let prg_rom = copy_range(rom, offset, self.prg_rom_size);
        let chr_rom = copy_range(rom, offset + self.prg_rom_size, self.chr_rom_size);
        let prg_ram = vec![0u8; self.prg_ram_size];
        let prg_bat = vec![0u8; self.prg_bat_size];
        let chr_ram = vec![0u8; self.chr_ram_size];
        let chr_bat = vec![0u8; self.chr_bat_size];
        assert(prg_ram@ =~= Seq::new(self.prg_ram_size as nat, |i: int| 0u8));
        assert(prg_bat@ =~= Seq::new(self.prg_bat_size as nat, |i: int| 0u8));
        assert(chr_ram@ =~= Seq::new(self.chr_ram_size as nat, |i: int| 0u8));
        assert(chr_bat@ =~= Seq::new(self.chr_bat_size as nat, |i: int| 0u8));
        Ok(
            GameMemory {
                prg_rom: prg_rom,
                prg_ram: prg_ram,
                prg_bat: prg_bat,
                chr_rom: chr_rom,
                chr_ram: chr_ram,
                chr_bat: chr_bat,
                vmirror: self.flags & FLAGS_VMIRROR > 0,
                screen4: self.flags & FLAGS_4SCREEN > 0,
            },
        )
    }

    /// The mappers known: 0 (NROM), 3 (CNROM) and 225.
    pub open spec fn known_mapper(mapper: u16) -> bool {
        mapper == 0 || mapper == 3 || mapper == 225
    }

    /// The cartridge for the ROM image: its memories behind the mapper that the header
    /// names.
    pub fn get_mapper(&mut self, rom: &[u8]) -> (r: Result<Box<Cartridge>, String>)
        ensures
            *final(self) == *old(self),
            !old(self).data_present(rom@) ==> (r matches Err(e) && e@ == "Couldn't read ROM data"@),
            old(self).data_present(rom@) && !Self::known_mapper(old(self).mapper) ==> (r matches Err(
                e,
            ) && e@ == "Unrecognized Mapper "@ + decimal(old(self).mapper as nat)),
            old(self).data_present(rom@) && Self::known_mapper(old(self).mapper) ==> (r matches Ok(
                c,
            ) && old(self).memory_of(c.game_memory(), rom@) && match *c {
                Cartridge::Nrom(m) => old(self).mapper == 0,
                Cartridge::Cnrom(m) => old(self).mapper == 3 && m.bank == 0,
                Cartridge::Pirate225(m) => old(self).mapper == 225 && m.chr_bank == 0
                    && m.prg_bank == 0 && m.prg_small == 0,
            }),
    {
        let mem = match self.get_game_memory(rom) {
            Ok(mem) => mem,
            Err(_) => {
                return Err(String::from_str("Couldn't read ROM data"));
            },
        };
        if self.mapper == 0 {
            Ok(Nrom::new_boxed(mem))
        } else if self.mapper == 3 {
            Ok(Cnrom::new_boxed(mem))
        } else if self.mapper == 225 {
            Ok(Pirate225::new_boxed(mem))
        } else {
            let mut e = String::from_str("Unrecognized Mapper ");
            push_decimal(&mut e, self.mapper);
            Err(e)
        }
    }
}

} // verus!
