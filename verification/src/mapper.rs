use vstd::prelude::*;

verus! {

pub const VRAM_SIZE: usize = 0x800;
pub const NT_SIZE: usize = 0x400;

/// Index into the 2 KiB of nametable RAM under horizontal mirroring:
/// the first two nametables share the first KiB, the last two the second.
pub open spec fn hmirror_spec(address: int) -> int {
    (address / 0x800) % 2 * 0x400 + address % 0x400
}

/// Index into the 2 KiB of nametable RAM under vertical mirroring:
/// nametables 0 and 2 share the first KiB, 1 and 3 the second.
pub open spec fn vmirror_spec(address: int) -> int {
    address % 0x800
}

pub open spec fn nametable_index(vertical: bool, address: int) -> int {
    if vertical { vmirror_spec(address) } else { hmirror_spec(address) }
}

/// Masking never gives more than the mask.
proof fn lemma_masked_le(a: usize, mask: usize)
    ensures
        a & mask <= mask,
{
    assert(a & mask <= mask) by (bit_vector);
}

pub fn hmirror(address: usize) -> (r: usize)
    ensures
        r == hmirror_spec(address as int),
        r < VRAM_SIZE,
{
    // Bit 11 of the address selects the KiB, bits 0-9 the offset in it.
    (address / 0x800) % 2 * NT_SIZE + address % NT_SIZE
}

pub fn vmirror(address: usize) -> (r: usize)
    ensures
        r == vmirror_spec(address as int),
        r < VRAM_SIZE,
{
    address % VRAM_SIZE
}

/// The memories of a cartridge, as read from a ROM image.
pub struct GameMemory {
    pub prg_rom: Vec<u8>,
    pub prg_ram: Vec<u8>,
    pub prg_bat: Vec<u8>,
    pub chr_rom: Vec<u8>,
    pub chr_ram: Vec<u8>,
    pub chr_bat: Vec<u8>,
    pub vmirror: bool,
    pub screen4: bool,
}

impl GameMemory {
    /// What a PPU read gives: nametable RAM above 0x2000, else CHR ROM from `bank` on.
    pub open spec fn chr_read(&self, vram: Seq<u8>, address: u16, bank: int) -> u8 {
        if address >= 0x2000 {
            vram[nametable_index(self.vmirror, address as int)]
        } else {
            self.chr_rom@[bank + address]
        }
    }

    /// Nametable RAM after a PPU write; CHR ROM cannot be written.
    pub open spec fn chr_written(&self, vram: [u8; 0x800], address: u16, value: u8) -> [u8; 0x800] {
        if address >= 0x2000 {
            vstd::array::spec_array_update(vram, nametable_index(self.vmirror, address as int), value)
        } else {
            vram
        }
    }

    /// PRG ROM is mirrored over the CPU window by masking with its length minus one.
    pub open spec fn prg_index(&self, address: u16) -> int {
        (address as usize & (self.prg_rom.len() - 1) as usize) as int
    }

    pub open spec fn prg_read(&self, address: u16, bank: int) -> u8 {
        self.prg_rom@[bank + self.prg_index(address)]
    }

    fn chr_load(&self, vram: &[u8; 0x800], addr: u16, bank: usize) -> (r: u8)
        requires
            addr < 0x2000 ==> bank + addr < self.chr_rom.len(),
        ensures
            r == self.chr_read(vram@, addr, bank as int),
    {
        let addr = addr as usize;
        if addr >= 0x2000 {
            vram[if self.vmirror { vmirror(addr) } else { hmirror(addr) }]
        } else {
            self.chr_rom[bank + addr]
        }
    }

    fn chr_store(&self, vram: &mut [u8; 0x800], addr: u16, value: u8)
        ensures
            *final(vram) == self.chr_written(*old(vram), addr, value),
    {
        let addr = addr as usize;
        if addr >= 0x2000 {
            let i = if self.vmirror { vmirror(addr) } else { hmirror(addr) };
            vram[i] = value;
        }
    }

    fn prg_load(&self, addr: u16, bank: usize) -> (r: u8)
        requires
            self.prg_rom.len() > 0,
            bank + self.prg_rom.len() - 1 < self.prg_rom.len() || bank == 0,
        ensures
            r == self.prg_read(addr, bank as int),
    {
        let mask = self.prg_rom.len() - 1;
        let i = addr as usize & mask;
        proof {
            lemma_masked_le(addr as usize, mask);
        }
        self.prg_rom[bank + i]
    }
}

/// A cartridge whose every PRG read can be served serves the read of any address.
pub broadcast proof fn lemma_prg_ok_readable(c: Cartridge, address: u16)
    requires
        c.prg_ok(),
    ensures
        #[trigger] c.prg_readable(address),
{
    if let Cartridge::Pirate225(m) = c {
        lemma_masked_le(address as usize, Pirate225::prg_mask(m.prg_small));
    }
}

/// Bank switching of a cartridge: what the CPU and the PPU see of it.
pub trait Mapper: Sized {
    /// Every address that a read can reach lies inside the ROMs.
    spec fn wf(&self) -> bool;

    /// The selected CHR bank lies inside the CHR ROM, so that every read of the
    /// pattern tables can be served.
    spec fn chr_ok(&self) -> bool;

    /// A CPU read of `address` (from 0x4020 on) lies inside the PRG ROM.
    spec fn prg_readable(&self, address: u16) -> bool;

    /// Every CPU read lies inside the PRG ROM, whatever bank a later write selects.
    spec fn prg_ok(&self) -> bool;

    spec fn chr_read(&self, vram: Seq<u8>, address: u16) -> u8;

    spec fn chr_written(&self, vram: [u8; 0x800], address: u16, value: u8) -> [u8; 0x800];

    spec fn prg_read(&self, address: u16) -> u8;

    spec fn prg_written(&self, address: u16, value: u8) -> Self;

    fn chr_load(&mut self, vram: &[u8; 0x800], address: u16) -> (r: u8)
        requires
            old(self).chr_ok() || address >= 0x2000,
        ensures
            r == old(self).chr_read(vram@, address),
            *final(self) == *old(self),
    ;

    fn chr_store(&mut self, vram: &mut [u8; 0x800], address: u16, value: u8)
        ensures
            *final(vram) == old(self).chr_written(*old(vram), address, value),
            *final(self) == *old(self),
    ;

    fn prg_load(&mut self, address: u16) -> (r: u8)
        requires
            old(self).prg_readable(address),
        ensures
            r == old(self).prg_read(address),
            *final(self) == *old(self),
    ;

    fn prg_store(&mut self, address: u16, value: u8)
        ensures
            *final(self) == old(self).prg_written(address, value),
            old(self).wf() ==> final(self).wf(),
            old(self).prg_ok() ==> final(self).prg_ok(),
    ;
}

/// Mapper 0: fixed PRG and CHR.
pub struct Nrom(pub GameMemory);

/// Mapper 3: fixed PRG, four switchable 8 KiB CHR banks.
pub struct Cnrom {
    pub mem: GameMemory,
    pub bank: usize,
}

/// Mapper 225: multicart with switchable PRG (16 or 32 KiB) and 8 KiB CHR banks.
pub struct Pirate225 {
    pub mem: GameMemory,
    pub chr_bank: usize,
    pub prg_bank: usize,
    pub prg_small: usize,
}

/// A cartridge with one of the supported mappers.
pub enum Cartridge {
    Nrom(Nrom),
    Cnrom(Cnrom),
    Pirate225(Pirate225),
}

impl Nrom {
    pub fn new_boxed(mem: GameMemory) -> (r: Box<Cartridge>)
        ensures
            *r == Cartridge::Nrom(Nrom(mem)),
    {
        Box::new(Cartridge::Nrom(Nrom(mem)))
    }
}

impl Cnrom {
    pub fn new_boxed(mem: GameMemory) -> (r: Box<Cartridge>)
        ensures
            *r == Cartridge::Cnrom(Cnrom { mem: mem, bank: 0 }),
    {
        Box::new(Cartridge::Cnrom(Cnrom { mem: mem, bank: 0 }))
    }
}

impl Pirate225 {
    pub fn new_boxed(mem: GameMemory) -> (r: Box<Cartridge>)
        ensures
            *r == Cartridge::Pirate225(
                Pirate225 { mem: mem, chr_bank: 0, prg_bank: 0, prg_small: 0 },
            ),
    {
        Box::new(Cartridge::Pirate225(Pirate225 { mem: mem, chr_bank: 0, prg_bank: 0, prg_small: 0 }))
    }

    /// The PRG window is 32 KiB, or 16 KiB mirrored when `prg_small` is set.
    pub open spec fn prg_mask(prg_small: usize) -> usize {
        if prg_small == 0 {
            0x7FFF
        } else {
            0x3FFF
        }
    }

    fn window_mask(prg_small: usize) -> (r: usize)
        requires
            prg_small <= 1,
        ensures
            r == Self::prg_mask(prg_small),
    {
        assert(0x7FFFusize >> prg_small == if prg_small == 0 { 0x7FFFusize } else { 0x3FFFusize })
            by (bit_vector)
            requires
                prg_small <= 1,
        ;
        0x7FFF >> prg_small
    }
}

impl Mapper for Nrom {
    open spec fn wf(&self) -> bool {
        self.0.prg_rom.len() > 0 && self.0.chr_rom.len() >= 0x2000
    }

    open spec fn chr_ok(&self) -> bool {
        self.0.chr_rom.len() >= 0x2000
    }

    open spec fn prg_readable(&self, address: u16) -> bool {
        self.0.prg_rom.len() > 0
    }

    open spec fn prg_ok(&self) -> bool {
        self.0.prg_rom.len() > 0
    }

    open spec fn chr_read(&self, vram: Seq<u8>, address: u16) -> u8 {
        self.0.chr_read(vram, address, 0)
    }

    open spec fn chr_written(&self, vram: [u8; 0x800], address: u16, value: u8) -> [u8; 0x800] {
        self.0.chr_written(vram, address, value)
    }

    open spec fn prg_read(&self, address: u16) -> u8 {
        self.0.prg_read(address, 0)
    }

    open spec fn prg_written(&self, address: u16, value: u8) -> Self {
        *self
    }

    fn chr_load(&mut self, vram: &[u8; 0x800], address: u16) -> (r: u8) {
        self.0.chr_load(vram, address, 0)
    }

    fn chr_store(&mut self, vram: &mut [u8; 0x800], address: u16, value: u8) {
        self.0.chr_store(vram, address, value);
    }

    fn prg_load(&mut self, address: u16) -> (r: u8) {
        self.0.prg_load(address, 0)
    }

    fn prg_store(&mut self, _address: u16, _value: u8) {
    }
}

impl Mapper for Cnrom {
    open spec fn wf(&self) -> bool {
        &&& self.mem.prg_rom.len() > 0
        &&& self.mem.chr_rom.len() >= 0x8000
        &&& self.bank % 0x2000 == 0
        &&& self.bank <= 0x6000
    }

    open spec fn chr_ok(&self) -> bool {
        self.bank + 0x2000 <= self.mem.chr_rom.len()
    }

    open spec fn prg_readable(&self, address: u16) -> bool {
        self.mem.prg_rom.len() > 0
    }

    open spec fn prg_ok(&self) -> bool {
        self.mem.prg_rom.len() > 0
    }

    open spec fn chr_read(&self, vram: Seq<u8>, address: u16) -> u8 {
        self.mem.chr_read(vram, address, self.bank as int)
    }

    open spec fn chr_written(&self, vram: [u8; 0x800], address: u16, value: u8) -> [u8; 0x800] {
        self.mem.chr_written(vram, address, value)
    }

    open spec fn prg_read(&self, address: u16) -> u8 {
        self.mem.prg_read(address, 0)
    }

    /// A write to the ROM window selects one of four 8 KiB CHR banks.
    open spec fn prg_written(&self, address: u16, value: u8) -> Self {
        if address >= 0x8000 {
            Cnrom { mem: self.mem, bank: ((value % 4) * 0x2000) as usize }
        } else {
            *self
        }
    }

    fn chr_load(&mut self, vram: &[u8; 0x800], address: u16) -> (r: u8) {
        self.mem.chr_load(vram, address, self.bank)
    }

    fn chr_store(&mut self, vram: &mut [u8; 0x800], address: u16, value: u8) {
        self.mem.chr_store(vram, address, value);
    }

    fn prg_load(&mut self, address: u16) -> (r: u8) {
        self.mem.prg_load(address, 0)
    }

    fn prg_store(&mut self, address: u16, value: u8) {
        if address >= 0x8000 {
            self.bank = (value as usize % 4) * 0x2000;
        }
    }
}

impl Mapper for Pirate225 {
    open spec fn wf(&self) -> bool {
        &&& self.mem.prg_rom.len() >= 0x100000
        &&& self.mem.chr_rom.len() >= 0x80000
        &&& self.prg_small <= 1
        &&& self.prg_bank + Self::prg_mask(self.prg_small) < 0x100000
        &&& self.chr_bank + 0x2000 <= 0x80000
    }

    open spec fn chr_ok(&self) -> bool {
        self.chr_bank + 0x2000 <= self.mem.chr_rom.len()
    }

    /// The selected 32 KiB (or mirrored 16 KiB) window holds the address.
    open spec fn prg_readable(&self, address: u16) -> bool {
        &&& self.prg_small <= 1
        &&& self.prg_bank + (address as usize & Self::prg_mask(self.prg_small)) < self.mem.prg_rom.len()
    }

    /// A write can select any window of the first MiB.
    open spec fn prg_ok(&self) -> bool {
        &&& self.mem.prg_rom.len() >= 0x100000
        &&& self.prg_small <= 1
        &&& self.prg_bank + Self::prg_mask(self.prg_small) < 0x100000
    }

    open spec fn chr_read(&self, vram: Seq<u8>, address: u16) -> u8 {
        self.mem.chr_read(vram, address, self.chr_bank as int)
    }

    open spec fn chr_written(&self, vram: [u8; 0x800], address: u16, value: u8) -> [u8; 0x800] {
        self.mem.chr_written(vram, address, value)
    }

    open spec fn prg_read(&self, address: u16) -> u8 {
        self.mem.prg_rom@[self.prg_bank + (address as usize & Self::prg_mask(self.prg_small))]
    }

    /// The written address, not the value, selects the banks and the mirroring.
    open spec fn prg_written(&self, address: u16, value: u8) -> Self {
        if address >= 0x8000 {
            let addr = address as usize;
            let small = ((addr & 0x1000) >> 12) as usize;
            Pirate225 {
                mem: GameMemory { vmirror: addr & 0x2000 == 0, ..self.mem },
                prg_small: small,
                chr_bank: ((addr & 0x3F) << 13) as usize,
                prg_bank: (((addr >> 6) & 0x3F & !((1 - small) as usize)) << 14) as usize,
            }
        } else {
            *self
        }
    }

    fn chr_load(&mut self, vram: &[u8; 0x800], address: u16) -> (r: u8) {
        self.mem.chr_load(vram, address, self.chr_bank)
    }

    fn chr_store(&mut self, vram: &mut [u8; 0x800], address: u16, value: u8) {
        self.mem.chr_store(vram, address, value);
    }

    fn prg_load(&mut self, address: u16) -> (r: u8) {
        let mask = Self::window_mask(self.prg_small);
        let addr = (address as usize) & mask;
        proof {
            lemma_masked_le(address as usize, mask);
        }
        self.mem.prg_rom[self.prg_bank + addr]
    }

    fn prg_store(&mut self, address: u16, _value: u8) {
        if address >= 0x8000 {
            let addr = address as usize;
            let small = (addr & 0x1000) >> 12;
            let chr = (addr & 0x3F) << 13;
            assert(small <= 1 && chr <= 0x7E000) by (bit_vector)
                requires
                    small == (addr & 0x1000) >> 12,
                    chr == (addr & 0x3F) << 13,
                    addr <= 0xFFFF,
            ;
            let prg = ((addr >> 6) & 0x3F & !(1 - small)) << 14;
            assert(prg + (if small == 0 { 0x7FFFusize } else { 0x3FFFusize }) < 0x100000) by (bit_vector)
                requires
                    small <= 1,
                    prg == ((addr >> 6) & 0x3F & !((1 - small) as usize)) << 14,
                    addr <= 0xFFFF,
            ;
            self.prg_small = small;
            self.chr_bank = chr;
            self.prg_bank = prg;
            self.mem.vmirror = addr & 0x2000 == 0;
        }
    }
}

impl Mapper for Cartridge {
    open spec fn wf(&self) -> bool {
        match self {
            Cartridge::Nrom(m) => m.wf(),
            Cartridge::Cnrom(m) => m.wf(),
            Cartridge::Pirate225(m) => m.wf(),
        }
    }

    open spec fn chr_ok(&self) -> bool {
        match self {
            Cartridge::Nrom(m) => m.chr_ok(),
            Cartridge::Cnrom(m) => m.chr_ok(),
            Cartridge::Pirate225(m) => m.chr_ok(),
        }
    }

    open spec fn prg_readable(&self, address: u16) -> bool {
        match self {
            Cartridge::Nrom(m) => m.prg_readable(address),
            Cartridge::Cnrom(m) => m.prg_readable(address),
            Cartridge::Pirate225(m) => m.prg_readable(address),
        }
    }

    open spec fn prg_ok(&self) -> bool {
        match self {
            Cartridge::Nrom(m) => m.prg_ok(),
            Cartridge::Cnrom(m) => m.prg_ok(),
            Cartridge::Pirate225(m) => m.prg_ok(),
        }
    }

    open spec fn chr_read(&self, vram: Seq<u8>, address: u16) -> u8 {
        match self {
            Cartridge::Nrom(m) => m.chr_read(vram, address),
            Cartridge::Cnrom(m) => m.chr_read(vram, address),
            Cartridge::Pirate225(m) => m.chr_read(vram, address),
        }
    }

    open spec fn chr_written(&self, vram: [u8; 0x800], address: u16, value: u8) -> [u8; 0x800] {
        match self {
            Cartridge::Nrom(m) => m.chr_written(vram, address, value),
            Cartridge::Cnrom(m) => m.chr_written(vram, address, value),
            Cartridge::Pirate225(m) => m.chr_written(vram, address, value),
        }
    }

    open spec fn prg_read(&self, address: u16) -> u8 {
        match self {
            Cartridge::Nrom(m) => m.prg_read(address),
            Cartridge::Cnrom(m) => m.prg_read(address),
            Cartridge::Pirate225(m) => m.prg_read(address),
        }
    }

    open spec fn prg_written(&self, address: u16, value: u8) -> Self {
        match self {
            Cartridge::Nrom(m) => Cartridge::Nrom(m.prg_written(address, value)),
            Cartridge::Cnrom(m) => Cartridge::Cnrom(m.prg_written(address, value)),
            Cartridge::Pirate225(m) => Cartridge::Pirate225(m.prg_written(address, value)),
        }
    }

    fn chr_load(&mut self, vram: &[u8; 0x800], address: u16) -> (r: u8) {
        match self {
            Cartridge::Nrom(m) => m.chr_load(vram, address),
            Cartridge::Cnrom(m) => m.chr_load(vram, address),
            Cartridge::Pirate225(m) => m.chr_load(vram, address),
        }
    }

    fn chr_store(&mut self, vram: &mut [u8; 0x800], address: u16, value: u8) {
        match self {
            Cartridge::Nrom(m) => m.chr_store(vram, address, value),
            Cartridge::Cnrom(m) => m.chr_store(vram, address, value),
            Cartridge::Pirate225(m) => m.chr_store(vram, address, value),
        }
    }

    fn prg_load(&mut self, address: u16) -> (r: u8) {
        match self {
            Cartridge::Nrom(m) => m.prg_load(address),
            Cartridge::Cnrom(m) => m.prg_load(address),
            Cartridge::Pirate225(m) => m.prg_load(address),
        }
    }

    fn prg_store(&mut self, address: u16, value: u8) {
        match self {
            Cartridge::Nrom(m) => m.prg_store(address, value),
            Cartridge::Cnrom(m) => m.prg_store(address, value),
            Cartridge::Pirate225(m) => m.prg_store(address, value),
        }
    }
}

impl Cartridge {
    /// Whether every read that the cartridge can serve stays inside its ROMs.
    pub fn is_valid(&self) -> (r: bool)
        ensures
            r == self.wf(),
    {
        match self {
            Cartridge::Nrom(m) => m.0.prg_rom.len() > 0 && m.0.chr_rom.len() >= 0x2000,
            Cartridge::Cnrom(m) => m.mem.prg_rom.len() > 0 && m.mem.chr_rom.len() >= 0x8000
                && m.bank % 0x2000 == 0 && m.bank <= 0x6000,
            Cartridge::Pirate225(m) => {
                let small = m.prg_small;
                if small > 1 {
                    return false;
                }
                let window = Pirate225::window_mask(small);
                m.mem.prg_rom.len() >= 0x100000 && m.mem.chr_rom.len() >= 0x80000 && m.prg_small
                    <= 1 && m.prg_bank < 0x100000 - window && m.chr_bank <= 0x7E000
            },
        }
    }
}

impl Cartridge {
    /// Whether every CPU read lies inside the PRG ROM, whatever bank a write selects.
    pub fn prg_valid(&self) -> (r: bool)
        ensures
            r == self.prg_ok(),
    {
        match self {
            Cartridge::Nrom(m) => m.0.prg_rom.len() > 0,
            Cartridge::Cnrom(m) => m.mem.prg_rom.len() > 0,
            Cartridge::Pirate225(m) => {
                let small = m.prg_small;
                if small > 1 {
                    return false;
                }
                let window = Pirate225::window_mask(small);
                m.mem.prg_rom.len() >= 0x100000 && m.prg_bank < 0x100000 - window
            },
        }
    }

    /// Whether the selected CHR bank lies inside the CHR ROM.
    pub fn chr_valid(&self) -> (r: bool)
        ensures
            r == self.chr_ok(),
    {
        match self {
            Cartridge::Nrom(m) => m.0.chr_rom.len() >= 0x2000,
            Cartridge::Cnrom(m) => m.bank <= m.mem.chr_rom.len() && m.mem.chr_rom.len() - m.bank
                >= 0x2000,
            Cartridge::Pirate225(m) => m.chr_bank <= m.mem.chr_rom.len() && m.mem.chr_rom.len()
                - m.chr_bank >= 0x2000,
        }
    }
}

impl Cartridge {
    /// The iNES mapper number of the cartridge.
    pub open spec fn number(&self) -> u16 {
        match self {
            Cartridge::Nrom(_) => 0,
            Cartridge::Cnrom(_) => 3,
            Cartridge::Pirate225(_) => 225,
        }
    }

    /// Whether the bank registers are as at power up: all banks 0, 32 KiB PRG mode.
    pub open spec fn banks_reset(&self) -> bool {
        match self {
            Cartridge::Nrom(_) => true,
            Cartridge::Cnrom(m) => m.bank == 0,
            Cartridge::Pirate225(m) => m.chr_bank == 0 && m.prg_bank == 0 && m.prg_small == 0,
        }
    }

    /// The memories of the cartridge, whatever its mapper.
    pub open spec fn game_memory(&self) -> GameMemory {
        match self {
            Cartridge::Nrom(m) => m.0,
            Cartridge::Cnrom(m) => m.mem,
            Cartridge::Pirate225(m) => m.mem,
        }
    }
}

/// Nametable mirroring: under vertical mirroring the nametables at 0x2000 and 0x2800
/// (and 0x2400 and 0x2C00) are the same RAM; under horizontal mirroring those at 0x2000
/// and 0x2400 (and 0x2800 and 0x2C00) are, while the two pairs are distinct RAM.
pub proof fn lemma_mirroring(address: int)
    requires
        0x2000 <= address < 0x2400 || 0x2800 <= address < 0x2C00,
    ensures
        vmirror_spec(address) == vmirror_spec(address + 0x800),
        vmirror_spec(address) != vmirror_spec(address + 0x400),
        hmirror_spec(address) == hmirror_spec(address + 0x400),
        address < 0x2400 ==> hmirror_spec(address) != hmirror_spec(address + 0x800),
        0 <= vmirror_spec(address) < 0x800,
        0 <= hmirror_spec(address) < 0x800,
{
}

/// Nametable RAM reads back what was written: a PPU write at or above 0x2000 is seen
/// by every read that the cartridge's mirroring maps to the same byte of RAM, and by
/// no other; writes below 0x2000 reach CHR ROM and change nothing.
pub proof fn lemma_nametable_read_after_write(c: Cartridge, vram: [u8; 0x800], a: u16, value: u8, b: u16)
    requires
        b >= 0x2000,
    ensures
        a >= 0x2000 && nametable_index(c.game_memory().vmirror, a as int) == nametable_index(
            c.game_memory().vmirror,
            b as int,
        ) ==> c.chr_read(c.chr_written(vram, a, value)@, b) == value,
        a >= 0x2000 && nametable_index(c.game_memory().vmirror, a as int) != nametable_index(
            c.game_memory().vmirror,
            b as int,
        ) ==> c.chr_read(c.chr_written(vram, a, value)@, b) == c.chr_read(vram@, b),
        a < 0x2000 ==> c.chr_written(vram, a, value) == vram,
{
}

/// The nametable mirrors: after a PPU write at `a` in the nametable area, the byte is
/// read back at `a` and, with vertical mirroring, 0x800 away (`a ^ 0x800`), with
/// horizontal mirroring 0x400 away (`a ^ 0x400`).
pub proof fn lemma_nametable_mirrors(c: Cartridge, vram: [u8; 0x800], a: u16, value: u8)
    requires
        0x2000 <= a < 0x3F00,
    ensures
        c.chr_read(c.chr_written(vram, a, value)@, a) == value,
        c.game_memory().vmirror ==> c.chr_read(c.chr_written(vram, a, value)@, a ^ 0x800) == value,
        !c.game_memory().vmirror ==> c.chr_read(c.chr_written(vram, a, value)@, a ^ 0x400) == value,
{
    let v = a ^ 0x800u16;
    let h = a ^ 0x400u16;
    assert(v >= 0x2000 && v % 0x800 == a % 0x800) by (bit_vector)
        requires
            0x2000 <= a < 0x3F00,
            v == a ^ 0x800u16,
    ;
    assert(h >= 0x2000 && h % 0x400 == a % 0x400 && (h / 0x800) % 2 == (a / 0x800) % 2)
        by (bit_vector)
        requires
            0x2000 <= a < 0x3F00,
            h == a ^ 0x400u16,
    ;
    lemma_nametable_read_after_write(c, vram, a, value, a);
    lemma_nametable_read_after_write(c, vram, a, value, v);
    lemma_nametable_read_after_write(c, vram, a, value, h);
}

/// A 16 KiB program is mirrored: NROM serves the same byte at 0x8000 + i and 0xC000 + i.
pub proof fn lemma_nrom_prg_mirror(m: Nrom, i: u16)
    requires
        m.0.prg_rom.len() == 0x4000,
        i < 0x4000,
    ensures
        m.prg_read((0x8000 + i) as u16) == m.prg_read((0xC000 + i) as u16),
{
    let x = (0x8000 + i) as u16 as usize;
    let y = (0xC000 + i) as u16 as usize;
    assert(x & 0x3FFFusize == y & 0x3FFFusize) by (bit_vector)
        requires
            x == 0x8000 + i,
            y == 0xC000 + i,
            i < 0x4000,
    ;
}

} // verus!
