use vstd::prelude::*;
use std::collections::HashMap;
use crate::ppu::{Ppu, PpuView, write_register_spec, read_register_spec, VRAM_SIZE, OAM_SIZE, CGRAM_SIZE};

verus! {

broadcast use vstd::std_specs::hash::group_hash_axioms;

/// Bytes of work RAM.
pub const WRAM_SIZE: usize = 0x20000;
/// Offset of the LoROM header in the cartridge image.
pub const LOROM_HEADER: usize = 0x7FC0;
/// Offset of the HiROM header in the cartridge image.
pub const HIROM_HEADER: usize = 0xFFC0;
/// Offset of the save-RAM size byte in the cartridge image.
pub const SRAM_SIZE_BYTE: usize = 0x7FD8;
/// Length of the title field of the header.
pub const TITLE_LEN: usize = 21;

#[derive(Debug, Clone, Copy, PartialEq, Eq, Structural)]
pub enum RomType {
    LoRom,
    HiRom,
}

pub struct Memory {
    pub wram: Vec<u8>,
    pub rom: Vec<u8>,
    pub vram: Vec<u8>,
    pub oam: Vec<u8>,
    pub cgram: Vec<u8>,
    pub sram: Vec<u8>,
    pub registers: HashMap<u16, u8>,
    pub rom_type: RomType,
    pub sram_size: usize,
    pub ppu: Ppu,
}

/// The bus as mathematical values.
pub struct MemoryView {
    pub wram: Seq<u8>,
    pub rom: Seq<u8>,
    pub vram: Seq<u8>,
    pub oam: Seq<u8>,
    pub cgram: Seq<u8>,
    pub sram: Seq<u8>,
    pub registers: Map<u16, u8>,
    pub rom_type: RomType,
    pub sram_size: nat,
    pub ppu: PpuView,
}

impl View for Memory {
    type V = MemoryView;

    open spec fn view(&self) -> MemoryView {
        MemoryView {
            wram: self.wram@,
            rom: self.rom@,
            vram: self.vram@,
            oam: self.oam@,
            cgram: self.cgram@,
            sram: self.sram@,
            registers: self.registers@,
            rom_type: self.rom_type,
            sram_size: self.sram_size as nat,
            ppu: self.ppu@,
        }
    }
}

impl MemoryView {
    /// Every RAM has its fixed size, the save RAM has the detected size, and
    /// the PPU is well formed.
    pub open spec fn wf(self) -> bool {
        &&& self.wram.len() == WRAM_SIZE
        &&& self.vram.len() == VRAM_SIZE
        &&& self.oam.len() == OAM_SIZE
        &&& self.cgram.len() == CGRAM_SIZE
        &&& self.sram.len() == self.sram_size
        &&& self.sram_size <= 0x20000
        &&& self.ppu.wf()
    }
}

/// The little-endian 16-bit word at `at` of `rom`.
pub open spec fn word_at(rom: Seq<u8>, at: int) -> int {
    rom[at] as int + rom[at + 1] as int * 256
}

/// Whether the header at `base` is present and its checksum and complement add up to 0xFFFF.
pub open spec fn header_valid(rom: Seq<u8>, base: int) -> bool {
    rom.len() >= base + 0x20 && word_at(rom, base + 0x1C) + word_at(rom, base + 0x1E) == 0xFFFF
}

/// The layout of a cartridge: HiROM only when its header alone is valid.
pub open spec fn rom_type_of(rom: Seq<u8>) -> RomType {
    if header_valid(rom, HIROM_HEADER as int) && !header_valid(rom, LOROM_HEADER as int) {
        RomType::HiRom
    } else {
        RomType::LoRom
    }
}

/// The save-RAM size that a cartridge's header asks for.
pub open spec fn sram_size_of(rom: Seq<u8>) -> nat {
    if rom.len() <= SRAM_SIZE_BYTE {
        0
    } else {
        let b = rom[SRAM_SIZE_BYTE as int];
        if b == 0 {
            0
        } else if b == 1 {
            0x800
        } else if b == 2 {
            0x2000
        } else if b == 3 {
            0x8000
        } else if b == 4 {
            0x20000
        } else {
            0x8000
        }
    }
}

/// The bus right after a cartridge is loaded.
pub open spec fn fresh_memory(rom: Seq<u8>, ppu: PpuView) -> MemoryView {
    MemoryView {
        wram: Seq::new(WRAM_SIZE as nat, |i: int| 0u8),
        rom,
        vram: Seq::new(VRAM_SIZE as nat, |i: int| 0u8),
        oam: Seq::new(OAM_SIZE as nat, |i: int| 0u8),
        cgram: Seq::new(CGRAM_SIZE as nat, |i: int| 0u8),
        sram: Seq::new(sram_size_of(rom), |i: int| 0u8),
        registers: Map::empty(),
        rom_type: rom_type_of(rom),
        sram_size: sram_size_of(rom),
        ppu,
    }
}

/// The last byte written to a register, or zero for one never written.
pub open spec fn reg(m: MemoryView, r: int) -> u8 {
    if m.registers.contains_key(r as u16) {
        m.registers[r as u16]
    } else {
        0
    }
}

/// The ROM byte at `index`, or zero past the end of the image.
pub open spec fn rom_at(m: MemoryView, index: int) -> u8 {
    if index < m.rom.len() {
        m.rom[index]
    } else {
        0
    }
}

/// The bank byte of a 24-bit address.
pub open spec fn bank_of(addr: u32) -> int {
    (addr / 0x10000) as int % 256
}

/// The 16-bit offset of an address within its bank.
pub open spec fn offset_of(addr: u32) -> int {
    addr as int % 0x10000
}

/// Banks that share the system page layout.
pub open spec fn is_system_bank(bank: int) -> bool {
    bank <= 0x3F || (0x80 <= bank <= 0xBF)
}

/// Offsets of the system page that mirror the low 8 KiB of work RAM.
pub open spec fn is_wram_window(offset: int) -> bool {
    offset < 0x2000
}

/// Offsets of the system page that are PPU registers.
pub open spec fn is_ppu_window(offset: int) -> bool {
    0x2100 <= offset < 0x2200
}

/// Offsets of the system page that are the save-RAM window.
pub open spec fn is_sram_window(offset: int) -> bool {
    0x6000 <= offset < 0x8000
}

/// Offsets of the system page that are stub registers (APU, input, DMA).
pub open spec fn is_stub_register(offset: int) -> bool {
    (0x4000 <= offset < 0x4200) || (0x4200 <= offset < 0x4500)
}

/// The byte that a PPU-register read returns.
pub open spec fn ppu_register_read(m: MemoryView, offset: int) -> u8 {
    if 0x2137 <= offset <= 0x213D {
        0
    } else if offset == 0x213E || offset == 0x213F {
        read_register_spec(m.ppu, offset as u16)
    } else {
        reg(m, offset)
    }
}

/// The ROM byte that a system bank's upper half shows, for either layout:
/// 32 KiB of the image per bank.
pub open spec fn system_rom_read(m: MemoryView, bank: int, offset: int) -> u8 {
    rom_at(m, (bank % 128) * 0x8000 + (offset - 0x8000))
}

/// What a read of the system page at `offset` returns; offsets that reach
/// nothing read as zero.
pub open spec fn system_read(m: MemoryView, bank: int, offset: int) -> u8 {
    if is_wram_window(offset) {
        m.wram[offset]
    } else if is_ppu_window(offset) {
        ppu_register_read(m, offset)
    } else if is_stub_register(offset) {
        reg(m, offset)
    } else if is_sram_window(offset) {
        let i = offset - 0x6000;
        if i < m.sram.len() {
            m.sram[i]
        } else {
            0
        }
    } else if offset >= 0x8000 {
        system_rom_read(m, bank, offset)
    } else {
        0
    }
}

/// What a read of the 24-bit address `addr` returns.
#[verifier::opaque]
pub open spec fn read_spec(m: MemoryView, addr: u32) -> u8 {
    let bank = bank_of(addr);
    let offset = offset_of(addr);
    if is_system_bank(bank) {
        system_read(m, bank, offset)
    } else if bank == 0x7E {
        m.wram[offset]
    } else if bank == 0x7F {
        m.wram[0x10000 + offset]
    } else if 0x40 <= bank <= 0x6F || bank >= 0xC0 {
        match m.rom_type {
            RomType::HiRom => rom_at(m, (bank % 64) * 0x10000 + offset),
            RomType::LoRom => if bank <= 0x6F && offset >= 0x8000 {
                rom_at(m, bank * 0x8000 + (offset - 0x8000))
            } else {
                0
            },
        }
    } else {
        0
    }
}

/// The 16-bit address held by a pair of latch registers.
pub open spec fn latch(m: MemoryView, low: int, high: int) -> int {
    reg(m, low) as int + reg(m, high) as int * 256
}

/// The effect of a write to the PPU-register window.
pub open spec fn ppu_register_write(m: MemoryView, offset: int, value: u8) -> MemoryView {
    let m1 = MemoryView { ppu: write_register_spec(m.ppu, offset as u16, value), ..m };
    if offset == 0x2118 {
        let a = latch(m, 0x2116, 0x2117);
        MemoryView { vram: m1.vram.update(a, value), ..m1 }
    } else if offset == 0x2119 {
        let a = latch(m, 0x2116, 0x2117) + 1;
        if a < VRAM_SIZE {
            MemoryView { vram: m1.vram.update(a, value), ..m1 }
        } else {
            m1
        }
    } else if offset == 0x2104 {
        let a = latch(m, 0x2102, 0x2103);
        if a < OAM_SIZE {
            MemoryView { oam: m1.oam.update(a, value), ..m1 }
        } else {
            m1
        }
    } else if offset == 0x2122 {
        let a = reg(m, 0x2121) as int;
        MemoryView { cgram: m1.cgram.update(a, value), ..m1 }
    } else {
        MemoryView { registers: m1.registers.insert(offset as u16, value), ..m1 }
    }
}

/// The effect of a write to a stub register; `0x4200` also reaches the PPU's NMI enable.
pub open spec fn stub_register_write(m: MemoryView, offset: int, value: u8) -> MemoryView {
    let m1 = MemoryView { registers: m.registers.insert(offset as u16, value), ..m };
    if offset == 0x4200 {
        MemoryView { ppu: write_register_spec(m.ppu, 0x4200, value), ..m1 }
    } else {
        m1
    }
}

/// The effect of a write to the system page at `offset`; writes to ROM or to
/// offsets that reach nothing are discarded.
pub open spec fn system_write(m: MemoryView, offset: int, value: u8) -> MemoryView {
    if is_wram_window(offset) {
        MemoryView { wram: m.wram.update(offset, value), ..m }
    } else if is_ppu_window(offset) {
        ppu_register_write(m, offset, value)
    } else if is_stub_register(offset) {
        stub_register_write(m, offset, value)
    } else if is_sram_window(offset) {
        let i = offset - 0x6000;
        if i < m.sram.len() {
            MemoryView { sram: m.sram.update(i, value), ..m }
        } else {
            m
        }
    } else {
        m
    }
}

/// The effect of a write of `value` to the 24-bit address `addr`.
#[verifier::opaque]
pub open spec fn write_spec(m: MemoryView, addr: u32, value: u8) -> MemoryView {
    let bank = bank_of(addr);
    let offset = offset_of(addr);
    if is_system_bank(bank) {
        system_write(m, offset, value)
    } else if bank == 0x7E {
        MemoryView { wram: m.wram.update(offset, value), ..m }
    } else if bank == 0x7F {
        MemoryView { wram: m.wram.update(0x10000 + offset, value), ..m }
    } else {
        m
    }
}

/// Whether Rust's `char::is_whitespace` holds of an ASCII character.
pub open spec fn is_ascii_space(c: char) -> bool {
    c == ' ' || ('\t' <= c && c <= '\r')
}

/// The character that a header byte stands for: itself when ASCII, else the
/// replacement character.
pub open spec fn title_char(b: u8) -> char {
    if b < 0x80 {
        b as char
    } else {
        '\u{FFFD}'
    }
}

/// `s` without its leading whitespace.
pub open spec fn trim_start(s: Seq<char>) -> Seq<char>
    decreases s.len(),
{
    if s.len() > 0 && is_ascii_space(s[0]) {
        trim_start(s.drop_first())
    } else {
        s
    }
}

/// `s` without its trailing whitespace.
pub open spec fn trim_end(s: Seq<char>) -> Seq<char>
    decreases s.len(),
{
    if s.len() > 0 && is_ascii_space(s.last()) {
        trim_end(s.drop_last())
    } else {
        s
    }
}

/// The cartridge title: the header's title field trimmed of surrounding
/// whitespace, or "Unknown" for an image too short to hold it.
pub open spec fn title_of(rom: Seq<u8>) -> Seq<char> {
    if rom.len() < LOROM_HEADER + TITLE_LEN {
        seq!['U', 'n', 'k', 'n', 'o', 'w', 'n']
    } else {
        trim_end(
            trim_start(
                Seq::new(TITLE_LEN as nat, |i: int| title_char(rom[LOROM_HEADER + i])),
            ),
        )
    }
}

/// The cartridge image without its copier header: an image whose length is
/// 512 more than a multiple of 1024 starts with a 512-byte header, which is dropped.
pub open spec fn without_copier_header(image: Seq<u8>) -> Seq<u8> {
    if image.len() % 1024 == 512 {
        image.subrange(512, image.len() as int)
    } else {
        image
    }
}

/// Strips an optional copier header from a cartridge image.
pub fn strip_copier_header(image: Vec<u8>) -> (rom: Vec<u8>)
    ensures
        rom@ == without_copier_header(image@),
{
    if image.len() % 1024 != 512 {
        return image;
    }
    let mut rom: Vec<u8> = Vec::new();
    let mut i: usize = 512;
    while i < image.len()
        invariant
            512 <= i <= image@.len(),
            rom@ == image@.subrange(512, i as int),
        decreases image@.len() - i,
    {
        rom.push(image[i]);
        i = i + 1;
        assert(rom@ =~= image@.subrange(512, i as int));
    }
    rom
}

/// Relies on String::push: appends one character to the end of the string.
#[verifier::external_body]
pub(crate) fn push_char(s: &mut String, c: char)
    ensures
        final(s)@ == old(s)@.push(c),
{
    s.push(c);
}

fn header_word(rom: &Vec<u8>, at: usize) -> (r: u32)
    requires
        at < 0x10000,
        at + 1 < rom@.len(),
    ensures
        r == word_at(rom@, at as int),
{
    rom[at] as u32 + rom[at + 1] as u32 * 256
}

fn header_is_valid(rom: &Vec<u8>, base: usize) -> (r: bool)
    requires
        base <= HIROM_HEADER,
    ensures
        r == header_valid(rom@, base as int),
{
    if rom.len() < base + 0x20 {
        return false;
    }
    header_word(rom, base + 0x1C) + header_word(rom, base + 0x1E) == 0xFFFF
}

proof fn lemma_trim_start_step(s: Seq<char>, i: int)
    requires
        0 <= i < s.len(),
        is_ascii_space(s[i]),
    ensures
        trim_start(s.subrange(i, s.len() as int)) == trim_start(s.subrange(i + 1, s.len() as int)),
{
    assert(s.subrange(i, s.len() as int).drop_first() =~= s.subrange(i + 1, s.len() as int));
}

proof fn lemma_trim_end_step(s: Seq<char>, i: int, j: int)
    requires
        0 <= i < j <= s.len(),
        is_ascii_space(s[j - 1]),
    ensures
        trim_end(s.subrange(i, j)) == trim_end(s.subrange(i, j - 1)),
{
    assert(s.subrange(i, j).drop_last() =~= s.subrange(i, j - 1));
}

impl Memory {
    pub fn new(rom: Vec<u8>) -> (m: Memory)
        ensures
            m@ == fresh_memory(rom@, crate::ppu::power_on()),
            m@.wf(),
    {
        let rom_type = Self::detect_rom_type(&rom);
        let sram_size = Self::detect_sram_size(&rom);
        let wram: Vec<u8> = vec![0u8; WRAM_SIZE];
        let vram: Vec<u8> = vec![0u8; VRAM_SIZE];
        let oam: Vec<u8> = vec![0u8; OAM_SIZE];
        let cgram: Vec<u8> = vec![0u8; CGRAM_SIZE];
        let sram: Vec<u8> = vec![0u8; sram_size];
        let m = Memory {
            wram,
            rom,
            vram,
            oam,
            cgram,
            sram,
            registers: HashMap::new(),
            rom_type,
            sram_size,
            ppu: Ppu::new(),
        };
        let ghost target = fresh_memory(m.rom@, crate::ppu::power_on());
        assert(m.wram@ =~= target.wram);
        assert(m.vram@ =~= target.vram);
        assert(m.oam@ =~= target.oam);
        assert(m.cgram@ =~= target.cgram);
        assert(m.sram@ =~= target.sram);
        assert(m.registers@ =~= target.registers);
        m
    }

    fn detect_rom_type(rom: &Vec<u8>) -> (r: RomType)
        ensures
            r == rom_type_of(rom@),
    {
        if header_is_valid(rom, HIROM_HEADER) && !header_is_valid(rom, LOROM_HEADER) {
            RomType::HiRom
        } else {
            RomType::LoRom
        }
    }

    fn detect_sram_size(rom: &Vec<u8>) -> (r: usize)
        ensures
            r == sram_size_of(rom@),
    {
        if rom.len() <= SRAM_SIZE_BYTE {
            return 0;
        }
        match rom[SRAM_SIZE_BYTE] {
            0 => 0,
            1 => 0x800,
            2 => 0x2000,
            3 => 0x8000,
            4 => 0x20000,
            _ => 0x8000,
        }
    }

    fn register(&self, r: u16) -> (v: u8)
        ensures
            v == reg(self@, r as int),
    {
        match self.registers.get(&r) {
            Some(v) => *v,
            None => 0,
        }
    }

    fn rom_byte(&self, index: usize) -> (v: u8)
        ensures
            v == rom_at(self@, index as int),
    {
        if index < self.rom.len() {
            self.rom[index]
        } else {
            0
        }
    }

    fn read_ppu_registers(&self, offset: u16) -> (v: u8)
        requires
            0x2100 <= offset < 0x2200,
        ensures
            v == ppu_register_read(self@, offset as int),
    {
        if 0x2137 <= offset && offset <= 0x213D {
            0
        } else if offset == 0x213E || offset == 0x213F {
            self.ppu.read_register(offset)
        } else {
            self.register(offset)
        }
    }

    fn read_system(&self, bank: u32, offset: u32) -> (v: u8)
        requires
            self@.wf(),
            is_system_bank(bank as int),
            bank < 256,
            offset < 0x10000,
        ensures
            v == system_read(self@, bank as int, offset as int),
    {
        if offset < 0x2000 {
            self.wram[offset as usize]
        } else if 0x2100 <= offset && offset < 0x2200 {
            self.read_ppu_registers(offset as u16)
        } else if 0x4000 <= offset && offset < 0x4500 {
            self.register(offset as u16)
        } else if 0x6000 <= offset && offset < 0x8000 {
            let i = (offset - 0x6000) as usize;
            if i < self.sram.len() {
                self.sram[i]
            } else {
                0
            }
        } else if offset >= 0x8000 {
            self.rom_byte((bank % 128) as usize * 0x8000 + (offset - 0x8000) as usize)
        } else {
            0
        }
    }

    /// Reads the byte at a 24-bit address.
    pub fn read(&self, addr: u32) -> (v: u8)
        requires
            self@.wf(),
        ensures
            v == read_spec(self@, addr),
    {
        reveal(read_spec);
        let bank: u32 = (addr / 0x10000) % 256;
        let offset: u32 = addr % 0x10000;
        if bank <= 0x3F || (0x80 <= bank && bank <= 0xBF) {
            self.read_system(bank, offset)
        } else if bank == 0x7E {
            self.wram[offset as usize]
        } else if bank == 0x7F {
            self.wram[0x10000 + offset as usize]
        } else if (0x40 <= bank && bank <= 0x6F) || bank >= 0xC0 {
            match self.rom_type {
                RomType::HiRom => self.rom_byte((bank % 64) as usize * 0x10000 + offset as usize),
                RomType::LoRom => {
                    if bank <= 0x6F && offset >= 0x8000 {
                        self.rom_byte(bank as usize * 0x8000 + (offset - 0x8000) as usize)
                    } else {
                        0
                    }
                },
            }
        } else {
            0
        }
    }

    fn write_ppu_registers(&mut self, offset: u16, value: u8)
        requires
            old(self)@.wf(),
            0x2100 <= offset < 0x2200,
        ensures
            final(self)@ == ppu_register_write(old(self)@, offset as int, value),
            final(self)@.wf(),
    {
        let vram_addr: usize = self.register(0x2116) as usize + self.register(0x2117) as usize
            * 256;
        let oam_addr: usize = self.register(0x2102) as usize + self.register(0x2103) as usize * 256;
        let cgram_addr: usize = self.register(0x2121) as usize;
        self.ppu.write_register(offset, value);
        if offset == 0x2118 {
            self.vram.set(vram_addr, value);
        } else if offset == 0x2119 {
            if vram_addr + 1 < VRAM_SIZE {
                self.vram.set(vram_addr + 1, value);
            }
        } else if offset == 0x2104 {
            if oam_addr < OAM_SIZE {
                self.oam.set(oam_addr, value);
            }
        } else if offset == 0x2122 {
            self.cgram.set(cgram_addr, value);
        } else {
            self.registers.insert(offset, value);
        }
    }

    fn write_stub_registers(&mut self, offset: u16, value: u8)
        requires
            old(self)@.wf(),
        ensures
            final(self)@ == stub_register_write(old(self)@, offset as int, value),
            final(self)@.wf(),
    {
        self.registers.insert(offset, value);
        if offset == 0x4200 {
            self.ppu.write_register(0x4200, value);
        }
    }

    fn write_system(&mut self, offset: u32, value: u8)
        requires
            old(self)@.wf(),
            offset < 0x10000,
        ensures
            final(self)@ == system_write(old(self)@, offset as int, value),
            final(self)@.wf(),
    {
        if offset < 0x2000 {
            self.wram.set(offset as usize, value);
        } else if 0x2100 <= offset && offset < 0x2200 {
            self.write_ppu_registers(offset as u16, value);
        } else if 0x4000 <= offset && offset < 0x4500 {
            self.write_stub_registers(offset as u16, value);
        } else if 0x6000 <= offset && offset < 0x8000 {
            let i = (offset - 0x6000) as usize;
            if i < self.sram.len() {
                self.sram.set(i, value);
            }
        }
    }

    /// Writes a byte to a 24-bit address; writes to ROM or unmapped space are discarded.
    pub fn write(&mut self, addr: u32, value: u8)
        requires
            old(self)@.wf(),
        ensures
            final(self)@ == write_spec(old(self)@, addr, value),
            final(self)@.wf(),
    {
        reveal(write_spec);
        let bank: u32 = (addr / 0x10000) % 256;
        let offset: u32 = addr % 0x10000;
        if bank <= 0x3F || (0x80 <= bank && bank <= 0xBF) {
            self.write_system(offset, value);
        } else if bank == 0x7E {
            self.wram.set(offset as usize, value);
        } else if bank == 0x7F {
            self.wram.set(0x10000 + offset as usize, value);
        }
    }

    /// Advances the PPU one dot against this bus's video memories.
    pub fn tick_ppu(&mut self) -> (nmi: bool)
        requires
            old(self)@.wf(),
        ensures
            (final(self)@.ppu, nmi) == crate::ppu::tick(
                old(self)@.ppu,
                old(self)@.vram,
                old(self)@.oam,
                old(self)@.cgram,
            ),
            final(self)@ == (MemoryView { ppu: final(self)@.ppu, ..old(self)@ }),
            final(self)@.wf(),
    {
        self.ppu.step(&self.vram, &self.oam, &self.cgram)
    }

    /// A copy of the save RAM, as long as the detected save-RAM size.
    pub fn export_sram(&self) -> (data: Vec<u8>)
        ensures
            data@ == self.sram@,
    {
        self.sram.clone()
    }

    /// Loads save RAM from `data`: the first bytes up to the save-RAM size are
    /// taken, and save RAM past the end of a shorter `data` is left as it was.
    pub fn import_sram(&mut self, data: &Vec<u8>)
        ensures
            final(self)@ == (MemoryView {
                sram: Seq::new(
                    old(self)@.sram.len(),
                    |i: int|
                        if i < data@.len() {
                            data@[i]
                        } else {
                            old(self)@.sram[i]
                        },
                ),
                ..old(self)@
            }),
    {
        let ghost old_sram = self.sram@;
        let mut i: usize = 0;
        while i < self.sram.len() && i < data.len()
            invariant
                i <= self.sram@.len(),
                i <= data@.len(),
                self.sram@.len() == old_sram.len(),
                forall|k: int|
                    0 <= k < old_sram.len() ==> #[trigger] self.sram@[k] == (if k < i {
                        data@[k]
                    } else {
                        old_sram[k]
                    }),
                self.wram == old(self).wram,
                self.rom == old(self).rom,
                self.vram == old(self).vram,
                self.oam == old(self).oam,
                self.cgram == old(self).cgram,
                self.registers == old(self).registers,
                self.rom_type == old(self).rom_type,
                self.sram_size == old(self).sram_size,
                self.ppu == old(self).ppu,
            decreases self.sram@.len() - i,
        {
            self.sram.set(i, data[i]);
            i = i + 1;
        }
        assert(self.sram@ =~= Seq::new(
            old_sram.len(),
            |k: int|
                if k < data@.len() {
                    data@[k]
                } else {
                    old_sram[k]
                },
        ));
    }

    /// The cartridge title from the LoROM header, trimmed; "Unknown" when the
    /// image is too short to hold it.
    pub fn get_rom_title(&self) -> (title: String)
        ensures
            title@ == title_of(self.rom@),
    {
        let mut title = String::new();
        if self.rom.len() < LOROM_HEADER + TITLE_LEN {
            push_char(&mut title, 'U');
            push_char(&mut title, 'n');
            push_char(&mut title, 'k');
            push_char(&mut title, 'n');
            push_char(&mut title, 'o');
            push_char(&mut title, 'w');
            push_char(&mut title, 'n');
            assert(title@ =~= title_of(self.rom@));
            return title;
        }
        let ghost chars = Seq::new(
            TITLE_LEN as nat,
            |i: int| title_char(self.rom@[LOROM_HEADER + i]),
        );
        assert(chars.subrange(0, TITLE_LEN as int) =~= chars);
        let mut start: usize = 0;
        while start < TITLE_LEN && Self::is_space_byte(self.rom[LOROM_HEADER + start])
            invariant
                start <= TITLE_LEN,
                self.rom@.len() >= LOROM_HEADER + TITLE_LEN,
                chars == Seq::new(
                    TITLE_LEN as nat,
                    |i: int| title_char(self.rom@[LOROM_HEADER + i]),
                ),
                trim_start(chars) == trim_start(chars.subrange(start as int, TITLE_LEN as int)),
            decreases TITLE_LEN - start,
        {
            proof {
                lemma_trim_start_step(chars, start as int);
            }
            start = start + 1;
        }
        proof {
            let rest = chars.subrange(start as int, TITLE_LEN as int);
            if rest.len() > 0 {
                assert(rest[0] == chars[start as int]);
            }
        }
        let mut end: usize = TITLE_LEN;
        while end > start && Self::is_space_byte(self.rom[LOROM_HEADER + end - 1])
            invariant
                start <= end <= TITLE_LEN,
                self.rom@.len() >= LOROM_HEADER + TITLE_LEN,
                chars == Seq::new(
                    TITLE_LEN as nat,
                    |i: int| title_char(self.rom@[LOROM_HEADER + i]),
                ),
                trim_end(chars.subrange(start as int, TITLE_LEN as int)) == trim_end(
                    chars.subrange(start as int, end as int),
                ),
            decreases end,
        {
            proof {
                lemma_trim_end_step(chars, start as int, end as int);
            }
            end = end - 1;
        }
        let mut k: usize = start;
        while k < end
            invariant
                start <= k <= end <= TITLE_LEN,
                self.rom@.len() >= LOROM_HEADER + TITLE_LEN,
                chars == Seq::new(
                    TITLE_LEN as nat,
                    |i: int| title_char(self.rom@[LOROM_HEADER + i]),
                ),
                title@ == chars.subrange(start as int, k as int),
            decreases end - k,
        {
            let b = self.rom[LOROM_HEADER + k];
            let c: char = if b < 0x80 {
                b as char
            } else {
                '\u{FFFD}'
            };
            push_char(&mut title, c);
            assert(title@ =~= chars.subrange(start as int, k + 1));
            k = k + 1;
        }
        proof {
            let kept = chars.subrange(start as int, end as int);
            if kept.len() > 0 {
                assert(kept.last() == chars[end - 1]);
            }
            assert(trim_end(kept) == kept);
        }
        title
    }

    fn is_space_byte(b: u8) -> (r: bool)
        ensures
            r == is_ascii_space(title_char(b)),
    {
        b == 0x20 || (0x09 <= b && b <= 0x0D)
    }

    pub fn read_vram(&self, addr: u16) -> (v: u8)
        requires
            self@.wf(),
        ensures
            v == self.vram@[addr as int],
    {
        self.vram[addr as usize]
    }

    pub fn write_vram(&mut self, addr: u16, value: u8)
        requires
            old(self)@.wf(),
        ensures
            final(self)@ == (MemoryView { vram: old(self)@.vram.update(addr as int, value), ..old(self)@ }),
            final(self)@.wf(),
    {
        self.vram.set(addr as usize, value);
    }

    pub fn read_oam(&self, addr: u16) -> (v: u8)
        requires
            self@.wf(),
        ensures
            v == (if addr < OAM_SIZE {
                self.oam@[addr as int]
            } else {
                0
            }),
    {
        if (addr as usize) < OAM_SIZE {
            self.oam[addr as usize]
        } else {
            0
        }
    }

    pub fn write_oam(&mut self, addr: u16, value: u8)
        requires
            old(self)@.wf(),
        ensures
            final(self)@ == (if addr < OAM_SIZE {
                MemoryView { oam: old(self)@.oam.update(addr as int, value), ..old(self)@ }
            } else {
                old(self)@
            }),
            final(self)@.wf(),
    {
        if (addr as usize) < OAM_SIZE {
            self.oam.set(addr as usize, value);
        }
    }

    pub fn read_cgram(&self, addr: u16) -> (v: u8)
        requires
            self@.wf(),
        ensures
            v == (if addr < CGRAM_SIZE {
                self.cgram@[addr as int]
            } else {
                0
            }),
    {
        if (addr as usize) < CGRAM_SIZE {
            self.cgram[addr as usize]
        } else {
            0
        }
    }

    pub fn write_cgram(&mut self, addr: u16, value: u8)
        requires
            old(self)@.wf(),
        ensures
            final(self)@ == (if addr < CGRAM_SIZE {
                MemoryView { cgram: old(self)@.cgram.update(addr as int, value), ..old(self)@ }
            } else {
                old(self)@
            }),
            final(self)@.wf(),
    {
        if (addr as usize) < CGRAM_SIZE {
            self.cgram.set(addr as usize, value);
        }
    }
}

} // verus!
