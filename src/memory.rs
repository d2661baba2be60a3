//! The 16-bit address space: a total map from addresses to regions, and the
//! bus that reads and writes each region's backing store.
use vstd::prelude::*;
use crate::error::EmulatorError;
use crate::interrupt_flags::InterruptFlags;
use crate::joypad::Joypad;
use crate::ppu::{
    has_lcd, has_vblank, register_read, register_write, step_spec, Interrupts, PPU, PpuView,
    LCD_REGISTER_COUNT,
};

verus! {

pub const BOOT_ROM_END: u16 = 0x00FF;
pub const BOOT_ROM_SIZE: usize = 0x100;
pub const GAME_ROM_BANK_ZERO_END: u16 = 0x3FFF;
pub const GAME_ROM_BANK_ZERO_SIZE: usize = 0x4000;
pub const GAME_ROM_BANK_N_START: u16 = 0x4000;
pub const GAME_ROM_BANK_N_END: u16 = 0x7FFF;
pub const GAME_ROM_BANK_N_SIZE: usize = 0x4000;
/// Bytes of cartridge ROM that the two banks hold.
pub const GAME_ROM_SIZE: usize = 0x8000;
pub const VRAM_START: u16 = 0x8000;
pub const VRAM_END: u16 = 0x9FFF;
pub const CARTRIDGE_RAM_START: u16 = 0xA000;
pub const CARTRIDGE_RAM_END: u16 = 0xBFFF;
pub const CARTRIDGE_RAM_SIZE: usize = 0x2000;
pub const WORKING_RAM_START: u16 = 0xC000;
pub const WORKING_RAM_END: u16 = 0xDFFF;
pub const WORKING_RAM_SIZE: usize = 0x2000;
pub const ECHO_RAM_START: u16 = 0xE000;
pub const ECHO_RAM_END: u16 = 0xFDFF;
pub const ECHO_RAM_SIZE: usize = 0x1E00;
pub const OBJECT_ATTRIBUTE_MEMORY_START: u16 = 0xFE00;
pub const OBJECT_ATTRIBUTE_MEMORY_END: u16 = 0xFE9F;
pub const UNUSED_MEMORY_START: u16 = 0xFEA0;
pub const UNUSED_MEMORY_END: u16 = 0xFEFF;
pub const IO_REGISTERS_START: u16 = 0xFF00;
pub const IO_REGISTERS_END: u16 = 0xFF7F;
pub const IO_REGISTERS_SIZE: usize = 0x80;
pub const HIGH_RAM_START: u16 = 0xFF80;
pub const HIGH_RAM_END: u16 = 0xFFFE;
pub const HIGH_RAM_SIZE: usize = 0x7F;
pub const INTERRUPT_REGISTER: u16 = 0xFFFF;
pub const JOYPAD_REGISTER: u16 = 0xFF00;
pub const INTERRUPT_FLAG_REGISTER: u16 = 0xFF0F;
pub const LCD_REGISTERS_START: u16 = 0xFF40;
/// A nonzero write here unmaps the boot ROM for good.
pub const BOOT_ROM_DISABLE_REGISTER: u16 = 0xFF50;

/// The regions of the address space.
#[derive(Clone, Copy, Debug, PartialEq, Eq, Structural)]
pub enum Region {
    /// 0x0000..=0x00FF: the boot ROM while it is mapped, else ROM bank zero.
    BootRom,
    RomBankZero,
    RomBankN,
    Vram,
    CartridgeRam,
    WorkingRam,
    EchoRam,
    Oam,
    Unused,
    IoRegisters,
    HighRam,
    InterruptEnable,
}

/// The region that holds `a`.
pub open spec fn region_of(a: u16) -> Region {
    if a <= BOOT_ROM_END {
        Region::BootRom
    } else if a <= GAME_ROM_BANK_ZERO_END {
        Region::RomBankZero
    } else if a <= GAME_ROM_BANK_N_END {
        Region::RomBankN
    } else if a <= VRAM_END {
        Region::Vram
    } else if a <= CARTRIDGE_RAM_END {
        Region::CartridgeRam
    } else if a <= WORKING_RAM_END {
        Region::WorkingRam
    } else if a <= ECHO_RAM_END {
        Region::EchoRam
    } else if a <= OBJECT_ATTRIBUTE_MEMORY_END {
        Region::Oam
    } else if a <= UNUSED_MEMORY_END {
        Region::Unused
    } else if a <= IO_REGISTERS_END {
        Region::IoRegisters
    } else if a <= HIGH_RAM_END {
        Region::HighRam
    } else {
        Region::InterruptEnable
    }
}

/// The first and last address of each region.
pub open spec fn region_bounds(r: Region) -> (u16, u16) {
    match r {
        Region::BootRom => (0x0000, BOOT_ROM_END),
        Region::RomBankZero => (0x0100, GAME_ROM_BANK_ZERO_END),
        Region::RomBankN => (GAME_ROM_BANK_N_START, GAME_ROM_BANK_N_END),
        Region::Vram => (VRAM_START, VRAM_END),
        Region::CartridgeRam => (CARTRIDGE_RAM_START, CARTRIDGE_RAM_END),
        Region::WorkingRam => (WORKING_RAM_START, WORKING_RAM_END),
        Region::EchoRam => (ECHO_RAM_START, ECHO_RAM_END),
        Region::Oam => (OBJECT_ATTRIBUTE_MEMORY_START, OBJECT_ATTRIBUTE_MEMORY_END),
        Region::Unused => (UNUSED_MEMORY_START, UNUSED_MEMORY_END),
        Region::IoRegisters => (IO_REGISTERS_START, IO_REGISTERS_END),
        Region::HighRam => (HIGH_RAM_START, HIGH_RAM_END),
        Region::InterruptEnable => (INTERRUPT_REGISTER, INTERRUPT_REGISTER),
    }
}

/// Every address lies in exactly one region: the one `region_of` names.
pub proof fn lemma_regions_partition(a: u16, r: Region)
    ensures
        (region_bounds(r).0 <= a <= region_bounds(r).1) <==> region_of(a) == r,
{
}

/// The region that holds `address`.
pub fn region(address: u16) -> (r: Region)
    ensures
        r == region_of(address),
    no_unwind
{
    if address <= BOOT_ROM_END {
        Region::BootRom
    } else if address <= GAME_ROM_BANK_ZERO_END {
        Region::RomBankZero
    } else if address <= GAME_ROM_BANK_N_END {
        Region::RomBankN
    } else if address <= VRAM_END {
        Region::Vram
    } else if address <= CARTRIDGE_RAM_END {
        Region::CartridgeRam
    } else if address <= WORKING_RAM_END {
        Region::WorkingRam
    } else if address <= ECHO_RAM_END {
        Region::EchoRam
    } else if address <= OBJECT_ATTRIBUTE_MEMORY_END {
        Region::Oam
    } else if address <= UNUSED_MEMORY_END {
        Region::Unused
    } else if address <= IO_REGISTERS_END {
        Region::IoRegisters
    } else if address <= HIGH_RAM_END {
        Region::HighRam
    } else {
        Region::InterruptEnable
    }
}

/// The address after `a`, wrapping from 0xFFFF to 0.
pub open spec fn next_address(a: u16) -> u16 {
    ((a as int + 1) % 0x10000) as u16
}

pub open spec fn zeros(n: nat) -> Seq<u8> {
    Seq::new(n, |i: int| 0u8)
}

/// What the bus holds, as seen from outside.
pub struct BusView {
    pub boot_rom: Seq<u8>,
    pub rom_bank_zero: Seq<u8>,
    pub rom_bank_n: Seq<u8>,
    pub cartridge_ram: Seq<u8>,
    pub working_ram: Seq<u8>,
    pub echo_ram: Seq<u8>,
    pub io_registers: Seq<u8>,
    pub high_ram: Seq<u8>,
    pub ppu: PpuView,
    pub joypad: Joypad,
    pub interrupt_enable: InterruptFlags,
    pub interrupt_flag: InterruptFlags,
    pub boot_rom_enabled: bool,
}

/// Reading an I/O register: the joypad (top two bits read as set), IF, the
/// LCD registers, or the plain byte that the other registers keep.
pub open spec fn io_read(v: BusView, a: u16) -> u8 {
    if a == JOYPAD_REGISTER {
        (v.joypad.byte() + 0xC0) as u8
    } else if a == INTERRUPT_FLAG_REGISTER {
        v.interrupt_flag.byte()
    } else if LCD_REGISTERS_START <= a < LCD_REGISTERS_START + LCD_REGISTER_COUNT {
        register_read(v.ppu.lcd, (a - LCD_REGISTERS_START) as u8)
    } else {
        v.io_registers[a - IO_REGISTERS_START]
    }
}

/// What `read_byte(a)` returns.
pub open spec fn read_spec(v: BusView, a: u16) -> u8 {
    match region_of(a) {
        Region::BootRom => if v.boot_rom_enabled {
            v.boot_rom[a as int]
        } else {
            v.rom_bank_zero[a as int]
        },
        Region::RomBankZero => v.rom_bank_zero[a as int],
        Region::RomBankN => v.rom_bank_n[a - GAME_ROM_BANK_N_START],
        Region::Vram => v.ppu.vram[a - VRAM_START],
        Region::CartridgeRam => v.cartridge_ram[a - CARTRIDGE_RAM_START],
        Region::WorkingRam => v.working_ram[a - WORKING_RAM_START],
        Region::EchoRam => v.echo_ram[a - ECHO_RAM_START],
        Region::Oam => v.ppu.oam[a - OBJECT_ATTRIBUTE_MEMORY_START],
        Region::Unused => 0,
        Region::IoRegisters => io_read(v, a),
        Region::HighRam => v.high_ram[a - HIGH_RAM_START],
        Region::InterruptEnable => v.interrupt_enable.byte(),
    }
}

/// The little-endian word at `a` and the address after it.
pub open spec fn read_word_spec(v: BusView, a: u16) -> u16 {
    (read_spec(v, next_address(a)) as int * 256 + read_spec(v, a) as int) as u16
}

/// Writing an I/O register: the joypad takes its select lines, IF its
/// lines, the LCD registers go to the pixel unit, a nonzero write to 0xFF50
/// unmaps the boot ROM; the byte is kept for the plain registers.
#[verifier::opaque]
pub open spec fn io_write(v: BusView, a: u16, x: u8) -> BusView {
    if a == JOYPAD_REGISTER {
        BusView {
            joypad: Joypad { select_buttons: x & 32 != 0, select_dpad: x & 16 != 0, ..v.joypad },
            ..v
        }
    } else if a == INTERRUPT_FLAG_REGISTER {
        BusView { interrupt_flag: InterruptFlags::of_byte(x), ..v }
    } else if LCD_REGISTERS_START <= a < LCD_REGISTERS_START + LCD_REGISTER_COUNT {
        BusView {
            ppu: PpuView {
                lcd: register_write(v.ppu.lcd, (a - LCD_REGISTERS_START) as u8, x),
                ..v.ppu
            },
            ..v
        }
    } else if a == BOOT_ROM_DISABLE_REGISTER {
        BusView {
            io_registers: v.io_registers.update(a - IO_REGISTERS_START, x),
            boot_rom_enabled: v.boot_rom_enabled && x == 0,
            ..v
        }
    } else {
        BusView { io_registers: v.io_registers.update(a - IO_REGISTERS_START, x), ..v }
    }
}

/// The bus after `write_byte(a, x)`. ROM bytes are stored (the boot ROM
/// itself never is); the unused range keeps nothing.
#[verifier::opaque]
pub open spec fn write_spec(v: BusView, a: u16, x: u8) -> BusView {
    match region_of(a) {
        Region::BootRom => BusView { rom_bank_zero: v.rom_bank_zero.update(a as int, x), ..v },
        Region::RomBankZero => BusView { rom_bank_zero: v.rom_bank_zero.update(a as int, x), ..v },
        Region::RomBankN => BusView {
            rom_bank_n: v.rom_bank_n.update(a - GAME_ROM_BANK_N_START, x),
            ..v
        },
        Region::Vram => BusView {
            ppu: PpuView { vram: v.ppu.vram.update(a - VRAM_START, x), ..v.ppu },
            ..v
        },
        Region::CartridgeRam => BusView {
            cartridge_ram: v.cartridge_ram.update(a - CARTRIDGE_RAM_START, x),
            ..v
        },
        Region::WorkingRam => BusView {
            working_ram: v.working_ram.update(a - WORKING_RAM_START, x),
            ..v
        },
        Region::EchoRam => BusView { echo_ram: v.echo_ram.update(a - ECHO_RAM_START, x), ..v },
        Region::Oam => BusView {
            ppu: PpuView { oam: v.ppu.oam.update(a - OBJECT_ATTRIBUTE_MEMORY_START, x), ..v.ppu },
            ..v
        },
        Region::Unused => v,
        Region::IoRegisters => io_write(v, a, x),
        Region::HighRam => BusView { high_ram: v.high_ram.update(a - HIGH_RAM_START, x), ..v },
        Region::InterruptEnable => BusView { interrupt_enable: InterruptFlags::of_byte(x), ..v },
    }
}

/// The bus that `new` builds: the boot ROM mapped over bank zero, the first
/// 0x8000 cartridge bytes in the two banks, every RAM zeroed, no button
/// pressed and no interrupt enabled or requested.
pub open spec fn initial_bus(boot_rom: Seq<u8>, game_rom: Seq<u8>) -> BusView {
    BusView {
        boot_rom: boot_rom,
        rom_bank_zero: game_rom.subrange(0, GAME_ROM_BANK_ZERO_SIZE as int),
        rom_bank_n: game_rom.subrange(GAME_ROM_BANK_ZERO_SIZE as int, GAME_ROM_SIZE as int),
        cartridge_ram: zeros(CARTRIDGE_RAM_SIZE as nat),
        working_ram: zeros(WORKING_RAM_SIZE as nat),
        echo_ram: zeros(ECHO_RAM_SIZE as nat),
        io_registers: zeros(IO_REGISTERS_SIZE as nat),
        high_ram: zeros(HIGH_RAM_SIZE as nat),
        ppu: PpuView {
            vram: zeros(crate::ppu::VRAM_SIZE as nat),
            oam: zeros(crate::ppu::OBJECT_ATTRIBUTE_MEMORY_SIZE as nat),
            lcd: PPU::initial_lcd(),
        },
        joypad: Joypad::released(),
        interrupt_enable: InterruptFlags::of_byte(0),
        interrupt_flag: InterruptFlags::of_byte(0),
        boot_rom_enabled: true,
    }
}

/// IF after the pixel unit's requests are merged into it.
pub open spec fn merged_requests(f: InterruptFlags, r: Interrupts) -> InterruptFlags {
    InterruptFlags { vblank: f.vblank || has_vblank(r), lcd_stat: f.lcd_stat || has_lcd(r), ..f }
}

/// The bus after the pixel unit advanced by `cycles`, its requests merged into IF.
pub open spec fn ppu_advanced(v: BusView, cycles: u8) -> BusView {
    let (lcd, r) = step_spec(v.ppu.lcd, cycles);
    BusView {
        ppu: PpuView { lcd: lcd, ..v.ppu },
        interrupt_flag: merged_requests(v.interrupt_flag, r),
        ..v
    }
}

pub struct MemoryBus {
    pub(crate) boot_rom: [u8; BOOT_ROM_SIZE],
    pub(crate) game_rom_bank_zero: [u8; GAME_ROM_BANK_ZERO_SIZE],
    pub(crate) game_rom_bank_n: [u8; GAME_ROM_BANK_N_SIZE],
    pub(crate) cartridge_ram: [u8; CARTRIDGE_RAM_SIZE],
    pub(crate) working_ram: [u8; WORKING_RAM_SIZE],
    pub(crate) echo_ram: [u8; ECHO_RAM_SIZE],
    pub(crate) io_registers: [u8; IO_REGISTERS_SIZE],
    pub(crate) high_ram: [u8; HIGH_RAM_SIZE],
    pub(crate) ppu: PPU,
    pub(crate) joypad: Joypad,
    pub(crate) interrupt_register: InterruptFlags,
    pub(crate) interrupt_flag: InterruptFlags,
    pub(crate) boot_rom_enabled: bool,
}

impl View for MemoryBus {
    type V = BusView;

    closed spec fn view(&self) -> BusView {
        BusView {
            boot_rom: self.boot_rom@,
            rom_bank_zero: self.game_rom_bank_zero@,
            rom_bank_n: self.game_rom_bank_n@,
            cartridge_ram: self.cartridge_ram@,
            working_ram: self.working_ram@,
            echo_ram: self.echo_ram@,
            io_registers: self.io_registers@,
            high_ram: self.high_ram@,
            ppu: self.ppu@,
            joypad: self.joypad,
            interrupt_enable: self.interrupt_register,
            interrupt_flag: self.interrupt_flag,
            boot_rom_enabled: self.boot_rom_enabled,
        }
    }
}

/// The bytes of `src` from `start` on, as many as `dst` holds.
fn copy_into<const N: usize>(dst: &mut [u8; N], src: &Vec<u8>, start: usize)
    requires
        start + N <= src.len(),
    ensures
        final(dst)@ == src@.subrange(start as int, start + N),
{
    let mut i: usize = 0;
    while i < N
        invariant
            0 <= i <= N,
            start + N <= src.len(),
            forall|j: int| 0 <= j < i ==> #[trigger] dst@[j] == src@[start + j],
        decreases N - i,
    {
        dst[i] = src[start + i];
        i = i + 1;
    }
    assert(dst@ =~= src@.subrange(start as int, start + N));
}

impl MemoryBus {
    /// A bus over a 256-byte boot ROM and a cartridge whose first 0x8000
    /// bytes fill the two ROM banks; every RAM is zeroed and the boot ROM is
    /// mapped.
    pub fn new(boot_rom_buffer: Vec<u8>, game_rom_buffer: Vec<u8>) -> (r: MemoryBus)
        requires
            boot_rom_buffer@.len() == BOOT_ROM_SIZE,
            game_rom_buffer@.len() >= GAME_ROM_SIZE,
        ensures
            r@ == initial_bus(boot_rom_buffer@, game_rom_buffer@),
    {
        let mut boot_rom = [0u8; BOOT_ROM_SIZE];
        copy_into(&mut boot_rom, &boot_rom_buffer, 0);
        let mut game_rom_bank_zero = [0u8; GAME_ROM_BANK_ZERO_SIZE];
        copy_into(&mut game_rom_bank_zero, &game_rom_buffer, 0);
        let mut game_rom_bank_n = [0u8; GAME_ROM_BANK_N_SIZE];
        copy_into(&mut game_rom_bank_n, &game_rom_buffer, GAME_ROM_BANK_ZERO_SIZE);
        let cartridge_ram = [0u8; CARTRIDGE_RAM_SIZE];
        let working_ram = [0u8; WORKING_RAM_SIZE];
        let echo_ram = [0u8; ECHO_RAM_SIZE];
        let io_registers = [0u8; IO_REGISTERS_SIZE];
        let high_ram = [0u8; HIGH_RAM_SIZE];
        let ppu = PPU::new();
        proof {
            assert(boot_rom@ =~= boot_rom_buffer@);
            assert(cartridge_ram@ =~= zeros(CARTRIDGE_RAM_SIZE as nat));
            assert(working_ram@ =~= zeros(WORKING_RAM_SIZE as nat));
            assert(echo_ram@ =~= zeros(ECHO_RAM_SIZE as nat));
            assert(io_registers@ =~= zeros(IO_REGISTERS_SIZE as nat));
            assert(high_ram@ =~= zeros(HIGH_RAM_SIZE as nat));
            assert(ppu@.vram =~= zeros(crate::ppu::VRAM_SIZE as nat));
            assert(ppu@.oam =~= zeros(crate::ppu::OBJECT_ATTRIBUTE_MEMORY_SIZE as nat));
        }
        MemoryBus {
            boot_rom,
            game_rom_bank_zero,
            game_rom_bank_n,
            cartridge_ram,
            working_ram,
            echo_ram,
            io_registers,
            high_ram,
            ppu,
            joypad: Joypad::new(),
            interrupt_register: InterruptFlags::new(),
            interrupt_flag: InterruptFlags::new(),
            boot_rom_enabled: true,
        }
    }

    /// Unmaps the boot ROM: 0x0000..=0x00FF reads ROM bank zero from now on.
    pub fn disable_boot_rom(&mut self)
        ensures
            final(self)@ == (BusView { boot_rom_enabled: false, ..old(self)@ }),
    {
        self.boot_rom_enabled = false;
    }

    pub fn read_byte(&self, address: u16) -> (r: u8)
        ensures
            r == read_spec(self@, address),
    {
        match region(address) {
            Region::BootRom => {
                if self.boot_rom_enabled {
                    self.boot_rom[address as usize]
                } else {
                    self.game_rom_bank_zero[address as usize]
                }
            },
            Region::RomBankZero => self.game_rom_bank_zero[address as usize],
            Region::RomBankN => self.game_rom_bank_n[(address - GAME_ROM_BANK_N_START) as usize],
            Region::Vram => self.ppu.read_from_vram((address - VRAM_START) as usize),
            Region::CartridgeRam => self.cartridge_ram[(address - CARTRIDGE_RAM_START) as usize],
            Region::WorkingRam => self.working_ram[(address - WORKING_RAM_START) as usize],
            Region::EchoRam => self.echo_ram[(address - ECHO_RAM_START) as usize],
            Region::Oam => self.ppu.read_oam((address - OBJECT_ATTRIBUTE_MEMORY_START) as usize),
            Region::Unused => 0,
            Region::IoRegisters => self.read_io_registers(address),
            Region::HighRam => self.high_ram[(address - HIGH_RAM_START) as usize],
            Region::InterruptEnable => self.interrupt_register.to_byte(),
        }
    }

    /// The little-endian word at `address`: low byte there, high byte at the
    /// next address.
    pub fn read_word(&self, address: u16) -> (r: u16)
        ensures
            r == read_word_spec(self@, address),
    {
        let lo = self.read_byte(address);
        let next = if address == 0xFFFF {
            0
        } else {
            address + 1
        };
        let hi = self.read_byte(next);
        (hi as u16) * 256 + lo as u16
    }

    /// Stores a byte into one of the plain ROM and RAM regions.
    fn store_plain(&mut self, r: Region, address: u16, value: u8)
        requires
            r == region_of(address),
            r is BootRom || r is RomBankZero || r is RomBankN || r is CartridgeRam
                || r is WorkingRam || r is EchoRam || r is HighRam,
        ensures
            final(self)@ == write_spec(old(self)@, address, value),
        no_unwind
    {
        proof {
            reveal(write_spec);
        }
        match r {
            Region::RomBankN => {
                self.game_rom_bank_n[(address - GAME_ROM_BANK_N_START) as usize] = value;
            },
            Region::CartridgeRam => {
                self.cartridge_ram[(address - CARTRIDGE_RAM_START) as usize] = value;
            },
            Region::WorkingRam => {
                self.working_ram[(address - WORKING_RAM_START) as usize] = value;
            },
            Region::EchoRam => {
                self.echo_ram[(address - ECHO_RAM_START) as usize] = value;
            },
            Region::HighRam => {
                self.high_ram[(address - HIGH_RAM_START) as usize] = value;
            },
            _ => {
                self.game_rom_bank_zero[address as usize] = value;
            },
        }
    }

    /// Hands a byte to the unit that owns a device region: the pixel unit,
    /// the I/O registers or IE.
    fn store_device(&mut self, r: Region, address: u16, value: u8)
        requires
            r == region_of(address),
            r is Vram || r is Oam || r is IoRegisters || r is InterruptEnable,
        ensures
            final(self)@ == write_spec(old(self)@, address, value),
        no_unwind
    {
        proof {
            reveal(write_spec);
        }
        match r {
            Region::Vram => {
                self.ppu.write_to_vram((address - VRAM_START) as usize, value);
            },
            Region::Oam => {
                self.ppu.write_oam((address - OBJECT_ATTRIBUTE_MEMORY_START) as usize, value);
            },
            Region::IoRegisters => {
                self.write_io_registers(address, value);
            },
            _ => {
                self.interrupt_register.from_byte(value);
            },
        }
    }

    /// Writes a byte where `address` maps. A write into the unused range is
    /// refused and changes nothing.
    pub fn write_byte(&mut self, address: u16, value: u8) -> (r: Result<(), EmulatorError>)
        ensures
            region_of(address) is Unused ==> r == Err::<(), EmulatorError>(
                EmulatorError::WriteToUnused { address },
            ) && final(self)@ == old(self)@,
            !(region_of(address) is Unused) ==> r is Ok && final(self)@ == write_spec(
                old(self)@,
                address,
                value,
            ),
        no_unwind
    {
        let r = region(address);
        if let Region::Unused = r {
            return Err(EmulatorError::WriteToUnused { address });
        }
        if matches!(r, Region::Vram | Region::Oam | Region::IoRegisters | Region::InterruptEnable) {
            self.store_device(r, address, value);
        } else {
            self.store_plain(r, address, value);
        }
        Ok(())
    }

    /// Writes a little-endian word: low byte at `address`, high byte at the
    /// next address. Where either address is unused, nothing is written.
    pub fn write_word(&mut self, address: u16, value: u16) -> (r: Result<(), EmulatorError>)
        ensures
            region_of(address) is Unused ==> r == Err::<(), EmulatorError>(
                EmulatorError::WriteToUnused { address },
            ) && final(self)@ == old(self)@,
            !(region_of(address) is Unused) && region_of(next_address(address)) is Unused ==> r
                == Err::<(), EmulatorError>(
                EmulatorError::WriteToUnused { address: next_address(address) },
            ) && final(self)@ == old(self)@,
            !(region_of(address) is Unused) && !(region_of(next_address(address)) is Unused) ==> r
                is Ok && final(self)@ == write_spec(
                write_spec(old(self)@, address, (value % 256) as u8),
                next_address(address),
                (value / 256) as u8,
            ),
        no_unwind
    {
        let next = if address == 0xFFFF {
            0
        } else {
            address + 1
        };
        if let Region::Unused = region(address) {
            return Err(EmulatorError::WriteToUnused { address });
        }
        if let Region::Unused = region(next) {
            return Err(EmulatorError::WriteToUnused { address: next });
        }
        let _ = self.write_byte(address, (value % 256) as u8);
        let _ = self.write_byte(next, (value / 256) as u8);
        Ok(())
    }

    /// Reads an I/O register (0xFF00..=0xFF7F).
    pub fn read_io_registers(&self, address: u16) -> (r: u8)
        requires
            IO_REGISTERS_START <= address <= IO_REGISTERS_END,
        ensures
            r == io_read(self@, address),
    {
        if address == JOYPAD_REGISTER {
            let lines = self.joypad.to_byte();
            lines + 0xC0
        } else if address == INTERRUPT_FLAG_REGISTER {
            self.interrupt_flag.to_byte()
        } else if LCD_REGISTERS_START <= address && address < LCD_REGISTERS_START
            + LCD_REGISTER_COUNT as u16 {
            self.ppu.read_register((address - LCD_REGISTERS_START) as u8)
        } else {
            self.io_registers[(address - IO_REGISTERS_START) as usize]
        }
    }

    /// Writes an I/O register (0xFF00..=0xFF7F).
    pub fn write_io_registers(&mut self, address: u16, value: u8)
        requires
            IO_REGISTERS_START <= address <= IO_REGISTERS_END,
        ensures
            final(self)@ == io_write(old(self)@, address, value),
        no_unwind
    {
        proof {
            reveal(io_write);
        }
        if address == JOYPAD_REGISTER {
            self.joypad.select(value);
        } else if address == INTERRUPT_FLAG_REGISTER {
            self.interrupt_flag.from_byte(value);
        } else if LCD_REGISTERS_START <= address && address < LCD_REGISTERS_START
            + LCD_REGISTER_COUNT as u16 {
            self.ppu.write_register((address - LCD_REGISTERS_START) as u8, value);
        } else {
            self.io_registers[(address - IO_REGISTERS_START) as usize] = value;
            if address == BOOT_ROM_DISABLE_REGISTER && value != 0 {
                self.boot_rom_enabled = false;
            }
        }
    }

    /// Advances the pixel unit by `cycles` and merges the interrupts it
    /// requests into IF.
    pub fn step_ppu(&mut self, cycles: u8) -> (r: Interrupts)
        ensures
            r == step_spec(old(self)@.ppu.lcd, cycles).1,
            final(self)@ == ppu_advanced(old(self)@, cycles),
        no_unwind
    {
        let r = self.ppu.step(cycles);
        if matches!(r, Interrupts::VBlank | Interrupts::Both) {
            self.interrupt_flag.vblank = true;
        }
        if matches!(r, Interrupts::LCD | Interrupts::Both) {
            self.interrupt_flag.lcd_stat = true;
        }
        r
    }

    /// The pixel unit behind the bus.
    pub fn ppu(&self) -> (r: &PPU)
        ensures
            r@ == self@.ppu,
    {
        &self.ppu
    }

    pub fn boot_rom_enabled(&self) -> (r: bool)
        ensures
            r == self@.boot_rom_enabled,
    {
        self.boot_rom_enabled
    }

    /// Sets the button lines, as the button-polling peripheral does.
    pub fn set_joypad(&mut self, joypad: Joypad)
        ensures
            final(self)@ == (BusView { joypad: joypad, ..old(self)@ }),
    {
        self.joypad = joypad;
    }
}

/// While the boot ROM is mapped, an address of 0x0000..=0x00FF reads the
/// boot ROM's byte; once it is unmapped the same address reads ROM bank
/// zero, and no write maps it again.
pub proof fn lemma_boot_rom_overlay(v: BusView, a: u16, b: u16, x: u8)
    requires
        a <= BOOT_ROM_END,
    ensures
        v.boot_rom_enabled ==> read_spec(v, a) == v.boot_rom[a as int],
        !v.boot_rom_enabled ==> read_spec(v, a) == v.rom_bank_zero[a as int],
        read_spec(BusView { boot_rom_enabled: false, ..v }, a) == v.rom_bank_zero[a as int],
        !v.boot_rom_enabled ==> !write_spec(v, b, x).boot_rom_enabled,
{
    reveal(write_spec);
    reveal(io_write);
}

impl BusView {
    /// Every store has the length of its region.
    pub open spec fn wf(self) -> bool {
        &&& self.boot_rom.len() == BOOT_ROM_SIZE
        &&& self.rom_bank_zero.len() == GAME_ROM_BANK_ZERO_SIZE
        &&& self.rom_bank_n.len() == GAME_ROM_BANK_N_SIZE
        &&& self.cartridge_ram.len() == CARTRIDGE_RAM_SIZE
        &&& self.working_ram.len() == WORKING_RAM_SIZE
        &&& self.echo_ram.len() == ECHO_RAM_SIZE
        &&& self.io_registers.len() == IO_REGISTERS_SIZE
        &&& self.high_ram.len() == HIGH_RAM_SIZE
        &&& self.ppu.vram.len() == crate::ppu::VRAM_SIZE
        &&& self.ppu.oam.len() == crate::ppu::OBJECT_ATTRIBUTE_MEMORY_SIZE
    }
}

/// The regions that simply keep the bytes written to them (ROM bank zero
/// past the boot ROM's range).
pub open spec fn is_storage(a: u16) -> bool {
    let r = region_of(a);
    r is RomBankZero || r is RomBankN || r is Vram || r is CartridgeRam || r is WorkingRam
        || r is EchoRam || r is Oam || r is HighRam
}

/// A byte written to a storage address reads back, and every other address
/// reads what it read before.
pub proof fn lemma_read_after_write(v: BusView, a: u16, x: u8, b: u16)
    requires
        v.wf(),
        is_storage(a),
    ensures
        read_spec(write_spec(v, a, x), a) == x,
        b != a ==> read_spec(write_spec(v, a, x), b) == read_spec(v, b),
        write_spec(v, a, x).wf(),
{
    reveal(write_spec);
}

} // verus!
