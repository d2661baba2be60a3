//! The pixel-processing unit: video RAM with its derived tile-pixel cache,
//! object attribute memory with its decoded sprite records, the LCD
//! registers, and the four-state scanline mode machine.
use vstd::prelude::*;

verus! {

/// Bytes of video RAM (0x8000..=0x9FFF on the bus).
pub const VRAM_SIZE: usize = 0x2000;
/// Bytes at the start of video RAM that hold tile data.
pub const TILE_DATA_SIZE: usize = 0x1800;
pub const TILE_COUNT: usize = 384;
/// Pixels in the tile cache: 8x8 for each tile.
pub const TILE_PIXEL_COUNT: usize = 0x6000;
pub const NUMBER_OF_OBJECTS: usize = 40;
pub const OBJECT_ATTRIBUTE_MEMORY_SIZE: usize = 0xA0;
/// Number of LCD registers (0xFF40..=0xFF4B on the bus).
pub const LCD_REGISTER_COUNT: u8 = 12;
/// First line of the vertical blank.
pub const SCREEN_HEIGHT: u8 = 144;
pub const LINES_PER_FRAME: u8 = 154;
pub const OAM_SCAN_CYCLES: u16 = 80;
pub const PIXEL_TRANSFER_CYCLES: u16 = 172;
pub const HBLANK_CYCLES: u16 = 204;
pub const SCANLINE_CYCLES: u16 = 456;
/// LCDC bit that selects 8x16 objects.
pub const OBJECT_SIZE_BIT: u8 = 0x04;

#[derive(Clone, Copy, Debug, PartialEq, Eq, Structural)]
pub enum Colour {
    White,
    LightGray,
    DarkGray,
    Black,
}

/// The colour of a two-bit shade index.
pub open spec fn colour_of(bits: int) -> Colour {
    if bits == 0 {
        Colour::White
    } else if bits == 1 {
        Colour::LightGray
    } else if bits == 2 {
        Colour::DarkGray
    } else {
        Colour::Black
    }
}

pub open spec fn colour_level(c: Colour) -> u8 {
    match c {
        Colour::White => 255,
        Colour::LightGray => 192,
        Colour::DarkGray => 96,
        Colour::Black => 0,
    }
}

impl Colour {
    /// The colour that the low two bits of `value` select.
    pub fn from_bits(value: u8) -> (r: Colour)
        ensures
            r == colour_of(value as int % 4),
    {
        let bits = value % 4;
        if bits == 0 {
            Colour::White
        } else if bits == 1 {
            Colour::LightGray
        } else if bits == 2 {
            Colour::DarkGray
        } else {
            Colour::Black
        }
    }

    /// The grey level of the colour, 255 for white down to 0 for black.
    pub fn level(&self) -> (r: u8)
        ensures
            r == colour_level(*self),
    {
        match self {
            Colour::White => 255,
            Colour::LightGray => 192,
            Colour::DarkGray => 96,
            Colour::Black => 0,
        }
    }
}

/// The colours of the four shade indices, lowest first.
#[derive(Clone, Copy, Debug, PartialEq, Eq, Structural)]
pub struct Palette(pub Colour, pub Colour, pub Colour, pub Colour);

/// The palette that a palette register holds: two bits per shade index.
pub open spec fn palette_of(b: u8) -> Palette {
    Palette(
        colour_of(b as int % 4),
        colour_of(b as int / 4 % 4),
        colour_of(b as int / 16 % 4),
        colour_of(b as int / 64 % 4),
    )
}

impl Palette {
    pub fn new() -> (r: Palette)
        ensures
            r == Palette(Colour::White, Colour::LightGray, Colour::DarkGray, Colour::Black),
    {
        Palette(Colour::White, Colour::LightGray, Colour::DarkGray, Colour::Black)
    }

    pub fn from_byte(value: u8) -> (r: Palette)
        ensures
            r == palette_of(value),
    {
        Palette(
            Colour::from_bits(value),
            Colour::from_bits(value / 4),
            Colour::from_bits(value / 16),
            Colour::from_bits(value / 64),
        )
    }
}

/// A two-bit tile pixel.
#[derive(Clone, Copy, Debug, PartialEq, Eq, Structural)]
pub enum TilePixelValue {
    Zero,
    One,
    Two,
    Three,
}

pub open spec fn pixel_value_of(bits: u8) -> TilePixelValue {
    if bits == 0 {
        TilePixelValue::Zero
    } else if bits == 1 {
        TilePixelValue::One
    } else if bits == 2 {
        TilePixelValue::Two
    } else {
        TilePixelValue::Three
    }
}

/// Pixel `col` (0 leftmost) of the row whose low-bit byte is `lo` and whose
/// high-bit byte is `hi`.
pub open spec fn row_pixel(lo: u8, hi: u8, col: int) -> u8 {
    (((hi >> (7 - col) as u8) & 1u8) * 2 + ((lo >> (7 - col) as u8) & 1u8)) as u8
}

/// Pixel `p` of the tile cache: pixel `p % 8` of row `p / 8`, whose two bytes
/// sit at `2 * (p / 8)` and the address after it. Tile `t`, row `r`, column
/// `c` is pixel `64 * t + 8 * r + c`.
pub open spec fn cached_pixel(vram: Seq<u8>, p: int) -> u8 {
    row_pixel(vram[2 * (p / 8)], vram[2 * (p / 8) + 1], p % 8)
}

/// The tile cache agrees with video RAM at every pixel.
pub open spec fn tiles_match(vram: Seq<u8>, tiles: Seq<u8>) -> bool {
    forall|p: int| 0 <= p < TILE_PIXEL_COUNT ==> #[trigger] tiles[p] == cached_pixel(vram, p)
}

#[derive(Clone, Copy, Debug, PartialEq, Eq, Structural)]
pub enum ObjectPalette {
    Zero,
    One,
}

#[derive(Clone, Copy, Debug, PartialEq, Eq, Structural)]
pub enum ObjectSize {
    O8x8,
    O8x16,
}

/// A decoded sprite record.
#[derive(Clone, Copy, Debug, PartialEq, Eq, Structural)]
pub struct Object {
    pub y: u8,
    pub x: u8,
    pub tile_index: u8,
    pub priority: bool,
    pub y_flip: bool,
    pub x_flip: bool,
    pub palette: ObjectPalette,
}

/// Record `i` of object attribute memory: y, x, tile index (made even for
/// 8x16 objects) and the flags in the top nibble of the fourth byte.
pub open spec fn object_of(oam: Seq<u8>, tall: bool, i: int) -> Object {
    let tile = oam[4 * i + 2];
    let flags = oam[4 * i + 3];
    Object {
        y: oam[4 * i],
        x: oam[4 * i + 1],
        tile_index: if tall {
            (tile - tile % 2) as u8
        } else {
            tile
        },
        priority: flags & 0x80 != 0,
        y_flip: flags & 0x40 != 0,
        x_flip: flags & 0x20 != 0,
        palette: if flags & 0x10 != 0 {
            ObjectPalette::One
        } else {
            ObjectPalette::Zero
        },
    }
}

/// The decoded records agree with object attribute memory.
pub open spec fn objects_match(oam: Seq<u8>, tall: bool, objects: Seq<Object>) -> bool {
    forall|i: int| 0 <= i < NUMBER_OF_OBJECTS ==> #[trigger] objects[i] == object_of(oam, tall, i)
}

impl Object {
    pub fn new() -> (r: Object)
        ensures
            r == (Object {
                y: 0,
                x: 0,
                tile_index: 0,
                priority: false,
                y_flip: false,
                x_flip: false,
                palette: ObjectPalette::Zero,
            }),
    {
        Object {
            y: 0,
            x: 0,
            tile_index: 0,
            priority: false,
            y_flip: false,
            x_flip: false,
            palette: ObjectPalette::Zero,
        }
    }

    /// Decodes record `index` of `oam`.
    fn decode(oam: &Vec<u8>, tall: bool, index: usize) -> (r: Object)
        requires
            oam@.len() == OBJECT_ATTRIBUTE_MEMORY_SIZE,
            index < NUMBER_OF_OBJECTS,
        ensures
            r == object_of(oam@, tall, index as int),
    no_unwind
    {
        let tile = oam[4 * index + 2];
        let flags = oam[4 * index + 3];
        Object {
            y: oam[4 * index],
            x: oam[4 * index + 1],
            tile_index: if tall {
                tile - tile % 2
            } else {
                tile
            },
            priority: flags & 0x80 != 0,
            y_flip: flags & 0x40 != 0,
            x_flip: flags & 0x20 != 0,
            palette: if flags & 0x10 != 0 {
                ObjectPalette::One
            } else {
                ObjectPalette::Zero
            },
        }
    }
}

/// The interrupt requests of one step: a set over {VBlank, LCD}.
#[derive(Clone, Copy, Debug, PartialEq, Eq, Structural)]
pub enum Interrupts {
    Neither,
    VBlank,
    LCD,
    Both,
}

pub open spec fn has_vblank(i: Interrupts) -> bool {
    i is VBlank || i is Both
}

pub open spec fn has_lcd(i: Interrupts) -> bool {
    i is LCD || i is Both
}

pub open spec fn interrupts_of(vblank: bool, lcd: bool) -> Interrupts {
    if vblank && lcd {
        Interrupts::Both
    } else if vblank {
        Interrupts::VBlank
    } else if lcd {
        Interrupts::LCD
    } else {
        Interrupts::Neither
    }
}

/// The union of two request sets.
pub open spec fn union(a: Interrupts, b: Interrupts) -> Interrupts {
    interrupts_of(has_vblank(a) || has_vblank(b), has_lcd(a) || has_lcd(b))
}

impl Interrupts {
    /// Adds the requests of `interr` to this set.
    pub fn add(&mut self, interr: Interrupts)
        ensures
            *final(self) == union(*old(self), interr),
        no_unwind
    {
        let vblank = matches!(*self, Interrupts::VBlank | Interrupts::Both) || matches!(interr, Interrupts::VBlank | Interrupts::Both);
        let lcd = matches!(*self, Interrupts::LCD | Interrupts::Both) || matches!(interr, Interrupts::LCD | Interrupts::Both);
        *self = if vblank && lcd {
            Interrupts::Both
        } else if vblank {
            Interrupts::VBlank
        } else if lcd {
            Interrupts::LCD
        } else {
            Interrupts::Neither
        };
    }
}

/// Merging requests is commutative, idempotent and associative, with None
/// as its unit.
pub proof fn lemma_union_laws(a: Interrupts, b: Interrupts, c: Interrupts)
    ensures
        union(a, b) == union(b, a),
        union(a, a) == a,
        union(union(a, b), c) == union(a, union(b, c)),
        union(a, Interrupts::Neither) == a,
{
}

#[derive(Clone, Copy, Debug, PartialEq, Eq, Structural)]
pub enum PPUModes {
    OAMScan,
    PixelTransfer,
    VBlank,
    HBlank,
}

/// The mode machine's state and the LCD registers.
#[derive(Clone, Copy, Debug, PartialEq, Eq, Structural)]
pub struct LcdRegisters {
    pub mode: PPUModes,
    pub cycles: u16,
    pub ly: u8,
    pub lyc: u8,
    pub ly_is_lyc: bool,
    pub lyc_selected: bool,
    pub oamscan_selected: bool,
    pub vblank_selected: bool,
    pub hblank_selected: bool,
    pub control: u8,
    pub scy: u8,
    pub scx: u8,
    pub bgp: u8,
    pub obp0: u8,
    pub obp1: u8,
    pub wy: u8,
    pub wx: u8,
}

impl LcdRegisters {
    /// The counter stays below a scanline and LY follows the mode: visible
    /// lines in the three drawing modes, lines 144..=153 in the vertical blank.
    pub open spec fn wf(self) -> bool {
        &&& self.cycles < SCANLINE_CYCLES
        &&& if self.mode is VBlank {
            SCREEN_HEIGHT <= self.ly < LINES_PER_FRAME
        } else {
            self.ly < SCREEN_HEIGHT
        }
    }
}

/// Objects are 8x16 when the object-size bit of LCDC is set.
pub open spec fn tall_objects(control: u8) -> bool {
    control & OBJECT_SIZE_BIT != 0
}

/// The registers after a scanline boundary has compared LY with LYC: the
/// coincidence flag, and an LCD request where that class is selected.
pub open spec fn lyc_checked(s: LcdRegisters, request: Interrupts) -> (LcdRegisters, Interrupts) {
    let check = s.ly == s.lyc;
    (
        LcdRegisters { ly_is_lyc: check, ..s },
        if check && s.lyc_selected {
            union(request, Interrupts::LCD)
        } else {
            request
        },
    )
}

/// One advance of the mode machine by `n` cycles: the registers after it and
/// the interrupts it requests. A mode ends once the counter reaches its
/// length (80, 172, 204 and a whole 456-cycle line in the vertical blank);
/// the counter keeps the remainder.
#[verifier::opaque]
pub open spec fn step_spec(s: LcdRegisters, n: u8) -> (LcdRegisters, Interrupts) {
    let c = s.cycles + n;
    match s.mode {
        PPUModes::OAMScan => if c >= OAM_SCAN_CYCLES {
            (
                LcdRegisters { cycles: (c % OAM_SCAN_CYCLES as int) as u16, mode: PPUModes::PixelTransfer, ..s },
                Interrupts::Neither,
            )
        } else {
            (LcdRegisters { cycles: c as u16, ..s }, Interrupts::Neither)
        },
        PPUModes::PixelTransfer => if c >= PIXEL_TRANSFER_CYCLES {
            (
                LcdRegisters { cycles: (c % PIXEL_TRANSFER_CYCLES as int) as u16, mode: PPUModes::HBlank, ..s },
                if s.hblank_selected {
                    Interrupts::LCD
                } else {
                    Interrupts::Neither
                },
            )
        } else {
            (LcdRegisters { cycles: c as u16, ..s }, Interrupts::Neither)
        },
        PPUModes::HBlank => if c >= HBLANK_CYCLES {
            let ly = (s.ly + 1) as u8;
            let next = if ly == SCREEN_HEIGHT {
                PPUModes::VBlank
            } else {
                PPUModes::OAMScan
            };
            let request = if ly == SCREEN_HEIGHT {
                interrupts_of(true, s.vblank_selected)
            } else {
                interrupts_of(false, s.oamscan_selected)
            };
            lyc_checked(
                LcdRegisters { cycles: (c % HBLANK_CYCLES as int) as u16, mode: next, ly: ly, ..s },
                request,
            )
        } else {
            (LcdRegisters { cycles: c as u16, ..s }, Interrupts::Neither)
        },
        PPUModes::VBlank => if c >= SCANLINE_CYCLES {
            let wrapped = s.ly + 1 == LINES_PER_FRAME;
            let ly = if wrapped {
                0u8
            } else {
                (s.ly + 1) as u8
            };
            lyc_checked(
                LcdRegisters {
                    cycles: (c % SCANLINE_CYCLES as int) as u16,
                    mode: if wrapped {
                        PPUModes::OAMScan
                    } else {
                        PPUModes::VBlank
                    },
                    ly: ly,
                    ..s
                },
                interrupts_of(false, wrapped && s.oamscan_selected),
            )
        } else {
            (LcdRegisters { cycles: c as u16, ..s }, Interrupts::Neither)
        },
    }
}

/// From the start of a visible line's OAM scan, a step moves the machine to
/// pixel transfer exactly when the cycles fed reach 80, and leaves LY as it
/// is. A whole line fed as 80, 172 and 204 cycles passes through pixel
/// transfer and the horizontal blank, and ends with LY one higher, the counter
/// at zero, and the machine at the next OAM scan (in the vertical blank after
/// the last visible line), never back in OAM scan before the line is over.
pub proof fn lemma_scanline_sequence(s: LcdRegisters, n: u8)
    requires
        s.wf(),
        s.mode is OAMScan,
        s.cycles == 0,
    ensures
        (step_spec(s, n).0.mode is PixelTransfer) <==> n >= OAM_SCAN_CYCLES,
        (step_spec(s, n).0.mode is OAMScan) <==> n < OAM_SCAN_CYCLES,
        step_spec(s, n).0.ly == s.ly,
        ({
            let s1 = step_spec(s, 80).0;
            let s2 = step_spec(s1, 172).0;
            let s3 = step_spec(s2, 204).0;
            &&& s1.mode is PixelTransfer && s1.cycles == 0 && s1.ly == s.ly
            &&& s2.mode is HBlank && s2.cycles == 0 && s2.ly == s.ly
            &&& s3.ly == s.ly + 1 && s3.cycles == 0
            &&& s3.mode == if s.ly + 1 == SCREEN_HEIGHT {
                PPUModes::VBlank
            } else {
                PPUModes::OAMScan
            }
        }),
{
    reveal(step_spec);
}

/// The two mode bits of STAT.
pub open spec fn mode_bits(m: PPUModes) -> u8 {
    match m {
        PPUModes::HBlank => 0,
        PPUModes::VBlank => 1,
        PPUModes::OAMScan => 2,
        PPUModes::PixelTransfer => 3,
    }
}

pub open spec fn bit_if(b: bool, v: u8) -> int {
    if b {
        v as int
    } else {
        0
    }
}

/// STAT as read: bit 7 set, the four interrupt selects in bits 6..3, the
/// coincidence flag in bit 2 and the mode in bits 1..0.
pub open spec fn stat_byte(s: LcdRegisters) -> u8 {
    (0x80 + bit_if(s.lyc_selected, 0x40) + bit_if(s.oamscan_selected, 0x20) + bit_if(
        s.vblank_selected,
        0x10,
    ) + bit_if(s.hblank_selected, 0x08) + bit_if(s.ly_is_lyc, 0x04) + mode_bits(s.mode)) as u8
}

/// What reading LCD register `offset` (from 0xFF40) returns; the DMA slot
/// and offsets past the last register read as 0xFF.
#[verifier::opaque]
pub open spec fn register_read(s: LcdRegisters, offset: u8) -> u8 {
    if offset == 0 {
        s.control
    } else if offset == 1 {
        stat_byte(s)
    } else if offset == 2 {
        s.scy
    } else if offset == 3 {
        s.scx
    } else if offset == 4 {
        s.ly
    } else if offset == 5 {
        s.lyc
    } else if offset == 7 {
        s.bgp
    } else if offset == 8 {
        s.obp0
    } else if offset == 9 {
        s.obp1
    } else if offset == 10 {
        s.wy
    } else if offset == 11 {
        s.wx
    } else {
        0xFF
    }
}

/// The registers after writing `v` to LCD register `offset`: STAT takes only
/// the four selects, LY and the DMA slot ignore writes.
#[verifier::opaque]
pub open spec fn register_write(s: LcdRegisters, offset: u8, v: u8) -> LcdRegisters {
    if offset == 0 {
        LcdRegisters { control: v, ..s }
    } else if offset == 1 {
        LcdRegisters {
            hblank_selected: v & 0x08 != 0,
            vblank_selected: v & 0x10 != 0,
            oamscan_selected: v & 0x20 != 0,
            lyc_selected: v & 0x40 != 0,
            ..s
        }
    } else if offset == 2 {
        LcdRegisters { scy: v, ..s }
    } else if offset == 3 {
        LcdRegisters { scx: v, ..s }
    } else if offset == 5 {
        LcdRegisters { lyc: v, ..s }
    } else if offset == 7 {
        LcdRegisters { bgp: v, ..s }
    } else if offset == 8 {
        LcdRegisters { obp0: v, ..s }
    } else if offset == 9 {
        LcdRegisters { obp1: v, ..s }
    } else if offset == 10 {
        LcdRegisters { wy: v, ..s }
    } else if offset == 11 {
        LcdRegisters { wx: v, ..s }
    } else {
        s
    }
}

/// What the pixel unit holds, as seen from outside: video RAM, object
/// attribute memory and the registers. The tile cache and the decoded
/// objects are functions of these.
pub struct PpuView {
    pub vram: Seq<u8>,
    pub oam: Seq<u8>,
    pub lcd: LcdRegisters,
}

pub struct PPU {
    pub(crate) vram: Vec<u8>,
    pub(crate) tiles: Vec<u8>,
    pub(crate) oam: Vec<u8>,
    pub(crate) objects: Vec<Object>,
    pub(crate) lcd: LcdRegisters,
}

impl View for PPU {
    type V = PpuView;

    closed spec fn view(&self) -> PpuView {
        PpuView { vram: self.vram@, oam: self.oam@, lcd: self.lcd }
    }
}

/// Recomputes the eight cached pixels of the row that holds byte `address`.
fn refresh_tile_row(vram: &Vec<u8>, tiles: &mut Vec<u8>, address: usize)
    requires
        vram@.len() == VRAM_SIZE,
        old(tiles)@.len() == TILE_PIXEL_COUNT,
        address < TILE_DATA_SIZE,
    ensures
        final(tiles)@.len() == TILE_PIXEL_COUNT,
        forall|p: int|
            0 <= p < TILE_PIXEL_COUNT ==> #[trigger] final(tiles)@[p] == if p / 8 == address / 2 {
                cached_pixel(vram@, p)
            } else {
                old(tiles)@[p]
            },
    no_unwind
{
    let row_start = address - address % 2;
    let lo = vram[row_start];
    let hi = vram[row_start + 1];
    let first = row_start * 4;
    let mut i: usize = 0;
    while i < 8
        invariant
            0 <= i <= 8,
            row_start == address - address % 2,
            lo == vram@[row_start as int],
            hi == vram@[row_start as int + 1],
            first == row_start * 4,
            row_start + 1 < TILE_DATA_SIZE,
            vram@.len() == VRAM_SIZE,
            tiles@.len() == TILE_PIXEL_COUNT,
            forall|p: int|
                0 <= p < TILE_PIXEL_COUNT ==> #[trigger] tiles@[p] == if p / 8 == address / 2 && p
                    % 8 < i {
                    cached_pixel(vram@, p)
                } else {
                    old(tiles)@[p]
                },
        decreases 8 - i,
    {
        let shift: u8 = 7 - i as u8;
        proof {
            assert(((hi >> shift) & 1u8) <= 1) by (bit_vector);
            assert(((lo >> shift) & 1u8) <= 1) by (bit_vector);
        }
        let pixel = ((hi >> shift) & 1) * 2 + ((lo >> shift) & 1);
        tiles[first + i] = pixel;
        proof {
            let q = first + i;
            assert(q / 8 == address / 2 && q % 8 == i);
            assert(2 * (q / 8) == row_start);
        }
        i = i + 1;
    }
}

/// Stores a byte of video RAM and keeps the tile cache in step with it.
fn store_vram(vram: &mut Vec<u8>, tiles: &mut Vec<u8>, address: usize, value: u8)
    requires
        old(vram)@.len() == VRAM_SIZE,
        old(tiles)@.len() == TILE_PIXEL_COUNT,
        tiles_match(old(vram)@, old(tiles)@),
        address < VRAM_SIZE,
    ensures
        final(vram)@ == old(vram)@.update(address as int, value),
        final(tiles)@.len() == TILE_PIXEL_COUNT,
        tiles_match(final(vram)@, final(tiles)@),
    no_unwind
{
    vram[address] = value;
    if address < TILE_DATA_SIZE {
        refresh_tile_row(vram, tiles, address);
        assert forall|p: int| 0 <= p < TILE_PIXEL_COUNT implies #[trigger] tiles@[p]
            == cached_pixel(vram@, p) by {
            if p / 8 != address / 2 {
                assert(2 * (p / 8) != address && 2 * (p / 8) + 1 != address);
                assert(tiles@[p] == cached_pixel(old(vram)@, p));
            }
        }
    } else {
        assert forall|p: int| 0 <= p < TILE_PIXEL_COUNT implies #[trigger] tiles@[p]
            == cached_pixel(vram@, p) by {
            assert(tiles@[p] == cached_pixel(old(vram)@, p));
            assert(2 * (p / 8) + 1 < TILE_DATA_SIZE);
        }
    }
}

/// Re-decodes every object record of `oam`.
fn decode_objects(oam: &Vec<u8>, tall: bool) -> (r: Vec<Object>)
    requires
        oam@.len() == OBJECT_ATTRIBUTE_MEMORY_SIZE,
    ensures
        r@.len() == NUMBER_OF_OBJECTS,
        objects_match(oam@, tall, r@),
{
    let mut objects: Vec<Object> = Vec::new();
    let mut i: usize = 0;
    while i < NUMBER_OF_OBJECTS
        invariant
            0 <= i <= NUMBER_OF_OBJECTS,
            oam@.len() == OBJECT_ATTRIBUTE_MEMORY_SIZE,
            objects@.len() == i,
            forall|j: int| 0 <= j < i ==> #[trigger] objects@[j] == object_of(oam@, tall, j),
        decreases NUMBER_OF_OBJECTS - i,
    {
        objects.push(Object::decode(oam, tall, i));
        i = i + 1;
    }
    objects
}

/// Stores a byte of object attribute memory and re-decodes its record.
fn store_oam(oam: &mut Vec<u8>, objects: &mut Vec<Object>, tall: bool, address: usize, value: u8)
    requires
        old(oam)@.len() == OBJECT_ATTRIBUTE_MEMORY_SIZE,
        old(objects)@.len() == NUMBER_OF_OBJECTS,
        objects_match(old(oam)@, tall, old(objects)@),
        address < OBJECT_ATTRIBUTE_MEMORY_SIZE,
    ensures
        final(oam)@ == old(oam)@.update(address as int, value),
        final(objects)@.len() == NUMBER_OF_OBJECTS,
        objects_match(final(oam)@, tall, final(objects)@),
    no_unwind
{
    oam[address] = value;
    let index = address / 4;
    let object = Object::decode(oam, tall, index);
    objects[index] = object;
    assert forall|i: int| 0 <= i < NUMBER_OF_OBJECTS implies #[trigger] objects@[i] == object_of(
        oam@,
        tall,
        i,
    ) by {
        if i != index {
            assert(objects@[i] == object_of(old(oam)@, tall, i));
            assert(4 * i + 3 < address || address < 4 * i);
        }
    }
}

/// Re-decodes, in place, every object record of `oam`.
fn redecode_objects(objects: &mut Vec<Object>, oam: &Vec<u8>, tall: bool)
    requires
        oam@.len() == OBJECT_ATTRIBUTE_MEMORY_SIZE,
        old(objects)@.len() == NUMBER_OF_OBJECTS,
    ensures
        final(objects)@.len() == NUMBER_OF_OBJECTS,
        objects_match(oam@, tall, final(objects)@),
    no_unwind
{
    let mut i: usize = 0;
    while i < NUMBER_OF_OBJECTS
        invariant
            0 <= i <= NUMBER_OF_OBJECTS,
            oam@.len() == OBJECT_ATTRIBUTE_MEMORY_SIZE,
            objects@.len() == NUMBER_OF_OBJECTS,
            forall|j: int| 0 <= j < i ==> #[trigger] objects@[j] == object_of(oam@, tall, j),
        decreases NUMBER_OF_OBJECTS - i,
    {
        objects[i] = Object::decode(oam, tall, i);
        i = i + 1;
    }
}

/// Sets LCDC and re-decodes the objects for its object size.
fn store_control(lcd: &mut LcdRegisters, objects: &mut Vec<Object>, oam: &Vec<u8>, value: u8)
    requires
        oam@.len() == OBJECT_ATTRIBUTE_MEMORY_SIZE,
        old(objects)@.len() == NUMBER_OF_OBJECTS,
    ensures
        *final(lcd) == (LcdRegisters { control: value, ..*old(lcd) }),
        final(objects)@.len() == NUMBER_OF_OBJECTS,
        objects_match(oam@, tall_objects(value), final(objects)@),
    no_unwind
{
    lcd.control = value;
    redecode_objects(objects, oam, value & OBJECT_SIZE_BIT != 0);
}

/// Writes an LCD register other than LCDC.
fn store_register(lcd: &mut LcdRegisters, offset: u8, value: u8)
    requires
        offset != 0,
        old(lcd).wf(),
    ensures
        *final(lcd) == register_write(*old(lcd), offset, value),
        final(lcd).wf(),
    no_unwind
{
    proof {
        reveal(register_write);
    }
    if offset == 1 {
        lcd.hblank_selected = value & 0x08 != 0;
        lcd.vblank_selected = value & 0x10 != 0;
        lcd.oamscan_selected = value & 0x20 != 0;
        lcd.lyc_selected = value & 0x40 != 0;
    } else if offset == 2 {
        lcd.scy = value;
    } else if offset == 3 {
        lcd.scx = value;
    } else if offset == 5 {
        lcd.lyc = value;
    } else if offset == 7 {
        lcd.bgp = value;
    } else if offset == 8 {
        lcd.obp0 = value;
    } else if offset == 9 {
        lcd.obp1 = value;
    } else if offset == 10 {
        lcd.wy = value;
    } else if offset == 11 {
        lcd.wx = value;
    }
}

impl PPU {
    #[verifier::type_invariant]
    closed spec fn inv(&self) -> bool {
        &&& self.vram@.len() == VRAM_SIZE
        &&& self.tiles@.len() == TILE_PIXEL_COUNT
        &&& self.oam@.len() == OBJECT_ATTRIBUTE_MEMORY_SIZE
        &&& self.objects@.len() == NUMBER_OF_OBJECTS
        &&& tiles_match(self.vram@, self.tiles@)
        &&& objects_match(self.oam@, tall_objects(self.lcd.control), self.objects@)
        &&& self.lcd.wf()
    }

    /// The registers of a unit that has just been switched on.
    pub open spec fn initial_lcd() -> LcdRegisters {
        LcdRegisters {
            mode: PPUModes::OAMScan,
            cycles: 0,
            ly: 0,
            lyc: 0,
            ly_is_lyc: false,
            lyc_selected: false,
            oamscan_selected: false,
            vblank_selected: false,
            hblank_selected: false,
            control: 0x91,
            scy: 0,
            scx: 0,
            bgp: 0xE4,
            obp0: 0xE4,
            obp1: 0xE4,
            wy: 0,
            wx: 0,
        }
    }

    /// A unit with zeroed memories, at the start of the first line's OAM scan.
    pub fn new() -> (r: PPU)
        ensures
            r@.vram == Seq::new(VRAM_SIZE as nat, |i: int| 0u8),
            r@.oam == Seq::new(OBJECT_ATTRIBUTE_MEMORY_SIZE as nat, |i: int| 0u8),
            r@.lcd == PPU::initial_lcd(),
    {
        let vram: Vec<u8> = vec![0u8; VRAM_SIZE];
        let tiles: Vec<u8> = vec![0u8; TILE_PIXEL_COUNT];
        let oam: Vec<u8> = vec![0u8; OBJECT_ATTRIBUTE_MEMORY_SIZE];
        let lcd = LcdRegisters {
            mode: PPUModes::OAMScan,
            cycles: 0,
            ly: 0,
            lyc: 0,
            ly_is_lyc: false,
            lyc_selected: false,
            oamscan_selected: false,
            vblank_selected: false,
            hblank_selected: false,
            control: 0x91,
            scy: 0,
            scx: 0,
            bgp: 0xE4,
            obp0: 0xE4,
            obp1: 0xE4,
            wy: 0,
            wx: 0,
        };
        let objects = decode_objects(&oam, false);
        proof {
            assert((0x91u8 & 0x04u8) == 0) by (bit_vector);
            assert forall|p: int| 0 <= p < TILE_PIXEL_COUNT implies #[trigger] tiles@[p]
                == cached_pixel(vram@, p) by {
                let k = (7 - p % 8) as u8;
                assert((((0u8 >> k) & 1u8) * 2 + ((0u8 >> k) & 1u8)) as u8 == 0u8) by (bit_vector);
            }
        }
        let r = PPU { vram, tiles, oam, objects, lcd };
        proof {
            assert(r@.vram =~= Seq::new(VRAM_SIZE as nat, |i: int| 0u8));
            assert(r@.oam =~= Seq::new(OBJECT_ATTRIBUTE_MEMORY_SIZE as nat, |i: int| 0u8));
        }
        r
    }

    /// Writes byte `address` of video RAM (offset from 0x8000); a write into
    /// tile data refreshes the row of cached pixels that the byte belongs to.
    pub fn write_to_vram(&mut self, address: usize, value: u8)
        requires
            address < VRAM_SIZE,
        ensures
            final(self)@ == (PpuView { vram: old(self)@.vram.update(address as int, value), ..old(self)@ }),
        no_unwind
    {
        proof {
            use_type_invariant(&*self);
        }
        store_vram(&mut self.vram, &mut self.tiles, address, value);
    }

    /// Reads byte `address` of video RAM (offset from 0x8000).
    pub fn read_from_vram(&self, address: usize) -> (r: u8)
        requires
            address < VRAM_SIZE,
        ensures
            r == self@.vram[address as int],
    {
        proof {
            use_type_invariant(self);
        }
        self.vram[address]
    }

    /// Writes byte `address` of object attribute memory (offset from 0xFE00)
    /// and re-decodes the record it belongs to.
    pub fn write_oam(&mut self, address: usize, value: u8)
        requires
            address < OBJECT_ATTRIBUTE_MEMORY_SIZE,
        ensures
            final(self)@ == (PpuView { oam: old(self)@.oam.update(address as int, value), ..old(self)@ }),
        no_unwind
    {
        proof {
            use_type_invariant(&*self);
        }
        let tall = self.lcd.control & OBJECT_SIZE_BIT != 0;
        store_oam(&mut self.oam, &mut self.objects, tall, address, value);
    }

    /// Reads byte `address` of object attribute memory (offset from 0xFE00).
    pub fn read_oam(&self, address: usize) -> (r: u8)
        requires
            address < OBJECT_ATTRIBUTE_MEMORY_SIZE,
        ensures
            r == self@.oam[address as int],
    {
        proof {
            use_type_invariant(self);
        }
        self.oam[address]
    }

    /// Reads LCD register `offset` (from 0xFF40).
    pub fn read_register(&self, offset: u8) -> (r: u8)
        ensures
            r == register_read(self@.lcd, offset),
    {
        proof {
            reveal(register_read);
        }
        let s = self.lcd;
        if offset == 0 {
            s.control
        } else if offset == 1 {
            let mode: u8 = match s.mode {
                PPUModes::HBlank => 0,
                PPUModes::VBlank => 1,
                PPUModes::OAMScan => 2,
                PPUModes::PixelTransfer => 3,
            };
            0x80 + (if s.lyc_selected { 0x40u8 } else { 0 }) + (if s.oamscan_selected {
                0x20u8
            } else {
                0
            }) + (if s.vblank_selected { 0x10u8 } else { 0 }) + (if s.hblank_selected {
                0x08u8
            } else {
                0
            }) + (if s.ly_is_lyc { 0x04u8 } else { 0 }) + mode
        } else if offset == 2 {
            s.scy
        } else if offset == 3 {
            s.scx
        } else if offset == 4 {
            s.ly
        } else if offset == 5 {
            s.lyc
        } else if offset == 7 {
            s.bgp
        } else if offset == 8 {
            s.obp0
        } else if offset == 9 {
            s.obp1
        } else if offset == 10 {
            s.wy
        } else if offset == 11 {
            s.wx
        } else {
            0xFF
        }
    }

    /// Writes LCD register `offset` (from 0xFF40); a write to LCDC re-decodes
    /// the objects, whose tile index depends on the object size.
    pub fn write_register(&mut self, offset: u8, value: u8)
        ensures
            final(self)@ == (PpuView { lcd: register_write(old(self)@.lcd, offset, value), ..old(self)@ }),
        no_unwind
    {
        proof {
            use_type_invariant(&*self);
        }
        proof {
            reveal(register_write);
        }
        if offset == 0 {
            store_control(&mut self.lcd, &mut self.objects, &self.oam, value);
        } else {
            store_register(&mut self.lcd, offset, value);
        }
    }

    /// Advances the mode machine by `cycles` and returns the interrupts it
    /// requests.
    pub fn step(&mut self, cycles: u8) -> (r: Interrupts)
        ensures
            r == step_spec(old(self)@.lcd, cycles).1,
            final(self)@ == (PpuView { lcd: step_spec(old(self)@.lcd, cycles).0, ..old(self)@ }),
        no_unwind
    {
        proof {
            use_type_invariant(&*self);
            reveal(step_spec);
        }
        let mut request = Interrupts::Neither;
        let total: u16 = self.lcd.cycles + cycles as u16;
        match self.lcd.mode {
            PPUModes::OAMScan => {
                if total >= OAM_SCAN_CYCLES {
                    self.lcd.cycles = total % OAM_SCAN_CYCLES;
                    self.lcd.mode = PPUModes::PixelTransfer;
                } else {
                    self.lcd.cycles = total;
                }
            },
            PPUModes::PixelTransfer => {
                if total >= PIXEL_TRANSFER_CYCLES {
                    self.lcd.cycles = total % PIXEL_TRANSFER_CYCLES;
                    if self.lcd.hblank_selected {
                        request.add(Interrupts::LCD);
                    }
                    self.lcd.mode = PPUModes::HBlank;
                } else {
                    self.lcd.cycles = total;
                }
            },
            PPUModes::HBlank => {
                if total >= HBLANK_CYCLES {
                    let ly = self.lcd.ly + 1;
                    if ly == SCREEN_HEIGHT {
                        request.add(Interrupts::VBlank);
                        if self.lcd.vblank_selected {
                            request.add(Interrupts::LCD);
                        }
                        self.lcd = LcdRegisters {
                            cycles: total % HBLANK_CYCLES,
                            mode: PPUModes::VBlank,
                            ly: ly,
                            ..self.lcd
                        };
                    } else {
                        if self.lcd.oamscan_selected {
                            request.add(Interrupts::LCD);
                        }
                        self.lcd = LcdRegisters {
                            cycles: total % HBLANK_CYCLES,
                            mode: PPUModes::OAMScan,
                            ly: ly,
                            ..self.lcd
                        };
                    }
                    request = self.lyc_check(request);
                } else {
                    self.lcd.cycles = total;
                }
            },
            PPUModes::VBlank => {
                if total >= SCANLINE_CYCLES {
                    let ly = self.lcd.ly + 1;
                    if ly == LINES_PER_FRAME {
                        if self.lcd.oamscan_selected {
                            request.add(Interrupts::LCD);
                        }
                        self.lcd = LcdRegisters {
                            cycles: total % SCANLINE_CYCLES,
                            mode: PPUModes::OAMScan,
                            ly: 0,
                            ..self.lcd
                        };
                    } else {
                        self.lcd = LcdRegisters {
                            cycles: total % SCANLINE_CYCLES,
                            ly: ly,
                            ..self.lcd
                        };
                    }
                    request = self.lyc_check(request);
                } else {
                    self.lcd.cycles = total;
                }
            },
        }
        request
    }

    /// Compares LY with LYC: records the result and adds an LCD request when
    /// they are equal and that class is selected.
    pub fn lyc_check(&mut self, request: Interrupts) -> (r: Interrupts)
        ensures
            (final(self)@.lcd, r) == lyc_checked(old(self)@.lcd, request),
            final(self)@.vram == old(self)@.vram,
            final(self)@.oam == old(self)@.oam,
        no_unwind
    {
        proof {
            use_type_invariant(&*self);
        }
        let mut request = request;
        let check = self.lcd.ly == self.lcd.lyc;
        if check && self.lcd.lyc_selected {
            request.add(Interrupts::LCD);
        }
        self.lcd.ly_is_lyc = check;
        request
    }

    pub fn mode(&self) -> (r: PPUModes)
        ensures
            r == self@.lcd.mode,
    {
        self.lcd.mode
    }

    pub fn ly(&self) -> (r: u8)
        ensures
            r == self@.lcd.ly,
    {
        self.lcd.ly
    }

    pub fn cycles(&self) -> (r: u16)
        ensures
            r == self@.lcd.cycles,
    {
        self.lcd.cycles
    }

    pub fn object_size(&self) -> (r: ObjectSize)
        ensures
            r == (if tall_objects(self@.lcd.control) {
                ObjectSize::O8x16
            } else {
                ObjectSize::O8x8
            }),
    {
        if self.lcd.control & OBJECT_SIZE_BIT != 0 {
            ObjectSize::O8x16
        } else {
            ObjectSize::O8x8
        }
    }

    /// Pixel `col` of row `row` of tile `tile`, from the tile cache.
    pub fn tile_pixel(&self, tile: usize, row: usize, col: usize) -> (r: TilePixelValue)
        requires
            tile < TILE_COUNT,
            row < 8,
            col < 8,
        ensures
            r == pixel_value_of(cached_pixel(self@.vram, 64 * tile + 8 * row + col)),
    {
        proof {
            use_type_invariant(self);
        }
        let p = 64 * tile + 8 * row + col;
        let bits = self.tiles[p];
        if bits == 0 {
            TilePixelValue::Zero
        } else if bits == 1 {
            TilePixelValue::One
        } else if bits == 2 {
            TilePixelValue::Two
        } else {
            TilePixelValue::Three
        }
    }

    /// Decoded sprite record `index`.
    pub fn object(&self, index: usize) -> (r: Object)
        requires
            index < NUMBER_OF_OBJECTS,
        ensures
            r == object_of(self@.oam, tall_objects(self@.lcd.control), index as int),
    {
        proof {
            use_type_invariant(self);
        }
        self.objects[index]
    }
}

} // verus!
