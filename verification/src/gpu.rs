//! The pixel processor: LCD control and status registers, palettes, video
//! memory with its decoded tile cache, the object table, the scanline
//! renderer and the cycle-driven mode machine.

use vstd::prelude::*;
use vstd::std_specs::convert::FromSpecImpl;
use crate::frame::timing_ok;
use crate::lcd::{
    lemma_run_finish, lemma_run_mode_end, lemma_run_start, lemma_run_within, px, run_state,
    same_but_line, GpuView,
};
use crate::registers::{bit_is_set, test_bit};
use crate::scanline::{
    bg_color, bg_index, lemma_pixel_without_objects, obj_at, obj_color, obj_drawn, obj_index,
    obj_paints, objs_on_line, pixel, pixel_after, tile_pixel,
};

verus! {

/// Pixels per scanline.
pub const SCREEN_WIDTH: usize = 160;

/// Visible scanlines per frame.
pub const SCREEN_HEIGHT: usize = 144;

/// Cycles spent scanning the object table at the start of a visible line.
pub const OAM_SCAN_CYCLES: u32 = 80;

/// Cycles spent drawing a visible line.
pub const DRAW_CYCLES: u32 = 172;

/// Cycles of horizontal blanking that end a visible line.
pub const HBLANK_CYCLES: u32 = 204;

/// Cycles of one line, visible or not.
pub const LINE_CYCLES: u32 = 456;

/// Cycles of one frame.
pub const FRAME_CYCLES: u32 = 70224;

/// One decoded tile: 8 rows of 8 two-bit colour indices.
#[derive(Clone, Copy)]
pub struct Tile {
    pub data: [[u8; 8]; 8],
}

impl Tile {
    /// A tile whose pixels all have colour index 0.
    pub fn new() -> (t: Tile)
        ensures
            forall|r: int, c: int| 0 <= r < 8 && 0 <= c < 8 ==> t.data[r][c] == 0,
    {
        Tile { data: [[0; 8]; 8] }
    }
}

/// The attribute flags of an object.
#[derive(Debug, Clone, Copy, PartialEq, Eq, Structural)]
pub struct ObjAttributes {
    pub bg_win_over_obj: bool,
    pub y_flip: bool,
    pub x_flip: bool,
    pub palette: bool,
}

/// One entry of the object table: screen position of its top-left corner,
/// tile number and attributes.
#[derive(Debug, Clone, Copy, PartialEq, Eq, Structural)]
pub struct Obj {
    pub y: i16,
    pub x: i16,
    pub tile: u8,
    pub attributes: ObjAttributes,
}

impl Obj {
    /// An object at the screen origin showing tile 0 with no attribute set.
    pub fn new() -> (o: Obj)
        ensures
            o == (Obj {
                y: 0,
                x: 0,
                tile: 0,
                attributes: ObjAttributes {
                    bg_win_over_obj: false,
                    y_flip: false,
                    x_flip: false,
                    palette: false,
                },
            }),
    {
        Obj {
            y: 0,
            x: 0,
            tile: 0,
            attributes: ObjAttributes {
                bg_win_over_obj: false,
                y_flip: false,
                x_flip: false,
                palette: false,
            },
        }
    }
}

/// The four modes of the pixel processor.
#[derive(Debug, Clone, Copy, PartialEq, Eq, Structural)]
pub enum GPUMode {
    HBlank,
    VBlank,
    OAMRead,
    VRAMRead,
}

/// The STAT register: four interrupt-enable flags and two status fields
/// that the bus cannot write.
#[derive(Debug, Clone, Copy, PartialEq, Eq, Structural)]
pub struct LCDStatus {
    pub lyc_equals_ly_int: bool,
    pub oam_int: bool,
    pub vblank_int: bool,
    pub hblank_int: bool,
    pub lyc_equals_ly: bool,
    pub mode: GPUMode,
}

/// `0x01 << bit` where `set` holds, `0` otherwise.
pub open spec fn bit_value(set: bool, bit: u8) -> u8 {
    if set {
        1u8 << bit
    } else {
        0u8
    }
}

/// The two status bits that encode a mode.
pub open spec fn mode_bits(mode: GPUMode) -> u8 {
    match mode {
        GPUMode::HBlank => 0,
        GPUMode::VBlank => 1,
        GPUMode::OAMRead => 2,
        GPUMode::VRAMRead => 3,
    }
}

fn bit_of(set: bool, bit: u8) -> (r: u8)
    requires
        bit < 8,
    ensures
        r == bit_value(set, bit),
{
    if set {
        1u8 << bit
    } else {
        0
    }
}

impl From<u8> for LCDStatus {
    /// Takes the four interrupt-enable bits (6 to 3) from `value`; the
    /// status fields start out cleared.
    fn from(value: u8) -> (s: LCDStatus) {
        LCDStatus {
            lyc_equals_ly_int: test_bit(value, 6),
            oam_int: test_bit(value, 5),
            vblank_int: test_bit(value, 4),
            hblank_int: test_bit(value, 3),
            lyc_equals_ly: false,
            mode: GPUMode::HBlank,
        }
    }
}

impl FromSpecImpl<u8> for LCDStatus {
    open spec fn obeys_from_spec() -> bool {
        true
    }

    open spec fn from_spec(value: u8) -> LCDStatus {
        LCDStatus {
            lyc_equals_ly_int: bit_is_set(value, 6),
            oam_int: bit_is_set(value, 5),
            vblank_int: bit_is_set(value, 4),
            hblank_int: bit_is_set(value, 3),
            lyc_equals_ly: false,
            mode: GPUMode::HBlank,
        }
    }
}

impl From<LCDStatus> for u8 {
    fn from(value: LCDStatus) -> (b: u8) {
        let mode: u8 = match value.mode {
            GPUMode::HBlank => 0,
            GPUMode::VBlank => 1,
            GPUMode::OAMRead => 2,
            GPUMode::VRAMRead => 3,
        };
        bit_of(value.lyc_equals_ly_int, 6) | bit_of(value.oam_int, 5) | bit_of(
            value.vblank_int,
            4,
        ) | bit_of(value.hblank_int, 3) | bit_of(value.lyc_equals_ly, 2) | mode
    }
}

impl FromSpecImpl<LCDStatus> for u8 {
    open spec fn obeys_from_spec() -> bool {
        true
    }

    open spec fn from_spec(value: LCDStatus) -> u8 {
        bit_value(value.lyc_equals_ly_int, 6) | bit_value(value.oam_int, 5) | bit_value(
            value.vblank_int,
            4,
        ) | bit_value(value.hblank_int, 3) | bit_value(value.lyc_equals_ly, 2) | mode_bits(
            value.mode,
        )
    }
}

/// What the pixel processor asks of the interrupt controller after a step:
/// any subset of the vertical-blank and the LCD-status interrupt.
#[derive(Debug, Clone, Copy, PartialEq, Eq, Structural)]
pub enum GPUInterrupts {
    Nothing,
    VBlank,
    LCDStat,
    Both,
}

impl GPUInterrupts {
    /// Whether the vertical-blank interrupt is part of the request.
    pub open spec fn has_vblank(self) -> bool {
        self == GPUInterrupts::VBlank || self == GPUInterrupts::Both
    }

    /// Whether the LCD-status interrupt is part of the request.
    pub open spec fn has_lcd_stat(self) -> bool {
        self == GPUInterrupts::LCDStat || self == GPUInterrupts::Both
    }

    /// The request made of the two interrupts taken separately.
    pub open spec fn of(vblank: bool, lcd_stat: bool) -> GPUInterrupts {
        if vblank && lcd_stat {
            GPUInterrupts::Both
        } else if vblank {
            GPUInterrupts::VBlank
        } else if lcd_stat {
            GPUInterrupts::LCDStat
        } else {
            GPUInterrupts::Nothing
        }
    }

    /// Merges `new_request` into this request: the result asks for every
    /// interrupt that either of the two asks for.
    pub fn add(&mut self, new_request: GPUInterrupts)
        ensures
            *final(self) == GPUInterrupts::of(
                old(self).has_vblank() || new_request.has_vblank(),
                old(self).has_lcd_stat() || new_request.has_lcd_stat(),
            ),
    {
        let merged = match (*self, new_request) {
            (GPUInterrupts::Nothing, other) => other,
            (current, GPUInterrupts::Nothing) => current,
            (GPUInterrupts::VBlank, GPUInterrupts::VBlank) => GPUInterrupts::VBlank,
            (GPUInterrupts::LCDStat, GPUInterrupts::LCDStat) => GPUInterrupts::LCDStat,
            _ => GPUInterrupts::Both,
        };
        *self = merged;
    }
}

/// The request made of the two interrupts taken separately.
pub fn request_of(vblank: bool, lcd_stat: bool) -> (req: GPUInterrupts)
    ensures
        req == GPUInterrupts::of(vblank, lcd_stat),
{
    if vblank && lcd_stat {
        GPUInterrupts::Both
    } else if vblank {
        GPUInterrupts::VBlank
    } else if lcd_stat {
        GPUInterrupts::LCDStat
    } else {
        GPUInterrupts::Nothing
    }
}

/// The LCDC register as eight independent flags, bit 7 first.
#[derive(Debug, Clone, Copy, PartialEq, Eq, Structural)]
pub struct LCDC {
    pub lcd_enable: bool,
    pub window_tilemap: bool,
    pub window_enable: bool,
    pub bg_window_addressing_mode: bool,
    pub bg_tilemap: bool,
    pub obj_size: bool,
    pub obj_enable: bool,
    pub bg_window_priority: bool,
}

impl From<u8> for LCDC {
    fn from(value: u8) -> (l: LCDC) {
        LCDC {
            lcd_enable: test_bit(value, 7),
            window_tilemap: test_bit(value, 6),
            window_enable: test_bit(value, 5),
            bg_window_addressing_mode: test_bit(value, 4),
            bg_tilemap: test_bit(value, 3),
            obj_size: test_bit(value, 2),
            obj_enable: test_bit(value, 1),
            bg_window_priority: test_bit(value, 0),
        }
    }
}

impl FromSpecImpl<u8> for LCDC {
    open spec fn obeys_from_spec() -> bool {
        true
    }

    open spec fn from_spec(value: u8) -> LCDC {
        LCDC {
            lcd_enable: bit_is_set(value, 7),
            window_tilemap: bit_is_set(value, 6),
            window_enable: bit_is_set(value, 5),
            bg_window_addressing_mode: bit_is_set(value, 4),
            bg_tilemap: bit_is_set(value, 3),
            obj_size: bit_is_set(value, 2),
            obj_enable: bit_is_set(value, 1),
            bg_window_priority: bit_is_set(value, 0),
        }
    }
}

impl From<LCDC> for u8 {
    fn from(value: LCDC) -> (b: u8) {
        bit_of(value.lcd_enable, 7) | bit_of(value.window_tilemap, 6) | bit_of(
            value.window_enable,
            5,
        ) | bit_of(value.bg_window_addressing_mode, 4) | bit_of(value.bg_tilemap, 3) | bit_of(
            value.obj_size,
            2,
        ) | bit_of(value.obj_enable, 1) | bit_of(value.bg_window_priority, 0)
    }
}

impl FromSpecImpl<LCDC> for u8 {
    open spec fn obeys_from_spec() -> bool {
        true
    }

    open spec fn from_spec(value: LCDC) -> u8 {
        bit_value(value.lcd_enable, 7) | bit_value(value.window_tilemap, 6) | bit_value(
            value.window_enable,
            5,
        ) | bit_value(value.bg_window_addressing_mode, 4) | bit_value(value.bg_tilemap, 3)
            | bit_value(value.obj_size, 2) | bit_value(value.obj_enable, 1) | bit_value(
            value.bg_window_priority,
            0,
        )
    }
}

/// The four shades of the display.
#[derive(Debug, Clone, Copy, PartialEq, Eq, Structural)]
pub enum Color {
    White,
    LightGray,
    DarkGray,
    Black,
}

impl Color {
    /// The shade as an opaque ARGB pixel.
    pub open spec fn spec_to_rgb(&self) -> u32 {
        match self {
            Color::White => 0xffffffff,
            Color::LightGray => 0xffc0c0c0,
            Color::DarkGray => 0xff606060,
            Color::Black => 0xff000000,
        }
    }

    /// The shade as an opaque ARGB pixel.
    #[verifier::when_used_as_spec(spec_to_rgb)]
    pub fn to_rgb(&self) -> (p: u32)
        ensures
            p == self.spec_to_rgb(),
    {
        match self {
            Color::White => 0xffffffff,
            Color::LightGray => 0xffc0c0c0,
            Color::DarkGray => 0xff606060,
            Color::Black => 0xff000000,
        }
    }

    /// The shade that the two-bit number `index % 4` stands for.
    pub open spec fn of_index(index: int) -> Color {
        if index % 4 == 0 {
            Color::White
        } else if index % 4 == 1 {
            Color::LightGray
        } else if index % 4 == 2 {
            Color::DarkGray
        } else {
            Color::Black
        }
    }

    /// The two-bit number of the shade.
    pub open spec fn index(self) -> u8 {
        match self {
            Color::White => 0,
            Color::LightGray => 1,
            Color::DarkGray => 2,
            Color::Black => 3,
        }
    }
}

impl From<u8> for Color {
    /// The shade selected by the two low bits of `value`.
    fn from(value: u8) -> (c: Color) {
        match value % 4 {
            0 => Color::White,
            1 => Color::LightGray,
            2 => Color::DarkGray,
            _ => Color::Black,
        }
    }
}

impl FromSpecImpl<u8> for Color {
    open spec fn obeys_from_spec() -> bool {
        true
    }

    open spec fn from_spec(value: u8) -> Color {
        Color::of_index(value as int)
    }
}

impl From<Color> for u8 {
    fn from(value: Color) -> (b: u8) {
        match value {
            Color::White => 0,
            Color::LightGray => 1,
            Color::DarkGray => 2,
            Color::Black => 3,
        }
    }
}

impl FromSpecImpl<Color> for u8 {
    open spec fn obeys_from_spec() -> bool {
        true
    }

    open spec fn from_spec(value: Color) -> u8 {
        value.index()
    }
}

/// A palette: the shade shown for each of the four colour indices.
#[derive(Debug, Clone, Copy, PartialEq, Eq, Structural)]
pub struct Palette(pub Color, pub Color, pub Color, pub Color);

impl Palette {
    /// The identity palette: index 0 is white, index 3 black.
    pub fn new() -> (p: Palette)
        ensures
            p == Palette(Color::White, Color::LightGray, Color::DarkGray, Color::Black),
    {
        Palette(Color::White, Color::LightGray, Color::DarkGray, Color::Black)
    }

    /// The shade shown for colour index `index % 4`.
    pub open spec fn shade(self, index: int) -> Color {
        if index % 4 == 0 {
            self.0
        } else if index % 4 == 1 {
            self.1
        } else if index % 4 == 2 {
            self.2
        } else {
            self.3
        }
    }

    /// The shade shown for the colour index given by the two low bits of
    /// `index`.
    pub fn color(&self, index: u8) -> (c: Color)
        ensures
            c == self.shade(index as int),
    {
        match index % 4 {
            0 => self.0,
            1 => self.1,
            2 => self.2,
            _ => self.3,
        }
    }
}

impl From<u8> for Palette {
    /// Two bits per colour index, index 0 in the lowest two bits.
    fn from(value: u8) -> (p: Palette) {
        Palette(
            Color::from(value % 4),
            Color::from((value / 4) % 4),
            Color::from((value / 16) % 4),
            Color::from(value / 64),
        )
    }
}

impl FromSpecImpl<u8> for Palette {
    open spec fn obeys_from_spec() -> bool {
        true
    }

    open spec fn from_spec(value: u8) -> Palette {
        Palette(
            Color::of_index(value as int),
            Color::of_index(value as int / 4),
            Color::of_index(value as int / 16),
            Color::of_index(value as int / 64),
        )
    }
}

impl From<Palette> for u8 {
    fn from(value: Palette) -> (b: u8) {
        let v3: u8 = value.3.into();
        let v2: u8 = value.2.into();
        let v1: u8 = value.1.into();
        let v0: u8 = value.0.into();
        v3 * 64 + v2 * 16 + v1 * 4 + v0
    }
}

impl FromSpecImpl<Palette> for u8 {
    open spec fn obeys_from_spec() -> bool {
        true
    }

    open spec fn from_spec(value: Palette) -> u8 {
        (value.3.index() * 64 + value.2.index() * 16 + value.1.index() * 4
            + value.0.index()) as u8
    }
}

/// A palette register reads back the byte that was written to it.
pub proof fn lemma_palette_round_trip(value: u8)
    ensures
        <u8 as vstd::std_specs::convert::FromSpec<Palette>>::from_spec(
            <Palette as vstd::std_specs::convert::FromSpec<u8>>::from_spec(value),
        ) == value,
{
    let a = value as int % 4;
    let b = (value as int / 4) % 4;
    let c = (value as int / 16) % 4;
    let d = value as int / 64;
    assert(value == d * 64 + c * 16 + b * 4 + a);
    assert(Color::of_index(value as int).index() == a);
    assert(Color::of_index(value as int / 4).index() == b);
    assert(Color::of_index(value as int / 16).index() == c);
    assert(Color::of_index(value as int / 64).index() == d);
}

/// The pixel processor.
///
/// Besides its registers and memories it keeps two caches, the decoded tiles
/// and the decoded object table. They are kept equal to what video memory
/// and object memory hold, so they are no part of the state that `view`
/// shows.
pub struct GPU {
    tile_set: [Tile; 384],
    video_ram: [u8; 0x2000],
    oam: [u8; 0xA0],
    obj_set: [Obj; 40],
    canvas_buffer: [u32; 23040],
    mode_clock: u32,
    scy: u8,
    scx: u8,
    ly: u8,
    lyc: u8,
    lcdc: LCDC,
    bg_palette: Palette,
    obj0_palette: Palette,
    obj1_palette: Palette,
    lcd_status: LCDStatus,
}

impl View for GPU {
    type V = GpuView;

    closed spec fn view(&self) -> GpuView {
        GpuView {
            video_ram: self.video_ram@,
            oam: self.oam@,
            canvas: self.canvas_buffer@,
            mode_clock: self.mode_clock,
            scy: self.scy,
            scx: self.scx,
            ly: self.ly,
            lyc: self.lyc,
            lcdc: self.lcdc,
            bg_palette: self.bg_palette,
            obj0_palette: self.obj0_palette,
            obj1_palette: self.obj1_palette,
            lcd_status: self.lcd_status,
        }
    }
}

/// No bit of the zero byte is set.
proof fn lemma_zero_byte(bit: u8)
    by (bit_vector)
    requires
        bit < 8,
    ensures
        0u8 & (1u8 << bit) == 0,
{
}

/// Decodes the four bytes of an object-table entry.
fn decode_obj(y: u8, x: u8, tile: u8, flags: u8) -> (obj: Obj)
    ensures
        obj == (Obj {
            y: (y - 16) as i16,
            x: (x - 8) as i16,
            tile,
            attributes: ObjAttributes {
                bg_win_over_obj: bit_is_set(flags, 7),
                y_flip: bit_is_set(flags, 6),
                x_flip: bit_is_set(flags, 5),
                palette: bit_is_set(flags, 4),
            },
        }),
{
    Obj {
        y: (y as i16) - 16,
        x: (x as i16) - 8,
        tile,
        attributes: ObjAttributes {
            bg_win_over_obj: test_bit(flags, 7),
            y_flip: test_bit(flags, 6),
            x_flip: test_bit(flags, 5),
            palette: test_bit(flags, 4),
        },
    }
}

/// Whether cached tile row `row` of tile `tile` holds the decoding of its two
/// bytes of video memory.
#[verifier::opaque]
spec fn row_decoded(tiles: [Tile; 384], video_ram: Seq<u8>, tile: int, row: int) -> bool {
    forall|c: int|
        0 <= c < 8 ==> #[trigger] tiles[tile].data[row][c] == tile_pixel(video_ram, tile, row, c)
}

/// Whether every cached tile row is up to date, but possibly the one that
/// begins at offset `base` of video memory.
#[verifier::opaque]
spec fn tiles_decoded_except(tiles: [Tile; 384], video_ram: Seq<u8>, base: int) -> bool {
    forall|t: int, r: int|
        0 <= t < 384 && 0 <= r < 8 && t * 16 + r * 2 != base ==> #[trigger] row_decoded(
            tiles,
            video_ram,
            t,
            r,
        )
}

/// Whether every cached object is up to date, but possibly entry `entry`.
#[verifier::opaque]
spec fn objs_decoded_except(objs: [Obj; 40], oam: Seq<u8>, entry: int) -> bool {
    forall|i: int| 0 <= i < 40 && i != entry ==> #[trigger] objs[i] == obj_at(oam, i)
}

impl GPU {
    /// The invariant of the pixel processor: line counter, mode and mode
    /// clock fit together, and both caches are up to date.
    pub closed spec fn wf(&self) -> bool {
        &&& timing_ok(self.ly as int, self.lcd_status.mode, self.mode_clock as int)
        &&& tiles_decoded_except(self.tile_set, self.video_ram@, -1)
        &&& objs_decoded_except(self.obj_set, self.oam@, -1)
    }

    /// The sizes of the memories and the ranges of the counters, for every
    /// well-formed processor.
    pub proof fn lemma_wf(&self)
        requires
            self.wf(),
        ensures
            self@.video_ram.len() == 0x2000,
            self@.oam.len() == 0xA0,
            self@.canvas.len() == 23040,
            timing_ok(self@.ly as int, self@.lcd_status.mode, self@.mode_clock as int),
    {
    }

    /// A processor with cleared memories, the display switched off, the
    /// identity palettes, at the start of a frame.
    pub fn new() -> (g: GPU)
        ensures
            g.wf(),
            g@ == GpuView::fresh(),
    {
        let g = GPU {
            tile_set: [Tile::new(); 384],
            obj_set: [decode_obj(0, 0, 0, 0); 40],
            video_ram: [0; 0x2000],
            oam: [0; 0xA0],
            canvas_buffer: [0; 23040],
            mode_clock: 0,
            scx: 0,
            scy: 0,
            ly: 0,
            lyc: 0,
            lcdc: LCDC {
                lcd_enable: false,
                window_tilemap: false,
                window_enable: false,
                bg_window_addressing_mode: false,
                bg_tilemap: false,
                obj_size: false,
                obj_enable: false,
                bg_window_priority: false,
            },
            lcd_status: LCDStatus {
                lyc_equals_ly_int: false,
                oam_int: false,
                vblank_int: false,
                hblank_int: false,
                lyc_equals_ly: false,
                mode: GPUMode::OAMRead,
            },
            bg_palette: Palette::new(),
            obj0_palette: Palette::new(),
            obj1_palette: Palette::new(),
        };
        proof {
            reveal(row_decoded);
            reveal(tiles_decoded_except);
            reveal(objs_decoded_except);
            assert(g@.video_ram =~= Seq::new(0x2000, |i: int| 0u8));
            assert(g@.oam =~= Seq::new(0xA0, |i: int| 0u8));
            assert(g@.canvas =~= Seq::new(23040, |i: int| 0u32));
            assert forall|t: int, r: int| 0 <= t < 384 && 0 <= r < 8 implies #[trigger] row_decoded(
                g.tile_set,
                g.video_ram@,
                t,
                r,
            ) by {
                assert forall|c: int| 0 <= c < 8 implies #[trigger] g.tile_set[t].data[r][c]
                    == tile_pixel(g.video_ram@, t, r, c) by {
                    lemma_zero_byte((7 - c) as u8);
                }
            }
        }
        g
    }

    /// The line being processed, 0 to 153.
    pub fn ly(&self) -> (ly: u8)
        ensures
            ly == self@.ly,
    {
        self.ly
    }

    /// The current mode.
    pub fn mode(&self) -> (mode: GPUMode)
        ensures
            mode == self@.lcd_status.mode,
    {
        self.lcd_status.mode
    }

    /// Cycles spent in the current mode.
    pub fn mode_clock(&self) -> (clock: u32)
        ensures
            clock == self@.mode_clock,
    {
        self.mode_clock
    }

    /// The output buffer: 144 rows of 160 ARGB pixels.
    pub fn canvas(&self) -> (canvas: &[u32; 23040])
        ensures
            canvas@ == self@.canvas,
    {
        &self.canvas_buffer
    }

    /// One pixel of the output buffer.
    pub fn pixel_at(&self, x: usize, y: usize) -> (p: u32)
        requires
            x < 160,
            y < 144,
        ensures
            p == self@.canvas[y * 160 + x],
    {
        self.canvas_buffer[y * 160 + x]
    }

    /// Entry `index` of the object table, decoded.
    pub fn object(&self, index: usize) -> (obj: Obj)
        requires
            self.wf(),
            index < 40,
        ensures
            obj == obj_at(self@.oam, index as int),
    {
        proof {
            reveal(objs_decoded_except);
        }
        self.obj_set[index]
    }

    /// The colour index of one pixel of a tile, from the tile cache.
    pub fn tile_pixel_at(&self, tile: usize, row: usize, col: usize) -> (index: u8)
        requires
            self.wf(),
            tile < 384,
            row < 8,
            col < 8,
        ensures
            index == tile_pixel(self@.video_ram, tile as int, row as int, col as int),
    {
        proof {
            reveal(row_decoded);
            reveal(tiles_decoded_except);
            assert(row_decoded(self.tile_set, self.video_ram@, tile as int, row as int));
        }
        self.tile_set[tile].data[row][col]
    }

    /// Refreshes the cached tile row that holds offset `address` of video
    /// memory.
    fn update_tile(&mut self, address: usize)
        requires
            address < 0x2000,
            tiles_decoded_except(old(self).tile_set, old(self).video_ram@, address - address % 2),
        ensures
            tiles_decoded_except(final(self).tile_set, final(self).video_ram@, -1),
            final(self)@ == old(self)@,
            final(self).obj_set == old(self).obj_set,
    {
        proof {
            reveal(row_decoded);
            reveal(tiles_decoded_except);
        }
        let base = address - address % 2;
        let tile_idx = base / 16;
        if tile_idx >= 384 {
            return ;
        }
        let row_idx = (base / 2) % 8;
        let low = self.video_ram[base];
        let high = self.video_ram[base + 1];
        let mut col_idx: usize = 0;
        while col_idx < 8
            invariant
                col_idx <= 8,
                tile_idx < 384,
                row_idx < 8,
                base == tile_idx * 16 + row_idx * 2,
                low == self.video_ram[base as int],
                high == self.video_ram[base + 1],
                tiles_decoded_except(self.tile_set, self.video_ram@, base as int),
                self@ == old(self)@,
                self.obj_set == old(self).obj_set,
                forall|c: int|
                    0 <= c < col_idx ==> #[trigger] self.tile_set[tile_idx as int].data[row_idx as int][c]
                        == tile_pixel(self.video_ram@, tile_idx as int, row_idx as int, c),
            decreases 8 - col_idx,
        {
            let msb: u8 = if test_bit(high, 7 - col_idx as u8) { 1 } else { 0 };
            let lsb: u8 = if test_bit(low, 7 - col_idx as u8) { 1 } else { 0 };
            let ghost before = *self;
            self.tile_set[tile_idx].data[row_idx][col_idx] = msb * 2 + lsb;
            proof {
                reveal(row_decoded);
                reveal(tiles_decoded_except);
                assert forall|t: int, r: int|
                    0 <= t < 384 && 0 <= r < 8 && t * 16 + r * 2 != base implies #[trigger] row_decoded(
                    self.tile_set,
                    self.video_ram@,
                    t,
                    r,
                ) by {
                    assert(row_decoded(before.tile_set, before.video_ram@, t, r));
                    assert forall|c: int| 0 <= c < 8 implies #[trigger] self.tile_set[t].data[r][c]
                        == tile_pixel(self.video_ram@, t, r, c) by {
                        assert(self.tile_set[t].data[r][c] == before.tile_set[t].data[r][c]);
                    }
                }
            }
            col_idx += 1;
        }
        proof {
            reveal(row_decoded);
            reveal(tiles_decoded_except);
            assert(row_decoded(self.tile_set, self.video_ram@, tile_idx as int, row_idx as int));
        }
    }

    /// Refreshes the cached object whose entry holds offset `address` of
    /// object memory, after `val` was stored there.
    fn update_object(&mut self, address: usize, val: u8)
        requires
            address < 0xA0,
            old(self).oam[address as int] == val,
            objs_decoded_except(old(self).obj_set, old(self).oam@, address as int / 4),
            old(self).obj_set[address as int / 4] == (Obj {
                y: if address % 4 == 0 {
                    old(self).obj_set[address as int / 4].y
                } else {
                    obj_at(old(self).oam@, address as int / 4).y
                },
                x: if address % 4 == 1 {
                    old(self).obj_set[address as int / 4].x
                } else {
                    obj_at(old(self).oam@, address as int / 4).x
                },
                tile: if address % 4 == 2 {
                    old(self).obj_set[address as int / 4].tile
                } else {
                    obj_at(old(self).oam@, address as int / 4).tile
                },
                attributes: if address % 4 == 3 {
                    old(self).obj_set[address as int / 4].attributes
                } else {
                    obj_at(old(self).oam@, address as int / 4).attributes
                },
            }),
        ensures
            objs_decoded_except(final(self).obj_set, final(self).oam@, -1),
            final(self)@ == old(self)@,
            final(self).tile_set == old(self).tile_set,
    {
        proof {
            reveal(objs_decoded_except);
        }
        let obj_idx = address / 4;
        let obj_byte = address % 4;
        let mut obj = self.obj_set[obj_idx];
        if obj_byte == 0 {
            obj.y = (val as i16) - 16;
        } else if obj_byte == 1 {
            obj.x = (val as i16) - 8;
        } else if obj_byte == 2 {
            obj.tile = val;
        } else {
            obj.attributes = ObjAttributes {
                bg_win_over_obj: test_bit(val, 7),
                y_flip: test_bit(val, 6),
                x_flip: test_bit(val, 5),
                palette: test_bit(val, 4),
            };
        }
        self.obj_set[obj_idx] = obj;
    }

    /// Stores `val` at offset `offset` of video memory and refreshes the
    /// tile cache.
    fn write_video_ram(&mut self, offset: usize, val: u8)
        requires
            old(self).wf(),
            offset < 0x2000,
        ensures
            final(self).wf(),
            final(self)@ == (GpuView {
                video_ram: old(self)@.video_ram.update(offset as int, val),
                ..old(self)@
            }),
    {
        let ghost before = *self;
        self.video_ram[offset] = val;
        proof {
            reveal(row_decoded);
            reveal(tiles_decoded_except);
            let base = offset - offset % 2;
            assert forall|t: int, r: int|
                0 <= t < 384 && 0 <= r < 8 && t * 16 + r * 2 != base implies #[trigger] row_decoded(
                self.tile_set,
                self.video_ram@,
                t,
                r,
            ) by {
                assert(row_decoded(before.tile_set, before.video_ram@, t, r));
                assert(t * 16 + r * 2 != offset);
                assert(t * 16 + r * 2 + 1 != offset);
                assert forall|c: int| 0 <= c < 8 implies #[trigger] self.tile_set[t].data[r][c]
                    == tile_pixel(self.video_ram@, t, r, c) by {
                    assert(before.tile_set[t].data[r][c] == tile_pixel(before.video_ram@, t, r, c));
                }
            }
        }
        self.update_tile(offset);
    }

    /// Stores `val` at offset `offset` of object memory and refreshes the
    /// object cache.
    fn write_oam(&mut self, offset: usize, val: u8)
        requires
            old(self).wf(),
            offset < 0xA0,
        ensures
            final(self).wf(),
            final(self)@ == (GpuView { oam: old(self)@.oam.update(offset as int, val), ..old(self)@ }),
    {
        let ghost before = *self;
        self.oam[offset] = val;
        proof {
            reveal(objs_decoded_except);
            let entry = offset as int / 4;
            assert(before.obj_set[entry] == obj_at(before.oam@, entry));
            assert forall|i: int| 0 <= i < 40 && i != entry implies #[trigger] self.obj_set[i]
                == obj_at(self.oam@, i) by {
                assert(before.obj_set[i] == obj_at(before.oam@, i));
            }
        }
        self.update_object(offset, val);
    }

    /// The byte that the bus reads at `address`.
    pub fn read_byte(&self, address: u16) -> (b: u8)
        ensures
            b == self@.read(address),
    {
        match address {
            0x8000..=0x9FFF => self.video_ram[address as usize - 0x8000],
            0xFE00..=0xFE9F => self.oam[address as usize - 0xFE00],
            0xFF40 => self.lcdc.into(),
            0xFF41 => self.lcd_status.into(),
            0xFF42 => self.scy,
            0xFF43 => self.scx,
            0xFF44 => self.ly,
            0xFF45 => self.lyc,
            0xFF47 => self.bg_palette.into(),
            0xFF48 => self.obj0_palette.into(),
            0xFF49 => self.obj1_palette.into(),
            _ => 0,
        }
    }

    /// Stores `val` at `address` as the bus sees it, and keeps the tile and
    /// object caches up to date.
    pub fn write_byte(&mut self, address: u16, val: u8)
        requires
            old(self).wf(),
        ensures
            final(self).wf(),
            final(self)@ == old(self)@.write(address, val),
    {
        match address {
            0x8000..=0x9FFF => {
                self.write_video_ram(address as usize - 0x8000, val);
            },
            0xFE00..=0xFE9F => {
                self.write_oam(address as usize - 0xFE00, val);
            },
            0xFF40..=0xFF49 => {
                self.write_register(address, val);
            },
            _ => {},
        }
    }

    /// Stores `val` in the register at `address`.
    fn write_register(&mut self, address: u16, val: u8)
        requires
            old(self).wf(),
            0xFF40 <= address <= 0xFF49,
        ensures
            final(self).wf(),
            final(self)@ == old(self)@.write(address, val),
    {
        if address == 0xFF40 {
            self.set_lcdc(val);
        } else if address == 0xFF41 {
            self.set_status(val);
        } else if address == 0xFF42 {
            self.set_scroll(val, self.scx);
        } else if address == 0xFF43 {
            self.set_scroll(self.scy, val);
        } else if address == 0xFF45 {
            self.set_lyc(val);
        } else if address == 0xFF47 {
            self.set_bg_palette(val);
        } else if address == 0xFF48 {
            self.set_obj_palette(false, val);
        } else if address == 0xFF49 {
            self.set_obj_palette(true, val);
        }
    }

    fn set_lcdc(&mut self, val: u8)
        requires
            old(self).wf(),
        ensures
            final(self).wf(),
            final(self)@ == old(self)@.write(0xFF40, val),
    {
        let lcdc = LCDC::from(val);
        self.lcdc = lcdc;
    }

    fn set_status(&mut self, val: u8)
        requires
            old(self).wf(),
        ensures
            final(self).wf(),
            final(self)@ == old(self)@.write(0xFF41, val),
    {
        let status = LCDStatus::from(val);
        let kept = self.lcd_status;
        self.lcd_status = LCDStatus { lyc_equals_ly: kept.lyc_equals_ly, mode: kept.mode, ..status };
    }

    fn set_scroll(&mut self, scy: u8, scx: u8)
        requires
            old(self).wf(),
        ensures
            final(self).wf(),
            final(self)@ == (GpuView { scy, scx, ..old(self)@ }),
    {
        self.scy = scy;
        self.scx = scx;
    }

    fn set_lyc(&mut self, val: u8)
        requires
            old(self).wf(),
        ensures
            final(self).wf(),
            final(self)@ == (GpuView { lyc: val, ..old(self)@ }),
    {
        self.lyc = val;
    }

    fn set_bg_palette(&mut self, val: u8)
        requires
            old(self).wf(),
        ensures
            final(self).wf(),
            final(self)@ == old(self)@.write(0xFF47, val),
    {
        let palette = Palette::from(val);
        self.bg_palette = palette;
    }

    fn set_obj_palette(&mut self, second: bool, val: u8)
        requires
            old(self).wf(),
        ensures
            final(self).wf(),
            second ==> final(self)@ == old(self)@.write(0xFF49, val),
            !second ==> final(self)@ == old(self)@.write(0xFF48, val),
    {
        let palette = Palette::from(val);
        if second {
            self.obj1_palette = palette;
        } else {
            self.obj0_palette = palette;
        }
    }

    /// The shade that the background palette shows for a colour index.
    fn get_color(&self, val: u8) -> (c: Color)
        ensures
            c == self@.bg_palette.shade(val as int),
    {
        self.bg_palette.color(val)
    }

    /// The shade that an object palette shows for a colour index; `palette`
    /// selects the second palette.
    fn get_obj_color(&self, val: u8, palette: bool) -> (c: Color)
        ensures
            c == (if palette {
                self@.obj1_palette
            } else {
                self@.obj0_palette
            }).shade(val as int),
    {
        if palette {
            self.obj1_palette.color(val)
        } else {
            self.obj0_palette.color(val)
        }
    }

    /// Stores one pixel of the output buffer.
    fn put_pixel(&mut self, index: usize, value: u32)
        requires
            old(self).wf(),
            index < 23040,
        ensures
            final(self).wf(),
            final(self)@ == (GpuView {
                canvas: old(self)@.canvas.update(index as int, value),
                ..old(self)@
            }),
    {
        self.canvas_buffer[index] = value;
    }

    /// Draws the background of the current line and returns the colour index
    /// of each of its pixels.
    fn draw_background(&mut self) -> (indices: [u8; 160])
        requires
            old(self).wf(),
            old(self)@.ly < 144,
        ensures
            final(self).wf(),
            final(self)@ == (GpuView { canvas: final(self)@.canvas, ..old(self)@ }),
            same_but_line(final(self)@.canvas, old(self)@.canvas, old(self)@.ly as int),
            forall|x: int|
                0 <= x < 160 ==> #[trigger] px(final(self)@.canvas, old(self)@.ly as int, x)
                    == bg_color(old(self)@.scene(), old(self)@.ly as int, x),
            forall|x: int|
                0 <= x < 160 ==> #[trigger] indices[x] == bg_index(
                    old(self)@.scene(),
                    old(self)@.ly as int,
                    x,
                ),
    {
        proof {
            self.lemma_wf();
        }
        let base: usize = if self.lcdc.bg_tilemap { 0x1C00 } else { 0x1800 };
        let ly = self.ly as usize;
        let scy = self.scy as usize;
        let scx = self.scx as usize;
        let row = ((scy + ly) % 256) / 8;
        let y = (scy + ly) % 8;
        let unsigned = self.lcdc.bg_window_addressing_mode;
        let ghost scene = self@.scene();
        let mut indices: [u8; 160] = [0; 160];
        let mut x: usize = 0;
        while x < 160
            invariant
                x <= 160,
                self.wf(),
                ly == old(self)@.ly < 144,
                scene == old(self)@.scene(),
                scx == scene.scx,
                base == crate::scanline::map_base(scene.lcdc),
                row == crate::scanline::map_row(scene.scy, ly as int),
                y == (scene.scy + ly) % 8,
                unsigned == scene.lcdc.bg_window_addressing_mode,
                self@ == (GpuView { canvas: self@.canvas, ..old(self)@ }),
                same_but_line(self@.canvas, old(self)@.canvas, ly as int),
                forall|j: int|
                    0 <= j < x ==> #[trigger] px(self@.canvas, ly as int, j) == bg_color(
                        scene,
                        ly as int,
                        j,
                    ),
                forall|j: int| 0 <= j < x ==> #[trigger] indices[j] == bg_index(scene, ly as int, j),
            decreases 160 - x,
        {
            let col = ((scx + x) / 8) % 32;
            let entry = self.video_ram[base + row * 32 + col];
            let tile: usize = if unsigned || entry >= 128 {
                entry as usize
            } else {
                entry as usize + 256
            };
            let index = self.tile_pixel_at(tile, y, (scx + x) % 8);
            assert(index == bg_index(scene, ly as int, x as int));
            indices[x] = index;
            let color = self.get_color(index);
            let ghost before = self@.canvas;
            self.put_pixel(ly * 160 + x, color.to_rgb());
            proof {
                assert forall|j: int| 0 <= j < x + 1 implies #[trigger] px(self@.canvas, ly as int, j)
                    == bg_color(scene, ly as int, j) by {
                    if j < x {
                        assert(px(before, ly as int, j) == bg_color(scene, ly as int, j));
                    }
                }
            }
            x += 1;
        }
        indices
    }

    /// Composites object `i`, which is one of the objects drawn on the
    /// current line, over what the line holds so far. `indices` are the
    /// colour indices of the background.
    fn draw_object(&mut self, i: usize, indices: &[u8; 160])
        requires
            old(self).wf(),
            old(self)@.ly < 144,
            i < 40,
            obj_drawn(old(self)@.oam, old(self)@.ly as int, i as int),
            forall|x: int|
                0 <= x < 160 ==> #[trigger] indices[x] == bg_index(
                    old(self)@.scene(),
                    old(self)@.ly as int,
                    x,
                ),
        ensures
            final(self).wf(),
            final(self)@ == (GpuView { canvas: final(self)@.canvas, ..old(self)@ }),
            same_but_line(final(self)@.canvas, old(self)@.canvas, old(self)@.ly as int),
            forall|x: int|
                0 <= x < 160 ==> #[trigger] px(final(self)@.canvas, old(self)@.ly as int, x) == if obj_paints(
                    old(self)@.scene(),
                    old(self)@.ly as int,
                    i as int,
                    x,
                ) {
                    obj_color(old(self)@.scene(), old(self)@.ly as int, i as int, x)
                } else {
                    px(old(self)@.canvas, old(self)@.ly as int, x)
                },
    {
        proof {
            self.lemma_wf();
        }
        let obj = self.object(i);
        let ly = self.ly as usize;
        let line = self.ly as i16;
        let row = (line - obj.y) as usize;
        let tile_row = if obj.attributes.y_flip { 7 - row } else { row };
        let ghost scene = self@.scene();
        let mut col: usize = 0;
        while col < 8
            invariant
                col <= 8,
                self.wf(),
                i < 40,
                ly == old(self)@.ly < 144,
                scene == old(self)@.scene(),
                obj == obj_at(scene.oam, i as int),
                obj_drawn(scene.oam, ly as int, i as int),
                row == ly - obj.y,
                tile_row == (if obj.attributes.y_flip { 7 - row } else { row as int }),
                tile_row < 8,
                forall|x: int| 0 <= x < 160 ==> #[trigger] indices[x] == bg_index(scene, ly as int, x),
                self@ == (GpuView { canvas: self@.canvas, ..old(self)@ }),
                same_but_line(self@.canvas, old(self)@.canvas, ly as int),
                forall|x: int|
                    0 <= x < 160 ==> #[trigger] px(self@.canvas, ly as int, x) == if x < obj.x + col
                        && obj_paints(scene, ly as int, i as int, x) {
                        obj_color(scene, ly as int, i as int, x)
                    } else {
                        px(old(self)@.canvas, ly as int, x)
                    },
            decreases 8 - col,
        {
            let x = obj.x + col as i16;
            let ghost before = self@.canvas;
            if 0 <= x && x < 160 {
                let tile_col = if obj.attributes.x_flip { 7 - col } else { col };
                let index = self.tile_pixel_at(obj.tile as usize, tile_row, tile_col);
                assert(index == obj_index(scene, ly as int, i as int, x as int));
                if index != 0 && (!obj.attributes.bg_win_over_obj || indices[x as usize] == 0) {
                    let color = self.get_obj_color(index, obj.attributes.palette);
                    self.put_pixel(ly * 160 + x as usize, color.to_rgb());
                }
            }
            proof {
                assert forall|k: int| 0 <= k < 160 implies #[trigger] px(self@.canvas, ly as int, k)
                    == if k < obj.x + col + 1 && obj_paints(scene, ly as int, i as int, k) {
                    obj_color(scene, ly as int, i as int, k)
                } else {
                    px(old(self)@.canvas, ly as int, k)
                } by {
                    if k != x {
                        assert(px(self@.canvas, ly as int, k) == px(before, ly as int, k));
                    }
                }
            }
            col += 1;
        }
    }

    /// Takes object `i` into account on a line that holds the background and
    /// the objects before it: the object is drawn if it covers the line and
    /// fewer than ten earlier objects (`count`) do. Returns the number of
    /// objects up to and including `i` that cover the line.
    fn composite_object(&mut self, i: usize, count: usize, indices: &[u8; 160]) -> (next: usize)
        requires
            old(self).wf(),
            old(self)@.ly < 144,
            old(self)@.lcdc.obj_enable,
            i < 40,
            count == objs_on_line(old(self)@.oam, old(self)@.ly as int, i as int),
            count <= i,
            forall|x: int|
                0 <= x < 160 ==> #[trigger] indices[x] == bg_index(
                    old(self)@.scene(),
                    old(self)@.ly as int,
                    x,
                ),
            old(self)@.canvas.len() == 23040,
            forall|x: int|
                0 <= x < 160 ==> #[trigger] px(old(self)@.canvas, old(self)@.ly as int, x)
                    == pixel_after(old(self)@.scene(), old(self)@.ly as int, x, i as int),
        ensures
            final(self).wf(),
            final(self)@ == (GpuView { canvas: final(self)@.canvas, ..old(self)@ }),
            same_but_line(final(self)@.canvas, old(self)@.canvas, old(self)@.ly as int),
            next == objs_on_line(old(self)@.oam, old(self)@.ly as int, i + 1),
            next <= i + 1,
            forall|x: int|
                0 <= x < 160 ==> #[trigger] px(final(self)@.canvas, old(self)@.ly as int, x)
                    == pixel_after(old(self)@.scene(), old(self)@.ly as int, x, i + 1),
    {
        proof {
            self.lemma_wf();
        }
        let obj = self.object(i);
        let line = self.ly as i16;
        let ghost scene = self@.scene();
        let ghost ly = self@.ly as int;
        if obj.y <= line && line < obj.y + 8 {
            if count < 10 {
                self.draw_object(i, indices);
            } else {
                proof {
                    assert forall|x: int| 0 <= x < 160 implies !obj_paints(scene, ly, i as int, x) by {}
                }
            }
            count + 1
        } else {
            proof {
                assert forall|x: int| 0 <= x < 160 implies !obj_paints(scene, ly, i as int, x) by {}
            }
            count
        }
    }

    /// Renders the current line into the output buffer: the background
    /// through the tile map, then the objects in table order, ten per line
    /// at most.
    pub fn render_scan(&mut self)
        requires
            old(self).wf(),
            old(self)@.ly < 144,
        ensures
            final(self).wf(),
            final(self)@ == old(self)@.with_line_drawn(old(self)@.ly as int),
    {
        proof {
            self.lemma_wf();
        }
        let indices = self.draw_background();
        let ghost scene = old(self)@.scene();
        let ghost ly = old(self)@.ly as int;
        if self.lcdc.obj_enable {
            let mut count: usize = 0;
            let mut i: usize = 0;
            while i < 40
                invariant
                    i <= 40,
                    self.wf(),
                    scene == old(self)@.scene(),
                    scene.lcdc.obj_enable,
                    ly == old(self)@.ly < 144,
                    count == objs_on_line(scene.oam, ly, i as int),
                    count <= i,
                    forall|x: int| 0 <= x < 160 ==> #[trigger] indices[x] == bg_index(scene, ly, x),
                    self@ == (GpuView { canvas: self@.canvas, ..old(self)@ }),
                    same_but_line(self@.canvas, old(self)@.canvas, ly),
                    forall|x: int|
                        0 <= x < 160 ==> #[trigger] px(self@.canvas, ly, x) == pixel_after(
                            scene,
                            ly,
                            x,
                            i as int,
                        ),
                decreases 40 - i,
            {
                count = self.composite_object(i, count, &indices);
                i += 1;
            }
        } else {
            proof {
                assert forall|x: int| 0 <= x < 160 implies #[trigger] px(self@.canvas, ly, x) == pixel(
                    scene,
                    ly,
                    x,
                ) by {
                    lemma_pixel_without_objects(scene, ly, x, 40);
                }
            }
        }
        proof {
            let target = old(self)@.with_line_drawn(ly).canvas;
            assert forall|k: int| 0 <= k < 23040 implies self@.canvas[k] == target[k] by {
                if k / 160 == ly {
                    assert(k == ly * 160 + k % 160);
                    assert(self@.canvas[k] == px(self@.canvas, ly, k % 160));
                }
            }
            assert(self@.canvas =~= target);
        }
    }

    /// Cycles left before the current mode has run its full length.
    fn mode_room(&self) -> (room: u32)
        requires
            self.wf(),
        ensures
            room == crate::frame::mode_len(self@.lcd_status.mode) - self@.mode_clock,
            0 < room <= 456,
    {
        let len: u32 = match self.lcd_status.mode {
            GPUMode::OAMRead => OAM_SCAN_CYCLES,
            GPUMode::VRAMRead => DRAW_CYCLES,
            GPUMode::HBlank => HBLANK_CYCLES,
            GPUMode::VBlank => LINE_CYCLES,
        };
        len - self.mode_clock
    }

    /// Spends `cycles` cycles inside the current mode.
    fn advance_clock(&mut self, cycles: u32)
        requires
            old(self).wf(),
            old(self)@.mode_clock + cycles < crate::frame::mode_len(old(self)@.lcd_status.mode),
        ensures
            final(self).wf(),
            final(self)@ == (GpuView {
                mode_clock: (old(self)@.mode_clock + cycles) as u32,
                ..old(self)@
            }),
    {
        self.mode_clock = self.mode_clock + cycles;
    }

    /// Brings the coincidence flag of the status register up to date and
    /// tells whether the line counter has just come to equal the compare
    /// register with the interrupt for that enabled.
    fn compare_line(&mut self) -> (fired: bool)
        requires
            old(self).wf(),
        ensures
            final(self).wf(),
            final(self)@ == (GpuView {
                lcd_status: LCDStatus {
                    lyc_equals_ly: old(self)@.ly == old(self)@.lyc,
                    ..old(self)@.lcd_status
                },
                ..old(self)@
            }),
            fired == (old(self)@.ly == old(self)@.lyc && !old(self)@.lcd_status.lyc_equals_ly && old(
                self,
            )@.lcd_status.lyc_equals_ly_int),
    {
        let status = self.lcd_status;
        let equal = self.ly == self.lyc;
        self.lcd_status = LCDStatus { lyc_equals_ly: equal, ..status };
        equal && !status.lyc_equals_ly && status.lyc_equals_ly_int
    }

    /// Sets line counter, mode and mode clock for the start of a mode.
    fn enter_mode(&mut self, ly: u8, mode: GPUMode)
        requires
            old(self).wf(),
            timing_ok(ly as int, mode, 0),
        ensures
            final(self).wf(),
            final(self)@ == (GpuView {
                ly,
                mode_clock: 0,
                lcd_status: LCDStatus { mode, ..old(self)@.lcd_status },
                ..old(self)@
            }),
    {
        let status = self.lcd_status;
        self.ly = ly;
        self.mode_clock = 0;
        self.lcd_status = LCDStatus { mode, ..status };
    }

    /// Ends the current mode and enters the next one.
    fn end_mode(&mut self) -> (req: GPUInterrupts)
        requires
            old(self).wf(),
            old(self)@.lcd_status.lyc_equals_ly == (old(self)@.ly == old(self)@.lyc),
        ensures
            final(self).wf(),
            final(self)@ == old(self)@.mode_ended(),
            req == old(self)@.mode_end_requests(),
    {
        match self.lcd_status.mode {
            GPUMode::OAMRead => self.end_oam_scan(),
            GPUMode::VRAMRead => self.end_draw(),
            GPUMode::HBlank => self.end_hblank(),
            GPUMode::VBlank => self.end_vblank(),
        }
    }

    fn end_oam_scan(&mut self) -> (req: GPUInterrupts)
        requires
            old(self).wf(),
            old(self)@.lcd_status.mode == GPUMode::OAMRead,
            old(self)@.lcd_status.lyc_equals_ly == (old(self)@.ly == old(self)@.lyc),
        ensures
            final(self).wf(),
            final(self)@ == old(self)@.mode_ended(),
            req == old(self)@.mode_end_requests(),
    {
        proof {
            self.lemma_wf();
        }
        let ly = self.ly;
        self.enter_mode(ly, GPUMode::VRAMRead);
        GPUInterrupts::Nothing
    }

    fn end_draw(&mut self) -> (req: GPUInterrupts)
        requires
            old(self).wf(),
            old(self)@.lcd_status.mode == GPUMode::VRAMRead,
            old(self)@.lcd_status.lyc_equals_ly == (old(self)@.ly == old(self)@.lyc),
        ensures
            final(self).wf(),
            final(self)@ == old(self)@.mode_ended(),
            req == old(self)@.mode_end_requests(),
    {
        proof {
            self.lemma_wf();
        }
        let ly = self.ly;
        let hblank_int = self.lcd_status.hblank_int;
        self.render_scan();
        self.enter_mode(ly, GPUMode::HBlank);
        if hblank_int {
            GPUInterrupts::LCDStat
        } else {
            GPUInterrupts::Nothing
        }
    }

    fn end_hblank(&mut self) -> (req: GPUInterrupts)
        requires
            old(self).wf(),
            old(self)@.lcd_status.mode == GPUMode::HBlank,
            old(self)@.lcd_status.lyc_equals_ly == (old(self)@.ly == old(self)@.lyc),
        ensures
            final(self).wf(),
            final(self)@ == old(self)@.mode_ended(),
            req == old(self)@.mode_end_requests(),
    {
        proof {
            self.lemma_wf();
        }
        let ly = self.ly;
        let vblank_int = self.lcd_status.vblank_int;
        let to_vblank = ly == 143;
        if to_vblank {
            self.enter_mode(144, GPUMode::VBlank);
        } else {
            self.enter_mode(ly + 1, GPUMode::OAMRead);
        }
        let met = self.compare_line();
        request_of(to_vblank, (to_vblank && vblank_int) || met)
    }

    fn end_vblank(&mut self) -> (req: GPUInterrupts)
        requires
            old(self).wf(),
            old(self)@.lcd_status.mode == GPUMode::VBlank,
            old(self)@.lcd_status.lyc_equals_ly == (old(self)@.ly == old(self)@.lyc),
        ensures
            final(self).wf(),
            final(self)@ == old(self)@.mode_ended(),
            req == old(self)@.mode_end_requests(),
    {
        proof {
            self.lemma_wf();
        }
        let ly = self.ly;
        if ly >= 153 {
            self.enter_mode(0, GPUMode::OAMRead);
        } else {
            self.enter_mode(ly + 1, GPUMode::VBlank);
        }
        let met = self.compare_line();
        request_of(false, met)
    }

    /// Runs the mode machine for `cycles` cycles and returns the interrupts
    /// requested on the way.
    ///
    /// With the display switched off nothing happens. Otherwise the position
    /// in the frame advances by `cycles` modulo the frame length; line
    /// counter, mode and mode clock are those of the new position; every line
    /// whose drawing mode ended on the way is rendered; and the coincidence
    /// flag tells whether the line counter equals the compare register.
    pub fn step(&mut self, cycles: u32) -> (req: GPUInterrupts)
        requires
            old(self).wf(),
        ensures
            final(self).wf(),
            !old(self)@.lcdc.lcd_enable ==> final(self)@ == old(self)@ && req
                == GPUInterrupts::Nothing,
            old(self)@.lcdc.lcd_enable ==> final(self)@ == old(self)@.after(cycles as int) && req
                == old(self)@.requests(cycles as int),
    {
        if !self.lcdc.lcd_enable {
            return GPUInterrupts::Nothing;
        }
        proof {
            self.lemma_wf();
            lemma_run_start(self@);
        }
        let met = self.compare_line();
        let mut requested = request_of(false, met);
        let mut remaining = cycles;
        let ghost frames: int = 0;
        while remaining > 0
            invariant
                self.wf(),
                remaining <= cycles,
                run_state(old(self)@, frames, cycles - remaining, self@, requested),
            decreases remaining,
        {
            let room = self.mode_room();
            if remaining < room {
                proof {
                    lemma_run_within(
                        old(self)@,
                        frames,
                        cycles - remaining,
                        self@,
                        requested,
                        remaining as int,
                    );
                }
                self.advance_clock(remaining);
                remaining = 0;
            } else {
                proof {
                    lemma_run_mode_end(old(self)@, frames, cycles - remaining, self@, requested);
                    if self@.lcd_status.mode == GPUMode::VBlank && self@.ly == 153 {
                        frames = frames + 1;
                    }
                }
                let at_end = self.end_mode();
                requested.add(at_end);
                remaining = remaining - room;
            }
        }
        proof {
            lemma_run_finish(old(self)@, frames, cycles as int, self@, requested);
        }
        requested
    }
}

} // verus!
