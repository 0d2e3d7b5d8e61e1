//! What a rendered scanline looks like, pixel by pixel.
//!
//! The picture is a function of video memory, object memory, the scroll
//! registers, the control register and the three palettes. The background is
//! looked up through the tile map; objects are then composited over it in
//! table order.

use vstd::prelude::*;
use crate::gpu::{Obj, ObjAttributes, Palette, LCDC};
use crate::registers::bit_is_set;

verus! {

/// Everything a scanline's picture depends on.
pub struct Scene {
    pub video_ram: Seq<u8>,
    pub oam: Seq<u8>,
    pub lcdc: LCDC,
    pub scy: u8,
    pub scx: u8,
    pub bg_palette: Palette,
    pub obj0_palette: Palette,
    pub obj1_palette: Palette,
}

/// The bit that a tile-data byte contributes to pixel column `col`: column 0
/// is bit 7, column 7 is bit 0.
pub open spec fn tile_bit(byte: u8, col: int) -> int {
    if bit_is_set(byte, (7 - col) as u8) {
        1
    } else {
        0
    }
}

/// The two-bit colour index of pixel (`row`, `col`) of tile `tile`. Each row
/// of a tile is a pair of bytes; the second (odd) byte gives the high bit,
/// the first (even) byte the low bit.
pub open spec fn tile_pixel(video_ram: Seq<u8>, tile: int, row: int, col: int) -> u8 {
    (2 * tile_bit(video_ram[tile * 16 + row * 2 + 1], col) + tile_bit(
        video_ram[tile * 16 + row * 2],
        col,
    )) as u8
}

/// Offset in video memory of the background tile map that the control
/// register selects.
pub open spec fn map_base(lcdc: LCDC) -> int {
    if lcdc.bg_tilemap {
        0x1C00
    } else {
        0x1800
    }
}

/// The tile-map row that holds `line` when the background is scrolled by
/// `scy`.
pub open spec fn map_row(scy: u8, line: int) -> int {
    ((scy + line) % 256) / 8
}

/// The tile-map column that holds pixel `x` when the background is scrolled
/// by `scx`; the map wraps around after 32 tiles.
pub open spec fn map_col(scx: u8, x: int) -> int {
    ((scx + x) / 8) % 32
}

/// The tile number that a tile-map entry stands for. With the unsigned
/// addressing mode it is the entry itself; with the signed mode the entry is
/// an offset from tile 256, so entries below 128 name tiles 256 to 383.
pub open spec fn tile_number(lcdc: LCDC, entry: u8) -> int {
    if lcdc.bg_window_addressing_mode || entry >= 128 {
        entry as int
    } else {
        entry + 256
    }
}

/// The colour index of the background at pixel `x` of `line`.
pub open spec fn bg_index(scene: Scene, line: int, x: int) -> u8 {
    let entry = scene.video_ram[map_base(scene.lcdc) + map_row(scene.scy, line) * 32 + map_col(
        scene.scx,
        x,
    )];
    tile_pixel(
        scene.video_ram,
        tile_number(scene.lcdc, entry),
        (scene.scy + line) % 8,
        (scene.scx + x) % 8,
    )
}

/// The background pixel at `x` of `line`.
pub open spec fn bg_color(scene: Scene, line: int, x: int) -> u32 {
    scene.bg_palette.shade(bg_index(scene, line, x) as int).to_rgb()
}

/// Entry `i` of the object table, decoded from its four bytes: the stored
/// coordinates are offset by 16 and 8, the attribute flags are bits 7 to 4 of
/// the fourth byte.
pub open spec fn obj_at(oam: Seq<u8>, i: int) -> Obj {
    Obj {
        y: (oam[4 * i] - 16) as i16,
        x: (oam[4 * i + 1] - 8) as i16,
        tile: oam[4 * i + 2],
        attributes: ObjAttributes {
            bg_win_over_obj: bit_is_set(oam[4 * i + 3], 7),
            y_flip: bit_is_set(oam[4 * i + 3], 6),
            x_flip: bit_is_set(oam[4 * i + 3], 5),
            palette: bit_is_set(oam[4 * i + 3], 4),
        },
    }
}

/// Whether an object covers `line`.
pub open spec fn obj_on_line(obj: Obj, line: int) -> bool {
    obj.y <= line < obj.y + 8
}

/// How many of the first `n` objects cover `line`.
pub open spec fn objs_on_line(oam: Seq<u8>, line: int, n: int) -> int
    decreases n,
{
    if n <= 0 {
        0
    } else {
        objs_on_line(oam, line, n - 1) + if obj_on_line(obj_at(oam, n - 1), line) {
            1int
        } else {
            0int
        }
    }
}

/// Whether object `i` is among the objects drawn on `line`: it covers the
/// line and fewer than ten earlier objects do.
pub open spec fn obj_drawn(oam: Seq<u8>, line: int, i: int) -> bool {
    obj_on_line(obj_at(oam, i), line) && objs_on_line(oam, line, i) < 10
}

/// The colour index that object `i` has at pixel `x` of `line`, flips
/// applied.
pub open spec fn obj_index(scene: Scene, line: int, i: int, x: int) -> u8 {
    let obj = obj_at(scene.oam, i);
    let row = line - obj.y;
    let col = x - obj.x;
    tile_pixel(
        scene.video_ram,
        obj.tile as int,
        if obj.attributes.y_flip {
            7 - row
        } else {
            row
        },
        if obj.attributes.x_flip {
            7 - col
        } else {
            col
        },
    )
}

/// Whether object `i` paints pixel `x` of `line`: it is drawn on the line,
/// covers the pixel, is not transparent there (colour index 0), and is not
/// hidden behind a non-zero background colour by its priority attribute.
pub open spec fn obj_paints(scene: Scene, line: int, i: int, x: int) -> bool {
    let obj = obj_at(scene.oam, i);
    &&& obj_drawn(scene.oam, line, i)
    &&& obj.x <= x < obj.x + 8
    &&& obj_index(scene, line, i, x) != 0
    &&& (!obj.attributes.bg_win_over_obj || bg_index(scene, line, x) == 0)
}

/// The pixel that object `i` shows at `x` of `line`, through the palette its
/// attribute selects.
pub open spec fn obj_color(scene: Scene, line: int, i: int, x: int) -> u32 {
    let obj = obj_at(scene.oam, i);
    let palette = if obj.attributes.palette {
        scene.obj1_palette
    } else {
        scene.obj0_palette
    };
    palette.shade(obj_index(scene, line, i, x) as int).to_rgb()
}

/// Pixel `x` of `line` after the background and the first `n` objects have
/// been composited: a later object paints over an earlier one.
pub open spec fn pixel_after(scene: Scene, line: int, x: int, n: int) -> u32
    decreases n,
{
    if n <= 0 {
        bg_color(scene, line, x)
    } else if scene.lcdc.obj_enable && obj_paints(scene, line, n - 1, x) {
        obj_color(scene, line, n - 1, x)
    } else {
        pixel_after(scene, line, x, n - 1)
    }
}

/// The finished pixel `x` of `line`.
pub open spec fn pixel(scene: Scene, line: int, x: int) -> u32 {
    pixel_after(scene, line, x, 40)
}

/// With objects switched off the picture is the background alone.
pub proof fn lemma_pixel_without_objects(scene: Scene, line: int, x: int, n: int)
    requires
        !scene.lcdc.obj_enable,
        0 <= n,
    ensures
        pixel_after(scene, line, x, n) == bg_color(scene, line, x),
    decreases n,
{
    if n > 0 {
        lemma_pixel_without_objects(scene, line, x, n - 1);
    }
}

} // verus!
