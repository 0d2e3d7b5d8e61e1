//! The state of the pixel processor as a mathematical value, and what a bus
//! access or a run of cycles does to it.

use vstd::prelude::*;
use vstd::std_specs::convert::FromSpec;
use crate::frame::{
    advance, clock_at, crossings, frame_len, hblank_mark, lemma_frame_marks, lemma_position_timing,
    lemma_stretch, lemma_timing_position, line_mark, ly_at, mode_at, mode_len, position, reached,
    timing_ok, vblank_mark,
};
use crate::gpu::{Color, GPUInterrupts, GPUMode, LCDStatus, Palette, LCDC};
use crate::scanline::{pixel, Scene};

verus! {

/// The registers and memories of the pixel processor.
pub struct GpuView {
    pub video_ram: Seq<u8>,
    pub oam: Seq<u8>,
    pub canvas: Seq<u32>,
    pub mode_clock: u32,
    pub scy: u8,
    pub scx: u8,
    pub ly: u8,
    pub lyc: u8,
    pub lcdc: LCDC,
    pub bg_palette: Palette,
    pub obj0_palette: Palette,
    pub obj1_palette: Palette,
    pub lcd_status: LCDStatus,
}

/// Pixel `x` of line `line` of an output buffer.
pub open spec fn px(canvas: Seq<u32>, line: int, x: int) -> u32 {
    canvas[line * 160 + x]
}

/// Whether two output buffers of full size agree outside line `line`.
pub open spec fn same_but_line(canvas: Seq<u32>, other: Seq<u32>, line: int) -> bool {
    &&& canvas.len() == 23040
    &&& other.len() == 23040
    &&& forall|i: int|
        0 <= i < 23040 && !(line * 160 <= i < line * 160 + 160) ==> #[trigger] canvas[i] == other[i]
}

impl GpuView {
    /// The state of a processor that has just been made: memories and
    /// output buffer cleared, the display switched off, the identity palettes,
    /// at the start of a frame.
    pub open spec fn fresh() -> GpuView {
        GpuView {
            video_ram: Seq::new(0x2000, |i: int| 0u8),
            oam: Seq::new(0xA0, |i: int| 0u8),
            canvas: Seq::new(23040, |i: int| 0u32),
            mode_clock: 0,
            scy: 0,
            scx: 0,
            ly: 0,
            lyc: 0,
            lcdc: LCDC {
                lcd_enable: false,
                window_tilemap: false,
                window_enable: false,
                bg_window_addressing_mode: false,
                bg_tilemap: false,
                obj_size: false,
                obj_enable: false,
                bg_window_priority: false,
            },
            bg_palette: Palette(Color::White, Color::LightGray, Color::DarkGray, Color::Black),
            obj0_palette: Palette(Color::White, Color::LightGray, Color::DarkGray, Color::Black),
            obj1_palette: Palette(Color::White, Color::LightGray, Color::DarkGray, Color::Black),
            lcd_status: LCDStatus {
                lyc_equals_ly_int: false,
                oam_int: false,
                vblank_int: false,
                hblank_int: false,
                lyc_equals_ly: false,
                mode: GPUMode::OAMRead,
            },
        }
    }

    /// What the picture depends on.
    pub open spec fn scene(self) -> Scene {
        Scene {
            video_ram: self.video_ram,
            oam: self.oam,
            lcdc: self.lcdc,
            scy: self.scy,
            scx: self.scx,
            bg_palette: self.bg_palette,
            obj0_palette: self.obj0_palette,
            obj1_palette: self.obj1_palette,
        }
    }

    /// The position in the frame.
    pub open spec fn pos(self) -> int {
        position(self.ly as int, self.lcd_status.mode, self.mode_clock as int)
    }

    /// The byte that a bus read at `address` returns: video memory at
    /// `0x8000..=0x9FFF`, object memory at `0xFE00..=0xFE9F`, the registers
    /// at `0xFF40..=0xFF49`, and 0 anywhere else.
    pub open spec fn read(self, address: u16) -> u8 {
        if 0x8000 <= address <= 0x9FFF {
            self.video_ram[address - 0x8000]
        } else if 0xFE00 <= address <= 0xFE9F {
            self.oam[address - 0xFE00]
        } else if address == 0xFF40 {
            u8::from_spec(self.lcdc)
        } else if address == 0xFF41 {
            u8::from_spec(self.lcd_status)
        } else if address == 0xFF42 {
            self.scy
        } else if address == 0xFF43 {
            self.scx
        } else if address == 0xFF44 {
            self.ly
        } else if address == 0xFF45 {
            self.lyc
        } else if address == 0xFF47 {
            u8::from_spec(self.bg_palette)
        } else if address == 0xFF48 {
            u8::from_spec(self.obj0_palette)
        } else if address == 0xFF49 {
            u8::from_spec(self.obj1_palette)
        } else {
            0
        }
    }

    /// The state after a bus write of `val` at `address`. A write to the
    /// status register replaces its four interrupt-enable flags only; the
    /// line counter at `0xFF44` cannot be written.
    pub open spec fn write(self, address: u16, val: u8) -> GpuView {
        if 0x8000 <= address <= 0x9FFF {
            GpuView { video_ram: self.video_ram.update(address - 0x8000, val), ..self }
        } else if 0xFE00 <= address <= 0xFE9F {
            GpuView { oam: self.oam.update(address - 0xFE00, val), ..self }
        } else if address == 0xFF40 {
            GpuView { lcdc: LCDC::from_spec(val), ..self }
        } else if address == 0xFF41 {
            GpuView {
                lcd_status: LCDStatus {
                    lyc_equals_ly: self.lcd_status.lyc_equals_ly,
                    mode: self.lcd_status.mode,
                    ..LCDStatus::from_spec(val)
                },
                ..self
            }
        } else if address == 0xFF42 {
            GpuView { scy: val, ..self }
        } else if address == 0xFF43 {
            GpuView { scx: val, ..self }
        } else if address == 0xFF45 {
            GpuView { lyc: val, ..self }
        } else if address == 0xFF47 {
            GpuView { bg_palette: Palette::from_spec(val), ..self }
        } else if address == 0xFF48 {
            GpuView { obj0_palette: Palette::from_spec(val), ..self }
        } else if address == 0xFF49 {
            GpuView { obj1_palette: Palette::from_spec(val), ..self }
        } else {
            self
        }
    }

    /// The state after `line` has been rendered into the output buffer.
    pub open spec fn with_line_drawn(self, line: int) -> GpuView {
        GpuView {
            canvas: Seq::new(
                23040,
                |i: int|
                    if i / 160 == line {
                        pixel(self.scene(), line, i % 160)
                    } else {
                        self.canvas[i]
                    },
            ),
            ..self
        }
    }

    /// The line counter after the current mode has run its full length: the
    /// end of horizontal or vertical blanking moves on to the next line, and
    /// line 153 is followed by line 0.
    pub open spec fn ly_after_mode(self) -> u8 {
        match self.lcd_status.mode {
            GPUMode::OAMRead | GPUMode::VRAMRead => self.ly,
            GPUMode::HBlank | GPUMode::VBlank => if self.ly >= 153 {
                0u8
            } else {
                (self.ly + 1) as u8
            },
        }
    }

    /// The mode that follows the current one: object scan, drawing and
    /// horizontal blanking follow each other on lines 0 to 143; after line
    /// 143 come the ten lines of vertical blanking.
    pub open spec fn mode_after_mode(self) -> GPUMode {
        match self.lcd_status.mode {
            GPUMode::OAMRead => GPUMode::VRAMRead,
            GPUMode::VRAMRead => GPUMode::HBlank,
            GPUMode::HBlank => if self.ly >= 143 {
                GPUMode::VBlank
            } else {
                GPUMode::OAMRead
            },
            GPUMode::VBlank => if self.ly >= 153 {
                GPUMode::OAMRead
            } else {
                GPUMode::VBlank
            },
        }
    }

    /// The state at the moment the current mode has run its full length. The
    /// end of drawing renders the line.
    pub open spec fn mode_ended(self) -> GpuView {
        let drawn = if self.lcd_status.mode == GPUMode::VRAMRead {
            self.with_line_drawn(self.ly as int)
        } else {
            self
        };
        GpuView {
            ly: self.ly_after_mode(),
            mode_clock: 0,
            lcd_status: LCDStatus {
                mode: self.mode_after_mode(),
                lyc_equals_ly: self.ly_after_mode() == self.lyc,
                ..self.lcd_status
            },
            ..drawn
        }
    }

    /// The interrupts requested at the moment the current mode has run its
    /// full length.
    pub open spec fn mode_end_requests(self) -> GPUInterrupts {
        let mode = self.lcd_status.mode;
        let to_vblank = mode == GPUMode::HBlank && self.ly == 143;
        let new_line = mode == GPUMode::HBlank || mode == GPUMode::VBlank;
        GPUInterrupts::of(
            to_vblank,
            (mode == GPUMode::VRAMRead && self.lcd_status.hblank_int) || (to_vblank
                && self.lcd_status.vblank_int) || (new_line && self.lcd_status.lyc_equals_ly_int
                && self.ly_after_mode() == self.lyc),
        )
    }

    /// Whether `line` is drawn during the next `cycles` cycles: the
    /// processor leaves the drawing mode of that line.
    pub open spec fn draws(self, cycles: int, line: int) -> bool {
        reached(self.pos(), cycles, hblank_mark(line))
    }

    /// Whether any line is drawn during the next `cycles` cycles, that is,
    /// whether horizontal blanking is entered.
    pub open spec fn enters_hblank(self, cycles: int) -> bool {
        exists|line: int| 0 <= line < 144 && #[trigger] self.draws(cycles, line)
    }

    /// Whether vertical blanking is entered during the next `cycles` cycles.
    pub open spec fn enters_vblank(self, cycles: int) -> bool {
        reached(self.pos(), cycles, vblank_mark())
    }

    /// Whether the line counter comes to equal the compare register during
    /// the next `cycles` cycles: either it is equal now and that equality has
    /// not been noticed yet, or the counter takes the compared value on its
    /// way.
    pub open spec fn meets_lyc(self, cycles: int) -> bool {
        ||| (self.ly == self.lyc && !self.lcd_status.lyc_equals_ly)
        ||| (self.lyc < 154 && reached(self.pos(), cycles, line_mark(self.lyc as int)))
    }

    /// The output buffer after the next `cycles` cycles: the lines drawn on
    /// the way hold the rendered picture, the others are kept.
    pub open spec fn canvas_after(self, cycles: int) -> Seq<u32> {
        Seq::new(
            23040,
            |i: int|
                if self.draws(cycles, i / 160) {
                    pixel(self.scene(), i / 160, i % 160)
                } else {
                    self.canvas[i]
                },
        )
    }

    /// The state after `cycles` cycles with the display switched on.
    pub open spec fn after(self, cycles: int) -> GpuView {
        let p = advance(self.pos(), cycles);
        GpuView {
            ly: ly_at(p) as u8,
            mode_clock: clock_at(p) as u32,
            lcd_status: LCDStatus {
                mode: mode_at(p),
                lyc_equals_ly: ly_at(p) == self.lyc,
                ..self.lcd_status
            },
            canvas: self.canvas_after(cycles),
            ..self
        }
    }

    /// The interrupts requested during the next `cycles` cycles with the
    /// display switched on. Entering vertical blanking requests the
    /// vertical-blank interrupt. The status interrupt is requested on
    /// entering horizontal blanking, on entering vertical blanking and on the
    /// line counter meeting the compare register, each if its enable flag in
    /// the status register is set.
    pub open spec fn requests(self, cycles: int) -> GPUInterrupts {
        GPUInterrupts::of(
            self.enters_vblank(cycles),
            (self.lcd_status.hblank_int && self.enters_hblank(cycles)) || (
            self.lcd_status.vblank_int && self.enters_vblank(cycles)) || (
            self.lcd_status.lyc_equals_ly_int && self.meets_lyc(cycles)),
        )
    }
}

/// The union of two interrupt requests.
pub open spec fn merged(a: GPUInterrupts, b: GPUInterrupts) -> GPUInterrupts {
    GPUInterrupts::of(a.has_vblank() || b.has_vblank(), a.has_lcd_stat() || b.has_lcd_stat())
}

/// What holds in the middle of a run of cycles that began in state `start`:
/// `done` cycles have been spent, they have led through `frames` ends of
/// frame to the state `cur`, and `req` has been requested on the way.
pub open spec fn run_state(
    start: GpuView,
    frames: int,
    done: int,
    cur: GpuView,
    req: GPUInterrupts,
) -> bool {
    &&& 0 <= frames
    &&& 0 <= done
    &&& timing_ok(start.ly as int, start.lcd_status.mode, start.mode_clock as int)
    &&& timing_ok(cur.ly as int, cur.lcd_status.mode, cur.mode_clock as int)
    &&& frames * 70224 + cur.pos() == start.pos() + done
    &&& cur.lcd_status.lyc_equals_ly == (cur.ly == cur.lyc)
    &&& cur == (GpuView {
        ly: cur.ly,
        mode_clock: cur.mode_clock,
        lcd_status: LCDStatus {
            mode: cur.lcd_status.mode,
            lyc_equals_ly: cur.lcd_status.lyc_equals_ly,
            ..start.lcd_status
        },
        canvas: cur.canvas,
        ..start
    })
    &&& start.canvas.len() == 23040
    &&& cur.canvas.len() == 23040
    &&& forall|i: int|
        0 <= i < 23040 ==> #[trigger] cur.canvas[i] == if start.draws(done, i / 160) {
            pixel(start.scene(), i / 160, i % 160)
        } else {
            start.canvas[i]
        }
    &&& req == start.requests(done)
}

/// A run begins by bringing the coincidence flag up to date.
pub proof fn lemma_run_start(start: GpuView)
    requires
        timing_ok(start.ly as int, start.lcd_status.mode, start.mode_clock as int),
        start.canvas.len() == 23040,
    ensures
        run_state(
            start,
            0,
            0,
            GpuView {
                lcd_status: LCDStatus { lyc_equals_ly: start.ly == start.lyc, ..start.lcd_status },
                ..start
            },
            GPUInterrupts::of(
                false,
                start.ly == start.lyc && !start.lcd_status.lyc_equals_ly
                    && start.lcd_status.lyc_equals_ly_int,
            ),
        ),
{
    assert(!start.enters_hblank(0));
}

/// Cycles spent without leaving the current mode bring up no event.
pub proof fn lemma_run_within(
    start: GpuView,
    frames: int,
    done: int,
    cur: GpuView,
    req: GPUInterrupts,
    d: int,
)
    requires
        run_state(start, frames, done, cur, req),
        0 < d < mode_len(cur.lcd_status.mode) - cur.mode_clock,
    ensures
        run_state(
            start,
            frames,
            done + d,
            GpuView { mode_clock: (cur.mode_clock + d) as u32, ..cur },
            req,
        ),
{
    let p0 = start.pos();
    let p = cur.pos();
    let next = GpuView { mode_clock: (cur.mode_clock + d) as u32, ..cur };
    assert forall|line: int| 0 <= line < 144 implies #[trigger] start.draws(done + d, line)
        == start.draws(done, line) by {
        lemma_stretch(p0, frames, p, d, hblank_mark(line));
    }
    lemma_stretch(p0, frames, p, d, vblank_mark());
    if start.lyc < 154 {
        lemma_stretch(p0, frames, p, d, line_mark(start.lyc as int));
    }
    assert(start.enters_hblank(done + d) == start.enters_hblank(done)) by {
        if start.enters_hblank(done + d) {
            let line = choose|line: int| 0 <= line < 144 && #[trigger] start.draws(done + d, line);
            assert(start.draws(done, line));
        }
        if start.enters_hblank(done) {
            let line = choose|line: int| 0 <= line < 144 && #[trigger] start.draws(done, line);
            assert(start.draws(done + d, line));
        }
    }
    assert forall|i: int| 0 <= i < 23040 implies #[trigger] next.canvas[i] == if start.draws(
        done + d,
        i / 160,
    ) {
        pixel(start.scene(), i / 160, i % 160)
    } else {
        start.canvas[i]
    } by {
        assert(start.draws(done + d, i / 160) == start.draws(done, i / 160));
    }
}

/// Running the current mode to its end brings up exactly the events of that
/// end: a finished drawing mode renders its line, and the requests are those
/// of the mode's end.
pub proof fn lemma_run_mode_end(
    start: GpuView,
    frames: int,
    done: int,
    cur: GpuView,
    req: GPUInterrupts,
)
    requires
        run_state(start, frames, done, cur, req),
    ensures
        run_state(
            start,
            if cur.lcd_status.mode == GPUMode::VBlank && cur.ly == 153 {
                frames + 1
            } else {
                frames
            },
            done + mode_len(cur.lcd_status.mode) - cur.mode_clock,
            cur.mode_ended(),
            merged(req, cur.mode_end_requests()),
        ),
{
    let p0 = start.pos();
    let p = cur.pos();
    let mode = cur.lcd_status.mode;
    let d = mode_len(mode) - cur.mode_clock;
    let next = cur.mode_ended();
    let drawing = mode == GPUMode::VRAMRead;
    let to_vblank = mode == GPUMode::HBlank && cur.ly == 143;
    let new_line = mode == GPUMode::HBlank || mode == GPUMode::VBlank;
    assert forall|line: int| 0 <= line < 144 implies #[trigger] start.draws(done + d, line) == (
    start.draws(done, line) || (drawing && line == cur.ly)) by {
        lemma_stretch(p0, frames, p, d, hblank_mark(line));
    }
    lemma_stretch(p0, frames, p, d, vblank_mark());
    assert(start.enters_vblank(done + d) == (start.enters_vblank(done) || to_vblank));
    if start.lyc < 154 {
        lemma_stretch(p0, frames, p, d, line_mark(start.lyc as int));
    }
    assert(start.meets_lyc(done + d) == (start.meets_lyc(done) || (new_line && cur.ly_after_mode()
        == cur.lyc)));
    assert(start.enters_hblank(done + d) == (start.enters_hblank(done) || drawing)) by {
        if start.enters_hblank(done + d) {
            let line = choose|line: int| 0 <= line < 144 && #[trigger] start.draws(done + d, line);
            if !drawing {
                assert(start.draws(done, line));
            }
        }
        if start.enters_hblank(done) {
            let line = choose|line: int| 0 <= line < 144 && #[trigger] start.draws(done, line);
            assert(start.draws(done + d, line));
        }
        if drawing {
            assert(start.draws(done + d, cur.ly as int));
        }
    }
    assert(cur.scene() == start.scene());
    assert forall|i: int| 0 <= i < 23040 implies #[trigger] next.canvas[i] == if start.draws(
        done + d,
        i / 160,
    ) {
        pixel(start.scene(), i / 160, i % 160)
    } else {
        start.canvas[i]
    } by {
        assert(start.draws(done + d, i / 160) == (start.draws(done, i / 160) || (drawing && i / 160
            == cur.ly)));
    }
}

/// At the end of a run the state and the requests are those that the
/// position arithmetic gives.
pub proof fn lemma_run_finish(
    start: GpuView,
    frames: int,
    done: int,
    cur: GpuView,
    req: GPUInterrupts,
)
    requires
        run_state(start, frames, done, cur, req),
    ensures
        cur == start.after(done),
        req == start.requests(done),
{
    lemma_position_timing(cur.ly as int, cur.lcd_status.mode, cur.mode_clock as int);
    let p = cur.pos();
    assert(p == advance(start.pos(), done)) by {
        vstd::arithmetic::div_mod::lemma_mod_multiples_vanish(frames, p, 70224);
        vstd::arithmetic::div_mod::lemma_small_mod(p as nat, 70224);
    }
    let target = start.after(done);
    assert(target.ly == cur.ly);
    assert(target.mode_clock == cur.mode_clock);
    assert(target.lcd_status == cur.lcd_status);
    assert(cur.canvas =~= target.canvas);
}

/// One full frame of 70224 cycles leads back to the same line, mode and
/// mode clock, whatever the starting point. On the way every visible line is
/// drawn, vertical blanking is entered, each once, and the line counter takes
/// each of its 154 values once.
pub proof fn lemma_full_frame(start: GpuView, line: int)
    requires
        timing_ok(start.ly as int, start.lcd_status.mode, start.mode_clock as int),
        0 <= line < 154,
    ensures
        start.after(frame_len()).ly == start.ly,
        start.after(frame_len()).lcd_status.mode == start.lcd_status.mode,
        start.after(frame_len()).mode_clock == start.mode_clock,
        start.enters_vblank(frame_len()),
        crossings(start.pos(), frame_len(), vblank_mark()) == 1,
        crossings(start.pos(), frame_len(), line_mark(line)) == 1,
        line < 144 ==> start.draws(frame_len(), line),
        line < 144 ==> crossings(start.pos(), frame_len(), hblank_mark(line)) == 1,
{
    lemma_position_timing(start.ly as int, start.lcd_status.mode, start.mode_clock as int);
    lemma_frame_marks(start.pos(), line);
    assert(advance(start.pos(), frame_len()) == start.pos());
}

/// A run of cycles leaves the state consistent, and the position it reaches
/// is the starting position advanced by the cycles, modulo the frame.
pub proof fn lemma_after_position(start: GpuView, cycles: int)
    requires
        timing_ok(start.ly as int, start.lcd_status.mode, start.mode_clock as int),
        0 <= cycles,
    ensures
        timing_ok(
            start.after(cycles).ly as int,
            start.after(cycles).lcd_status.mode,
            start.after(cycles).mode_clock as int,
        ),
        start.after(cycles).pos() == advance(start.pos(), cycles),
        start.after(cycles).lcd_status.lyc_equals_ly == (start.after(cycles).ly == start.lyc),
{
    lemma_position_timing(start.ly as int, start.lcd_status.mode, start.mode_clock as int);
    lemma_timing_position(advance(start.pos(), cycles));
}

/// The coincidence of line counter and compare register is reported when it
/// comes about, not while it lasts: after any run, a further run that stays on
/// the same line meets no coincidence, so requests no interrupt for it.
pub proof fn lemma_coincidence_once(start: GpuView, first: int, second: int)
    requires
        timing_ok(start.ly as int, start.lcd_status.mode, start.mode_clock as int),
        0 <= first,
        0 <= second,
        start.after(first).pos() % 456 + second < 456,
    ensures
        !start.after(first).meets_lyc(second),
        start.after(first).after(second).ly == start.after(first).ly,
{
    lemma_after_position(start, first);
    let mid = start.after(first);
    lemma_position_timing(mid.ly as int, mid.lcd_status.mode, mid.mode_clock as int);
    lemma_after_position(mid, second);
}

/// The coincidence is reported exactly when it comes about: a run meets it
/// if the two are equal at its start without that having been noticed, or if
/// the line counter takes the compared value during the run.
pub proof fn lemma_coincidence_met(start: GpuView, cycles: int)
    requires
        timing_ok(start.ly as int, start.lcd_status.mode, start.mode_clock as int),
        0 <= cycles,
        start.lcd_status.lyc_equals_ly == (start.ly == start.lyc),
        start.lyc < 154,
    ensures
        start.meets_lyc(cycles) == (crossings(start.pos(), cycles, line_mark(start.lyc as int))
            >= 1),
{
}

} // verus!
