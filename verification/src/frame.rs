//! The timing of one frame, as arithmetic on a position.
//!
//! A frame is 154 lines of 456 cycles. The position of the pixel processor
//! is the number of cycles since the frame began, in `0..70224`; the line
//! number, the mode and the cycles spent in the mode all follow from it.
//! Events (a line is drawn, vertical blanking begins, the line counter takes a
//! given value) sit at fixed positions, the marks.

use vstd::prelude::*;
use crate::gpu::GPUMode;

verus! {

/// Cycles of one line.
pub open spec fn line_len() -> int {
    456
}

/// Cycles of one frame: 154 lines.
pub open spec fn frame_len() -> int {
    70224
}

/// Cycles that a mode lasts: 80 for the object scan, 172 for drawing, 204
/// for horizontal blanking, and a whole line of 456 for each of the ten
/// lines of vertical blanking.
pub open spec fn mode_len(mode: GPUMode) -> int {
    match mode {
        GPUMode::OAMRead => 80,
        GPUMode::VRAMRead => 172,
        GPUMode::HBlank => 204,
        GPUMode::VBlank => 456,
    }
}

/// The cycle of its line at which a mode begins.
pub open spec fn mode_start(mode: GPUMode) -> int {
    match mode {
        GPUMode::OAMRead => 0,
        GPUMode::VRAMRead => 80,
        GPUMode::HBlank => 252,
        GPUMode::VBlank => 0,
    }
}

/// Whether a line number, a mode and a mode clock fit together: lines 0 to
/// 143 pass through the three visible modes, lines 144 to 153 are vertical
/// blanking, and the clock has not yet reached the length of the mode.
pub open spec fn timing_ok(ly: int, mode: GPUMode, clock: int) -> bool {
    &&& 0 <= ly < 154
    &&& (mode == GPUMode::VBlank) == (ly >= 144)
    &&& 0 <= clock < mode_len(mode)
}

/// The position in the frame of a line number, a mode and a mode clock.
pub open spec fn position(ly: int, mode: GPUMode, clock: int) -> int {
    ly * 456 + mode_start(mode) + clock
}

/// The line number at a position.
pub open spec fn ly_at(pos: int) -> int {
    pos / 456
}

/// The mode at a position.
pub open spec fn mode_at(pos: int) -> GPUMode {
    if pos >= 65664 {
        GPUMode::VBlank
    } else if pos % 456 < 80 {
        GPUMode::OAMRead
    } else if pos % 456 < 252 {
        GPUMode::VRAMRead
    } else {
        GPUMode::HBlank
    }
}

/// The cycles spent in the current mode at a position.
pub open spec fn clock_at(pos: int) -> int {
    pos % 456 - mode_start(mode_at(pos))
}

/// The position reached from `pos` after `cycles` cycles.
pub open spec fn advance(pos: int, cycles: int) -> int {
    (pos + cycles) % 70224
}

/// The position at which drawing of `line` ends and its horizontal blanking
/// begins: the moment the line is rendered.
pub open spec fn hblank_mark(line: int) -> int {
    line * 456 + 252
}

/// The position at which vertical blanking begins.
pub open spec fn vblank_mark() -> int {
    65664
}

/// The position at which the line counter takes the value `line`; for line 0
/// that is the end of the frame.
pub open spec fn line_mark(line: int) -> int {
    if line == 0 {
        70224
    } else {
        line * 456
    }
}

/// The first time a mark comes up strictly after position `pos`, counted in
/// cycles from the start of the frame that `pos` lies in.
pub open spec fn first_after(pos: int, mark: int) -> int {
    if mark > pos {
        mark
    } else {
        mark + 70224
    }
}

/// Whether `mark` comes up during the `cycles` cycles that follow position
/// `pos`, the last of them included.
pub open spec fn reached(pos: int, cycles: int, mark: int) -> bool {
    pos + cycles >= first_after(pos, mark)
}

/// How often `mark` comes up during the `cycles` cycles that follow `pos`.
pub open spec fn crossings(pos: int, cycles: int, mark: int) -> int {
    if reached(pos, cycles, mark) {
        (pos + cycles - first_after(pos, mark)) / 70224 + 1
    } else {
        0
    }
}

/// Position and timing determine each other.
pub proof fn lemma_position_timing(ly: int, mode: GPUMode, clock: int)
    requires
        timing_ok(ly, mode, clock),
    ensures
        0 <= position(ly, mode, clock) < frame_len(),
        ly_at(position(ly, mode, clock)) == ly,
        mode_at(position(ly, mode, clock)) == mode,
        clock_at(position(ly, mode, clock)) == clock,
{
}

/// The timing read off a position is consistent and gives the position back.
pub proof fn lemma_timing_position(pos: int)
    requires
        0 <= pos < frame_len(),
    ensures
        timing_ok(ly_at(pos), mode_at(pos), clock_at(pos)),
        position(ly_at(pos), mode_at(pos), clock_at(pos)) == pos,
{
}

/// A stretch of `d` cycles that starts at position `p` of some later frame
/// and does not run past the end of that frame brings up a mark exactly when
/// the mark lies in the stretch.
pub proof fn lemma_stretch(start: int, frames: int, p: int, d: int, mark: int)
    requires
        0 <= start < frame_len(),
        0 <= frames,
        0 <= p < frame_len(),
        frames * 70224 + p >= start,
        0 < d,
        p + d <= frame_len(),
        0 < mark <= frame_len(),
    ensures
        reached(start, frames * 70224 + p + d - start, mark) == (reached(
            start,
            frames * 70224 + p - start,
            mark,
        ) || (p < mark <= p + d)),
{
}

/// Whatever the position, the 70224 cycles of one full frame lead back to
/// it, and no smaller positive number of cycles does.
pub proof fn lemma_frame_period(pos: int, cycles: int)
    requires
        0 <= pos < frame_len(),
        0 < cycles <= frame_len(),
    ensures
        (advance(pos, cycles) == pos) == (cycles == frame_len()),
{
}

/// During one full frame every mark comes up exactly once: each of the 154
/// values of the line counter is taken once, each of the 144 visible lines is
/// drawn once, and vertical blanking begins once.
pub proof fn lemma_frame_marks(pos: int, line: int)
    requires
        0 <= pos < frame_len(),
        0 <= line < 154,
    ensures
        crossings(pos, frame_len(), line_mark(line)) == 1,
        line < 144 ==> crossings(pos, frame_len(), hblank_mark(line)) == 1,
        crossings(pos, frame_len(), vblank_mark()) == 1,
{
}

/// From the start of a frame the line counter runs through 0 to 153 in
/// order, one value per 456 cycles; the first 144 lines go through object
/// scan, drawing and horizontal blanking, the last ten are vertical blanking.
pub proof fn lemma_frame_order(t: int)
    requires
        0 <= t < frame_len(),
    ensures
        0 <= ly_at(advance(0, t)) < 154,
        ly_at(advance(0, t)) == t / 456,
        t + 456 < frame_len() ==> ly_at(advance(0, t + 456)) == ly_at(advance(0, t)) + 1,
        (mode_at(advance(0, t)) == GPUMode::VBlank) == (t >= 65664),
        t < 65664 ==> (mode_at(advance(0, t)) == GPUMode::OAMRead) == (t % 456 < 80),
        t < 65664 ==> (mode_at(advance(0, t)) == GPUMode::VRAMRead) == (80 <= t % 456 < 252),
        t < 65664 ==> (mode_at(advance(0, t)) == GPUMode::HBlank) == (252 <= t % 456),
        forall|line: int| 0 <= line < 144 ==> reached(0, t, hblank_mark(line)) == (t >= line * 456 + 252),
{
}

} // verus!
