//! Drawing commands for the framebuffer window, and the verified pixel-buffer
//! interpretation of each command. The rendering surface is 640 by 480
//! pixels, four bytes per pixel, row-major.

use std::sync::mpsc::Receiver;

use vstd::prelude::*;

use crate::channel::channel_try_recv;

verus! {

/// Width of the rendering surface in pixels.
pub const WIDTH: u16 = 640;

/// Height of the rendering surface in pixels.
pub const HEIGHT: u16 = 480;

/// Window scale factor applied by the host.
pub const SCALE: u16 = 2;

/// One tagged drawing command, as emitted by the peripherals. Colors are
/// 0xRRGGBB packed in the low 24 bits; alpha is always full.
#[derive(Debug, PartialEq, Eq, Structural, Clone, Copy)]
pub enum DisplayEvent {
    /// Fill a rectangle of `size_x` by `size_y` pixels at the target.
    Rectangle { target_x: u16, target_y: u16, size_x: u16, size_y: u16, color: u32 },
    /// Reserved region copy; no device emits it and drawing ignores it.
    Copy { target_x: u16, target_y: u16, source_x: u16, source_y: u16, size_x: u16, size_y: u16 },
    /// Fill the whole surface.
    Floodfill { color: u32 },
    /// Blit an 8 by 8 one-bit mask, least significant bit first across x then
    /// y; masked pixels are set to the color.
    Matrix { matrix: u64, target_x: u16, target_y: u16, color: u32 },
}

/// Size of the pixel buffer in bytes: four bytes per pixel, row-major.
pub const FRAME_BYTES: usize = 640 * 480 * 4;

/// Greatest number of queued commands one `update_frame` call drains, so
/// that one redraw stays bounded; the rest wait for the next redraw.
pub const FRAME_DRAIN_LIMIT: usize = 4096;

/// The byte offset of a pixel in the buffer.
pub open spec fn spec_pixel_index(x: int, y: int) -> int {
    (y * 640 + x) * 4
}

/// One channel of a stored pixel: red, green, blue from the packed color,
/// then full alpha.
pub open spec fn spec_color_byte(color: u32, channel: int) -> u8 {
    if channel == 0 {
        ((color >> 16) & 0xff) as u8
    } else if channel == 1 {
        ((color >> 8) & 0xff) as u8
    } else if channel == 2 {
        (color & 0xff) as u8
    } else {
        255
    }
}

/// The color a command paints with; the reserved copy paints nothing.
pub open spec fn spec_event_color(e: DisplayEvent) -> u32 {
    match e {
        DisplayEvent::Rectangle { color, .. } => color,
        DisplayEvent::Copy { .. } => 0,
        DisplayEvent::Floodfill { color } => color,
        DisplayEvent::Matrix { color, .. } => color,
    }
}

/// Whether a command paints the pixel at the given coordinates.
pub open spec fn spec_covers(e: DisplayEvent, px: int, py: int) -> bool {
    match e {
        DisplayEvent::Rectangle { target_x, target_y, size_x, size_y, .. } => {
            &&& target_x <= px < target_x + size_x
            &&& target_y <= py < target_y + size_y
        },
        DisplayEvent::Copy { .. } => false,
        DisplayEvent::Floodfill { .. } => true,
        DisplayEvent::Matrix { matrix, target_x, target_y, .. } => {
            &&& target_x <= px < target_x + 8
            &&& target_y <= py < target_y + 8
            &&& (matrix >> (((py - target_y) * 8 + (px - target_x)) as u64)) & 1 == 1
        },
    }
}

/// Whether a command stays on the surface; out-of-range commands are skipped
/// rather than drawn.
pub open spec fn spec_event_fits(e: DisplayEvent) -> bool {
    match e {
        DisplayEvent::Rectangle { target_x, target_y, size_x, size_y, .. } => {
            target_x + size_x <= 640 && target_y + size_y <= 480
        },
        DisplayEvent::Copy { .. } => true,
        DisplayEvent::Floodfill { .. } => true,
        DisplayEvent::Matrix { target_x, target_y, .. } => {
            target_x + 8 <= 640 && target_y + 8 <= 480
        },
    }
}

/// The buffer after one command: every covered pixel takes the command's
/// color, every other byte is unchanged.
pub open spec fn spec_draw(frame: Seq<u8>, e: DisplayEvent) -> Seq<u8> {
    Seq::new(
        frame.len(),
        |i: int|
            {
                let px = (i / 4) % 640;
                let py = (i / 4) / 640;
                if spec_covers(e, px, py) {
                    spec_color_byte(spec_event_color(e), i % 4)
                } else {
                    frame[i]
                }
            },
    )
}

/// Every byte offset of the buffer decomposes uniquely into a pixel
/// coordinate and a channel.
proof fn lemma_coords(i: int)
    by (nonlinear_arith)
    requires
        0 <= i < 1228800,
    ensures
        0 <= (i / 4) % 640 < 640,
        0 <= (i / 4) / 640 < 480,
        i == (((i / 4) / 640) * 640 + ((i / 4) % 640)) * 4 + (i % 4),
        0 <= i % 4 < 4,
{
}

/// Whether a command stays on the surface.
pub fn event_fits(e: DisplayEvent) -> (b: bool)
    ensures
        b == spec_event_fits(e),
{
    match e {
        DisplayEvent::Rectangle { target_x, target_y, size_x, size_y, .. } => {
            target_x as usize + size_x as usize <= 640 && target_y as usize + size_y as usize
                <= 480
        },
        DisplayEvent::Copy { .. } => true,
        DisplayEvent::Floodfill { .. } => true,
        DisplayEvent::Matrix { target_x, target_y, .. } => {
            target_x as usize + 8 <= 640 && target_y as usize + 8 <= 480
        },
    }
}

/// The byte offset of a pixel in the buffer.
pub fn pixel(x: u16, y: u16) -> (idx: usize)
    requires
        x < 640,
        y < 480,
    ensures
        idx == spec_pixel_index(x as int, y as int),
        idx + 4 <= FRAME_BYTES,
{
    (y as usize * 640 + x as usize) * 4
}

/// Write one pixel's four bytes: red, green, blue from the packed color,
/// then full alpha.
pub fn set_color(frame: &mut Vec<u8>, idx: usize, color: u32)
    requires
        idx + 4 <= old(frame)@.len(),
    ensures
        final(frame)@.len() == old(frame)@.len(),
        forall|i: int| idx <= i < idx + 4 ==> final(frame)@[i] == spec_color_byte(color, i - idx),
        forall|i: int|
            0 <= i < old(frame)@.len() && !(idx <= i < idx + 4) ==> final(frame)@[i] == old(
                frame,
            )@[i],
{
    let n = frame.len();
    proof {
        assert(idx + 4 <= n);
    }
    frame[idx] = ((color >> 16) & 0xff) as u8;
    frame[idx + 1] = ((color >> 8) & 0xff) as u8;
    frame[idx + 2] = (color & 0xff) as u8;
    frame[idx + 3] = 255;
}

/// The buffer while a rectangle is being filled: the first `row` rows of the
/// rectangle are painted, and in row `row` the first `col` columns.
spec fn spec_rect_partial(
    frame: Seq<u8>,
    tx: int,
    ty: int,
    sx: int,
    sy: int,
    color: u32,
    row: int,
    col: int,
) -> Seq<u8> {
    Seq::new(
        frame.len(),
        |i: int|
            {
                let px = (i / 4) % 640;
                let py = (i / 4) / 640;
                if tx <= px < tx + sx && ty <= py < ty + sy && (py - ty < row || (py - ty == row
                    && px - tx < col)) {
                    spec_color_byte(color, i % 4)
                } else {
                    frame[i]
                }
            },
    )
}

/// The buffer while an 8 by 8 blit is being painted, in the same reading
/// order as the rectangle.
spec fn spec_matrix_partial(
    frame: Seq<u8>,
    m: u64,
    tx: int,
    ty: int,
    color: u32,
    row: int,
    col: int,
) -> Seq<u8> {
    Seq::new(
        frame.len(),
        |i: int|
            {
                let px = (i / 4) % 640;
                let py = (i / 4) / 640;
                if tx <= px < tx + 8 && ty <= py < ty + 8 && (m >> (((py - ty) * 8 + (px - tx))
                    as u64)) & 1 == 1 && (py - ty < row || (py - ty == row && px - tx < col)) {
                    spec_color_byte(color, i % 4)
                } else {
                    frame[i]
                }
            },
    )
}

/// The buffer while a flood fill is painting: the first `p` pixels are done.
spec fn spec_flood_partial(frame: Seq<u8>, color: u32, p: int) -> Seq<u8> {
    Seq::new(
        frame.len(),
        |i: int|
            if i / 4 < p {
                spec_color_byte(color, i % 4)
            } else {
                frame[i]
            },
    )
}

/// Draw one command onto the pixel buffer: every covered pixel takes the
/// command's color and every other byte stays. The reserved copy command
/// paints nothing.
pub fn draw_event(frame: &mut Vec<u8>, e: DisplayEvent)
    requires
        old(frame)@.len() == FRAME_BYTES,
        spec_event_fits(e),
    ensures
        final(frame)@.len() == FRAME_BYTES,
        final(frame)@ =~= spec_draw(old(frame)@, e),
{
    let ghost orig = frame@;
    match e {
        DisplayEvent::Rectangle { target_x, target_y, size_x, size_y, color } => {
            let ghost tx = target_x as int;
            let ghost ty = target_y as int;
            let ghost sx = size_x as int;
            let ghost sy = size_y as int;
            let mut yi: u16 = 0;
            proof {
                assert(frame@ =~= spec_rect_partial(orig, tx, ty, sx, sy, color, 0, 0));
            }
            while yi < size_y
                invariant
                    frame@.len() == FRAME_BYTES,
                    orig.len() == FRAME_BYTES,
                    yi <= size_y,
                    tx == target_x as int && ty == target_y as int && sx == size_x as int && sy
                        == size_y as int,
                    tx + sx <= 640 && ty + sy <= 480,
                    frame@ =~= spec_rect_partial(orig, tx, ty, sx, sy, color, yi as int, 0),
                decreases size_y as int - yi as int,
            {
                let mut xi: u16 = 0;
                while xi < size_x
                    invariant
                        frame@.len() == FRAME_BYTES,
                        orig.len() == FRAME_BYTES,
                        xi <= size_x,
                        yi < size_y,
                        tx == target_x as int && ty == target_y as int && sx == size_x as int && sy
                            == size_y as int,
                        tx + sx <= 640 && ty + sy <= 480,
                        frame@ =~= spec_rect_partial(
                            orig,
                            tx,
                            ty,
                            sx,
                            sy,
                            color,
                            yi as int,
                            xi as int,
                        ),
                    decreases size_x as int - xi as int,
                {
                    let ghost before = frame@;
                    let idx = pixel(target_x + xi, target_y + yi);
                    set_color(frame, idx, color);
                    proof {
                        let x = tx + xi as int;
                        let y = ty + yi as int;
                        assert forall|i: int| 0 <= i < FRAME_BYTES implies frame@[i]
                            == spec_rect_partial(
                            orig,
                            tx,
                            ty,
                            sx,
                            sy,
                            color,
                            yi as int,
                            xi as int + 1,
                        )[i] by {
                            lemma_coords(i);
                            let px = (i / 4) % 640;
                            let py = (i / 4) / 640;
                            if px == x && py == y {
                                assert(idx <= i < idx + 4);
                                assert(i - idx == i % 4);
                            } else {
                                assert(!(idx <= i < idx + 4));
                                assert(frame@[i] == before[i]);
                            }
                        }
                        assert(frame@ =~= spec_rect_partial(
                            orig,
                            tx,
                            ty,
                            sx,
                            sy,
                            color,
                            yi as int,
                            xi as int + 1,
                        ));
                    }
                    xi = xi + 1;
                }
                proof {
                    assert(frame@ =~= spec_rect_partial(
                        orig,
                        tx,
                        ty,
                        sx,
                        sy,
                        color,
                        yi as int + 1,
                        0,
                    ));
                }
                yi = yi + 1;
            }
            proof {
                assert(frame@ =~= spec_draw(orig, e));
            }
        },
        DisplayEvent::Copy { .. } => {
            proof {
                assert(frame@ =~= spec_draw(orig, e));
            }
        },
        DisplayEvent::Floodfill { color } => {
            let mut p: usize = 0;
            proof {
                assert(frame@ =~= spec_flood_partial(orig, color, 0));
            }
            while p < 640 * 480
                invariant
                    frame@.len() == FRAME_BYTES,
                    orig.len() == FRAME_BYTES,
                    p <= 640 * 480,
                    frame@ =~= spec_flood_partial(orig, color, p as int),
                decreases 640 * 480 - p as int,
            {
                let ghost before = frame@;
                let idx = p * 4;
                set_color(frame, idx, color);
                proof {
                    assert forall|i: int| 0 <= i < FRAME_BYTES implies frame@[i]
                        == spec_flood_partial(orig, color, p as int + 1)[i] by {
                        lemma_coords(i);
                        if idx <= i < idx + 4 {
                            assert(i / 4 == p as int);
                            assert(i - idx == i % 4);
                        } else {
                            assert(i / 4 != p as int);
                            assert(frame@[i] == before[i]);
                        }
                    }
                    assert(frame@ =~= spec_flood_partial(orig, color, p as int + 1));
                }
                p = p + 1;
            }
            proof {
                assert forall|i: int| 0 <= i < FRAME_BYTES implies frame@[i] == spec_draw(
                    orig,
                    e,
                )[i] by {
                    lemma_coords(i);
                }
                assert(frame@ =~= spec_draw(orig, e));
            }
        },
        DisplayEvent::Matrix { matrix, target_x, target_y, color } => {
            let ghost tx = target_x as int;
            let ghost ty = target_y as int;
            let mut yi: u16 = 0;
            proof {
                assert(frame@ =~= spec_matrix_partial(orig, matrix, tx, ty, color, 0, 0));
            }
            while yi < 8
                invariant
                    frame@.len() == FRAME_BYTES,
                    orig.len() == FRAME_BYTES,
                    yi <= 8,
                    tx == target_x as int && ty == target_y as int,
                    tx + 8 <= 640 && ty + 8 <= 480,
                    frame@ =~= spec_matrix_partial(orig, matrix, tx, ty, color, yi as int, 0),
                decreases 8 - yi as int,
            {
                let mut xi: u16 = 0;
                while xi < 8
                    invariant
                        frame@.len() == FRAME_BYTES,
                        orig.len() == FRAME_BYTES,
                        xi <= 8,
                        yi < 8,
                        tx == target_x as int && ty == target_y as int,
                        tx + 8 <= 640 && ty + 8 <= 480,
                        frame@ =~= spec_matrix_partial(
                            orig,
                            matrix,
                            tx,
                            ty,
                            color,
                            yi as int,
                            xi as int,
                        ),
                    decreases 8 - xi as int,
                {
                    let ghost before = frame@;
                    let sh: u32 = yi as u32 * 8 + xi as u32;
                    let bit_set = (matrix >> (sh as u64)) & 1 == 1;
                    if bit_set {
                        let idx = pixel(target_x + xi, target_y + yi);
                        set_color(frame, idx, color);
                        proof {
                            let x = tx + xi as int;
                            let y = ty + yi as int;
                            assert forall|i: int| 0 <= i < FRAME_BYTES implies frame@[i]
                                == spec_matrix_partial(
                                orig,
                                matrix,
                                tx,
                                ty,
                                color,
                                yi as int,
                                xi as int + 1,
                            )[i] by {
                                lemma_coords(i);
                                let px = (i / 4) % 640;
                                let py = (i / 4) / 640;
                                if px == x && py == y {
                                    assert(idx <= i < idx + 4);
                                    assert(i - idx == i % 4);
                                    assert(((py - ty) * 8 + (px - tx)) as u64 == sh as u64);
                                } else {
                                    assert(!(idx <= i < idx + 4));
                                    assert(frame@[i] == before[i]);
                                }
                            }
                            assert(frame@ =~= spec_matrix_partial(
                                orig,
                                matrix,
                                tx,
                                ty,
                                color,
                                yi as int,
                                xi as int + 1,
                            ));
                        }
                    } else {
                        proof {
                            assert forall|i: int| 0 <= i < FRAME_BYTES implies frame@[i]
                                == spec_matrix_partial(
                                orig,
                                matrix,
                                tx,
                                ty,
                                color,
                                yi as int,
                                xi as int + 1,
                            )[i] by {
                                lemma_coords(i);
                                let px = (i / 4) % 640;
                                let py = (i / 4) / 640;
                                if px == tx + xi as int && py == ty + yi as int {
                                    assert(((py - ty) * 8 + (px - tx)) as u64 == sh as u64);
                                }
                            }
                            assert(frame@ =~= spec_matrix_partial(
                                orig,
                                matrix,
                                tx,
                                ty,
                                color,
                                yi as int,
                                xi as int + 1,
                            ));
                        }
                    }
                    xi = xi + 1;
                }
                proof {
                    assert(frame@ =~= spec_matrix_partial(
                        orig,
                        matrix,
                        tx,
                        ty,
                        color,
                        yi as int + 1,
                        0,
                    ));
                }
                yi = yi + 1;
            }
            proof {
                assert(frame@ =~= spec_draw(orig, e));
            }
        },
    }
}

/// Drain queued drawing commands onto the pixel buffer, oldest first. A
/// command that would reach outside the surface is skipped rather than
/// drawn.
pub fn update_frame(frame: &mut Vec<u8>, recv: &Receiver<DisplayEvent>)
    requires
        old(frame)@.len() == FRAME_BYTES,
    ensures
        final(frame)@.len() == FRAME_BYTES,
{
    let mut budget: usize = FRAME_DRAIN_LIMIT;
    while budget > 0
        invariant
            frame@.len() == FRAME_BYTES,
        decreases budget,
    {
        budget = budget - 1;
        match channel_try_recv(recv) {
            Option::None => {
                break ;
            },
            Option::Some(e) => {
                if event_fits(e) {
                    draw_event(frame, e);
                }
            },
        }
    }
}

} // verus!
