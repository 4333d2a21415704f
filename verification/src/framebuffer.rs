//! The simple framebuffer driver: draws into the linear framebuffer that the kernel hands
//! out as a system object. Pixels are 32-bit words; row `y` of the framebuffer starts
//! `y * stride` pixels after its first pixel.

use vstd::prelude::*;

verus! {

/// What the kernel writes back to user space about the backup framebuffer.
pub struct FramebufferSystemObjectInfo {
    /// The address of the start of the framebuffer.
    pub address: usize,
    pub width: u16,
    pub height: u16,
    pub stride: u16,
    /// `0` is RGB32, `1` is BGR32.
    pub pixel_format: u8,
}

/// A linear framebuffer of `width` by `height` pixels, whose rows lie `stride` pixels apart
/// in the memory that starts at `address`.
pub struct Framebuffer {
    pub address: usize,
    pub width: usize,
    pub height: usize,
    pub stride: usize,
}

/// The capabilities descriptor that a driver image carries: a note whose description lists
/// the capabilities the task asks for. `N` must be a multiple of 4, and padded with zeros, so
/// the whole descriptor is aligned to a 4-byte boundary.
pub struct Capabilities<const N: usize> {
    name_size: u32,
    desc_size: u32,
    entry_type: u32,
    name: [u8; 8],
    desc: [u8; N],
}

/// Whether the pixel offset `offset` lies in row `y` between the columns `start_x`
/// (included) and `end_x` (excluded).
pub open spec fn row_contains(stride: int, y: int, start_x: int, end_x: int, offset: int) -> bool {
    y * stride + start_x <= offset < y * stride + end_x
}

/// Whether the pixel offset `offset` lies in the rectangle of the columns
/// `start_x..start_x + width` and the rows `start_y..end_y`.
pub open spec fn rect_contains(
    stride: int,
    start_x: int,
    width: int,
    start_y: int,
    end_y: int,
    offset: int,
) -> bool {
    exists|y: int|
        start_y <= y < end_y && #[trigger] row_contains(stride, y, start_x, start_x + width, offset)
}

/// The memory after a rectangle of pixels was painted in `color`: each pixel offset in the
/// rectangle holds `color`, every other word what it held before.
pub open spec fn painted(
    before: Seq<u32>,
    stride: int,
    start_x: int,
    width: int,
    start_y: int,
    end_y: int,
    color: u32,
) -> Seq<u32> {
    Seq::new(
        before.len(),
        |i: int|
            if rect_contains(stride, start_x, width, start_y, end_y, i) {
                color
            } else {
                before[i]
            },
    )
}

/// The rows `start_y..end_y + 1` are the rows `start_y..end_y` and row `end_y`.
proof fn lemma_rect_add_row(stride: int, start_x: int, width: int, start_y: int, end_y: int, offset: int)
    requires
        start_y <= end_y,
    ensures
        rect_contains(stride, start_x, width, start_y, end_y + 1, offset) == (rect_contains(
            stride,
            start_x,
            width,
            start_y,
            end_y,
            offset,
        ) || row_contains(stride, end_y, start_x, start_x + width, offset)),
{
    if rect_contains(stride, start_x, width, start_y, end_y + 1, offset) {
        let y = choose|y: int|
            start_y <= y < end_y + 1 && #[trigger] row_contains(
                stride,
                y,
                start_x,
                start_x + width,
                offset,
            );
        if y < end_y {
            assert(start_y <= y < end_y && row_contains(stride, y, start_x, start_x + width, offset));
        }
    }
    if rect_contains(stride, start_x, width, start_y, end_y, offset) {
        let y = choose|y: int|
            start_y <= y < end_y && #[trigger] row_contains(stride, y, start_x, start_x + width, offset);
        assert(start_y <= y < end_y + 1 && row_contains(stride, y, start_x, start_x + width, offset));
    }
    if row_contains(stride, end_y, start_x, start_x + width, offset) {
        assert(start_y <= end_y < end_y + 1 && row_contains(
            stride,
            end_y,
            start_x,
            start_x + width,
            offset,
        ));
    }
}

impl Framebuffer {
    /// The number of pixel words from the first pixel up to and including the last one.
    pub open spec fn extent(&self) -> int {
        if self.height == 0 {
            0
        } else {
            (self.height - 1) * self.stride + self.width
        }
    }

    /// The framebuffer that the kernel described. Only the BGR32 pixel format (`1`) is
    /// supported; the driver panics on any other, which the `requires` keeps out.
    pub fn new(info: FramebufferSystemObjectInfo) -> (framebuffer: Framebuffer)
        requires
            info.pixel_format == 1,
        ensures
            framebuffer.address == info.address,
            framebuffer.width == info.width,
            framebuffer.height == info.height,
            framebuffer.stride == info.stride,
    {
        Framebuffer {
            address: info.address,
            width: info.width as usize,
            height: info.height as usize,
            stride: info.stride as usize,
        }
    }

    /// The number of pixel words that the framebuffer's memory spans.
    pub fn span(&self) -> (words: usize)
        requires
            self.extent() <= usize::MAX,
        ensures
            words == self.extent(),
    {
        if self.height == 0 {
            0
        } else {
            assert((self.height - 1) * self.stride <= self.extent()) by (nonlinear_arith)
                requires
                    self.height > 0,
                    self.extent() == (self.height - 1) * self.stride + self.width,
            ;
            (self.height - 1) * self.stride + self.width
        }
    }

    /// Paints the rectangle of `width` by `height` pixels whose top-left corner is
    /// (`start_x`, `start_y`) in `color`, in `memory`, the framebuffer's memory. The driver
    /// panics on a rectangle that does not fit in the framebuffer, which the `requires`
    /// keeps out.
    pub fn draw_rect(
        &self,
        memory: &mut [u32],
        start_x: usize,
        start_y: usize,
        width: usize,
        height: usize,
        color: u32,
    )
        requires
            start_x + width <= self.width,
            start_y + height <= self.height,
            old(memory)@.len() >= self.extent(),
        ensures
            final(memory)@ == painted(
                old(memory)@,
                self.stride as int,
                start_x as int,
                width as int,
                start_y as int,
                start_y + height,
                color,
            ),
    {
        let ghost before = memory@;
        let words = memory.len();
        let ghost stride = self.stride as int;
        let end_y = start_y + height;
        let end_x = start_x + width;
        let mut y = start_y;
        while y < end_y
            invariant
                start_y <= y <= end_y,
                end_y == start_y + height,
                end_x == start_x + width,
                end_x <= self.width,
                end_y <= self.height,
                stride == self.stride,
                memory@.len() == before.len(),
                before.len() == words,
                before.len() >= self.extent(),
                forall|i: int|
                    0 <= i < before.len() ==> memory@[i] == if rect_contains(
                        stride,
                        start_x as int,
                        width as int,
                        start_y as int,
                        y as int,
                        i,
                    ) {
                        color
                    } else {
                        before[i]
                    },
            decreases end_y - y,
        {
            let mut x = start_x;
            while x < end_x
                invariant
                    start_y <= y < end_y,
                    start_x <= x <= end_x,
                    end_y == start_y + height,
                    end_x == start_x + width,
                    end_x <= self.width,
                    end_y <= self.height,
                    stride == self.stride,
                    memory@.len() == before.len(),
                    before.len() == words,
                    before.len() >= self.extent(),
                    forall|i: int|
                        0 <= i < before.len() ==> memory@[i] == if rect_contains(
                            stride,
                            start_x as int,
                            width as int,
                            start_y as int,
                            y as int,
                            i,
                        ) || row_contains(stride, y as int, start_x as int, x as int, i) {
                            color
                        } else {
                            before[i]
                        },
                decreases end_x - x,
            {
                assert(y * stride + x < self.extent()) by (nonlinear_arith)
                    requires
                        y < self.height,
                        x < self.width,
                        0 <= stride,
                        self.extent() == (self.height - 1) * stride + self.width,
                ;
                let offset = y * self.stride + x;
                memory[offset] = color;
                x = x + 1;
            }
            proof {
                assert forall|i: int| 0 <= i < before.len() implies memory@[i] == if rect_contains(
                    stride,
                    start_x as int,
                    width as int,
                    start_y as int,
                    y + 1,
                    i,
                ) {
                    color
                } else {
                    before[i]
                } by {
                    lemma_rect_add_row(stride, start_x as int, width as int, start_y as int, y as int, i);
                }
            }
            y = y + 1;
        }
        assert(memory@ =~= painted(
            before,
            stride,
            start_x as int,
            width as int,
            start_y as int,
            start_y + height,
            color,
        ));
    }

    /// Paints the whole framebuffer in `color`.
    pub fn clear(&self, memory: &mut [u32], color: u32)
        requires
            old(memory)@.len() >= self.extent(),
        ensures
            final(memory)@ == painted(
                old(memory)@,
                self.stride as int,
                0,
                self.width as int,
                0,
                self.height as int,
                color,
            ),
    {
        self.draw_rect(memory, 0, 0, self.width, self.height, color);
    }
}

/// Painting a rectangle puts `color` at the pixel (`x`, `y`), offset `y * stride + x`, of
/// every column `start_x <= x < start_x + width` and row `start_y <= y < end_y`.
pub proof fn lemma_painted_pixel(
    before: Seq<u32>,
    stride: int,
    start_x: int,
    width: int,
    start_y: int,
    end_y: int,
    color: u32,
    x: int,
    y: int,
)
    requires
        start_x <= x < start_x + width,
        start_y <= y < end_y,
        0 <= y * stride + x < before.len(),
    ensures
        painted(before, stride, start_x, width, start_y, end_y, color).len() == before.len(),
        painted(before, stride, start_x, width, start_y, end_y, color)[y * stride + x] == color,
{
    assert(start_y <= y < end_y && row_contains(stride, y, start_x, start_x + width, y * stride + x));
}

/// Painting a rectangle whose columns lie within the rows (`0 <= start_x`,
/// `start_x + width <= stride`) keeps every word whose pixel, row `i / stride` and column
/// `i % stride`, is outside the rectangle.
pub proof fn lemma_painted_keeps_other_words(
    before: Seq<u32>,
    stride: int,
    start_x: int,
    width: int,
    start_y: int,
    end_y: int,
    color: u32,
    i: int,
)
    requires
        0 <= start_x,
        0 <= width,
        start_x + width <= stride,
        0 <= i < before.len(),
        !(start_y <= i / stride < end_y && start_x <= i % stride < start_x + width),
    ensures
        painted(before, stride, start_x, width, start_y, end_y, color)[i] == before[i],
{
    if rect_contains(stride, start_x, width, start_y, end_y, i) {
        let row = choose|row: int|
            start_y <= row < end_y && #[trigger] row_contains(stride, row, start_x, start_x + width, i);
        let q = i / stride;
        let r = i % stride;
        assert(i == q * stride + r && 0 <= r < stride) by {
            vstd::arithmetic::div_mod::lemma_fundamental_div_mod(i, stride);
        }
        assert(row == q && start_x <= r < start_x + width) by (nonlinear_arith)
            requires
                row * stride + start_x <= i,
                i < row * stride + start_x + width,
                i == q * stride + r,
                0 <= r < stride,
                0 <= start_x,
                start_x + width <= stride,
        ;
    }
}

/// Every pixel of a rectangle is painted: the offset of the pixel (`x`, `y`) inside the
/// rectangle lies in it.
pub proof fn lemma_rect_paints_its_pixels(
    stride: int,
    start_x: int,
    width: int,
    start_y: int,
    height: int,
    x: int,
    y: int,
)
    requires
        start_x <= x < start_x + width,
        start_y <= y < start_y + height,
    ensures
        rect_contains(stride, start_x, width, start_y, start_y + height, y * stride + x),
{
    assert(start_y <= y < start_y + height && row_contains(
        stride,
        y,
        start_x,
        start_x + width,
        y * stride + x,
    ));
}

/// Painting a rectangle leaves every other pixel alone: where the rectangle lies within the
/// rows (`start_x + width <= stride`), the offset of a pixel (`x`, `y`) of a row outside the
/// rectangle does not lie in it.
pub proof fn lemma_rect_spares_other_pixels(
    stride: int,
    start_x: int,
    width: int,
    start_y: int,
    height: int,
    x: int,
    y: int,
)
    requires
        0 <= start_x,
        0 <= width,
        start_x + width <= stride,
        0 <= x < stride,
        0 <= y,
        !(start_x <= x < start_x + width && start_y <= y < start_y + height),
    ensures
        !rect_contains(stride, start_x, width, start_y, start_y + height, y * stride + x),
{
    if rect_contains(stride, start_x, width, start_y, start_y + height, y * stride + x) {
        let row = choose|row: int|
            start_y <= row < start_y + height && #[trigger] row_contains(
                stride,
                row,
                start_x,
                start_x + width,
                y * stride + x,
            );
        assert(row == y) by (nonlinear_arith)
            requires
                row * stride + start_x <= y * stride + x,
                y * stride + x < row * stride + start_x + width,
                0 <= start_x,
                start_x + width <= stride,
                0 <= x < stride,
        ;
    }
}

/// Painting a rectangle twice in one color leaves what painting it once leaves.
pub proof fn lemma_paint_idempotent(
    before: Seq<u32>,
    stride: int,
    start_x: int,
    width: int,
    start_y: int,
    end_y: int,
    color: u32,
)
    ensures
        painted(painted(before, stride, start_x, width, start_y, end_y, color), stride, start_x, width, start_y, end_y, color)
            == painted(before, stride, start_x, width, start_y, end_y, color),
{
    assert(painted(painted(before, stride, start_x, width, start_y, end_y, color), stride, start_x, width, start_y, end_y, color)
        =~= painted(before, stride, start_x, width, start_y, end_y, color));
}

/// Clearing paints every visible pixel: after `clear`, the pixel (`x`, `y`) of a
/// framebuffer holds the color, for every `x < width` and `y < height`.
pub proof fn lemma_clear_paints_every_pixel(
    framebuffer: Framebuffer,
    before: Seq<u32>,
    color: u32,
    x: int,
    y: int,
)
    requires
        before.len() >= framebuffer.extent(),
        0 <= x < framebuffer.width,
        0 <= y < framebuffer.height,
    ensures
        0 <= y * framebuffer.stride + x < before.len(),
        painted(
            before,
            framebuffer.stride as int,
            0,
            framebuffer.width as int,
            0,
            framebuffer.height as int,
            color,
        )[y * framebuffer.stride + x] == color,
{
    let stride = framebuffer.stride as int;
    assert(0 <= y * stride + x < framebuffer.extent()) by (nonlinear_arith)
        requires
            0 <= y < framebuffer.height,
            0 <= x < framebuffer.width,
            0 <= stride,
            framebuffer.extent() == (framebuffer.height - 1) * stride + framebuffer.width,
    ;
    lemma_rect_paints_its_pixels(stride, 0, framebuffer.width as int, 0, framebuffer.height as int, x, y);
}

} // verus!
