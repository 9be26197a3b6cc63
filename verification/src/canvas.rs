//! In-memory model of the physical display surface: dimensions, the pixel
//! buffer, and three independently dirty-tracked display attributes.
//!
//! The canvas owns its byte buffer and exposes only bounds-checked drawing
//! operations. While the power-saving layout is active, only half the
//! physical width is treated as the active logical drawing area; batch
//! drawing shifts coordinates by half the physical width and silently
//! drops every pixel whose transformed coordinate falls outside the
//! logical bounding box.

use vstd::prelude::*;

verus! {

/// Luma written by a clear to the "off" color.
pub const COLOR_OFF: u8 = 0;

/// One pixel of a drawing batch: a coordinate and a single-channel luma.
#[derive(Clone, Copy, Debug, PartialEq, Eq, Structural)]
pub struct CanvasPixel {
    pub x: i32,
    pub y: i32,
    pub luma: u8,
}

/// The display surface model.
pub struct Canvas {
    pub height: u16,
    pub width: u16,
    pub constant_power: bool,
    pub buffer: Vec<u8>,
    pub buffer_dirty: bool,
    pub brightness: u8,
    pub brightness_dirty: bool,
    pub powered: bool,
    pub powered_dirty: bool,
}

/// The attributes a drawing operation never changes.
pub open spec fn same_display_attrs(a: Canvas, b: Canvas) -> bool {
    &&& a.height == b.height
    &&& a.width == b.width
    &&& a.constant_power == b.constant_power
    &&& a.brightness == b.brightness
    &&& a.brightness_dirty == b.brightness_dirty
    &&& a.powered == b.powered
    &&& a.powered_dirty == b.powered_dirty
}

impl Canvas {
    /// The buffer always covers the full physical pixel region.
    pub open spec fn wf(&self) -> bool {
        self.buffer@.len() >= self.height * self.width
    }

    /// Width of the active logical drawing area: half the physical width
    /// while the power-saving layout is active.
    pub open spec fn spec_logical_width(&self) -> int {
        if self.constant_power {
            self.width as int / 2
        } else {
            self.width as int
        }
    }

    /// Horizontal shift applied to batch coordinates while the
    /// power-saving layout is active.
    pub open spec fn spec_offset_x(&self) -> int {
        if self.constant_power {
            self.width as int / 2
        } else {
            0
        }
    }

    /// Linear buffer index a pixel lands on, or `None` when its
    /// transformed coordinate leaves the logical bounding box.
    pub open spec fn target_index(&self, p: CanvasPixel) -> Option<int> {
        let tx = p.x + self.spec_offset_x();
        let ty = p.y as int;
        if 0 <= tx && tx < self.spec_logical_width() && 0 <= ty && ty < self.height as int {
            Some(ty * self.spec_logical_width() + tx)
        } else {
            None
        }
    }

    /// Buffer contents after drawing one pixel.
    pub open spec fn apply_pixel(&self, buf: Seq<u8>, p: CanvasPixel) -> Seq<u8> {
        match self.target_index(p) {
            Some(i) => if i < buf.len() {
                buf.update(i, p.luma)
            } else {
                buf
            },
            None => buf,
        }
    }

    /// Buffer contents after drawing a whole batch, in order.
    pub open spec fn draw_seq(&self, buf: Seq<u8>, ps: Seq<CanvasPixel>) -> Seq<u8>
        decreases ps.len(),
    {
        if ps.len() == 0 {
            buf
        } else {
            self.apply_pixel(self.draw_seq(buf, ps.drop_last()), ps.last())
        }
    }

    /// Buffer contents after a full clear: the physical pixel region is
    /// set to `color`; bytes beyond it are untouched.
    pub open spec fn cleared_buf(&self, old_buf: Seq<u8>, color: u8) -> Seq<u8> {
        Seq::new(
            old_buf.len(),
            |i: int| if i < self.height * self.width { color } else { old_buf[i] },
        )
    }

    /// Canvas transition of a brightness write: a no-op unless the value
    /// changes, in which case the brightness dirty flag is set.
    pub open spec fn spec_set_brightness(c: Canvas, v: u8) -> Canvas {
        if c.brightness == v {
            c
        } else {
            Canvas { brightness: v, brightness_dirty: true, ..c }
        }
    }

    /// Canvas transition of a power-state write.
    pub open spec fn spec_set_powered(c: Canvas, on: bool) -> Canvas {
        if c.powered == on {
            c
        } else {
            Canvas { powered: on, powered_dirty: true, ..c }
        }
    }

    /// Canvas transition of a power-saving-layout write; a change
    /// invalidates the buffer, not a separate attribute flag.
    pub open spec fn spec_set_constant_power(c: Canvas, on: bool) -> Canvas {
        if c.constant_power == on {
            c
        } else {
            Canvas { constant_power: on, buffer_dirty: true, ..c }
        }
    }

    /// Everything [`Canvas::new`] promises of a canvas built with the
    /// given dimensions over the given buffer: fresh attribute defaults
    /// and a pixel region cleared entirely to the "off" color.
    pub open spec fn canvas_new_post(r: Canvas, height: int, width: int, buf: Seq<u8>) -> bool {
        &&& r.wf()
        &&& r.height == height
        &&& r.width == width
        &&& r.constant_power == false
        &&& r.brightness == 100u8
        &&& r.brightness_dirty == true
        &&& r.powered == true
        &&& r.powered_dirty == true
        &&& r.buffer_dirty == true
        &&& r.buffer@.len() == buf.len()
        &&& forall|i: int| 0 <= i < height * width ==> r.buffer@[i] == COLOR_OFF
        &&& forall|i: int| height * width <= i < buf.len() ==> r.buffer@[i] == buf[i]
    }

    /// Builds the canvas over a hardware-provided buffer and clears it to
    /// the "off" color.
    pub fn new(height: usize, width: usize, buffer: Vec<u8>) -> (r: Canvas)
        requires
            height <= u16::MAX,
            width <= u16::MAX,
            buffer@.len() >= height * width,
        ensures
            Canvas::canvas_new_post(r, height as int, width as int, buffer@),
    {
        let mut out = Canvas {
            height: height as u16,
            width: width as u16,
            constant_power: false,
            buffer,
            buffer_dirty: false,
            brightness: 100,
            brightness_dirty: true,
            powered: true,
            powered_dirty: true,
        };
        out.clear(COLOR_OFF);
        out
    }

    /// Logical size `(width, height)` of the active drawing area.
    pub fn size(&self) -> (r: (u16, u16))
        ensures
            r.0 == self.spec_logical_width(),
            r.1 == self.height,
    {
        if self.constant_power {
            (self.width / 2, self.height)
        } else {
            (self.width, self.height)
        }
    }

    /// Coordinate shift `(x, y)` applied while the power-saving layout is
    /// active.
    pub fn constant_power_offset(&self) -> (r: (u16, u16))
        ensures
            r.0 == self.spec_offset_x(),
            r.1 == 0,
    {
        if self.constant_power {
            (self.width / 2, 0)
        } else {
            (0, 0)
        }
    }

    /// Sets the backlight brightness; a redundant write does not mark the
    /// attribute dirty.
    pub fn set_brightness(&mut self, brightness: u8)
        ensures
            *final(self) == Canvas::spec_set_brightness(*old(self), brightness),
    {
        if self.brightness != brightness {
            self.brightness = brightness;
            self.brightness_dirty = true;
        }
    }

    /// Sets the panel power state; a redundant write does not mark the
    /// attribute dirty.
    pub fn set_powered(&mut self, powered: bool)
        ensures
            *final(self) == Canvas::spec_set_powered(*old(self), powered),
    {
        if self.powered != powered {
            self.powered = powered;
            self.powered_dirty = true;
        }
    }

    /// Switches the power-saving layout; a change invalidates the buffer.
    pub fn set_constant_power(&mut self, constant_power: bool)
        ensures
            *final(self) == Canvas::spec_set_constant_power(*old(self), constant_power),
    {
        if self.constant_power != constant_power {
            self.constant_power = constant_power;
            self.buffer_dirty = true;
        }
    }

    /// Fills the full physical pixel region with `color` and marks the
    /// buffer dirty.
    pub fn clear(&mut self, color: u8)
        requires
            old(self).wf(),
        ensures
            final(self).wf(),
            same_display_attrs(*final(self), *old(self)),
            final(self).buffer_dirty == true,
            final(self).buffer@ == old(self).cleared_buf(old(self).buffer@, color),
    {
        let ghost orig: Canvas = *self;
        proof {
            assert((self.height as int) * (self.width as int) <= 0xffff * 0xffff)
                by (nonlinear_arith)
                requires
                    0 <= (self.height as int),
                    (self.height as int) <= 0xffff,
                    0 <= (self.width as int),
                    (self.width as int) <= 0xffff,
            ;
        }
        let n: usize = (self.height as usize) * (self.width as usize);
        let mut i: usize = 0;
        while i < n
            invariant
                i <= n,
                n == orig.height * orig.width,
                same_display_attrs(*self, orig),
                self.buffer@.len() == orig.buffer@.len(),
                self.buffer_dirty == orig.buffer_dirty,
                orig.wf(),
                self.height == orig.height,
                self.width == orig.width,
                forall|j: int| 0 <= j < i ==> self.buffer@[j] == color,
                forall|j: int| i <= j < orig.buffer@.len() ==> self.buffer@[j] == orig.buffer@[j],
            decreases n - i,
        {
            self.buffer[i] = color;
            i += 1;
        }
        self.buffer_dirty = true;
        proof {
            assert(self.buffer@ =~= orig.cleared_buf(orig.buffer@, color));
        }
    }

    /// Draws a batch of pixels: each coordinate is shifted by the
    /// power-saving offset, pixels outside the logical bounding box are
    /// silently dropped, and the rest write their luma at
    /// `y * logical_width + x`. The buffer is marked dirty.
    pub fn draw_iter(&mut self, pixels: &Vec<CanvasPixel>)
        requires
            old(self).wf(),
        ensures
            final(self).wf(),
            same_display_attrs(*final(self), *old(self)),
            final(self).buffer_dirty == true,
            final(self).buffer@ == old(self).draw_seq(old(self).buffer@, pixels@),
    {
        let ghost orig: Canvas = *self;
        let w_l: u16 = if self.constant_power { self.width / 2 } else { self.width };
        let off_x: u16 = if self.constant_power { self.width / 2 } else { 0 };
        let mut k: usize = 0;
        while k < pixels.len()
            invariant
                k <= pixels@.len(),
                same_display_attrs(*self, orig),
                self.buffer@.len() == orig.buffer@.len(),
                orig.wf(),
                self.wf(),
                self.buffer_dirty == orig.buffer_dirty,
                w_l == orig.spec_logical_width(),
                off_x == orig.spec_offset_x(),
                self.buffer@ == orig.draw_seq(orig.buffer@, pixels@.take(k as int)),
            decreases pixels@.len() - k,
        {
            let p = pixels[k];
            let tx: i64 = p.x as i64 + off_x as i64;
            let ty: i64 = p.y as i64;
            if 0 <= tx && tx < w_l as i64 && 0 <= ty && ty < self.height as i64 {
                proof {
                    assert(0 <= (ty as int) * (w_l as int) && (ty as int) * (w_l as int) + (
                    tx as int) < (self.height as int) * (w_l as int)) by (nonlinear_arith)
                        requires
                            0 <= (tx as int),
                            (tx as int) < (w_l as int),
                            0 <= (ty as int),
                            (ty as int) < (self.height as int),
                    ;
                    assert((self.height as int) * (w_l as int) <= (self.height as int) * (
                    self.width as int)) by (nonlinear_arith)
                        requires
                            0 <= (w_l as int),
                            (w_l as int) <= (self.width as int),
                            0 <= (self.height as int),
                    ;
                    assert((self.height as int) * (self.width as int) <= 0xffff * 0xffff)
                        by (nonlinear_arith)
                        requires
                            0 <= (self.height as int),
                            (self.height as int) <= 0xffff,
                            0 <= (self.width as int),
                            (self.width as int) <= 0xffff,
                    ;
                }
                let idx: usize = (ty * (w_l as i64) + tx) as usize;
                self.buffer[idx] = p.luma;
            }
            proof {
                assert(pixels@.take(k as int + 1).drop_last() =~= pixels@.take(k as int));
                assert(pixels@.take(k as int + 1).last() == pixels@[k as int]);
            }
            k += 1;
        }
        self.buffer_dirty = true;
        proof {
            assert(pixels@.take(pixels@.len() as int) =~= pixels@);
        }
    }
}

/// Writing the same brightness twice marks the attribute dirty at most
/// once: the second write is a no-op on the whole canvas, the dirty flag
/// included.
pub proof fn lemma_set_brightness_idempotent(c: Canvas, v: u8)
    ensures
        Canvas::spec_set_brightness(Canvas::spec_set_brightness(c, v), v)
            == Canvas::spec_set_brightness(c, v),
{
}

/// Drawing depends only on the layout configuration — power-saving
/// mode, physical width and height — never on the canvas's own buffer
/// or attribute flags.
pub proof fn lemma_draw_seq_config(a: Canvas, b: Canvas, buf: Seq<u8>, ps: Seq<CanvasPixel>)
    requires
        a.constant_power == b.constant_power,
        a.width == b.width,
        a.height == b.height,
    ensures
        a.draw_seq(buf, ps) == b.draw_seq(buf, ps),
    decreases ps.len(),
{
    if ps.len() > 0 {
        lemma_draw_seq_config(a, b, buf, ps.drop_last());
        assert(a.target_index(ps.last()) == b.target_index(ps.last()));
    }
}

/// A pixel whose transformed coordinate leaves the logical bounding box
/// writes nothing: drawing a batch of just that pixel returns the buffer
/// unchanged.
pub proof fn lemma_dropped_pixel_leaves_buffer(c: Canvas, buf: Seq<u8>, p: CanvasPixel)
    requires
        c.target_index(p) is None,
    ensures
        c.draw_seq(buf, seq![p]) == buf,
{
    assert(seq![p].drop_last() =~= Seq::<CanvasPixel>::empty());
    assert(seq![p].last() == p);
    assert(c.draw_seq(buf, Seq::<CanvasPixel>::empty()) == buf);
    assert(c.draw_seq(buf, seq![p]) == c.apply_pixel(buf, p));
}

/// Positions that no pixel of the batch targets keep their old value; in
/// particular every dropped (out-of-box) pixel leaves the buffer
/// unchanged at all other positions.
pub proof fn lemma_untargeted_position_unchanged(
    c: Canvas,
    buf: Seq<u8>,
    ps: Seq<CanvasPixel>,
    j: int,
)
    requires
        0 <= j < buf.len(),
        forall|k: int| 0 <= k < ps.len() ==> c.target_index(ps[k]) != Some(j),
    ensures
        c.draw_seq(buf, ps).len() == buf.len(),
        c.draw_seq(buf, ps)[j] == buf[j],
    decreases ps.len(),
{
    if ps.len() > 0 {
        assert(forall|k: int|
            0 <= k < ps.drop_last().len() ==> ps.drop_last()[k] == ps[k]);
        lemma_untargeted_position_unchanged(c, buf, ps.drop_last(), j);
        assert(c.target_index(ps.last()) != Some(j));
    }
}

} // verus!
