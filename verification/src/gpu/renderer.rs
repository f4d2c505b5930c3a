use vstd::prelude::*;

verus! {

pub const CANVAS_WIDTH: usize = 640;
pub const CANVAS_HEIGHT: usize = 480;

/// A 24-bit color: red in bits 16-23, green in bits 8-15, blue in bits 0-7.
#[derive(Clone, Copy, Debug, PartialEq, Eq, Structural)]
pub struct Color(pub u32);

impl Color {
    pub open spec fn red(self) -> u8 {
        ((self.0 >> 16) & 0xFF) as u8
    }

    pub open spec fn green(self) -> u8 {
        ((self.0 >> 8) & 0xFF) as u8
    }

    pub open spec fn blue(self) -> u8 {
        (self.0 & 0xFF) as u8
    }

    pub fn new(raw: u32) -> (c: Self)
        ensures
            c.0 == raw,
    {
        Color(raw)
    }

    /// The three bytes written for a pixel: red, then blue, then green.
    pub fn to_le_bytes(&self) -> (r: [u8; 3])
        ensures
            r@ == seq![self.red(), self.blue(), self.green()],
    {
        let r = [((self.0 >> 16) & 0xFF) as u8, (self.0 & 0xFF) as u8, ((self.0 >> 8) & 0xFF) as u8];
        assert(r@ =~= seq![self.red(), self.blue(), self.green()]);
        r
    }
}

/// A frame of 640 x 480 pixels, three bytes each.
pub struct Renderer {
    pub pixel_buffer: Vec<u8>,
}

impl Renderer {
    /// A canvas filled with the byte 33h.
    pub fn new() -> (r: Self)
        ensures
            r.pixel_buffer@.len() == CANVAS_HEIGHT * CANVAS_WIDTH * 3,
            forall|i: int| 0 <= i < r.pixel_buffer@.len() ==> r.pixel_buffer@[i] == 0x33,
    {
        Renderer { pixel_buffer: vec![0x33u8; CANVAS_HEIGHT * CANVAS_WIDTH * 3] }
    }

    /// Writes a pixel's three bytes at offset `y * 640 + x` of the buffer.
    pub fn put_pixel(&mut self, x: usize, y: usize, color: Color)
        requires
            y * CANVAS_WIDTH + x + 3 <= old(self).pixel_buffer.len(),
        ensures
            ({
                let i = y * CANVAS_WIDTH + x;
                final(self).pixel_buffer@ == old(self).pixel_buffer@.update(i, color.red()).update(
                    i + 1,
                    color.blue(),
                ).update(i + 2, color.green())
            }),
    {
        let i = y * CANVAS_WIDTH + x;
        let bytes = color.to_le_bytes();
        self.pixel_buffer.set(i, bytes[0]);
        self.pixel_buffer.set(i + 1, bytes[1]);
        self.pixel_buffer.set(i + 2, bytes[2]);
    }
}

impl Default for Renderer {
    fn default() -> (r: Self)
        ensures
            r.pixel_buffer@.len() == CANVAS_HEIGHT * CANVAS_WIDTH * 3,
            forall|i: int| 0 <= i < r.pixel_buffer@.len() ==> r.pixel_buffer@[i] == 0x33,
    {
        Renderer::new()
    }
}

} // verus!
