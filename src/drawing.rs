use vstd::prelude::*;

verus! {

/// Byte `k` of `x` (`k` from 0 to 3), counting from the least significant.
pub open spec fn byte_of(x: u32, k: int) -> int {
    let d = if k == 0 {
        1
    } else if k == 1 {
        0x100
    } else if k == 2 {
        0x1_0000
    } else {
        0x100_0000
    };
    (x as int / d) % 0x100
}

/// The 32-bit number whose bytes, from the most significant down, are `b3 b2 b1 b0`.
pub open spec fn pack(b3: int, b2: int, b1: int, b0: int) -> int {
    0x100_0000 * b3 + 0x1_0000 * b2 + 0x100 * b1 + b0
}

proof fn lemma_bytes(x: u32)
    ensures
        byte_of(x, 0) == x % 0x100,
        byte_of(x, 1) == (x / 0x100) % 0x100,
        byte_of(x, 2) == (x / 0x1_0000) % 0x100,
        byte_of(x, 3) == (x / 0x100_0000) % 0x100,
        x / 0x100_0000 < 0x100,
        x as int == pack(byte_of(x, 3), byte_of(x, 2), byte_of(x, 1), byte_of(x, 0)),
{
    assert(x == 0x100_0000 * ((x / 0x100_0000) % 0x100) + 0x1_0000 * ((x / 0x1_0000) % 0x100) + 0x100
        * ((x / 0x100) % 0x100) + x % 0x100) by (bit_vector);
    assert(x / 0x100_0000 < 0x100) by (bit_vector);
}

/// A colour with 8-bit red, green, blue and alpha channels.
#[derive(Debug, Clone, Copy, PartialEq, Eq, Structural)]
pub struct Color {
    pub r: u8,
    pub g: u8,
    pub b: u8,
    pub a: u8,
}

impl Color {
    /// The colour with the given channels.
    pub fn rgba_const(r: u8, g: u8, b: u8, a: u8) -> (c: Color)
        ensures
            c == (Color { r, g, b, a }),
    {
        Color { r, g, b, a }
    }

    /// The opaque colour with the given channels.
    pub fn rgb_const(r: u8, g: u8, b: u8) -> (c: Color)
        ensures
            c == (Color { r, g, b, a: 0xff }),
    {
        Color::rgba_const(r, g, b, u8::MAX)
    }

    /// The colour with the given channels.
    pub fn rgba(r: u8, g: u8, b: u8, a: u8) -> (c: Color)
        ensures
            c == (Color { r, g, b, a }),
    {
        Color::rgba_const(r, g, b, a)
    }

    /// The opaque colour with the given channels.
    pub fn rgb(r: u8, g: u8, b: u8) -> (c: Color)
        ensures
            c == (Color { r, g, b, a: 0xff }),
    {
        Color::rgba(r, g, b, u8::MAX)
    }

    /// The same colour with alpha `a`.
    pub fn with_a(self, a: u8) -> (c: Color)
        ensures
            c == (Color { a, ..self }),
    {
        Color::rgba_const(self.r, self.g, self.b, a)
    }

    /// The colour as one `0xAARRGGBB` number.
    pub fn into_argb(self) -> (x: u32)
        ensures
            x as int == pack(self.a as int, self.r as int, self.g as int, self.b as int),
    {
        self.a as u32 * 0x100_0000 + self.r as u32 * 0x1_0000 + self.g as u32 * 0x100 + self.b as u32
    }

    /// The colour held in the `0xAARRGGBB` number `argb`.
    pub fn from_argb(argb: u32) -> (c: Color)
        ensures
            c.a as int == byte_of(argb, 3),
            c.r as int == byte_of(argb, 2),
            c.g as int == byte_of(argb, 1),
            c.b as int == byte_of(argb, 0),
    {
        proof {
            lemma_bytes(argb);
        }
        Color {
            r: ((argb / 0x1_0000) % 0x100) as u8,
            g: ((argb / 0x100) % 0x100) as u8,
            b: (argb % 0x100) as u8,
            a: (argb / 0x100_0000) as u8,
        }
    }
}

/// Swaps the red and blue channels of a 32-bit colour: `0xAARRGGBB` becomes `0xAABBGGRR`.
pub fn color_argb_to_abgr(argb: u32) -> (r: u32)
    ensures
        r as int == pack(byte_of(argb, 3), byte_of(argb, 0), byte_of(argb, 1), byte_of(argb, 2)),
{
    proof {
        lemma_bytes(argb);
    }
    let a = argb / 0x100_0000;
    let r = (argb / 0x1_0000) % 0x100;
    let g = (argb / 0x100) % 0x100;
    let b = argb % 0x100;
    a * 0x100_0000 + b * 0x1_0000 + g * 0x100 + r
}

/// Swaps the blue and red channels of a 32-bit colour: `0xAABBGGRR` becomes `0xAARRGGBB`.
pub fn color_abgr_to_argb(abgr: u32) -> (r: u32)
    ensures
        r as int == pack(byte_of(abgr, 3), byte_of(abgr, 0), byte_of(abgr, 1), byte_of(abgr, 2)),
{
    proof {
        lemma_bytes(abgr);
    }
    let a = abgr / 0x100_0000;
    let b = (abgr / 0x1_0000) % 0x100;
    let g = (abgr / 0x100) % 0x100;
    let r = abgr % 0x100;
    a * 0x100_0000 + r * 0x1_0000 + g * 0x100 + b
}

/// An axis-aligned rectangle given by its edges.
#[derive(Debug, Clone, Copy, PartialEq, Eq)]
pub struct Rect<T> {
    pub left: T,
    pub top: T,
    pub right: T,
    pub bottom: T,
}

impl<T> Rect<T> {
    /// The rectangle with the given edges.
    pub fn new(left: T, top: T, right: T, bottom: T) -> (r: Rect<T>)
        ensures
            r.left == left,
            r.top == top,
            r.right == right,
            r.bottom == bottom,
    {
        Rect { left, top, right, bottom }
    }
}

impl Rect<i32> {
    /// The distance from the left edge to the right one.
    pub fn width(&self) -> (w: i32)
        requires
            i32::MIN <= self.right - self.left <= i32::MAX,
        ensures
            w == self.right - self.left,
    {
        self.right - self.left
    }

    /// The distance from the top edge to the bottom one.
    pub fn height(&self) -> (h: i32)
        requires
            i32::MIN <= self.bottom - self.top <= i32::MAX,
        ensures
            h == self.bottom - self.top,
    {
        self.bottom - self.top
    }
}

} // verus!
