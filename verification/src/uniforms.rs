//! The per-frame uniform record and its exact GPU buffer layout.
//!
//! The GPU reads six consecutive 32-bit words: mouse.x, mouse.y, time, one
//! word of padding, window_size.x and window_size.y. The library stores each
//! word as the bit pattern of the 32-bit float the shader sees, so the byte
//! layout can be stated and proved exactly.

use vstd::prelude::*;

verus! {

/// Little-endian byte order of one 32-bit word, as the uniform buffer holds it.
pub open spec fn u32_le(x: u32) -> Seq<u8> {
    seq![
        (x & 0xff) as u8,
        ((x >> 8) & 0xff) as u8,
        ((x >> 16) & 0xff) as u8,
        ((x >> 24) & 0xff) as u8,
    ]
}

/// Appends the four little-endian bytes of `x` to `out`.
fn push_u32_le(out: &mut Vec<u8>, x: u32)
    ensures
        final(out)@ == old(out)@ + u32_le(x),
{
    out.push((x & 0xff) as u8);
    out.push(((x >> 8) & 0xff) as u8);
    out.push(((x >> 16) & 0xff) as u8);
    out.push(((x >> 24) & 0xff) as u8);
    proof {
        assert(out@ =~= old(out)@ + u32_le(x));
    }
}

/// The uniform record uploaded before every draw. Each field is the bit
/// pattern of the 32-bit float that the fragment shader reads at that offset.
#[derive(Clone, Copy, Debug, PartialEq, Eq, Structural)]
pub struct Uniforms {
    /// Normalized mouse x, in [-1, 1].
    pub mouse_x: u32,
    /// Normalized mouse y, in [-1, 1], positive upward.
    pub mouse_y: u32,
    /// Seconds since process start.
    pub time: u32,
    /// Padding word; keeps window_size at offset 16.
    pub pad: u32,
    /// Logical window width in pixels.
    pub window_w: u32,
    /// Logical window height in pixels.
    pub window_h: u32,
}

impl Uniforms {
    /// The 24-byte buffer image: the six words in declaration order, each
    /// little-endian.
    pub open spec fn bytes(self) -> Seq<u8> {
        u32_le(self.mouse_x) + u32_le(self.mouse_y) + u32_le(self.time) + u32_le(self.pad)
            + u32_le(self.window_w) + u32_le(self.window_h)
    }

    /// Serializes the record exactly as the GPU-visible uniform buffer
    /// expects it: 24 bytes, no trailing padding.
    pub fn as_bytes(&self) -> (b: Vec<u8>)
        ensures
            b@ == self.bytes(),
            b@.len() == 24,
    {
        let mut b: Vec<u8> = Vec::new();
        push_u32_le(&mut b, self.mouse_x);
        push_u32_le(&mut b, self.mouse_y);
        push_u32_le(&mut b, self.time);
        push_u32_le(&mut b, self.pad);
        push_u32_le(&mut b, self.window_w);
        push_u32_le(&mut b, self.window_h);
        proof {
            assert(b@ =~= self.bytes());
        }
        b
    }
}

/// The startup record: mouse at the origin, zero time, zero window size.
/// Every field is the bit pattern of 0.0, which is the zero word.
pub open spec fn initial_uniforms() -> Uniforms {
    Uniforms { mouse_x: 0, mouse_y: 0, time: 0, pad: 0, window_w: 0, window_h: 0 }
}

impl Default for Uniforms {
    /// The startup record; see `initial_uniforms`.
    fn default() -> (u: Uniforms)
        ensures
            u == initial_uniforms(),
    {
        Uniforms { mouse_x: 0, mouse_y: 0, time: 0, pad: 0, window_w: 0, window_h: 0 }
    }
}

} // verus!
