//! Display colors and their 24-bit packed form.

use vstd::prelude::*;
use vstd::std_specs::convert::FromSpecImpl;

verus! {

/// An RGB display color, eight bits per channel: red, green, blue.
#[derive(Clone, Copy, Debug, PartialEq, Eq, Structural)]
pub struct Color(pub u8, pub u8, pub u8);

impl Color {
    /// The color as one 24-bit number: red in bits 16 to 23, green in bits 8
    /// to 15, blue in bits 0 to 7.
    pub open spec fn packed(self) -> u32 {
        (self.0 as int * 0x1_0000 + self.1 as int * 0x100 + self.2 as int) as u32
    }

    /// The color whose channels are the three low bytes of `packed`. Bits 24
    /// and above are ignored.
    pub open spec fn unpacked(packed: u32) -> Color {
        Color(
            ((packed as int / 0x1_0000) % 0x100) as u8,
            ((packed as int / 0x100) % 0x100) as u8,
            (packed as int % 0x100) as u8,
        )
    }

    /// Packs the color as `red << 16 | green << 8 | blue`.
    pub fn pack(self) -> (packed: u32)
        ensures
            packed == self.packed(),
            packed < 0x100_0000,
    {
        let r: u32 = self.0 as u32;
        let g: u32 = self.1 as u32;
        let b: u32 = self.2 as u32;
        assert((r << 16 | g << 8 | b) == r * 0x1_0000 + g * 0x100 + b) by (bit_vector)
            requires
                r < 0x100,
                g < 0x100,
                b < 0x100,
        ;
        r << 16 | g << 8 | b
    }

    /// Splits a packed color into its channels.
    pub fn unpack(packed: u32) -> (color: Color)
        ensures
            color == Color::unpacked(packed),
    {
        assert((packed >> 16) & 0xff == (packed / 0x1_0000) % 0x100) by (bit_vector);
        assert((packed >> 8) & 0xff == (packed / 0x100) % 0x100) by (bit_vector);
        assert(packed & 0xff == packed % 0x100) by (bit_vector);
        Color(
            ((packed >> 16) & 0xff) as u8,
            ((packed >> 8) & 0xff) as u8,
            (packed & 0xff) as u8,
        )
    }

    /// Packing loses nothing: unpacking a packed color gives the color back,
    /// whatever its three channels are.
    pub proof fn lemma_pack_then_unpack(color: Color)
        ensures
            Color::unpacked(color.packed()) == color,
            color.packed() < 0x100_0000,
    {
    }

    /// Unpacking reads the low 24 bits only: packing an unpacked number gives
    /// the number back without its top byte.
    pub proof fn lemma_unpack_then_pack(packed: u32)
        ensures
            Color::unpacked(packed).packed() == packed % 0x100_0000,
    {
    }

    /// Two colors pack to the same number only if they are the same color.
    pub proof fn lemma_packed_injective(a: Color, b: Color)
        requires
            a.packed() == b.packed(),
        ensures
            a == b,
    {
        Color::lemma_pack_then_unpack(a);
        Color::lemma_pack_then_unpack(b);
    }
}

impl From<Color> for u32 {
    fn from(color: Color) -> (packed: u32) {
        color.pack()
    }
}

impl FromSpecImpl<Color> for u32 {
    open spec fn obeys_from_spec() -> bool {
        true
    }

    open spec fn from_spec(color: Color) -> u32 {
        color.packed()
    }
}

} // verus!
