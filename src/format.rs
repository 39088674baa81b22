//! Colour formats of presentable images.
//!
//! A format is held by its code in the native format table: the codes run from
//! one up to the number of formats the table knows.

use vstd::prelude::*;

verus! {

/// One past the largest format code.
pub const FORMAT_CODE_END: u32 = 185;

/// Code of the 8-bit-per-channel sRGB RGBA format.
pub const RGBA8_SRGB_CODE: u32 = 43;

/// Whether the channels of the format with the given code are sRGB encoded: the
/// sRGB variants of the 8-bit R, RG, RGB, BGR, RGBA, BGRA and ABGR formats, and
/// of the compressed BC1, BC2, BC3, BC7, ETC2 and ASTC formats, which follow their
/// UNORM variants.
pub open spec fn srgb_channel(code: int) -> bool {
    ||| code == 15 || code == 22 || code == 29 || code == 36 || code == 43 || code == 50 || code
        == 57
    ||| 132 <= code <= 138 && code % 2 == 0
    ||| 146 <= code <= 152 && code % 2 == 0
    ||| 158 <= code <= 184 && code % 2 == 0
}

/// A colour format, by its code.
#[derive(Clone, Copy, Debug, PartialEq, Eq, Structural)]
pub struct ColorFormat {
    code: u32,
}

impl ColorFormat {
    #[verifier::type_invariant]
    spec fn inv(&self) -> bool {
        1 <= self.code < FORMAT_CODE_END
    }

    /// The code of the format.
    pub closed spec fn spec_code(&self) -> u32 {
        self.code
    }

    /// Whether the format is sRGB encoded.
    pub open spec fn is_srgb(&self) -> bool {
        srgb_channel(self.spec_code() as int)
    }

    /// The format with the given code, if there is one.
    pub fn from_code(code: u32) -> (r: Option<ColorFormat>)
        ensures
            r is Some <==> 1 <= code < FORMAT_CODE_END,
            r matches Some(f) ==> f.spec_code() == code,
    {
        if 1 <= code && code < FORMAT_CODE_END {
            Some(ColorFormat { code })
        } else {
            None
        }
    }

    /// The 8-bit-per-channel sRGB RGBA format.
    pub fn rgba8_srgb() -> (r: ColorFormat)
        ensures
            r.spec_code() == RGBA8_SRGB_CODE,
    {
        ColorFormat { code: RGBA8_SRGB_CODE }
    }

    /// Returns the code of the format.
    pub fn code(&self) -> (r: u32)
        ensures
            r == self.spec_code(),
            1 <= r < FORMAT_CODE_END,
    {
        proof {
            use_type_invariant(self);
        }
        self.code
    }

    /// Returns whether the format is sRGB encoded.
    pub fn srgb(&self) -> (r: bool)
        ensures
            r == self.is_srgb(),
    {
        channel_is_srgb(self.code())
    }
}

/// Relies on gfx_hal::format::BASE_FORMATS, the table of base formats indexed by
/// format code minus one: whether the channel type of the format is
/// `ChannelType::Srgb`.
#[verifier::external_body]
fn channel_is_srgb(code: u32) -> (r: bool)
    requires
        1 <= code < FORMAT_CODE_END,
    ensures
        r == srgb_channel(code as int),
{
    gfx_hal::format::BASE_FORMATS[code as usize - 1].1 == gfx_hal::format::ChannelType::Srgb
}

} // verus!
