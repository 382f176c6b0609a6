//! Configuration of the presentation chain: the drawable images' size, pixel
//! format and presentation mode. The chain is rebuilt from this value whenever
//! the window's drawable size changes.

use vstd::prelude::*;

verus! {

/// Pixel format of a drawable image.
#[derive(Clone, Copy, Debug, PartialEq, Eq, Structural)]
pub enum PixelFormat {
    Rgba8Unorm,
    Rgba8UnormSrgb,
    Bgra8Unorm,
    Bgra8UnormSrgb,
}

/// How finished images are handed to the display.
#[derive(Clone, Copy, Debug, PartialEq, Eq, Structural)]
pub enum PresentMode {
    Immediate,
    Mailbox,
    Fifo,
}

/// The ways in which a texture may be used.
#[derive(Clone, Copy, Debug, PartialEq, Eq, Structural)]
pub struct TextureUsage {
    pub copy_src: bool,
    pub copy_dst: bool,
    pub sampled: bool,
    pub storage: bool,
    pub output_attachment: bool,
}

/// Configuration of the presentation chain.
#[derive(Clone, Copy, Debug, PartialEq, Eq, Structural)]
pub struct PresentationChain {
    pub usage: TextureUsage,
    pub format: PixelFormat,
    pub width: u32,
    pub height: u32,
    pub present_mode: PresentMode,
}

/// One window dimension as the chain takes it: the same number where it is
/// not negative, and the number's two's-complement reading as an unsigned
/// 32-bit value where it is.
pub open spec fn extent(dimension: i32) -> int {
    if dimension >= 0 {
        dimension as int
    } else {
        dimension + 0x1_0000_0000
    }
}

/// One window dimension as the chain takes it.
pub fn extent_of(dimension: i32) -> (e: u32)
    ensures
        e == extent(dimension),
{
    if dimension >= 0 {
        dimension as u32
    } else {
        let wide: i64 = dimension as i64 + 0x1_0000_0000;
        wide as u32
    }
}

impl TextureUsage {
    /// Use as the colour target of a render pass, and nothing else.
    pub open spec fn output_attachment_only() -> TextureUsage {
        TextureUsage {
            copy_src: false,
            copy_dst: false,
            sampled: false,
            storage: false,
            output_attachment: true,
        }
    }
}

impl PresentationChain {
    /// The chain for a window of the given drawable size and a given format:
    /// images used as render targets only, presented first in, first out.
    pub open spec fn sized(size: (i32, i32), format: PixelFormat) -> PresentationChain {
        PresentationChain {
            usage: TextureUsage::output_attachment_only(),
            format,
            width: extent(size.0) as u32,
            height: extent(size.1) as u32,
            present_mode: PresentMode::Fifo,
        }
    }

    /// The format in which the chain is created at start-up.
    pub open spec fn preferred_format() -> PixelFormat {
        PixelFormat::Bgra8UnormSrgb
    }

    /// The chain's dimensions agree with a window of the given drawable size.
    pub open spec fn fits(self, size: (i32, i32)) -> bool {
        self.width == extent(size.0) && self.height == extent(size.1)
    }

    /// This chain rebuilt for a new drawable size: only the dimensions differ.
    pub open spec fn resized(self, new_size: (i32, i32)) -> PresentationChain {
        PresentationChain {
            width: extent(new_size.0) as u32,
            height: extent(new_size.1) as u32,
            ..self
        }
    }

    /// Configures the chain for a window of the given drawable size, in the
    /// preferred format.
    pub fn create(size: (i32, i32)) -> (chain: PresentationChain)
        ensures
            chain == PresentationChain::sized(size, PresentationChain::preferred_format()),
            chain.fits(size),
    {
        PresentationChain {
            usage: TextureUsage {
                copy_src: false,
                copy_dst: false,
                sampled: false,
                storage: false,
                output_attachment: true,
            },
            format: PixelFormat::Bgra8UnormSrgb,
            width: extent_of(size.0),
            height: extent_of(size.1),
            present_mode: PresentMode::Fifo,
        }
    }

    /// Replaces the configuration by one for the new drawable size. Format,
    /// usage and presentation mode stay as they are.
    pub fn resize(&mut self, new_size: (i32, i32))
        ensures
            *final(self) == old(self).resized(new_size),
            final(self).fits(new_size),
            new_size.0 > 0 ==> final(self).width == new_size.0,
            new_size.1 > 0 ==> final(self).height == new_size.1,
    {
        *self = PresentationChain {
            usage: self.usage,
            format: self.format,
            width: extent_of(new_size.0),
            height: extent_of(new_size.1),
            present_mode: self.present_mode,
        };
    }

    /// The dimensions that the chain reports: width, then height.
    pub fn dimensions(&self) -> (d: (u32, u32))
        ensures
            d.0 == self.width,
            d.1 == self.height,
    {
        (self.width, self.height)
    }
}

/// A chain resized to a size with positive width and height reports exactly
/// that width and height.
pub proof fn lemma_resize_reports_size(chain: PresentationChain, w: i32, h: i32)
    requires
        w > 0,
        h > 0,
    ensures
        chain.resized((w, h)).width == w,
        chain.resized((w, h)).height == h,
{
}

/// Resizing twice to the same size gives the same chain as resizing once, and
/// resizing to the size that the chain already fits changes nothing.
pub proof fn lemma_resize_idempotent(chain: PresentationChain, size: (i32, i32))
    ensures
        chain.resized(size).resized(size) == chain.resized(size),
        chain.fits(size) ==> chain.resized(size) == chain,
{
}

} // verus!
