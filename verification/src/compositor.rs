//! What a compositor knows of its surface, and the frames it hands out.
//!
//! Talking to the graphics device is left to the caller: it tells the
//! [`Compositor`] what it did to the surface and hands it the pixels it
//! read back.
use crate::screenshot::{flip_rows, flipped, ColorType, Screenshot};
use crate::size::Size;
use vstd::prelude::*;

verus! {

/// An antialiasing strategy.
#[derive(Clone, Copy, Debug, PartialEq, Eq, Structural)]
pub enum Antialiasing {
    /// Multisample AA with 2 samples.
    MSAAx2,
    /// Multisample AA with 4 samples.
    MSAAx4,
    /// Multisample AA with 8 samples.
    MSAAx8,
    /// Multisample AA with 16 samples.
    MSAAx16,
}

impl Antialiasing {
    /// The number of samples of the strategy.
    pub open spec fn spec_sample_count(self) -> u32 {
        match self {
            Antialiasing::MSAAx2 => 2,
            Antialiasing::MSAAx4 => 4,
            Antialiasing::MSAAx8 => 8,
            Antialiasing::MSAAx16 => 16,
        }
    }

    /// Returns the amount of samples of the [`Antialiasing`].
    pub fn sample_count(self) -> (samples: u32)
        ensures
            samples == self.spec_sample_count(),
    {
        match self {
            Antialiasing::MSAAx2 => 2,
            Antialiasing::MSAAx4 => 4,
            Antialiasing::MSAAx8 => 8,
            Antialiasing::MSAAx16 => 16,
        }
    }
}

/// The settings of a compositor.
#[derive(Clone, Copy, Debug, PartialEq, Eq, Structural)]
pub struct Settings {
    /// The default size of text.
    pub default_text_size: u16,
    /// The antialiasing strategy that will be used for triangle primitives.
    pub antialiasing: Option<Antialiasing>,
}

/// The number of bytes of an RGB frame of the given size.
pub open spec fn frame_len(size: Size) -> int {
    3 * size.width * size.height
}

/// What a window graphics backend knows of its surface: the size of the
/// framebuffer, once a resize or a frame has established it.
#[derive(Debug)]
pub struct Compositor {
    framebuffer_size: Option<Size>,
}

impl View for Compositor {
    type V = Option<Size>;

    closed spec fn view(&self) -> Option<Size> {
        self.framebuffer_size
    }
}

impl Compositor {
    /// Creates a [`Compositor`] for a surface of yet unknown size.
    pub fn new() -> (compositor: Self)
        ensures
            compositor@.is_none(),
    {
        Compositor { framebuffer_size: None }
    }

    /// The number of samples that should be asked of the device for the
    /// given [`Settings`]: that of the antialiasing strategy, or none.
    pub fn sample_count(settings: &Settings) -> (samples: u32)
        ensures
            samples == match settings.antialiasing {
                Some(antialiasing) => antialiasing.spec_sample_count(),
                None => 0,
            },
    {
        match settings.antialiasing {
            Some(antialiasing) => antialiasing.sample_count(),
            None => 0,
        }
    }

    /// The size of the framebuffer, if it is known.
    pub fn framebuffer_size(&self) -> (size: Option<Size>)
        ensures
            size == self@,
    {
        self.framebuffer_size
    }

    /// Records that the viewport was resized to `physical_size`.
    pub fn resize_viewport(&mut self, physical_size: Size)
        ensures
            final(self)@ == Some(physical_size),
    {
        self.framebuffer_size = Some(physical_size);
    }

    /// Records that a frame was presented on a viewport of `physical_size`.
    pub fn present(&mut self, physical_size: Size)
        ensures
            final(self)@ == Some(physical_size),
    {
        self.framebuffer_size = Some(physical_size);
    }

    /// The number of bytes to read back for a capture: three for each
    /// pixel of the framebuffer. `None` while the size of the framebuffer
    /// is unknown, or where that many bytes cannot be addressed.
    pub fn capture_len(&self) -> (length: Option<usize>)
        ensures
            match length {
                Some(length) => self@.is_some() && length == frame_len(self@.unwrap()),
                None => self@.is_none() || frame_len(self@.unwrap()) > usize::MAX,
            },
    {
        match self.framebuffer_size {
            None => None,
            Some(size) => {
                assert(3 * size.width * size.height <= 3 * 0xffff_ffff * 0xffff_ffff)
                    by (nonlinear_arith)
                    requires
                        size.width <= 0xffff_ffff,
                        size.height <= 0xffff_ffff,
                ;
                let length: u128 = 3 * size.width as u128 * size.height as u128;
                if length > usize::MAX as u128 {
                    None
                } else {
                    Some(length as usize)
                }
            },
        }
    }

    /// Makes a capture of the pixels read back from the framebuffer.
    ///
    /// `pixels` holds the scanlines of the framebuffer from the bottom up,
    /// three bytes for each pixel. The capture holds them from the top
    /// down. The size of the framebuffer must be known.
    pub fn read(&self, pixels: &[u8]) -> (capture: Option<Screenshot>)
        requires
            self@.is_some(),
            pixels@.len() == frame_len(self@.unwrap()),
        ensures
            capture.is_some(),
            capture.unwrap().spec_bytes() == flipped(pixels@, (3 * self@.unwrap().width) as nat),
            capture.unwrap().spec_width() == self@.unwrap().width,
            capture.unwrap().spec_height() == self@.unwrap().height,
            capture.unwrap().spec_encoding() == ColorType::Rgb,
    {
        let size = self.framebuffer_size.unwrap();
        let total = pixels.len();
        let bytes = if size.width == 0 || size.height == 0 {
            assert(pixels@.len() == 0) by (nonlinear_arith)
                requires
                    pixels@.len() == 3 * size.width * size.height,
                    size.width == 0 || size.height == 0,
            ;
            Vec::new()
        } else {
            assert(3 * size.width <= total) by (nonlinear_arith)
                requires
                    total == 3 * size.width * size.height,
                    size.height >= 1,
            ;
            flip_rows(pixels, 3 * size.width as usize)
        };
        Some(Screenshot::new(bytes, size.width, size.height).encoding(ColorType::Rgb))
    }
}

} // verus!
