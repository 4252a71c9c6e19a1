//! The render targets of the primary scope.

use vstd::prelude::*;
use crate::commands::BlitSource;
use crate::types::RenderTextureOptions;
use crate::types::SampleCount;

verus! {

/// The pixel formats in use.
#[derive(Clone, Copy, Debug, PartialEq, Eq, Structural)]
pub enum TextureFormat {
    /// High-dynamic-range colour.
    Rgba16Float,
    /// Depth.
    Depth32Float,
}

/// One attachment: its size, sample count and format.
#[derive(Clone, Copy, Debug, PartialEq, Eq, Structural)]
pub struct Texture {
    pub width: u32,
    pub height: u32,
    pub samples: SampleCount,
    pub format: TextureFormat,
}

/// The colour, resolve and depth attachments, tagged with the options they
/// were made for.
#[derive(Clone, Copy, Debug, PartialEq, Eq, Structural)]
pub struct RenderTextures {
    pub color: Texture,
    pub resolve: Option<Texture>,
    pub depth: Texture,
    pub width: u32,
    pub height: u32,
    pub samples: SampleCount,
}

impl RenderTextures {
    /// The attachments for the given options. A resolve target exists only
    /// where the colour target is multisampled, and is itself
    /// single-sampled.
    pub open spec fn spec_new(options: RenderTextureOptions) -> RenderTextures {
        RenderTextures {
            color: Texture {
                width: options.width,
                height: options.height,
                samples: options.samples,
                format: TextureFormat::Rgba16Float,
            },
            resolve: if options.samples.spec_needs_resolve() {
                Some(
                    Texture {
                        width: options.width,
                        height: options.height,
                        samples: SampleCount::One,
                        format: TextureFormat::Rgba16Float,
                    },
                )
            } else {
                None
            },
            depth: Texture {
                width: options.width,
                height: options.height,
                samples: options.samples,
                format: TextureFormat::Depth32Float,
            },
            width: options.width,
            height: options.height,
            samples: options.samples,
        }
    }

    /// The options that the attachments are tagged with.
    pub open spec fn spec_options(self) -> RenderTextureOptions {
        RenderTextureOptions { width: self.width, height: self.height, samples: self.samples }
    }

    /// The attachments agree with their tags, and the resolve target exists
    /// exactly when there is more than one sample per pixel.
    pub open spec fn well_formed(self) -> bool {
        self == Self::spec_new(self.spec_options())
    }

    /// The texture that the composite reads: the resolve target where there
    /// is one, else the colour target.
    pub open spec fn spec_blit_source(self) -> BlitSource {
        if self.resolve is Some {
            BlitSource::Resolve
        } else {
            BlitSource::Color
        }
    }

    /// Describes the attachments for the given options.
    pub fn new(options: RenderTextureOptions) -> (t: RenderTextures)
        ensures
            t == Self::spec_new(options),
            t.well_formed(),
            t.resolve is Some <==> options.samples.spec_count() > 1,
    {
        let resolve = if options.samples.needs_resolve() {
            Some(
                Texture {
                    width: options.width,
                    height: options.height,
                    samples: SampleCount::One,
                    format: TextureFormat::Rgba16Float,
                },
            )
        } else {
            None
        };
        RenderTextures {
            color: Texture {
                width: options.width,
                height: options.height,
                samples: options.samples,
                format: TextureFormat::Rgba16Float,
            },
            resolve,
            depth: Texture {
                width: options.width,
                height: options.height,
                samples: options.samples,
                format: TextureFormat::Depth32Float,
            },
            width: options.width,
            height: options.height,
            samples: options.samples,
        }
    }

    /// The texture that the composite reads.
    pub fn blit_source_view(&self) -> (s: BlitSource)
        ensures
            s == self.spec_blit_source(),
    {
        match self.resolve {
            Some(_) => BlitSource::Resolve,
            None => BlitSource::Color,
        }
    }
}

} // verus!
