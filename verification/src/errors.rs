use vstd::prelude::*;

verus! {

/// The failure taxonomy of the rendering pipeline.
///
/// Every failure of a render request is reported as exactly one of these
/// kinds; nothing is retried or recovered internally.
#[derive(Clone, Copy, Debug, PartialEq, Eq, Structural)]
pub enum RenderError {
    /// The input text was empty; rejected before any encoding attempt.
    EmptyText,
    /// The text cannot be represented within the symbol's capacity.
    EncodingCapacity,
    /// A pixel buffer's length is inconsistent with its declared
    /// dimensions and channel count; indicates an internal bug.
    BufferShape,
    /// A vector logo source could not be parsed as SVG markup.
    SvgParse,
    /// A vector logo source was not valid UTF-8 text.
    InvalidUtf8,
    /// The rendering backend could not allocate or fill its canvas.
    SvgRasterize,
    /// A raster logo could not be decoded as a supported bitmap format.
    ImageDecode,
    /// A decoded or rasterized logo has a zero or unusably large dimension.
    InvalidLogoDimensions,
    /// Serializing the final pixel buffer failed.
    Encode,
}

impl RenderError {
    /// A short human-readable description of the failure.
    pub fn message(&self) -> (r: &'static str)
        ensures
            r@ == self.spec_message(),
    {
        match self {
            RenderError::EmptyText => "text must not be empty",
            RenderError::EncodingCapacity => "text exceeds the symbol capacity",
            RenderError::BufferShape => "pixel buffer length does not match its dimensions",
            RenderError::SvgParse => "logo is not well-formed SVG markup",
            RenderError::InvalidUtf8 => "logo source is not valid UTF-8",
            RenderError::SvgRasterize => "logo rasterization failed",
            RenderError::ImageDecode => "logo is not a supported bitmap format",
            RenderError::InvalidLogoDimensions => "logo has invalid dimensions",
            RenderError::Encode => "final image serialization failed",
        }
    }

    /// The description promised by `message`, as a mathematical value.
    pub open spec fn spec_message(self) -> Seq<char> {
        match self {
            RenderError::EmptyText => "text must not be empty"@,
            RenderError::EncodingCapacity => "text exceeds the symbol capacity"@,
            RenderError::BufferShape => "pixel buffer length does not match its dimensions"@,
            RenderError::SvgParse => "logo is not well-formed SVG markup"@,
            RenderError::InvalidUtf8 => "logo source is not valid UTF-8"@,
            RenderError::SvgRasterize => "logo rasterization failed"@,
            RenderError::ImageDecode => "logo is not a supported bitmap format"@,
            RenderError::InvalidLogoDimensions => "logo has invalid dimensions"@,
            RenderError::Encode => "final image serialization failed"@,
        }
    }
}

} // verus!
