//! The command payload types carried by the wire format, and their
//! mathematical views.
//!
//! Every type here is an immutable value record built once by the decoder.
//! Each executable type has a spec-level mirror (suffix `V`) over `Seq` and
//! plain integers, reached through `@`; all contracts in this crate speak of
//! those views.

use vstd::prelude::*;

verus! {

/// An image placed on the canvas.  The pixel format is decided by the
/// [`Layer`] variant that wraps the value, never by inspecting `src`.
#[derive(Debug, Clone, PartialEq)]
pub struct ImageLayer {
    pub src: String,
    pub x: u32,
    pub y: u32,
    pub width: u32,
    pub height: u32,
}

/// Spec-level mirror of [`ImageLayer`].
pub struct ImageLayerV {
    pub src: Seq<char>,
    pub x: u32,
    pub y: u32,
    pub width: u32,
    pub height: u32,
}

impl View for ImageLayer {
    type V = ImageLayerV;

    open spec fn view(&self) -> ImageLayerV {
        ImageLayerV {
            src: self.src@,
            x: self.x,
            y: self.y,
            width: self.width,
            height: self.height,
        }
    }
}

/// A flat-colour rectangle; `fill` holds exactly four 8-bit components,
/// interpreted as RGBA in that order.
#[derive(Debug, Clone, PartialEq)]
pub struct SolidLayer {
    pub fill: [u8; 4],
    pub x: u32,
    pub y: u32,
    pub width: u32,
    pub height: u32,
}

/// Spec-level mirror of [`SolidLayer`].
pub struct SolidLayerV {
    pub fill: Seq<u8>,
    pub x: u32,
    pub y: u32,
    pub width: u32,
    pub height: u32,
}

impl View for SolidLayer {
    type V = SolidLayerV;

    open spec fn view(&self) -> SolidLayerV {
        SolidLayerV {
            fill: self.fill@,
            x: self.x,
            y: self.y,
            width: self.width,
            height: self.height,
        }
    }
}

/// One visual element of a composed image: a closed union of exactly three
/// variants, each owning its payload record.
#[derive(Debug, Clone, PartialEq)]
pub enum Layer {
    PngImage(ImageLayer),
    JpgImage(ImageLayer),
    Solid(SolidLayer),
}

/// Spec-level mirror of [`Layer`].
pub enum LayerV {
    PngImage(ImageLayerV),
    JpgImage(ImageLayerV),
    Solid(SolidLayerV),
}

impl View for Layer {
    type V = LayerV;

    open spec fn view(&self) -> LayerV {
        match self {
            Layer::PngImage(il) => LayerV::PngImage(il@),
            Layer::JpgImage(il) => LayerV::JpgImage(il@),
            Layer::Solid(sl) => LayerV::Solid(sl@),
        }
    }
}

/// The desired output encoding of a composed image.
#[derive(Debug, Clone, Copy, PartialEq, Eq, Structural)]
pub enum ImageFormat {
    Png,
    Jpeg,
}

/// A full instruction to synthesize an image.  `layers` paint in sequence
/// order, first-to-last equals bottom-to-top; an empty sequence is permitted.
#[derive(Debug, Clone, PartialEq)]
pub struct CliGenerateImageCommand {
    pub width: u32,
    pub height: u32,
    pub layers: Vec<Layer>,
    pub output_format: ImageFormat,
    pub output: String,
}

/// Spec-level mirror of [`CliGenerateImageCommand`].
pub struct CliGenerateImageCommandV {
    pub width: u32,
    pub height: u32,
    pub layers: Seq<LayerV>,
    pub output_format: ImageFormat,
    pub output: Seq<char>,
}

impl View for CliGenerateImageCommand {
    type V = CliGenerateImageCommandV;

    open spec fn view(&self) -> CliGenerateImageCommandV {
        CliGenerateImageCommandV {
            width: self.width,
            height: self.height,
            layers: self.layers@.map_values(|l: Layer| l@),
            output_format: self.output_format,
            output: self.output@,
        }
    }
}

/// The exact decimal text of a JSON number, kept verbatim so that a
/// fractional timestamp survives decoding and re-encoding unchanged.
/// Floating-point interpretation of the text is left to the consumer.
#[derive(Debug, Clone, PartialEq)]
pub struct JsonNumber {
    pub raw: String,
}

impl View for JsonNumber {
    type V = Seq<char>;

    open spec fn view(&self) -> Seq<char> {
        self.raw@
    }
}

/// An instruction to pull a single still frame out of a video.  `time` is the
/// timestamp in seconds, carried as the number text of the document.
#[derive(Debug, Clone, PartialEq)]
pub struct ExtractFrameCommand {
    pub input: String,
    pub output: String,
    pub time: JsonNumber,
}

/// Spec-level mirror of [`ExtractFrameCommand`].
pub struct ExtractFrameCommandV {
    pub input: Seq<char>,
    pub output: Seq<char>,
    pub time: Seq<char>,
}

impl View for ExtractFrameCommand {
    type V = ExtractFrameCommandV;

    open spec fn view(&self) -> ExtractFrameCommandV {
        ExtractFrameCommandV { input: self.input@, output: self.output@, time: self.time@ }
    }
}

/// The top-level command union: exactly one of the two command payloads,
/// selected on the wire by the same discriminant-plus-params convention as
/// [`Layer`].
#[derive(Debug, Clone, PartialEq)]
pub enum CliInputCommand {
    ExtractFrame(ExtractFrameCommand),
    Compose(CliGenerateImageCommand),
}

/// Spec-level mirror of [`CliInputCommand`].
pub enum CliInputCommandV {
    ExtractFrame(ExtractFrameCommandV),
    Compose(CliGenerateImageCommandV),
}

impl View for CliInputCommand {
    type V = CliInputCommandV;

    open spec fn view(&self) -> CliInputCommandV {
        match self {
            CliInputCommand::ExtractFrame(e) => CliInputCommandV::ExtractFrame(e@),
            CliInputCommand::Compose(g) => CliInputCommandV::Compose(g@),
        }
    }
}

/// An outward-facing error record, produced for reporting failures to the
/// caller; it is never decoded.
#[derive(Debug, Clone, PartialEq)]
pub struct ErrorPayload {
    pub error: String,
    pub backtrace: String,
}

/// The single error kind of this crate: any malformed document — bad JSON
/// syntax, an unknown discriminant, a missing field, a wrong field type —
/// fails with a `DecodeError` holding a human-readable message.
#[derive(Debug, Clone, PartialEq)]
pub struct DecodeError {
    pub message: String,
}

impl DecodeError {
    /// The message text, for callers that format the failure.
    pub fn text(&self) -> (r: String)
        ensures
            r@ == self.message@,
    {
        self.message.clone()
    }
}

/// A solid layer is well formed when its fill sequence holds exactly the four
/// RGBA components; executable [`SolidLayer`] values satisfy this by type.
pub open spec fn wf_layer(l: LayerV) -> bool {
    match l {
        LayerV::Solid(s) => s.fill.len() == 4,
        _ => true,
    }
}

/// A command value is well formed when every solid layer it owns is.
pub open spec fn wf_command(c: CliInputCommandV) -> bool {
    match c {
        CliInputCommandV::ExtractFrame(_) => true,
        CliInputCommandV::Compose(g) => forall|i: int|
            0 <= i < g.layers.len() ==> wf_layer(#[trigger] g.layers[i]),
    }
}

} // verus!
