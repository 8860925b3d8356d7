//! Choosing the image format from an output path, and rendering the
//! payload as a QR code image through the `qrcode_generator` crate.

use vstd::prelude::*;

use qrcode_generator::{QRCodeError, QrCodeEcc};

use crate::schema::{build_schema, schema_of, Config};
use crate::text::{ends_with, has_suffix};

verus! {

#[verifier::external_type_specification]
#[verifier::external_body]
pub struct ExQRCodeError(QRCodeError);

/// The image formats a QR code is rendered in.
#[derive(Clone, Copy, Debug, PartialEq, Eq, Structural)]
pub enum ImageFormat {
    Png,
    Svg,
}

/// The format that an output path asks for by its suffix, exactly as
/// written: `.png` or `.svg`, and no other.
pub open spec fn format_of(path: Seq<char>) -> Option<ImageFormat> {
    if has_suffix(path, ".png"@) {
        Some(ImageFormat::Png)
    } else if has_suffix(path, ".svg"@) {
        Some(ImageFormat::Svg)
    } else {
        None
    }
}

impl ImageFormat {
    /// The format that `path` asks for, or `None` when its suffix is neither
    /// `.png` nor `.svg` (the case of the letters counts).
    pub fn from_path(path: &str) -> (r: Option<ImageFormat>)
        ensures
            r == format_of(path@),
    {
        if ends_with(path, ".png") {
            Some(ImageFormat::Png)
        } else if ends_with(path, ".svg") {
            Some(ImageFormat::Svg)
        } else {
            None
        }
    }
}

/// The PNG file that encodes `text` at error-correction level High, `size`
/// pixels a side, or `None` where the encoder refuses the pair.
pub uninterp spec fn png_image(text: Seq<char>, size: nat) -> Option<Seq<u8>>;

/// The SVG document that encodes `text` at error-correction level High,
/// `size` units a side, with no picture laid over it, or `None` where the
/// encoder refuses the pair.
pub uninterp spec fn svg_image(text: Seq<char>, size: nat) -> Option<Seq<u8>>;

/// The bytes of the image of `text` in `format`, where the encoder gives one.
pub open spec fn image_of(text: Seq<char>, size: nat, format: ImageFormat) -> Option<Seq<u8>> {
    match format {
        ImageFormat::Png => png_image(text, size),
        ImageFormat::Svg => svg_image(text, size),
    }
}

/// Relies on `qrcode_generator::to_png_to_vec` at `QrCodeEcc::High`: it
/// encodes the text's bytes in memory, and what it returns depends on the text
/// and the size alone.
#[verifier::external_body]
fn encode_png(text: &str, size: usize) -> (r: Result<Vec<u8>, QRCodeError>)
    ensures
        match r {
            Ok(v) => png_image(text@, size as nat) == Some(v@),
            Err(_) => png_image(text@, size as nat) is None,
        },
{
    qrcode_generator::to_png_to_vec(text, QrCodeEcc::High, size)
}

/// Relies on `qrcode_generator::to_svg_to_string` at `QrCodeEcc::High` with no
/// description: it encodes the text's bytes in memory, and what it returns
/// depends on the text and the size alone.
#[verifier::external_body]
fn encode_svg(text: &str, size: usize) -> (r: Result<Vec<u8>, QRCodeError>)
    ensures
        match r {
            Ok(v) => svg_image(text@, size as nat) == Some(v@),
            Err(_) => svg_image(text@, size as nat) is None,
        },
{
    let svg = qrcode_generator::to_svg_to_string(text, QrCodeEcc::High, size, None::<&str>)?;
    Ok(svg.into_bytes())
}

/// Why no image came out.
#[derive(Debug)]
pub enum RenderError {
    /// The QR encoder refused the payload or the size.
    Encoding(QRCodeError),
}

/// Renders `schema` as a QR code image in `format`, `size` pixels or units a
/// side. Fails exactly where the encoder refuses the text and size.
pub fn render(schema: &str, size: usize, format: ImageFormat) -> (r: Result<Vec<u8>, RenderError>)
    ensures
        match r {
            Ok(v) => image_of(schema@, size as nat, format) == Some(v@),
            Err(_) => image_of(schema@, size as nat, format) is None,
        },
{
    let encoded = match format {
        ImageFormat::Png => encode_png(schema, size),
        ImageFormat::Svg => encode_svg(schema, size),
    };
    match encoded {
        Ok(v) => Ok(v),
        Err(e) => Err(RenderError::Encoding(e)),
    }
}

/// Builds the `WIFI:` payload for `config` and renders it as a QR code image
/// in `format`, `size` pixels or units a side. The bytes are what an image
/// file at a path of that format holds.
pub fn generate_qr_code(config: Config, size: usize, format: ImageFormat) -> (r: Result<
    Vec<u8>,
    RenderError,
>)
    ensures
        ({
            let text = schema_of(config.ssid@, config.key@, config.encryption@);
            match r {
                Ok(v) => image_of(text, size as nat, format) == Some(v@),
                Err(_) => image_of(text, size as nat, format) is None,
            }
        }),
{
    let schema = build_schema(config);
    render(schema.as_str(), size, format)
}

} // verus!
