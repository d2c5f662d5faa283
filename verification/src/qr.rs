//! QR-code generation: a payload string rendered as SVG markup at error
//! correction level H, black on white, at least 200 device-independent
//! units on each side.
//!
//! The rendered markup is a function of the payload and the rendering
//! parameters alone, so it is given a name, `qr_svg_of`; what this module
//! proves is stated over that name.

use vstd::prelude::*;

verus! {

/// Why a payload could not be encoded.
#[derive(Clone, Copy, Debug, PartialEq, Eq, Structural)]
pub enum EncodingError {
    /// The payload exceeds the symbol capacity of level-H encoding.
    PayloadTooLarge,
    /// The encoder rejected the payload for another reason.
    Unencodable,
}

/// The SVG markup that level-H QR encoding renders for `payload` with the
/// given minimum dimensions and colors, or `None` when the payload cannot
/// be encoded. The markup takes pages to state, so it is named, not
/// spelled out; it depends on the arguments alone.
pub uninterp spec fn qr_svg_of(
    payload: Seq<char>,
    min_width: u32,
    min_height: u32,
    dark: Seq<char>,
    light: Seq<char>,
) -> Option<Seq<char>>;

/// The opening every rendered document shares: an XML prolog followed by
/// an `svg` element.
pub open spec fn svg_doc_start() -> Seq<char> {
    "<?xml version=\"1.0\" standalone=\"yes\"?><svg"@
}

/// The closing every rendered document shares.
pub open spec fn svg_doc_end() -> Seq<char> {
    "\"/></svg>"@
}

/// `s` is framed as a single SVG document: it opens with the XML prolog
/// and `svg` element and closes with `</svg>`.
pub open spec fn is_svg_markup(s: Seq<char>) -> bool {
    &&& s.len() >= svg_doc_start().len() + svg_doc_end().len()
    &&& s.subrange(0, svg_doc_start().len() as int) == svg_doc_start()
    &&& s.subrange((s.len() - svg_doc_end().len()) as int, s.len() as int) == svg_doc_end()
}

/// Relies on qrcode::QrCode::with_error_correction_level at level H and on
/// its SVG renderer (min_dimensions, dark_color, light_color, build): the
/// markup is a function of the arguments alone, and is framed as a single
/// SVG document. Automatic version selection fails with DataTooLong when
/// the payload exceeds the level-H symbol capacity, reported here as
/// PayloadTooLarge; any other rejection is reported as Unencodable.
#[verifier::external_body]
fn render_qr_svg(payload: &str, min_width: u32, min_height: u32, dark: &str, light: &str) -> (r:
    Result<String, EncodingError>)
    requires
        min_width <= 0x10000,
        min_height <= 0x10000,
    ensures
        r is Ok <==> qr_svg_of(payload@, min_width, min_height, dark@, light@) is Some,
        r matches Ok(svg) ==> Some(svg@) == qr_svg_of(payload@, min_width, min_height, dark@, light@)
            && is_svg_markup(svg@),
{
    let code = match qrcode::QrCode::with_error_correction_level(payload, qrcode::EcLevel::H) {
        Ok(code) => code,
        Err(qrcode::types::QrError::DataTooLong) => return Err(EncodingError::PayloadTooLarge),
        Err(_) => return Err(EncodingError::Unencodable),
    };
    Ok(
        code.render()
            .min_dimensions(min_width, min_height)
            .dark_color(qrcode::render::svg::Color(dark))
            .light_color(qrcode::render::svg::Color(light))
            .build(),
    )
}

/// The markup `generate_qrcode` returns for `payload`: level-H encoding
/// rendered at no less than 200 by 200 units, pure black on pure white.
pub open spec fn qr_svg_spec(payload: Seq<char>) -> Option<Seq<char>> {
    qr_svg_of(payload, 200, 200, "#000000"@, "#ffffff"@)
}

/// Renders `payload` as a QR code in SVG markup at error correction level
/// H, at least 200 by 200 units, black modules on a white background.
/// Succeeds exactly when the payload can be encoded; a payload over the
/// level-H symbol capacity is reported as `PayloadTooLarge`.
pub fn generate_qrcode(payload: &str) -> (r: Result<String, EncodingError>)
    ensures
        r is Ok <==> qr_svg_spec(payload@) is Some,
        r matches Ok(svg) ==> Some(svg@) == qr_svg_spec(payload@) && is_svg_markup(svg@),
{
    render_qr_svg(payload, 200, 200, "#000000", "#ffffff")
}

/// Rendering is deterministic: identical payloads give byte-identical
/// markup, and one payload cannot both succeed and fail.
pub proof fn lemma_generate_qrcode_deterministic(a: Seq<char>, b: Seq<char>)
    requires
        a == b,
    ensures
        qr_svg_spec(a) == qr_svg_spec(b),
{
}

} // verus!
