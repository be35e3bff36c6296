use vstd::prelude::*;

use crate::errors::RenderError;

verus! {

/// What the QR encoder produces for a text: `Some` of the dark/light module
/// rows of the smallest symbol that holds the text at the highest
/// error-correction tier (`true` meaning dark), or `None` when the text
/// exceeds the capacity of every symbol. A pure function of the text.
pub uninterp spec fn qr_symbol(text: Seq<char>) -> Option<Seq<Seq<bool>>>;

/// Whether the text fits a symbol at the highest error-correction tier.
pub open spec fn qr_fits(text: Seq<char>) -> bool {
    qr_symbol(text) is Some
}

/// The module rows of the text's symbol.
pub open spec fn qr_rows(text: Seq<char>) -> Seq<Seq<bool>> {
    qr_symbol(text)->0
}

/// The symbol's width in modules.
pub open spec fn qr_width(text: Seq<char>) -> int {
    qr_rows(text).len() as int
}

/// The symbol's modules in row-major order.
pub open spec fn qr_modules(text: Seq<char>) -> Seq<bool> {
    qr_rows(text).flatten()
}

/// Relies on `qrcode::QrCode::with_error_correction_level` at `EcLevel::H`,
/// with `QrCode::width` and `QrCode::to_colors` reading the result: the
/// encoder deterministically yields a square module matrix whose width is
/// `17 + 4 * version` for versions 1 through 40 (it never picks a Micro
/// symbol), and fails — with `DataTooLong`, from its automatic version
/// selection — exactly when the data fits no symbol.
#[verifier::external_body]
pub(crate) fn qr_encode_modules(text: &str) -> (r: Result<(u32, Vec<bool>), RenderError>)
    ensures
        r is Ok <==> qr_symbol(text@) is Some,
        r matches Ok(p) ==> {
            &&& p.0 as int == (qr_symbol(text@)->0).len()
            &&& p.1@ == (qr_symbol(text@)->0).flatten()
            &&& p.1@.len() == p.0 * p.0
            &&& 21 <= p.0 <= 177
        },
        r matches Err(e) ==> e == RenderError::EncodingCapacity,
{
    let code = match qrcode::QrCode::with_error_correction_level(text.as_bytes(), qrcode::EcLevel::H) {
        Ok(c) => c,
        Err(_) => return Err(RenderError::EncodingCapacity),
    };
    let w = code.width() as u32;
    let m: Vec<bool> = code.to_colors().into_iter().map(|c| c == qrcode::Color::Dark).collect();
    Ok((w, m))
}

} // verus!
