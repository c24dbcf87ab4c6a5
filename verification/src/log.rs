use vstd::prelude::*;

use crate::theme;

verus! {

/// One styled non-interactive message: a connecting bar, the given
/// glyph, the text. The styled variants below each fix the glyph.
pub fn log(text: &str, symbol: &str) -> (r: String)
    ensures
        r@ == "\u{2502}\n"@ + symbol@ + "  "@ + text@ + "\n"@,
{
    theme::format_log(text, symbol)
}

/// A remark message.
pub fn remark(text: &str) -> (r: String)
    ensures
        r@ == "\u{2502}\n"@ + "\u{00b7}"@ + "  "@ + text@ + "\n"@,
{
    log(text, theme::remark_symbol())
}

/// An info message.
pub fn info(text: &str) -> (r: String)
    ensures
        r@ == "\u{2502}\n"@ + "\u{25cf}"@ + "  "@ + text@ + "\n"@,
{
    log(text, theme::info_symbol())
}

/// A warning message.
pub fn warning(message: &str) -> (r: String)
    ensures
        r@ == "\u{2502}\n"@ + "\u{25b2}"@ + "  "@ + message@ + "\n"@,
{
    log(message, theme::warning_symbol())
}

/// An error message.
pub fn error(message: &str) -> (r: String)
    ensures
        r@ == "\u{2502}\n"@ + "\u{25a0}"@ + "  "@ + message@ + "\n"@,
{
    log(message, theme::error_symbol())
}

/// A success message.
pub fn success(message: &str) -> (r: String)
    ensures
        r@ == "\u{2502}\n"@ + "\u{25c6}"@ + "  "@ + message@ + "\n"@,
{
    log(message, theme::active_symbol())
}

/// A submitted-step message.
pub fn step(message: &str) -> (r: String)
    ensures
        r@ == "\u{2502}\n"@ + "\u{25c7}"@ + "  "@ + message@ + "\n"@,
{
    log(message, theme::submit_symbol())
}

} // verus!
