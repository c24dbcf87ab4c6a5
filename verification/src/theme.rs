use vstd::prelude::*;

verus! {

/// The glyph that opens a remark log line.
pub fn remark_symbol() -> (r: &'static str)
    ensures
        r@ == "\u{00b7}"@,
{
    "\u{00b7}"
}

/// The glyph that opens an info log line.
pub fn info_symbol() -> (r: &'static str)
    ensures
        r@ == "\u{25cf}"@,
{
    "\u{25cf}"
}

/// The glyph that opens a warning log line.
pub fn warning_symbol() -> (r: &'static str)
    ensures
        r@ == "\u{25b2}"@,
{
    "\u{25b2}"
}

/// The glyph that opens an error log line.
pub fn error_symbol() -> (r: &'static str)
    ensures
        r@ == "\u{25a0}"@,
{
    "\u{25a0}"
}

/// The glyph that marks the active step; also opens a success log line.
pub fn active_symbol() -> (r: &'static str)
    ensures
        r@ == "\u{25c6}"@,
{
    "\u{25c6}"
}

/// The glyph that marks a submitted step.
pub fn submit_symbol() -> (r: &'static str)
    ensures
        r@ == "\u{25c7}"@,
{
    "\u{25c7}"
}

/// The header of a prompt session: a corner glyph, the title, a newline.
pub fn format_intro(title: &str) -> (r: String)
    ensures
        r@ == "\u{250c}  "@ + title@ + "\n"@,
{
    let mut r = String::from_str("\u{250c}  ");
    r.append(title);
    r.append("\n");
    proof {
        assert(r@ =~= "\u{250c}  "@ + title@ + "\n"@);
    }
    r
}

/// The footer of a prompt session: a connecting bar, a closing corner,
/// the message, a blank line.
pub fn format_outro(message: &str) -> (r: String)
    ensures
        r@ == "\u{2502}\n\u{2514}  "@ + message@ + "\n\n"@,
{
    let mut r = String::from_str("\u{2502}\n\u{2514}  ");
    r.append(message);
    r.append("\n\n");
    proof {
        assert(r@ =~= "\u{2502}\n\u{2514}  "@ + message@ + "\n\n"@);
    }
    r
}

/// The footer of a cancelled prompt session, in a failure style.
pub fn format_cancel(message: &str) -> (r: String)
    ensures
        r@ == "\u{2502}\n\u{25a0}  "@ + message@ + "\n\n"@,
{
    let mut r = String::from_str("\u{2502}\n\u{25a0}  ");
    r.append(message);
    r.append("\n\n");
    proof {
        assert(r@ =~= "\u{2502}\n\u{25a0}  "@ + message@ + "\n\n"@);
    }
    r
}

/// A note block: a headline under the submitted-step glyph, the message
/// on a connected line of its own.
pub fn format_note(prompt: &str, message: &str) -> (r: String)
    ensures
        r@ == "\u{2502}\n\u{25c7}  "@ + prompt@ + "\n\u{2502}  "@ + message@ + "\n"@,
{
    let mut r = String::from_str("\u{2502}\n\u{25c7}  ");
    r.append(prompt);
    r.append("\n\u{2502}  ");
    r.append(message);
    r.append("\n");
    proof {
        assert(r@ =~= "\u{2502}\n\u{25c7}  "@ + prompt@ + "\n\u{2502}  "@ + message@ + "\n"@);
    }
    r
}

/// One non-interactive log line: a connecting bar, the style's glyph,
/// the text.
pub fn format_log(text: &str, symbol: &str) -> (r: String)
    ensures
        r@ == "\u{2502}\n"@ + symbol@ + "  "@ + text@ + "\n"@,
{
    let mut r = String::from_str("\u{2502}\n");
    r.append(symbol);
    r.append("  ");
    r.append(text);
    r.append("\n");
    proof {
        assert(r@ =~= "\u{2502}\n"@ + symbol@ + "  "@ + text@ + "\n"@);
    }
    r
}

} // verus!
