//! A text header drawn in large letters with FIGlet's standard font.
use vstd::prelude::*;

verus! {

/// The figure that FIGlet's standard font draws for `text`, or `None` where
/// it draws nothing.
pub uninterp spec fn standard_figure_of(text: Seq<char>) -> Option<Seq<char>>;

/// Relies on figlet_rs's `FIGfont::standard`, `FIGfont::convert` and the
/// `Display` of `FIGure`: the figure drawn for `text` with the bundled
/// standard font, a function of the text alone; `convert` draws nothing for
/// empty text, and a figure it draws has a line for each of the font's rows.
#[verifier::external_body]
fn standard_figure(text: &str) -> (r: Option<String>)
    ensures
        r is Some <==> standard_figure_of(text@) is Some,
        r matches Some(f) ==> f@ == standard_figure_of(text@)->0,
        text@.len() == 0 ==> r is None,
        r matches Some(f) ==> f@.len() > 0,
{
    match figlet_rs::FIGfont::standard() {
        Ok(font) => match font.convert(text) {
            Some(figure) => Some(figure.to_string()),
            None => None,
        },
        Err(_) => None,
    }
}

/// The header for `text`, given the figure drawn for it: the figure, or the
/// text itself where none was drawn.
pub open spec fn header_of(figure: Option<Seq<char>>, text: Seq<char>) -> Seq<char> {
    match figure {
        Some(f) => f,
        None => text,
    }
}

/// The header for `text`, given the figure drawn for it (`None` where none
/// was drawn).
pub fn header_from_figure(figure: Option<String>, text: &str) -> (r: String)
    ensures
        r@ == header_of(
            match figure { Some(f) => Some(f@), None => None },
            text@,
        ),
{
    match figure {
        Some(f) => f,
        None => text.to_owned(),
    }
}

/// `text` drawn in large letters with the standard font, or `text` itself
/// where the font draws nothing for it (empty text, or no character the font
/// knows).
pub fn render_ascii_header(text: &str) -> (r: String)
    ensures
        r@ == header_of(standard_figure_of(text@), text@),
        r@.len() == 0 <==> text@.len() == 0,
{
    header_from_figure(standard_figure(text), text)
}

} // verus!
