//! Terminal styling of output fragments.
//!
//! When standard output is an interactive terminal, the matched span of a line
//! is painted red and a source's banner is painted cyan. Painting wraps the
//! text in a fixed SGR prefix and the SGR reset suffix; the spec functions
//! below say which characters those are, so contracts can speak of styled text
//! exactly. When output is piped, nothing in this module is used.

use vstd::prelude::*;

verus! {

/// The ASCII escape character that starts every ANSI styling sequence.
pub open spec fn esc_char() -> char {
    '\u{1b}'
}

/// The ANSI prefix that switches the foreground colour to cyan.
pub open spec fn cyan_prefix() -> Seq<char> {
    seq![esc_char(), '[', '3', '6', 'm']
}

/// The ANSI prefix that switches the foreground colour to red.
pub open spec fn red_prefix() -> Seq<char> {
    seq![esc_char(), '[', '3', '1', 'm']
}

/// The ANSI suffix that resets all styling.
pub open spec fn sgr_reset() -> Seq<char> {
    seq![esc_char(), '[', '0', 'm']
}

/// Whether the text contains the escape character, i.e. any ANSI styling.
pub open spec fn has_styling(s: Seq<char>) -> bool {
    exists|j: int| 0 <= j < s.len() && s[j] == esc_char()
}

/// Unstyled texts stay unstyled under concatenation.
pub proof fn lemma_unstyled_concat(a: Seq<char>, b: Seq<char>)
    requires
        !has_styling(a),
        !has_styling(b),
    ensures
        !has_styling(a + b),
{
    assert forall|j: int| 0 <= j < (a + b).len() implies (a + b)[j] != esc_char() by {
        if j < a.len() {
            assert((a + b)[j] == a[j]);
        } else {
            assert((a + b)[j] == b[j - a.len()]);
        }
    }
}

/// Relies on ansi_term's `Colour::Cyan.paint` and the `Display` of the
/// resulting `ANSIString`: a plain cyan-foreground style writes the prefix
/// `ESC [ 3 6 m`, then the text unchanged, then the reset `ESC [ 0 m`.
#[verifier::external_body]
pub fn paint_cyan(s: &str) -> (r: String)
    ensures
        r@ == cyan_prefix() + s@ + sgr_reset(),
{
    ansi_term::Colour::Cyan.paint(s).to_string()
}

/// Relies on ansi_term's `Colour::Red.paint` and the `Display` of the
/// resulting `ANSIString`: a plain red-foreground style writes the prefix
/// `ESC [ 3 1 m`, then the text unchanged, then the reset `ESC [ 0 m`.
#[verifier::external_body]
pub fn paint_red(s: &str) -> (r: String)
    ensures
        r@ == red_prefix() + s@ + sgr_reset(),
{
    ansi_term::Colour::Red.paint(s).to_string()
}

} // verus!
