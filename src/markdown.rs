use vstd::prelude::*;

verus! {

/// The characters that Telegram's MarkdownV2 style reserves.
pub open spec fn is_markdown_special(c: char) -> bool {
    c == '\\' || c == '_' || c == '*' || c == '[' || c == ']' || c == '(' || c == ')' || c == '~'
        || c == '`' || c == '>' || c == '#' || c == '+' || c == '-' || c == '=' || c == '|'
        || c == '{' || c == '}' || c == '.' || c == '!'
}

/// `s` with a backslash before each reserved character, so that it shows as
/// it is.
pub open spec fn escaped(s: Seq<char>) -> Seq<char>
    decreases s.len(),
{
    if s.len() == 0 {
        Seq::empty()
    } else if is_markdown_special(s.last()) {
        escaped(s.drop_last()) + seq!['\\', s.last()]
    } else {
        escaped(s.drop_last()).push(s.last())
    }
}

/// `s` with a backslash before each backtick and backslash, as code spans
/// need.
pub open spec fn code_escaped(s: Seq<char>) -> Seq<char>
    decreases s.len(),
{
    if s.len() == 0 {
        Seq::empty()
    } else if s.last() == '`' || s.last() == '\\' {
        code_escaped(s.drop_last()) + seq!['\\', s.last()]
    } else {
        code_escaped(s.drop_last()).push(s.last())
    }
}

/// Bold text.
pub open spec fn bold_text(s: Seq<char>) -> Seq<char> {
    seq!['*'] + s + seq!['*']
}

/// Underlined text; a `\r` marker keeps a trailing `_` from merging with the
/// closing `__`.
pub open spec fn underline_text(s: Seq<char>) -> Seq<char> {
    if s.len() > 0 && s[0] == '_' && s.last() == '_' {
        seq!['_', '_'] + s + seq!['\\', 'r', '_', '_']
    } else {
        seq!['_', '_'] + s + seq!['_', '_']
    }
}

/// Inline code, its text escaped for a code span.
pub open spec fn code_inline_text(s: Seq<char>) -> Seq<char> {
    seq!['`'] + code_escaped(s) + seq!['`']
}

/// Relies on teloxide::utils::markdown::escape: a backslash before each of
/// the nineteen reserved characters, every other character kept.
#[verifier::external_body]
pub(crate) fn escape(s: &str) -> (r: String)
    ensures
        r@ == escaped(s@),
{
    teloxide::utils::markdown::escape(s)
}

/// Relies on teloxide::utils::markdown::bold: the text between two `*`.
#[verifier::external_body]
pub(crate) fn bold(s: &str) -> (r: String)
    ensures
        r@ == bold_text(s@),
{
    teloxide::utils::markdown::bold(s)
}

/// Relies on teloxide::utils::markdown::underline: the text between `__`
/// marks, with `\r` before the closing one when the text starts and ends
/// with `_`.
#[verifier::external_body]
pub(crate) fn underline(s: &str) -> (r: String)
    ensures
        r@ == underline_text(s@),
{
    teloxide::utils::markdown::underline(s)
}

/// Relies on teloxide::utils::markdown::code_inline: the text between
/// backticks, with its backticks and backslashes escaped.
#[verifier::external_body]
pub(crate) fn code_inline(s: &str) -> (r: String)
    ensures
        r@ == code_inline_text(s@),
{
    teloxide::utils::markdown::code_inline(s)
}

} // verus!
