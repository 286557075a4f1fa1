//! Rendering: the terminal-width hint with its fallback, the conversion of
//! an HTML body to column-wrapped text, and the exact normalization of
//! line-drawing glyphs to ASCII.

use vstd::prelude::*;
use crate::failure::Failure;
use crate::textops::string_from_chars;

verus! {

/// The column width used when the width hint is absent or unparseable.
pub open spec fn spec_default_width() -> int {
    80
}

/// The value of a decimal digit character, or `-1` for any other
/// character.
pub open spec fn digit_value(c: char) -> int {
    if c == '0' {
        0
    } else if c == '1' {
        1
    } else if c == '2' {
        2
    } else if c == '3' {
        3
    } else if c == '4' {
        4
    } else if c == '5' {
        5
    } else if c == '6' {
        6
    } else if c == '7' {
        7
    } else if c == '8' {
        8
    } else if c == '9' {
        9
    } else {
        -1
    }
}

/// Whether every character of `s` is a decimal digit.
pub open spec fn all_digits(s: Seq<char>) -> bool {
    forall|i: int| 0 <= i < s.len() ==> digit_value(s[i]) >= 0
}

/// The number the digit string `s` denotes, most significant digit first.
pub open spec fn spec_digits_value(s: Seq<char>) -> int
    decreases s.len(),
{
    if s.len() == 0 {
        0
    } else {
        spec_digits_value(s.drop_last()) * 10 + digit_value(s.last())
    }
}

proof fn lemma_digits_value_nonneg(s: Seq<char>)
    requires
        all_digits(s),
    ensures
        spec_digits_value(s) >= 0,
    decreases s.len(),
{
    if s.len() > 0 {
        assert(all_digits(s.drop_last()));
        lemma_digits_value_nonneg(s.drop_last());
    }
}

proof fn lemma_digits_prefix_le(s: Seq<char>, j: int)
    requires
        all_digits(s),
        0 <= j <= s.len(),
    ensures
        spec_digits_value(s.take(j)) <= spec_digits_value(s),
    decreases s.len() - j,
{
    if j == s.len() {
        assert(s.take(j) =~= s);
    } else {
        lemma_digits_prefix_le(s, j + 1);
        assert(s.take(j + 1).drop_last() =~= s.take(j));
        assert(all_digits(s.take(j)));
        lemma_digits_value_nonneg(s.take(j));
    }
}

/// How `usize` parses from a string: an optional leading `+`, then at
/// least one decimal digit and nothing else, denoting a value that fits in
/// `usize`; anything else fails.
pub open spec fn spec_parse_usize(s: Seq<char>) -> Option<int> {
    let body = if s.len() > 0 && s[0] == '+' {
        s.drop_first()
    } else {
        s
    };
    if body.len() > 0 && all_digits(body) && spec_digits_value(body) <= usize::MAX {
        Some(spec_digits_value(body))
    } else {
        None
    }
}

/// The column width a hint selects: the parsed value when the hint is
/// present and numeric, the default of 80 otherwise.
pub open spec fn spec_width(hint: Option<Seq<char>>) -> int {
    match hint {
        Some(s) => match spec_parse_usize(s) {
            Some(v) => v,
            None => spec_default_width(),
        },
        None => spec_default_width(),
    }
}

fn exec_digit_value(c: char) -> (r: Option<usize>)
    ensures
        r matches Some(d) ==> d == digit_value(c) && d < 10,
        r is None ==> digit_value(c) < 0,
{
    match c {
        '0' => Some(0),
        '1' => Some(1),
        '2' => Some(2),
        '3' => Some(3),
        '4' => Some(4),
        '5' => Some(5),
        '6' => Some(6),
        '7' => Some(7),
        '8' => Some(8),
        '9' => Some(9),
        _ => None,
    }
}

/// Parses a string exactly as `usize` does: an optional leading `+`, then
/// one or more decimal digits denoting a value that fits; anything else —
/// an empty string, a stray character, or a value past `usize::MAX` —
/// fails.
#[verifier::loop_isolation(false)]
pub fn parse_usize_str(s: &str) -> (r: Option<usize>)
    ensures
        r matches Some(v) ==> spec_parse_usize(s@) == Some(v as int),
        r is None ==> spec_parse_usize(s@) is None,
{
    let n = s.unicode_len();
    let start: usize = if n > 0 && s.get_char(0) == '+' {
        1
    } else {
        0
    };
    let ghost body = if start == 1 {
        s@.drop_first()
    } else {
        s@
    };
    proof {
        assert(body =~= s@.subrange(start as int, n as int));
    }
    if start == n {
        return None;
    }
    let mut acc: usize = 0;
    let mut i: usize = start;
    while i < n
        invariant
            start <= i <= n,
            n == s@.len(),
            start == 1 ==> n > 0 && s@[0] == '+',
            start == 0 ==> n == 0 || s@[0] != '+',
            start == 1 ==> body == s@.drop_first(),
            start == 0 ==> body == s@,
            body == s@.subrange(start as int, n as int),
            all_digits(body.take(i - start)),
            acc as int == spec_digits_value(body.take(i - start)),
        decreases n - i,
    {
        let c = s.get_char(i);
        let d = match exec_digit_value(c) {
            Some(d) => d,
            None => {
                proof {
                    assert(digit_value(body[i - start]) < 0);
                    assert(!all_digits(body));
                }
                return None;
            },
        };
        proof {
            assert(body.take(i - start + 1).drop_last() =~= body.take(i - start));
            assert(body.take(i - start + 1).last() == body[i - start]);
            assert(all_digits(body.take(i - start + 1)));
        }
        if acc > (usize::MAX - d) / 10 {
            proof {
                assert(acc as int * 10 + d > usize::MAX) by (nonlinear_arith)
                    requires
                        acc as int > (usize::MAX as int - d) / 10,
                        0 <= d < 10,
                ;
                if all_digits(body) {
                    lemma_digits_prefix_le(body, i - start + 1);
                }
            }
            return None;
        }
        acc = acc * 10 + d;
        i += 1;
    }
    proof {
        assert(body.take(n - start) =~= body);
    }
    Some(acc)
}

/// The column width to render at: the hint's value when it is present and
/// numeric, 80 when it is absent or unparseable.
pub fn parse_width(hint: Option<&str>) -> (w: usize)
    ensures
        w as int == spec_width(match hint {
            Some(s) => Some(s@),
            None => None,
        }),
{
    match hint {
        Some(s) => match parse_usize_str(s) {
            Some(v) => v,
            None => 80,
        },
        None => 80,
    }
}

/// What normalization does to one character: the three line-drawing glyphs
/// become `-`, `|` and `+`, the replacement character that marks an
/// undecodable byte becomes the literal `<?>`, and every other character
/// stays itself.
pub open spec fn subst_char(c: char) -> Seq<char> {
    if c == '\u{2500}' {
        seq!['-']
    } else if c == '\u{2502}' {
        seq!['|']
    } else if c == '\u{253C}' {
        seq!['+']
    } else if c == '\u{FFFD}' {
        seq!['<', '?', '>']
    } else {
        seq![c]
    }
}

/// The normalization of a whole text: each character replaced by its
/// substitution, in order.
pub open spec fn spec_normalize(s: Seq<char>) -> Seq<char>
    decreases s.len(),
{
    if s.len() == 0 {
        Seq::empty()
    } else {
        spec_normalize(s.drop_last()) + subst_char(s.last())
    }
}

/// Normalizes converted text for the terminal: replaces the horizontal,
/// vertical and crossing line-drawing glyphs by `-`, `|` and `+`, and each
/// undecodable-character mark by `<?>`.
pub fn normalize_rendered(text: &str) -> (r: String)
    ensures
        r@ == spec_normalize(text@),
{
    let n = text.unicode_len();
    let mut out: Vec<char> = Vec::new();
    let mut i: usize = 0;
    while i < n
        invariant
            i <= n,
            n == text@.len(),
            out@ == spec_normalize(text@.take(i as int)),
        decreases n - i,
    {
        let c = text.get_char(i);
        if c == '\u{2500}' {
            out.push('-');
        } else if c == '\u{2502}' {
            out.push('|');
        } else if c == '\u{253C}' {
            out.push('+');
        } else if c == '\u{FFFD}' {
            out.push('<');
            out.push('?');
            out.push('>');
        } else {
            out.push(c);
        }
        proof {
            assert(text@.take(i + 1).drop_last() =~= text@.take(i as int));
            assert(out@ =~= spec_normalize(text@.take(i + 1)));
        }
        i += 1;
    }
    proof {
        assert(text@.take(n as int) =~= text@);
    }
    string_from_chars(out)
}

#[verifier::external_type_specification]
#[verifier::external_body]
pub struct ExHtmlError(html2text::Error);

/// The plain text that the HTML-to-text conversion produces for a given
/// document and column width; it depends on those two arguments alone.
pub uninterp spec fn html_text_of(html: Seq<char>, width: int) -> Seq<char>;

/// Whether the HTML-to-text conversion succeeds for a given document and
/// column width; like the text itself, it depends on those two arguments
/// alone (a width too narrow for the document is the usual way it fails).
pub uninterp spec fn html_render_ok(html: Seq<char>, width: int) -> bool;

/// Relies on `html2text::from_read`: converts an HTML document to plain
/// text wrapped to `width` columns, a pure function of the document and
/// the width that succeeds or fails deterministically.
#[verifier::external_body]
fn html_to_text(html: &str, width: usize) -> (r: Result<String, html2text::Error>)
    ensures
        r is Ok <==> html_render_ok(html@, width as int),
        r matches Ok(t) ==> t@ == html_text_of(html@, width as int),
{
    html2text::from_read(html.as_bytes(), width)
}

/// The display text owed for an HTML body rendered at a given width: the
/// converted text with the line-drawing glyphs normalized.
pub open spec fn spec_rendered(html: Seq<char>, width: int) -> Seq<char> {
    spec_normalize(html_text_of(html, width))
}

/// Renders a successful response body for the terminal: picks the column
/// width from the hint (80 when absent or unparseable), converts the HTML
/// to wrapped plain text, and normalizes line-drawing glyphs to ASCII. It
/// succeeds exactly when the conversion does at that width; a conversion
/// failure is the `RenderFailed` failure.
pub fn render_response(body: &str, width_hint: Option<&str>) -> (r: Result<String, Failure>)
    ensures
        ({
            let w = spec_width(match width_hint {
                Some(s) => Some(s@),
                None => None,
            });
            &&& r is Ok <==> html_render_ok(body@, w)
            &&& (r matches Ok(t) ==> t@ == spec_rendered(body@, w))
            &&& (r matches Err(f) ==> f is RenderFailed)
        }),
{
    let width = parse_width(width_hint);
    match html_to_text(body, width) {
        Ok(t) => Ok(normalize_rendered(t.as_str())),
        Err(_) => Err(Failure::RenderFailed),
    }
}

} // verus!
