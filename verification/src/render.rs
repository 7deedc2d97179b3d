//! Scanning and output formatting for one source.
//!
//! A source is a sequence of text lines, optionally carrying a name (a file
//! path). Every line is run against the compiled pattern; a line with no
//! match produces no output, and a matching line produces exactly one output
//! line, in source order. When the source has a name and yields at least one
//! match, a banner with the name precedes the first matched line, once. Line
//! numbers, when enabled, are the 1-based position of the line within its own
//! source. When standard output is an interactive terminal, the first matched
//! span of each line is painted red and the banner cyan; when it is piped, the
//! output carries no styling at all.

use crate::numfmt::dec_digits;
use crate::numfmt::usize_to_string;
use crate::pattern::re_accepts;
use crate::pattern::re_find_parts;
use crate::pattern::Pattern;
use crate::resolve::DisplayContext;
use crate::style::cyan_prefix;
use crate::style::paint_cyan;
use crate::style::paint_red;
use crate::style::red_prefix;
use crate::style::sgr_reset;
use vstd::prelude::*;
use vstd::string::StringExecFns;

verus! {

/// The views of a sequence of owned lines.
pub open spec fn lines_view(lines: Seq<String>) -> Seq<Seq<char>> {
    lines.map_values(|l: String| l@)
}

/// The view of an optional source name.
pub open spec fn name_view(name: Option<&str>) -> Option<Seq<char>> {
    match name {
        Some(n) => Some(n@),
        None => None,
    }
}

/// The line-number prefix of the line at 1-based position `idx`.
pub open spec fn number_prefix(idx: int) -> Seq<char> {
    dec_digits(idx) + seq![':', ' ']
}

/// The body of a matched line as printed: with styling, the text before the
/// first matched span, the span painted red, and the rest unchanged; without
/// styling, the line itself, unchanged.
pub open spec fn styled_body(pat: Seq<char>, line: Seq<char>, color: bool) -> Seq<char> {
    if color {
        let parts = re_find_parts(pat, line);
        parts.0 + red_prefix() + parts.1 + sgr_reset() + parts.2
    } else {
        line
    }
}

/// One printed output line for the matching `line` at 1-based position `idx`.
pub open spec fn rendered_match(
    pat: Seq<char>,
    line: Seq<char>,
    idx: int,
    number: bool,
    color: bool,
) -> Seq<char> {
    if number {
        number_prefix(idx) + styled_body(pat, line, color)
    } else {
        styled_body(pat, line, color)
    }
}

/// The one-time banner of a named source: a blank separator, then the name,
/// painted cyan when styling is on.
pub open spec fn banner_line(name: Seq<char>, color: bool) -> Seq<char> {
    seq!['\n', '\n'] + (if color {
        cyan_prefix() + name + sgr_reset()
    } else {
        name
    })
}

/// Whether any line of the source matches the pattern.
pub open spec fn has_match(pat: Seq<char>, lines: Seq<Seq<char>>) -> bool {
    exists|i: int| 0 <= i < lines.len() && #[trigger] re_accepts(pat, lines[i])
}

/// The printed lines for the matched lines of a source, in source order:
/// each matching line contributes exactly one rendered line, a line with no
/// match contributes nothing.
pub open spec fn body_out(pat: Seq<char>, lines: Seq<Seq<char>>, number: bool, color: bool) -> Seq<
    Seq<char>,
>
    decreases lines.len(),
{
    if lines.len() == 0 {
        Seq::empty()
    } else {
        body_out(pat, lines.drop_last(), number, color) + (if re_accepts(pat, lines.last()) {
            seq![rendered_match(pat, lines.last(), lines.len() as int, number, color)]
        } else {
            Seq::empty()
        })
    }
}

/// Everything printed for one source: the banner, exactly when the source is
/// named and has a match, followed by the rendered matched lines.
pub open spec fn render_out(
    pat: Seq<char>,
    lines: Seq<Seq<char>>,
    name: Option<Seq<char>>,
    number: bool,
    color: bool,
) -> Seq<Seq<char>> {
    match name {
        Some(n) => if has_match(pat, lines) {
            seq![banner_line(n, color)] + body_out(pat, lines, number, color)
        } else {
            body_out(pat, lines, number, color)
        },
        None => body_out(pat, lines, number, color),
    }
}

/// The 0-based positions of the matching lines of a source, in ascending
/// order.
pub open spec fn matching_indices(pat: Seq<char>, lines: Seq<Seq<char>>) -> Seq<int>
    decreases lines.len(),
{
    if lines.len() == 0 {
        Seq::empty()
    } else {
        matching_indices(pat, lines.drop_last()) + (if re_accepts(pat, lines.last()) {
            seq![lines.len() - 1]
        } else {
            Seq::empty()
        })
    }
}

/// The matching indices are exactly the positions of the matching lines:
/// every entry is the position of a matching line, they are strictly
/// ascending (so no position appears twice), and every matching position
/// appears.
pub proof fn lemma_matching_indices(pat: Seq<char>, lines: Seq<Seq<char>>)
    ensures
        forall|k: int|
            0 <= k < matching_indices(pat, lines).len() ==> {
                let idx = #[trigger] matching_indices(pat, lines)[k];
                0 <= idx < lines.len() && re_accepts(pat, lines[idx])
            },
        forall|k1: int, k2: int|
            0 <= k1 < k2 < matching_indices(pat, lines).len() ==> #[trigger] matching_indices(
                pat,
                lines,
            )[k1] < #[trigger] matching_indices(pat, lines)[k2],
        forall|i: int|
            0 <= i < lines.len() && #[trigger] re_accepts(pat, lines[i])
                ==> matching_indices(pat, lines).contains(i),
    decreases lines.len(),
{
    if lines.len() > 0 {
        let prefix = lines.drop_last();
        lemma_matching_indices(pat, prefix);
        let mi = matching_indices(pat, lines);
        let mip = matching_indices(pat, prefix);
        assert(forall|k: int| 0 <= k < mip.len() ==> mi[k] == mip[k]);
        assert forall|i: int|
            0 <= i < lines.len() && #[trigger] re_accepts(pat, lines[i]) implies mi.contains(
            i,
        ) by {
            if i < lines.len() - 1 {
                assert(prefix[i] == lines[i]);
                assert(mip.contains(i));
                let k = choose|k: int| 0 <= k < mip.len() && mip[k] == i;
                assert(mi[k] == i);
            } else {
                assert(mi[mi.len() - 1] == i);
            }
        }
    }
}

/// The printed body of a source is exactly the sequence of its matching
/// lines, in source order, each rendered once with its own 1-based position:
/// a line with zero matches never appears, and a line with one or more
/// matches appears exactly once.
pub proof fn lemma_body_out_exact(pat: Seq<char>, lines: Seq<Seq<char>>, number: bool, color: bool)
    ensures
        body_out(pat, lines, number, color) == matching_indices(pat, lines).map_values(
            |i: int| rendered_match(pat, lines[i], i + 1, number, color),
        ),
    decreases lines.len(),
{
    let f = |i: int| rendered_match(pat, lines[i], i + 1, number, color);
    if lines.len() == 0 {
        assert(body_out(pat, lines, number, color) =~= matching_indices(pat, lines).map_values(f));
    } else {
        let prefix = lines.drop_last();
        lemma_body_out_exact(pat, prefix, number, color);
        lemma_matching_indices(pat, prefix);
        let fp = |i: int| rendered_match(pat, prefix[i], i + 1, number, color);
        let mip = matching_indices(pat, prefix);
        assert(mip.map_values(fp) =~= mip.map_values(f)) by {
            assert(forall|k: int|
                0 <= k < mip.len() ==> #[trigger] prefix[mip[k]] == lines[mip[k]]);
        }
        assert(body_out(pat, lines, number, color) =~= matching_indices(pat, lines).map_values(f));
    }
}

/// A line-number prefix, when enabled, equals the 1-based position of the
/// line within its own source. Rendering sees only that one source's lines,
/// so the position cannot depend on how many prior sources were processed.
pub proof fn lemma_line_number_is_position(
    pat: Seq<char>,
    lines: Seq<Seq<char>>,
    color: bool,
    k: int,
)
    requires
        0 <= k < body_out(pat, lines, true, color).len(),
    ensures
        ({
            let idx = matching_indices(pat, lines)[k];
            &&& 0 <= idx < lines.len()
            &&& re_accepts(pat, lines[idx])
            &&& body_out(pat, lines, true, color)[k] == number_prefix(idx + 1) + styled_body(
                pat,
                lines[idx],
                color,
            )
        }),
{
    lemma_body_out_exact(pat, lines, true, color);
    lemma_matching_indices(pat, lines);
}

/// A source none of whose lines match prints nothing at all.
pub proof fn lemma_no_match_no_output(
    pat: Seq<char>,
    lines: Seq<Seq<char>>,
    number: bool,
    color: bool,
)
    requires
        !has_match(pat, lines),
    ensures
        body_out(pat, lines, number, color) == Seq::<Seq<char>>::empty(),
    decreases lines.len(),
{
    if lines.len() > 0 {
        let prefix = lines.drop_last();
        assert(forall|i: int| 0 <= i < prefix.len() ==> prefix[i] == lines[i]);
        assert(!re_accepts(pat, lines[lines.len() - 1]));
        lemma_no_match_no_output(pat, prefix, number, color);
        assert(body_out(pat, lines, number, color) =~= Seq::<Seq<char>>::empty());
    }
}

/// The banner of a named source appears exactly once when the source has a
/// match, before all of its matched lines, and a named source with no match
/// prints nothing, banner included. An unnamed source never gets a banner.
pub proof fn lemma_banner_once(
    pat: Seq<char>,
    lines: Seq<Seq<char>>,
    name: Seq<char>,
    number: bool,
    color: bool,
)
    ensures
        has_match(pat, lines) ==> render_out(pat, lines, Some(name), number, color) == seq![
            banner_line(name, color),
        ] + body_out(pat, lines, number, color),
        !has_match(pat, lines) ==> render_out(pat, lines, Some(name), number, color) == Seq::<
            Seq<char>,
        >::empty(),
{
    if !has_match(pat, lines) {
        lemma_no_match_no_output(pat, lines, number, color);
    }
}

/// The decimal text of a number carries no styling.
proof fn lemma_dec_digits_unstyled(n: int)
    requires
        n >= 0,
    ensures
        !crate::style::has_styling(dec_digits(n)),
{
    crate::numfmt::lemma_dec_digits_are_digits(n);
}

/// A line-number prefix carries no styling.
proof fn lemma_number_prefix_unstyled(idx: int)
    requires
        idx >= 0,
    ensures
        !crate::style::has_styling(number_prefix(idx)),
{
    lemma_dec_digits_unstyled(idx);
    crate::style::lemma_unstyled_concat(dec_digits(idx), seq![':', ' ']);
}

/// When output is piped, nothing printed carries any ANSI styling: as long as
/// the source's own lines and name are free of the escape character, so is
/// every emitted line.
pub proof fn lemma_piped_output_unstyled(
    pat: Seq<char>,
    lines: Seq<Seq<char>>,
    name: Option<Seq<char>>,
    number: bool,
)
    requires
        forall|i: int| 0 <= i < lines.len() ==> !crate::style::has_styling(#[trigger] lines[i]),
        name matches Some(n) ==> !crate::style::has_styling(n),
    ensures
        forall|k: int|
            0 <= k < render_out(pat, lines, name, number, false).len() ==> !crate::style::has_styling(
                #[trigger] render_out(pat, lines, name, number, false)[k],
            ),
{
    lemma_body_out_exact(pat, lines, number, false);
    lemma_matching_indices(pat, lines);
    let body = body_out(pat, lines, number, false);
    assert forall|k: int| 0 <= k < body.len() implies !crate::style::has_styling(#[trigger] body[k]) by {
        let idx = matching_indices(pat, lines)[k];
        assert(body[k] == rendered_match(pat, lines[idx], idx + 1, number, false));
        if number {
            lemma_number_prefix_unstyled(idx + 1);
            crate::style::lemma_unstyled_concat(number_prefix(idx + 1), lines[idx]);
        }
    }
    match name {
        Some(n) => {
            if has_match(pat, lines) {
                crate::style::lemma_unstyled_concat(seq!['\n', '\n'], n);
                let out = render_out(pat, lines, name, number, false);
                assert(out[0] == banner_line(n, false));
                assert(forall|k: int| 1 <= k < out.len() ==> out[k] == body[k - 1]);
            } else {
                lemma_no_match_no_output(pat, lines, number, false);
            }
        },
        None => {
        },
    }
}

/// When output is interactive, a rendered match is the text before the first
/// matched span, then the span wrapped in the red prefix and the reset
/// suffix, then the rest of the line unchanged, after the optional number
/// prefix; nothing else of the line is styled.
pub proof fn lemma_styled_match_shape(pat: Seq<char>, line: Seq<char>, idx: int, number: bool)
    ensures
        rendered_match(pat, line, idx, number, true) == (if number {
            number_prefix(idx)
        } else {
            Seq::<char>::empty()
        }) + re_find_parts(pat, line).0 + red_prefix() + re_find_parts(pat, line).1 + sgr_reset()
            + re_find_parts(pat, line).2,
{
    assert(rendered_match(pat, line, idx, number, true) =~= (if number {
        number_prefix(idx)
    } else {
        Seq::<char>::empty()
    }) + re_find_parts(pat, line).0 + red_prefix() + re_find_parts(pat, line).1 + sgr_reset()
        + re_find_parts(pat, line).2);
}

/// Render one matching line, with its optional number prefix and optional
/// styling.
fn format_match(p: &Pattern, line: &str, idx: usize, number: bool, color: bool) -> (r: String)
    requires
        re_accepts(p.source(), line@),
    ensures
        r@ == rendered_match(p.source(), line@, idx as int, number, color),
{
    let body: String = if color {
        match p.find_split(line) {
            Some((pre, mat, post)) => {
                let painted = paint_red(mat.as_str());
                pre.concat(painted.as_str()).concat(post.as_str())
            },
            None => {
                proof {
                    assert(false);
                }
                line.to_owned()
            },
        }
    } else {
        line.to_owned()
    };
    if number {
        proof {
            reveal_strlit(": ");
        }
        let r = usize_to_string(idx).concat(": ").concat(body.as_str());
        proof {
            assert(r@ =~= rendered_match(p.source(), line@, idx as int, number, color));
        }
        r
    } else {
        body
    }
}

/// Scan the lines of one source against the pattern and render everything the
/// source prints: the rendered matched lines in source order, preceded by the
/// one-time banner exactly when the source is named and something matched.
/// Styling is used exactly when standard output is not piped.
pub fn render_source(
    p: &Pattern,
    lines: &Vec<String>,
    name: Option<&str>,
    ctx: &DisplayContext,
) -> (r: Vec<String>)
    ensures
        lines_view(r@) == render_out(
            p.source(),
            lines_view(lines@),
            name_view(name),
            ctx.show_numbers,
            !ctx.stdout_piped,
        ),
{
    let number = ctx.show_numbers;
    let color = !ctx.stdout_piped;
    let ghost pat = p.source();
    let ghost lv = lines_view(lines@);
    let mut body: Vec<String> = Vec::new();
    let mut matched = false;
    let mut i: usize = 0;
    while i < lines.len()
        invariant
            i <= lines.len(),
            pat == p.source(),
            lv == lines_view(lines@),
            number == ctx.show_numbers,
            color == !ctx.stdout_piped,
            matched == has_match(pat, lv.take(i as int)),
            lines_view(body@) == body_out(pat, lv.take(i as int), number, color),
        decreases lines.len() - i,
    {
        proof {
            assert(lv.take((i + 1) as int).drop_last() =~= lv.take(i as int));
            assert(lv.take((i + 1) as int).last() == lv[i as int]);
        }
        let line: &String = &lines[i];
        if p.is_match(line.as_str()) {
            let rendered = format_match(p, line.as_str(), i + 1, number, color);
            body.push(rendered);
            matched = true;
            proof {
                assert(re_accepts(pat, lv.take((i + 1) as int)[i as int]));
                assert(lines_view(body@) =~= body_out(pat, lv.take((i + 1) as int), number, color));
            }
        } else {
            proof {
                if has_match(pat, lv.take((i + 1) as int)) {
                    let j = choose|j: int|
                        0 <= j < i + 1 && #[trigger] re_accepts(pat, lv.take((i + 1) as int)[j]);
                    assert(j < i);
                    assert(re_accepts(pat, lv.take(i as int)[j]));
                }
                if has_match(pat, lv.take(i as int)) {
                    let j = choose|j: int|
                        0 <= j < i && #[trigger] re_accepts(pat, lv.take(i as int)[j]);
                    assert(re_accepts(pat, lv.take((i + 1) as int)[j]));
                }
                assert(lines_view(body@) =~= body_out(pat, lv.take((i + 1) as int), number, color));
            }
        }
        i += 1;
    }
    proof {
        assert(lv.take(lines.len() as int) =~= lv);
    }
    match name {
        Some(n) => {
            if matched {
                let styled_name: String = if color {
                    paint_cyan(n)
                } else {
                    n.to_owned()
                };
                proof {
                    reveal_strlit("\n\n");
                }
                let banner = "\n\n".to_owned().concat(styled_name.as_str());
                proof {
                    assert(banner@ =~= banner_line(n@, color));
                }
                let mut out: Vec<String> = Vec::new();
                out.push(banner);
                out.append(&mut body);
                proof {
                    assert(lines_view(out@) =~= render_out(
                        pat,
                        lv,
                        name_view(name),
                        number,
                        color,
                    ));
                }
                out
            } else {
                body
            }
        },
        None => body,
    }
}

} // verus!
