//! The tolerant response parser: extracts a single code block from one raw,
//! inconsistently delimited model completion.
//!
//! Policy for a missing closing solution marker: the whole text is treated
//! as the candidate rather than failing, so parsing always succeeds and
//! `ErrorKind::NoSolutionMarker` is never produced.

use crate::text::{
    ends_with, find_from, find_str, lemma_find_from_some, replace_all, replace_all_str,
    starts_with, str_ends_with, trim, trim_str,
};
use vstd::prelude::*;

verus! {

/// The candidate text: everything before the first closing solution
/// marker, or the whole text when the marker is absent.
pub open spec fn before_solution_marker(s: Seq<char>) -> Seq<char> {
    match find_from(s, "</solution>"@, 0) {
        Some(i) => s.subrange(0, i),
        None => s,
    }
}

/// One trailing carriage return removed, as lines end in `\n` or `\r\n`.
pub open spec fn strip_cr(l: Seq<char>) -> Seq<char> {
    if l.len() > 0 && l[l.len() - 1] == '\r' {
        l.drop_last()
    } else {
        l
    }
}

/// The text split at newlines.
pub open spec fn split_lines(s: Seq<char>) -> Seq<Seq<char>>
    decreases s.len(),
        via split_lines_decreases
{
    match find_from(s, seq!['\n'], 0) {
        None => seq![s],
        Some(i) => seq![strip_cr(s.subrange(0, i))] + split_lines(
            s.subrange(i + 1, s.len() as int),
        ),
    }
}

#[via_fn]
proof fn split_lines_decreases(s: Seq<char>) {
    match find_from(s, seq!['\n'], 0) {
        Some(i) => lemma_find_from_some(s, seq!['\n'], 0, i),
        None => {},
    }
}

/// A line survives filtering when it is not blank after trimming and is
/// not a fenced-code delimiter (it does not start, after trimming, with
/// a triple backtick).
pub open spec fn line_kept(l: Seq<char>) -> bool {
    trim(l).len() > 0 && !starts_with(trim(l), "```"@)
}

/// The lines that survive filtering, in their original order.
pub open spec fn kept_lines(ls: Seq<Seq<char>>) -> Seq<Seq<char>>
    decreases ls.len(),
{
    if ls.len() == 0 {
        Seq::empty()
    } else if line_kept(ls[0]) {
        seq![ls[0]] + kept_lines(ls.drop_first())
    } else {
        kept_lines(ls.drop_first())
    }
}

/// The lines rejoined with single newline separators and no trailing
/// separator.
pub open spec fn join_lines(ls: Seq<Seq<char>>) -> Seq<char>
    decreases ls.len(),
{
    if ls.len() == 0 {
        Seq::empty()
    } else if ls.len() == 1 {
        ls[0]
    } else {
        ls[0] + seq!['\n'] + join_lines(ls.drop_first())
    }
}

/// What `parse_code` extracts: the candidate before the closing solution
/// marker, with literal code tags removed, blank and fence lines dropped,
/// and the remaining lines rejoined in order.
pub open spec fn spec_parse_code(s: Seq<char>) -> Seq<char> {
    join_lines(
        kept_lines(
            split_lines(
                replace_all(
                    replace_all(before_solution_marker(s), "<code>"@, Seq::empty()),
                    "</code>"@,
                    Seq::empty(),
                ),
            ),
        ),
    )
}

/// Whether a file name denotes a raw model completion artifact.
pub fn is_raw_output(filename: &str) -> (b: bool)
    ensures
        b == ends_with(filename@, ".rawoutput"@),
{
    str_ends_with(filename, ".rawoutput")
}

fn take_before_marker(s: &str) -> (r: String)
    ensures
        r@ == before_solution_marker(s@),
{
    proof {
        reveal_strlit("</solution>");
    }
    match find_str(s, "</solution>") {
        None => s.to_owned(),
        Some(i) => {
            proof {
                lemma_find_from_some(s@, "</solution>"@, 0, i as int);
            }
            s.substring_char(0, i).to_owned()
        },
    }
}

fn line_kept_exec(l: &str) -> (b: bool)
    ensures
        b == line_kept(l@),
{
    let t = trim_str(l);
    let ts = t.as_str();
    let tlen = ts.unicode_len();
    if tlen == 0 {
        return false;
    }
    proof {
        reveal_strlit("```");
    }
    if tlen >= 3 && ts.get_char(0) == '`' && ts.get_char(1) == '`' && ts.get_char(2) == '`' {
        proof {
            assert(t@.subrange(0, 3) =~= "```"@);
        }
        return false;
    }
    proof {
        if starts_with(trim(l@), "```"@) {
            assert(t@.subrange(0, 3)[0] == t@[0]);
            assert(t@.subrange(0, 3)[1] == t@[1]);
            assert(t@.subrange(0, 3)[2] == t@[2]);
        }
    }
    true
}

fn split_lines_exec(s: &str) -> (ls: Vec<String>)
    ensures
        ls.deep_view() == split_lines(s@),
    decreases s@.len(),
{
    proof {
        reveal_strlit("\n");
        assert("\n"@ =~= seq!['\n']);
    }
    match find_str(s, "\n") {
        None => {
            let mut v: Vec<String> = Vec::new();
            v.push(s.to_owned());
            proof {
                assert(v.deep_view() =~= split_lines(s@));
            }
            v
        },
        Some(i) => {
            proof {
                lemma_find_from_some(s@, seq!['\n'], 0, i as int);
            }
            let slen = s.unicode_len();
            let chunk = if i > 0 && s.get_char(i - 1) == '\r' {
                s.substring_char(0, i - 1)
            } else {
                s.substring_char(0, i)
            };
            proof {
                if i > 0 && s@[i - 1] == '\r' {
                    assert(s@.subrange(0, i as int).drop_last() =~= s@.subrange(0, i - 1));
                }
                assert(chunk@ == strip_cr(s@.subrange(0, i as int)));
            }
            let rest = s.substring_char(i + 1, slen);
            let mut v = split_lines_exec(rest);
            v.insert(0, chunk.to_owned());
            proof {
                assert(v.deep_view() =~= split_lines(s@));
            }
            v
        },
    }
}

fn filter_kept(ls: &Vec<String>, start: usize) -> (out: Vec<String>)
    requires
        start <= ls.len(),
    ensures
        out.deep_view() == kept_lines(ls.deep_view().skip(start as int)),
    decreases ls.len() - start,
{
    if start == ls.len() {
        let v: Vec<String> = Vec::new();
        proof {
            assert(v.deep_view() =~= kept_lines(ls.deep_view().skip(start as int)));
        }
        v
    } else {
        let mut rest = filter_kept(ls, start + 1);
        proof {
            assert(ls.deep_view().skip(start as int).drop_first() =~= ls.deep_view().skip(
                start as int + 1,
            ));
        }
        if line_kept_exec(ls[start].as_str()) {
            rest.insert(0, ls[start].clone());
            proof {
                assert(rest.deep_view() =~= kept_lines(ls.deep_view().skip(start as int)));
            }
        } else {
            proof {
                assert(rest.deep_view() =~= kept_lines(ls.deep_view().skip(start as int)));
            }
        }
        rest
    }
}

fn join_lines_exec(ls: &Vec<String>, start: usize) -> (out: String)
    requires
        start <= ls.len(),
    ensures
        out@ == join_lines(ls.deep_view().skip(start as int)),
    decreases ls.len() - start,
{
    if start == ls.len() {
        let out = String::new();
        proof {
            assert(ls.deep_view().skip(start as int).len() == 0);
        }
        out
    } else if start + 1 == ls.len() {
        let out = ls[start].clone();
        proof {
            assert(ls.deep_view().skip(start as int).len() == 1);
            assert(ls.deep_view().skip(start as int)[0] == ls[start as int]@);
        }
        out
    } else {
        let mut out = ls[start].clone();
        proof {
            reveal_strlit("\n");
            assert("\n"@ =~= seq!['\n']);
        }
        out.append("\n");
        let tail = join_lines_exec(ls, start + 1);
        out.append(tail.as_str());
        proof {
            assert(ls.deep_view().skip(start as int).drop_first() =~= ls.deep_view().skip(
                start as int + 1,
            ));
            assert(out@ =~= join_lines(ls.deep_view().skip(start as int)));
        }
        out
    }
}

/// Extracts the code block from one raw completion: takes the text before
/// the first closing solution marker (all of it when the marker is
/// absent), removes literal open and close code tags, drops lines that
/// are blank after trimming and fenced-code delimiter lines, and rejoins
/// the remaining lines with newlines, adding no trailing separator.
pub fn parse_code(raw: &str) -> (code: String)
    ensures
        code@ == spec_parse_code(raw@),
{
    let candidate = take_before_marker(raw);
    proof {
        reveal_strlit("<code>");
        reveal_strlit("</code>");
        reveal_strlit("");
        assert(""@ =~= Seq::<char>::empty());
    }
    let no_open = replace_all_str(candidate.as_str(), "<code>", "");
    let no_close = replace_all_str(no_open.as_str(), "</code>", "");
    let lines = split_lines_exec(no_close.as_str());
    let kept = filter_kept(&lines, 0);
    let out = join_lines_exec(&kept, 0);
    proof {
        assert(lines.deep_view().skip(0) =~= lines.deep_view());
        assert(kept.deep_view().skip(0) =~= kept.deep_view());
    }
    out
}

} // verus!
