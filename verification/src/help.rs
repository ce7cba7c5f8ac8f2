use vstd::prelude::*;
use crate::text::{lemma_filter_push, push_char, views};
use crate::config::opt_view;

verus! {

/// The pieces of a text between its `\n` characters, as `str::split('\n')`
/// gives them: one more piece than there are line breaks.
pub open spec fn split_lines(s: Seq<char>) -> Seq<Seq<char>>
    decreases s.len(),
{
    if s.len() == 0 {
        seq![Seq::<char>::empty()]
    } else {
        let r = split_lines(s.drop_last());
        if s.last() == '\n' {
            r.push(Seq::<char>::empty())
        } else {
            r.update(r.len() - 1, r.last().push(s.last()))
        }
    }
}

proof fn lemma_split_lines_nonempty(s: Seq<char>)
    ensures
        split_lines(s).len() >= 1,
    decreases s.len(),
{
    if s.len() > 0 {
        lemma_split_lines_nonempty(s.drop_last());
    }
}

/// Split a text at its `\n` characters (see [`split_lines`]).
pub fn lines(s: &str) -> (r: Vec<String>)
    ensures
        views(r@) == split_lines(s@),
{
    let n = s.unicode_len();
    let mut done: Vec<String> = Vec::new();
    let mut cur = String::new();
    let mut i: usize = 0;
    while i < n
        invariant
            n == s@.len(),
            i <= n,
            split_lines(s@.subrange(0, i as int)) == views(done@).push(cur@),
        decreases n - i,
    {
        let c = s.get_char(i);
        let ghost pre = s@.subrange(0, i as int);
        assert(s@.subrange(0, i + 1).drop_last() =~= pre);
        proof {
            lemma_split_lines_nonempty(pre);
        }
        if c == '\n' {
            let ghost d = views(done@);
            done.push(cur);
            cur = String::new();
            assert(views(done@) =~= d.push(split_lines(pre).last()));
        } else {
            let ghost d = views(done@);
            push_char(&mut cur, c);
            assert(d.push(cur@) =~= split_lines(pre).update(split_lines(pre).len() - 1, split_lines(pre).last().push(c)));
        }
        i = i + 1;
    }
    assert(s@.subrange(0, n as int) =~= s@);
    let ghost d = views(done@);
    done.push(cur);
    assert(views(done@) =~= d.push(cur@));
    done
}

/// A line of the help text that documents an option: it starts with `  -`
/// (a short option) or `      --` (a long option only).
pub open spec fn is_option_line(l: Seq<char>) -> bool {
    "  -"@.is_prefix_of(l) || "      --"@.is_prefix_of(l)
}

/// Whether the text starts with the prefix.
fn has_prefix(s: &str, prefix: &str) -> (r: bool)
    ensures
        r == prefix@.is_prefix_of(s@),
{
    let n = prefix.unicode_len();
    if n > s.unicode_len() {
        return false;
    }
    let mut i: usize = 0;
    while i < n
        invariant
            n == prefix@.len(),
            n <= s@.len(),
            i <= n,
            forall|k: int| 0 <= k < i ==> prefix@[k] == s@[k],
        decreases n - i,
    {
        if prefix.get_char(i) != s.get_char(i) {
            return false;
        }
        i = i + 1;
    }
    true
}

/// The lines of a rendered help text that document options, in order.
pub fn usage_option_lines(help: &str) -> (r: Vec<String>)
    ensures
        views(r@) == split_lines(help@).filter(|l: Seq<char>| is_option_line(l)),
{
    let all = lines(help);
    let ghost v = views(all@);
    let ghost keep = |l: Seq<char>| is_option_line(l);
    let mut out: Vec<String> = Vec::new();
    let n = all.len();
    let mut i: usize = 0;
    while i < n
        invariant
            n == all@.len(),
            v == views(all@),
            v == split_lines(help@),
            keep == (|l: Seq<char>| is_option_line(l)),
            i <= n,
            views(out@) == v.subrange(0, i as int).filter(keep),
        decreases n - i,
    {
        let l = &all[i];
        proof {
            let pre = v.subrange(0, i as int);
            assert(v.subrange(0, i + 1) =~= pre.push(l@));
            lemma_filter_push(pre, keep, l@);
        }
        if has_prefix(l.as_str(), "  -") || has_prefix(l.as_str(), "      --") {
            let ghost before = views(out@);
            out.push(l.clone());
            assert(views(out@) =~= before.push(l@));
        }
        i = i + 1;
    }
    assert(v.subrange(0, n as int) =~= v);
    out
}

/// A text with every `\n\n` replaced by `\n`, scanning from the left
/// without overlap, as `str::replace("\n\n", "\n")` does.
pub open spec fn blank_lines_collapsed(s: Seq<char>) -> Seq<char>
    decreases s.len(),
{
    if s.len() >= 2 && s[0] == '\n' && s[1] == '\n' {
        seq!['\n'] + blank_lines_collapsed(s.skip(2))
    } else if s.len() == 0 {
        s
    } else {
        seq![s[0]] + blank_lines_collapsed(s.skip(1))
    }
}

/// Replace every `\n\n` by `\n` (see [`blank_lines_collapsed`]).
pub fn collapse_blank_lines(s: &str) -> (r: String)
    ensures
        r@ == blank_lines_collapsed(s@),
{
    let n = s.unicode_len();
    let mut out = String::new();
    let mut i: usize = 0;
    assert(s@.skip(0) =~= s@);
    assert(out@ + blank_lines_collapsed(s@) =~= blank_lines_collapsed(s@));
    while i < n
        invariant
            n == s@.len(),
            i <= n,
            out@ + blank_lines_collapsed(s@.skip(i as int)) == blank_lines_collapsed(s@),
        decreases n - i,
    {
        let ghost rest = s@.skip(i as int);
        let c = s.get_char(i);
        if c == '\n' && i + 1 < n && s.get_char(i + 1) == '\n' {
            assert(rest.skip(2) =~= s@.skip(i + 2));
            assert(out@.push('\n') + blank_lines_collapsed(s@.skip(i + 2)) =~= out@ + blank_lines_collapsed(rest));
            push_char(&mut out, '\n');
            i = i + 2;
        } else {
            assert(rest.skip(1) =~= s@.skip(i + 1));
            assert(out@.push(c) + blank_lines_collapsed(s@.skip(i + 1)) =~= out@ + blank_lines_collapsed(rest));
            push_char(&mut out, c);
            i = i + 1;
        }
    }
    assert(s@.skip(n as int) =~= Seq::<char>::empty());
    assert(out@ + blank_lines_collapsed(s@.skip(n as int)) =~= out@);
    out
}

/// What `regex::Regex::replace_all` makes of a text with a pattern and a
/// replacement: `None` when the pattern does not compile, otherwise the text
/// with every match, leftmost first and without overlap, replaced (`$name`
/// in the replacement standing for the named group).
pub uninterp spec fn regex_replaced(pattern: Seq<char>, text: Seq<char>, replacement: Seq<char>) -> Option<Seq<char>>;

/// `regex::Regex::new` followed by `Regex::replace_all`. Nothing is stated
/// of regular-expression matching beyond the name [`regex_replaced`].
#[verifier::external_body]
fn regex_replace_all(pattern: &str, text: &str, replacement: &str) -> (r: Option<String>)
    ensures
        opt_view(r) == regex_replaced(pattern@, text@, replacement@),
{
    match regex::Regex::new(pattern) {
        Ok(re) => Some(re.replace_all(text, replacement).into_owned()),
        Err(_) => None,
    }
}

/// A detail paragraph of the help text: a run of spaces, `Details::`, and
/// the shortest text up to the next line that starts `PS:`, `  -` or
/// `      --`; that line start is kept as the group `keep`.
pub const DETAILS_PATTERN: &'static str = "(?P<del>[ ]+Details::[\\S\\s]*?)(?P<keep>\\nPS:|\\n  -|\\n      --)";

/// Each detail paragraph is replaced by the line start that ends it.
pub const DETAILS_REPLACEMENT: &'static str = "$keep";

/// The help text with every detail paragraph removed (see
/// [`DETAILS_PATTERN`]); `None` when the pattern does not compile.
pub open spec fn details_stripped(s: Seq<char>) -> Option<Seq<char>> {
    regex_replaced(DETAILS_PATTERN@, s, DETAILS_REPLACEMENT@)
}

/// The short help: the full help text without its detail paragraphs and
/// without empty lines; `None` when the detail pattern does not compile.
pub fn condense_help(help: &str) -> (r: Option<String>)
    ensures
        opt_view(r) == (match details_stripped(help@) {
            Some(t) => Some(blank_lines_collapsed(t)),
            None => None,
        }),
{
    match regex_replace_all(DETAILS_PATTERN, help, DETAILS_REPLACEMENT) {
        Some(stripped) => Some(collapse_blank_lines(stripped.as_str())),
        None => None,
    }
}

} // verus!
