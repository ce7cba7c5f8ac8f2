use vstd::prelude::*;

verus! {

/// Characters with the Unicode `White_Space` property.
pub open spec fn is_white_space(c: char) -> bool {
    ||| ('\u{9}' <= c && c <= '\u{d}')
    ||| c == ' '
    ||| c == '\u{85}'
    ||| c == '\u{a0}'
    ||| c == '\u{1680}'
    ||| ('\u{2000}' <= c && c <= '\u{200a}')
    ||| c == '\u{2028}'
    ||| c == '\u{2029}'
    ||| c == '\u{202f}'
    ||| c == '\u{205f}'
    ||| c == '\u{3000}'
}

/// A text made of white space only (possibly empty): its trimmed form is empty.
pub open spec fn is_blank(s: Seq<char>) -> bool {
    forall|i: int| 0 <= i < s.len() ==> is_white_space(#[trigger] s[i])
}

/// The text without its leading white space.
pub open spec fn trim_start(s: Seq<char>) -> Seq<char>
    decreases s.len(),
{
    if s.len() > 0 && is_white_space(s[0]) {
        trim_start(s.drop_first())
    } else {
        s
    }
}

/// The text without its trailing white space.
pub open spec fn trim_end(s: Seq<char>) -> Seq<char>
    decreases s.len(),
{
    if s.len() > 0 && is_white_space(s.last()) {
        trim_end(s.drop_last())
    } else {
        s
    }
}

/// The text without leading and trailing white space.
pub open spec fn trimmed(s: Seq<char>) -> Seq<char> {
    trim_end(trim_start(s))
}

/// The text with every white-space character removed.
pub open spec fn without_white_space(s: Seq<char>) -> Seq<char> {
    s.filter(|c: char| !is_white_space(c))
}

/// Whether the text starts with the character.
pub open spec fn starts_with_char(s: Seq<char>, c: char) -> bool {
    s.len() > 0 && s[0] == c
}

/// Whether the text ends with the character.
pub open spec fn ends_with_char(s: Seq<char>, c: char) -> bool {
    s.len() > 0 && s.last() == c
}

/// How often the character occurs in the text.
pub open spec fn count_char(s: Seq<char>, c: char) -> nat
    decreases s.len(),
{
    if s.len() == 0 {
        0
    } else {
        count_char(s.drop_last(), c) + if s.last() == c { 1nat } else { 0nat }
    }
}

/// Whether the character has the Unicode `White_Space` property, as
/// `char::is_whitespace` decides it.
pub fn char_is_whitespace(c: char) -> (b: bool)
    ensures
        b == is_white_space(c),
{
    ('\u{9}' <= c && c <= '\u{d}')
        || c == ' '
        || c == '\u{85}'
        || c == '\u{a0}'
        || c == '\u{1680}'
        || ('\u{2000}' <= c && c <= '\u{200a}')
        || c == '\u{2028}'
        || c == '\u{2029}'
        || c == '\u{202f}'
        || c == '\u{205f}'
        || c == '\u{3000}'
}

/// `String::push`: appends one character at the end.
#[verifier::external_body]
pub(crate) fn push_char(s: &mut String, c: char)
    ensures
        final(s)@ == old(s)@.push(c),
{
    s.push(c)
}

/// `String::pop`: removes the last character and returns it, or returns
/// `None` and leaves the text as it is when it is empty.
#[verifier::external_body]
pub(crate) fn pop_char(s: &mut String) -> (c: Option<char>)
    ensures
        old(s)@.len() == 0 ==> c is None && final(s)@ == old(s)@,
        old(s)@.len() > 0 ==> c == Some(old(s)@.last()) && final(s)@ == old(s)@.drop_last(),
{
    s.pop()
}

/// What `str::to_lowercase` makes of a text (full Unicode lowercase mapping).
pub uninterp spec fn lowercase(s: Seq<char>) -> Seq<char>;

/// A text of ASCII characters only.
pub open spec fn is_ascii_text(s: Seq<char>) -> bool {
    forall|i: int| 0 <= i < s.len() ==> (#[trigger] s[i] as u32) < 128
}

/// The ASCII lowercase of a character: `A` to `Z` become `a` to `z`, every
/// other character stays.
pub open spec fn ascii_lower_char(c: char) -> char {
    if 'A' <= c && c <= 'Z' {
        ((c as u32) + 32) as char
    } else {
        c
    }
}

/// A text with every character mapped by [`ascii_lower_char`].
pub open spec fn ascii_lowered(s: Seq<char>) -> Seq<char> {
    s.map_values(|c: char| ascii_lower_char(c))
}

/// `str::to_lowercase`: the text mapped to lowercase by the Unicode rules.
/// Beyond its name, [`lowercase`], only this is stated: an ASCII text is
/// lowercased character by character, `A` to `Z` becoming `a` to `z`.
#[verifier::external_body]
pub(crate) fn to_lowercase(s: &str) -> (r: String)
    ensures
        r@ == lowercase(s@),
        is_ascii_text(s@) ==> r@ == ascii_lowered(s@),
{
    s.to_lowercase()
}

/// Whether the two texts are equal.
pub fn str_equal(a: &str, b: &str) -> (r: bool)
    ensures
        r == (a@ == b@),
{
    let n = a.unicode_len();
    if n != b.unicode_len() {
        return false;
    }
    let mut i: usize = 0;
    while i < n
        invariant
            n == a@.len(),
            n == b@.len(),
            i <= n,
            forall|k: int| 0 <= k < i ==> a@[k] == b@[k],
        decreases n - i,
    {
        if a.get_char(i) != b.get_char(i) {
            return false;
        }
        i = i + 1;
    }
    assert(a@ =~= b@);
    true
}

/// Whether the text starts with the character.
pub fn has_first_char(s: &str, c: char) -> (r: bool)
    ensures
        r == starts_with_char(s@, c),
{
    let n = s.unicode_len();
    n > 0 && s.get_char(0) == c
}

/// Whether the text ends with the character.
pub fn has_last_char(s: &str, c: char) -> (r: bool)
    ensures
        r == ends_with_char(s@, c),
{
    let n = s.unicode_len();
    n > 0 && s.get_char(n - 1) == c
}

/// How often the character occurs in the text.
pub fn occurrences(s: &str, c: char) -> (r: usize)
    ensures
        r == count_char(s@, c),
{
    let n = s.unicode_len();
    let mut i: usize = 0;
    let mut k: usize = 0;
    while i < n
        invariant
            n == s@.len(),
            i <= n,
            k == count_char(s@.subrange(0, i as int), c),
            k <= i,
        decreases n - i,
    {
        assert(s@.subrange(0, i + 1).drop_last() =~= s@.subrange(0, i as int));
        if s.get_char(i) == c {
            k = k + 1;
        }
        i = i + 1;
    }
    assert(s@.subrange(0, n as int) =~= s@);
    k
}


/// Whether the character occurs in the text.
pub fn has_char(s: &str, c: char) -> (r: bool)
    ensures
        r == s@.contains(c),
{
    let n = s.unicode_len();
    let mut i: usize = 0;
    while i < n
        invariant
            n == s@.len(),
            i <= n,
            forall|k: int| 0 <= k < i ==> s@[k] != c,
        decreases n - i,
    {
        if s.get_char(i) == c {
            assert(s@[i as int] == c);
            return true;
        }
        i = i + 1;
    }
    false
}

/// The view of each text in a sequence of owned texts.
pub open spec fn views(v: Seq<String>) -> Seq<Seq<char>> {
    v.map_values(|s: String| s@)
}

/// Whether the text holds only white space.
pub fn blank(s: &str) -> (r: bool)
    ensures
        r == is_blank(s@),
{
    let n = s.unicode_len();
    let mut i: usize = 0;
    while i < n
        invariant
            n == s@.len(),
            i <= n,
            forall|k: int| 0 <= k < i ==> is_white_space(#[trigger] s@[k]),
        decreases n - i,
    {
        if !char_is_whitespace(s.get_char(i)) {
            return false;
        }
        i = i + 1;
    }
    true
}

/// The text with every white-space character removed.
pub fn remove_white_space(s: &str) -> (r: String)
    ensures
        r@ == without_white_space(s@),
{
    let n = s.unicode_len();
    let mut out = String::new();
    let mut i: usize = 0;
    while i < n
        invariant
            n == s@.len(),
            i <= n,
            out@ == without_white_space(s@.subrange(0, i as int)),
        decreases n - i,
    {
        let c = s.get_char(i);
        proof {
            let pre = s@.subrange(0, i as int);
            assert(s@.subrange(0, i + 1) =~= pre.push(c));
            lemma_filter_push(pre, |x: char| !is_white_space(x), c);
        }
        if !char_is_whitespace(c) {
            push_char(&mut out, c);
        }
        i = i + 1;
    }
    assert(s@.subrange(0, n as int) =~= s@);
    out
}

/// Filtering a sequence extended by one element.
pub proof fn lemma_filter_push<A>(s: Seq<A>, pred: spec_fn(A) -> bool, a: A)
    ensures
        s.push(a).filter(pred) == if pred(a) { s.filter(pred).push(a) } else { s.filter(pred) },
{
    reveal(Seq::filter);
    assert(s.push(a).drop_last() =~= s);
}


/// Filtering keeps a sequence unchanged when every element passes.
pub proof fn lemma_filter_keeps_all<A>(s: Seq<A>, pred: spec_fn(A) -> bool)
    requires
        forall|i: int| 0 <= i < s.len() ==> pred(#[trigger] s[i]),
    ensures
        s.filter(pred) == s,
    decreases s.len(),
{
    if s.len() > 0 {
        let pre = s.drop_last();
        assert(pre.push(s.last()) =~= s);
        assert forall|i: int| 0 <= i < pre.len() implies pred(#[trigger] pre[i]) by {
            assert(pre[i] == s[i]);
        }
        lemma_filter_keeps_all(pre, pred);
        lemma_filter_push(pre, pred, s.last());
    } else {
        reveal(Seq::filter);
        assert(s.filter(pred) =~= s);
    }
}

/// Every element of a filtered sequence passes the filter, and an element
/// that passes and occurs in the sequence occurs in the result.
pub proof fn lemma_filter_members<A>(s: Seq<A>, pred: spec_fn(A) -> bool)
    ensures
        forall|i: int| 0 <= i < s.filter(pred).len() ==> pred(#[trigger] s.filter(pred)[i]),
        forall|i: int| 0 <= i < s.len() && pred(#[trigger] s[i]) ==> s.filter(pred).contains(s[i]),
{
    broadcast use vstd::seq_lib::group_filter_ensures;

}

/// A text without white space is left unchanged by removing white space.
pub proof fn lemma_without_white_space_fixed(s: Seq<char>)
    requires
        forall|i: int| 0 <= i < s.len() ==> !is_white_space(#[trigger] s[i]),
    ensures
        without_white_space(s) == s,
{
    lemma_filter_keeps_all(s, |c: char| !is_white_space(c));
}

/// Removing white space leaves no white space, and leaves something when the
/// text was not blank.
pub proof fn lemma_without_white_space_props(s: Seq<char>)
    ensures
        forall|i: int|
            0 <= i < without_white_space(s).len() ==> !is_white_space(
                #[trigger] without_white_space(s)[i],
            ),
        !is_blank(s) ==> without_white_space(s).len() > 0,
{
    let pred = |c: char| !is_white_space(c);
    lemma_filter_members(s, pred);
    if !is_blank(s) {
        let k = choose|k: int| 0 <= k < s.len() && !is_white_space(s[k]);
        assert(pred(s[k]));
        assert(s.filter(pred).contains(s[k]));
    }
}

/// Number of leading white-space characters.
pub open spec fn leading_ws(s: Seq<char>) -> nat
    decreases s.len(),
{
    if s.len() > 0 && is_white_space(s[0]) {
        1 + leading_ws(s.drop_first())
    } else {
        0
    }
}

/// Number of trailing white-space characters.
pub open spec fn trailing_ws(s: Seq<char>) -> nat
    decreases s.len(),
{
    if s.len() > 0 && is_white_space(s.last()) {
        1 + trailing_ws(s.drop_last())
    } else {
        0
    }
}

proof fn lemma_trim_start(s: Seq<char>)
    ensures
        leading_ws(s) <= s.len(),
        trim_start(s) == s.subrange(leading_ws(s) as int, s.len() as int),
        forall|k: int| 0 <= k < leading_ws(s) ==> is_white_space(#[trigger] s[k]),
        leading_ws(s) < s.len() ==> !is_white_space(s[leading_ws(s) as int]),
    decreases s.len(),
{
    if s.len() > 0 && is_white_space(s[0]) {
        lemma_trim_start(s.drop_first());
        assert(s.drop_first().subrange(leading_ws(s.drop_first()) as int, s.drop_first().len() as int)
            =~= s.subrange(leading_ws(s) as int, s.len() as int));
        assert forall|k: int| 0 <= k < leading_ws(s) implies is_white_space(#[trigger] s[k]) by {
            if k > 0 {
                assert(s[k] == s.drop_first()[k - 1]);
            }
        }
    } else {
        assert(s.subrange(0, s.len() as int) =~= s);
    }
}

proof fn lemma_trim_end(s: Seq<char>)
    ensures
        trailing_ws(s) <= s.len(),
        trim_end(s) == s.subrange(0, s.len() - trailing_ws(s)),
        forall|k: int| s.len() - trailing_ws(s) <= k < s.len() ==> is_white_space(#[trigger] s[k]),
        trailing_ws(s) < s.len() ==> !is_white_space(s[s.len() - trailing_ws(s) - 1]),
    decreases s.len(),
{
    if s.len() > 0 && is_white_space(s.last()) {
        lemma_trim_end(s.drop_last());
        assert(s.drop_last().subrange(0, s.drop_last().len() - trailing_ws(s.drop_last()))
            =~= s.subrange(0, s.len() - trailing_ws(s)));
        assert forall|k: int| s.len() - trailing_ws(s) <= k < s.len() implies is_white_space(
            #[trigger] s[k],
        ) by {
            if k < s.len() - 1 {
                assert(s[k] == s.drop_last()[k]);
            }
        }
    } else {
        assert(s.subrange(0, s.len() as int) =~= s);
    }
}

/// A text is blank exactly when its trimmed form is empty.
pub proof fn lemma_blank_iff_trimmed_empty(s: Seq<char>)
    ensures
        is_blank(s) <==> trimmed(s).len() == 0,
{
    lemma_trim_start(s);
    let t = trim_start(s);
    lemma_trim_end(t);
    if is_blank(s) {
        if leading_ws(s) < s.len() {
            assert(is_white_space(s[leading_ws(s) as int]));
        }
    } else {
        let k = choose|k: int| 0 <= k < s.len() && !is_white_space(s[k]);
        assert(leading_ws(s) <= k);
        assert(t.len() > 0);
        assert(!is_white_space(t[0]));
        if trailing_ws(t) == t.len() {
            assert(is_white_space(t[0]));
        }
    }
}

/// The text without leading and trailing white space.
pub fn trim<'a>(s: &'a str) -> (r: &'a str)
    ensures
        r@ == trimmed(s@),
{
    let n = s.unicode_len();
    let mut i: usize = 0;
    proof { lemma_trim_start(s@); }
    while i < n && char_is_whitespace(s.get_char(i))
        invariant
            n == s@.len(),
            i <= leading_ws(s@),
            leading_ws(s@) <= n,
            forall|k: int| 0 <= k < leading_ws(s@) ==> is_white_space(#[trigger] s@[k]),
            leading_ws(s@) < n ==> !is_white_space(s@[leading_ws(s@) as int]),
        decreases n - i,
    {
        i = i + 1;
    }
    assert(i == leading_ws(s@));
    let ghost t = s@.subrange(i as int, n as int);
    proof { lemma_trim_end(t); }
    let mut j: usize = n;
    while j > i && char_is_whitespace(s.get_char(j - 1))
        invariant
            n == s@.len(),
            i <= j <= n,
            t == s@.subrange(i as int, n as int),
            n - j <= trailing_ws(t),
            trailing_ws(t) <= t.len(),
            forall|k: int| t.len() - trailing_ws(t) <= k < t.len() ==> is_white_space(#[trigger] t[k]),
            trailing_ws(t) < t.len() ==> !is_white_space(t[t.len() - trailing_ws(t) - 1]),
        decreases j - i,
    {
        assert(s@[j - 1] == t[j - 1 - i]);
        j = j - 1;
    }
    if j > i {
        assert(s@[j - 1] == t[j - 1 - i]);
    }
    assert(n - j == trailing_ws(t));
    let r = s.substring_char(i, j);
    assert(r@ =~= t.subrange(0, t.len() - trailing_ws(t)));
    r
}

} // verus!
