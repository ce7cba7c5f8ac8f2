use vstd::prelude::*;
use crate::text::{
    blank, count_char, has_char, has_first_char, is_blank, lemma_filter_push, occurrences, push_char,
    remove_white_space, starts_with_char, trim, trimmed, views, without_white_space, is_white_space,
    lemma_filter_keeps_all, lemma_filter_members, lemma_without_white_space_fixed,
    lemma_without_white_space_props,
};

verus! {

/// A well-formed full user id: starts with `@` and holds a `:`.
pub open spec fn valid_username(s: Seq<char>) -> bool {
    starts_with_char(s, '@') && s.contains(':')
}

/// A well-formed room id: starts with `!` and holds exactly one `:`.
pub open spec fn valid_room_name(s: Seq<char>) -> bool {
    starts_with_char(s, '!') && count_char(s, ':') == 1
}

/// Whether the text has the shape of a full user id such as `@john:example.org`.
pub fn is_valid_username(username: &str) -> (r: bool)
    ensures
        r == valid_username(username@),
{
    has_first_char(username, '@') && has_char(username, ':')
}

/// Whether the text has the shape of a room id such as `!abc:example.org`.
pub fn is_valid_room_name(name: &str) -> (r: bool)
    ensures
        r == valid_room_name(name@),
{
    has_first_char(name, '!') && occurrences(name, ':') == 1
}

/// No text is both a well-formed user id and a well-formed room id.
pub proof fn lemma_username_and_room_name_disjoint(s: Seq<char>)
    ensures
        !(valid_username(s) && valid_room_name(s)),
{
}

/// The canonical form of one room alias: white space removed; a room id
/// (starting with `!`) is left as it is; otherwise a missing leading `#` is
/// added, and a missing `:server` part is completed with the default host.
pub open spec fn full_room_alias(s: Seq<char>, default_host: Seq<char>) -> Seq<char> {
    let t = without_white_space(s);
    if starts_with_char(t, '!') {
        t
    } else {
        let u = if starts_with_char(t, '#') { t } else { seq!['#'] + t };
        if u.contains(':') {
            u
        } else {
            u + seq![':'] + default_host
        }
    }
}

/// What alias conversion makes of a list: blank entries are dropped and each
/// remaining entry is put in canonical form.
pub open spec fn full_room_aliases(v: Seq<Seq<char>>, default_host: Seq<char>) -> Seq<Seq<char>> {
    v.filter(|s: Seq<char>| !is_blank(s)).map_values(|s: Seq<char>| full_room_alias(s, default_host))
}

/// Convert a list of aliases, possibly in short form, into full canonical
/// aliases: `john` and `#john` become `#john:<default_host>`. Blank entries
/// are dropped; room ids given as aliases are kept unchanged.
pub fn convert_to_full_room_aliases(vecstr: &mut Vec<String>, default_host: &str)
    ensures
        views(final(vecstr)@) == full_room_aliases(views(old(vecstr)@), default_host@),
{
    let ghost host = default_host@;
    let ghost keep = |s: Seq<char>| !is_blank(s);
    let ghost conv = |s: Seq<char>| full_room_alias(s, host);
    let mut out: Vec<String> = Vec::new();
    let n = vecstr.len();
    let mut i: usize = 0;
    while i < n
        invariant
            n == vecstr@.len(),
            i <= n,
            host == default_host@,
            keep == (|s: Seq<char>| !is_blank(s)),
            conv == (|s: Seq<char>| full_room_alias(s, host)),
            views(out@) == views(vecstr@.subrange(0, i as int)).filter(keep).map_values(conv),
        decreases n - i,
    {
        let el = &vecstr[i];
        proof {
            let pre = views(vecstr@.subrange(0, i as int));
            assert(views(vecstr@.subrange(0, i + 1)) =~= pre.push(el@));
            lemma_filter_push(pre, keep, el@);
        }
        if !blank(el.as_str()) {
            let t = remove_white_space(el.as_str());
            let converted = if has_first_char(t.as_str(), '!') {
                t
            } else {
                let mut u = if has_first_char(t.as_str(), '#') {
                    t
                } else {
                    let mut h = String::new();
                    push_char(&mut h, '#');
                    h.append(t.as_str());
                    h
                };
                if !has_char(u.as_str(), ':') {
                    push_char(&mut u, ':');
                    u.append(default_host);
                }
                u
            };
            assert(converted@ =~= conv(el@));
            let ghost before = views(out@);
            out.push(converted);
            proof {
                let pre = views(vecstr@.subrange(0, i as int));
                assert(views(out@) =~= before.push(conv(el@)));
                assert(pre.filter(keep).push(el@).map_values(conv) =~= pre.filter(keep).map_values(conv).push(conv(el@)));
            }
        }
        i = i + 1;
    }
    assert(vecstr@.subrange(0, n as int) =~= vecstr@);
    *vecstr = out;
}

/// An entry that stands for the default room: `-`, possibly surrounded by
/// white space.
pub open spec fn is_minus(s: Seq<char>) -> bool {
    trimmed(s) == seq!['-']
}

/// What replacing `-` makes of a list: the default room is appended when some
/// entry is `-`, and every `-` entry is then removed.
pub open spec fn minus_replaced(v: Seq<Seq<char>>, default_room: Seq<char>) -> Seq<Seq<char>> {
    let extended = if exists|i: int| 0 <= i < v.len() && is_minus(#[trigger] v[i]) {
        v.push(default_room)
    } else {
        v
    };
    extended.filter(|s: Seq<char>| !is_minus(s))
}

/// Whether the entry stands for the default room.
pub fn minus_entry(s: &str) -> (r: bool)
    ensures
        r == is_minus(s@),
{
    let t = trim(s);
    let r = t.unicode_len() == 1 && t.get_char(0) == '-';
    assert(r ==> t@ =~= seq!['-']);
    r
}

/// Replace the shortcut `-` by the default room: when some entry is `-`
/// the default room is appended, and all `-` entries are removed.
pub fn replace_minus_with_default_room(vecstr: &mut Vec<String>, default_room: &str)
    ensures
        views(final(vecstr)@) == minus_replaced(views(old(vecstr)@), default_room@),
{
    let ghost v0 = views(vecstr@);
    let ghost keep = |s: Seq<char>| !is_minus(s);
    let n = vecstr.len();
    let mut found = false;
    let mut i: usize = 0;
    while i < n
        invariant
            n == vecstr@.len(),
            v0 == views(vecstr@),
            i <= n,
            found == exists|k: int| 0 <= k < i && is_minus(#[trigger] v0[k]),
        decreases n - i,
    {
        if minus_entry(vecstr[i].as_str()) {
            assert(is_minus(v0[i as int]));
            found = true;
        }
        i = i + 1;
    }
    let mut all: Vec<String> = vecstr.clone();
    assert(views(all@) == v0);
    if found {
        all.push(default_room.to_string());
    }
    let ghost extended = views(all@);
    assert(extended =~= if exists|k: int| 0 <= k < v0.len() && is_minus(#[trigger] v0[k]) {
        v0.push(default_room@)
    } else {
        v0
    });
    let m = all.len();
    let mut out: Vec<String> = Vec::new();
    let mut j: usize = 0;
    while j < m
        invariant
            m == all@.len(),
            extended == views(all@),
            keep == (|s: Seq<char>| !is_minus(s)),
            j <= m,
            views(out@) == extended.subrange(0, j as int).filter(keep),
        decreases m - j,
    {
        let el = &all[j];
        proof {
            let pre = extended.subrange(0, j as int);
            assert(extended.subrange(0, j + 1) =~= pre.push(el@));
            lemma_filter_push(pre, keep, el@);
        }
        if !minus_entry(el.as_str()) {
            let ghost before = views(out@);
            out.push(el.clone());
            assert(views(out@) =~= before.push(el@));
        }
        j = j + 1;
    }
    assert(extended.subrange(0, m as int) =~= extended);
    *vecstr = out;
}

/// After `-` replacement no entry is `-`.
pub proof fn lemma_minus_replaced_has_no_minus(v: Seq<Seq<char>>, default_room: Seq<char>)
    ensures
        forall|i: int|
            0 <= i < minus_replaced(v, default_room).len() ==> !is_minus(
                #[trigger] minus_replaced(v, default_room)[i],
            ),
{
    let extended = if exists|i: int| 0 <= i < v.len() && is_minus(#[trigger] v[i]) {
        v.push(default_room)
    } else {
        v
    };
    lemma_filter_members(extended, |s: Seq<char>| !is_minus(s));
}

/// Replacing `-` a second time changes nothing.
pub proof fn lemma_minus_replaced_idempotent(v: Seq<Seq<char>>, default_room: Seq<char>)
    ensures
        minus_replaced(minus_replaced(v, default_room), default_room) == minus_replaced(
            v,
            default_room,
        ),
{
    let r = minus_replaced(v, default_room);
    lemma_minus_replaced_has_no_minus(v, default_room);
    assert(!(exists|i: int| 0 <= i < r.len() && is_minus(#[trigger] r[i])));
    lemma_filter_keeps_all(r, |s: Seq<char>| !is_minus(s));
}

/// A canonical alias holds no white space and is not blank, provided the
/// default host holds no white space.
pub proof fn lemma_full_room_alias_shape(s: Seq<char>, default_host: Seq<char>)
    requires
        !is_blank(s),
        forall|i: int| 0 <= i < default_host.len() ==> !is_white_space(#[trigger] default_host[i]),
    ensures
        forall|i: int|
            0 <= i < full_room_alias(s, default_host).len() ==> !is_white_space(
                #[trigger] full_room_alias(s, default_host)[i],
            ),
        full_room_alias(s, default_host).len() > 0,
{
    let t = without_white_space(s);
    lemma_without_white_space_props(s);
    let u = if starts_with_char(t, '#') { t } else { seq!['#'] + t };
    assert forall|i: int| 0 <= i < u.len() implies !is_white_space(#[trigger] u[i]) by {
        if !starts_with_char(t, '#') && i > 0 {
            assert(u[i] == t[i - 1]);
        }
    }
    let w = u + seq![':'] + default_host;
    assert forall|i: int| 0 <= i < w.len() implies !is_white_space(#[trigger] w[i]) by {
        if i < u.len() {
            assert(w[i] == u[i]);
        } else if i > u.len() {
            assert(w[i] == default_host[i - u.len() - 1]);
        }
    }
}

/// Putting a canonical alias in canonical form again changes nothing,
/// provided the default host holds no white space.
pub proof fn lemma_full_room_alias_idempotent(s: Seq<char>, default_host: Seq<char>)
    requires
        !is_blank(s),
        forall|i: int| 0 <= i < default_host.len() ==> !is_white_space(#[trigger] default_host[i]),
    ensures
        full_room_alias(full_room_alias(s, default_host), default_host) == full_room_alias(
            s,
            default_host,
        ),
{
    let r = full_room_alias(s, default_host);
    lemma_full_room_alias_shape(s, default_host);
    lemma_without_white_space_fixed(r);
    assert(without_white_space(r) == r);
    let t = without_white_space(s);
    if starts_with_char(t, '!') {
        assert(r == t);
        assert(starts_with_char(r, '!'));
    } else {
        let u = if starts_with_char(t, '#') { t } else { seq!['#'] + t };
        assert(u[0] == '#');
        if u.contains(':') {
            assert(r == u);
            assert(!starts_with_char(r, '!'));
            assert(starts_with_char(r, '#'));
        } else {
            let w = u + seq![':'] + default_host;
            assert(r == w);
            assert(w[u.len() as int] == ':');
            assert(w.contains(':'));
            assert(w[0] == '#');
            assert(!starts_with_char(r, '!'));
            assert(starts_with_char(r, '#'));
        }
    }
}

/// Converting an already converted list of aliases changes nothing,
/// provided the default host holds no white space.
pub proof fn lemma_full_room_aliases_idempotent(v: Seq<Seq<char>>, default_host: Seq<char>)
    requires
        forall|i: int| 0 <= i < default_host.len() ==> !is_white_space(#[trigger] default_host[i]),
    ensures
        full_room_aliases(full_room_aliases(v, default_host), default_host) == full_room_aliases(
            v,
            default_host,
        ),
{
    let keep = |s: Seq<char>| !is_blank(s);
    let conv = |s: Seq<char>| full_room_alias(s, default_host);
    let f = v.filter(keep);
    let r = f.map_values(conv);
    lemma_filter_members(v, keep);
    assert forall|i: int| 0 <= i < r.len() implies keep(#[trigger] r[i]) by {
        assert(keep(f[i]));
        lemma_full_room_alias_shape(f[i], default_host);
        let x = r[i];
        assert(x.len() > 0);
        assert(!is_white_space(x[0]));
    }
    lemma_filter_keeps_all(r, keep);
    assert forall|i: int| 0 <= i < r.len() implies #[trigger] conv(r[i]) == r[i] by {
        assert(keep(f[i]));
        lemma_full_room_alias_idempotent(f[i], default_host);
    }
    assert(r.map_values(conv) =~= r);
}

/// Every converted alias that is not a room id is a full alias: it starts
/// with `#`, keeps the written alias (white space removed) right after that
/// `#` (the alias's own `#` when it had one), names a server after a `:`,
/// and ends with `:<default_host>` exactly when the written alias named no
/// server. A room id is kept as written, without white space.
pub proof fn lemma_full_room_alias_is_an_alias(s: Seq<char>, default_host: Seq<char>)
    ensures
        ({
            let t = without_white_space(s);
            let r = full_room_alias(s, default_host);
            &&& starts_with_char(t, '!') ==> r == t
            &&& !starts_with_char(t, '!') ==> {
                &&& r.len() > 0 && r[0] == '#'
                &&& r.contains(':')
                &&& starts_with_char(t, '#') ==> r.subrange(0, t.len() as int) == t
                &&& !starts_with_char(t, '#') ==> r.subrange(1, t.len() as int + 1) == t
                &&& t.contains(':') ==> r.len() == (if starts_with_char(t, '#') { t.len() } else { t.len() + 1 })
                &&& !t.contains(':') ==> r.subrange(r.len() - default_host.len() - 1, r.len() as int)
                    == seq![':'] + default_host
            }
        }),
{
    let t = without_white_space(s);
    let r = full_room_alias(s, default_host);
    if !starts_with_char(t, '!') {
        let u = if starts_with_char(t, '#') { t } else { seq!['#'] + t };
        assert(u[0] == '#');
        if !starts_with_char(t, '#') {
            assert(u.subrange(1, t.len() as int + 1) =~= t);
            assert forall|c: char| u.contains(c) <== t.contains(c) by {
                if t.contains(c) {
                    let j = choose|j: int| 0 <= j < t.len() && t[j] == c;
                    assert(u[j + 1] == c);
                }
            }
            assert forall|c: char| c != '#' && u.contains(c) implies t.contains(c) by {
                let j = choose|j: int| 0 <= j < u.len() && u[j] == c;
                assert(t[j - 1] == c);
            }
        } else {
            assert(u.subrange(0, t.len() as int) =~= t);
        }
        if u.contains(':') {
            assert(r == u);
        } else {
            let w = u + seq![':'] + default_host;
            assert(r == w);
            assert(w[u.len() as int] == ':');
            assert(w.subrange(0, u.len() as int) =~= u);
            assert(w.subrange(w.len() - default_host.len() - 1, w.len() as int) =~= seq![':'] + default_host);
            if starts_with_char(t, '#') {
                assert(r.subrange(0, t.len() as int) =~= t);
            } else {
                assert(r.subrange(1, t.len() as int + 1) =~= t);
            }
        }
    }
}

} // verus!
