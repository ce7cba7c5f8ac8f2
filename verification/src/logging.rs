use vstd::prelude::*;
use crate::base::BIN_NAME_UNDERSCORE;
use crate::error::Error;
use crate::options::{LogLevel, log_level_keyword, lemma_log_level_shown_by_its_keyword};
use crate::text::ascii_lowered;

verus! {

/// The message when `none` is given as a log level.
pub const NONE_NOT_ALLOWED: &'static str = "Value 'none' not allowed for --log-level argument";

/// The log levels after `--debug`: used once it stands for `--log-level
/// debug`, used more often for `--log-level debug debug`; not used, the
/// given levels stay.
pub open spec fn debug_levels(debug: u8, log_level: Option<Seq<LogLevel>>) -> Option<Seq<LogLevel>> {
    if debug == 1 {
        Some(seq![LogLevel::Debug])
    } else if debug > 1 {
        Some(seq![LogLevel::Debug, LogLevel::Debug])
    } else {
        log_level
    }
}

/// The view of optional levels.
pub open spec fn levels_view(l: Option<Vec<LogLevel>>) -> Option<Seq<LogLevel>> {
    match l {
        Some(v) => Some(v@),
        None => None,
    }
}

/// Apply `--debug` to the levels given with `--log-level`: `--debug`
/// takes precedence.
pub fn apply_debug_flag(debug: u8, log_level: Option<Vec<LogLevel>>) -> (r: Option<Vec<LogLevel>>)
    ensures
        levels_view(r) == debug_levels(debug, levels_view(log_level)),
{
    if debug == 1 {
        let mut v = Vec::new();
        v.push(LogLevel::Debug);
        Some(v)
    } else if debug > 1 {
        let mut v = Vec::new();
        v.push(LogLevel::Debug);
        v.push(LogLevel::Debug);
        assert(v@ =~= seq![LogLevel::Debug, LogLevel::Debug]);
        Some(v)
    } else {
        log_level
    }
}

/// The log filter directive for the levels: none without levels (the
/// `RUST_LOG` environment variable then decides); with one level, that level
/// for this program; with two or more, the first level for this program and
/// the second for every other module. `none` is refused among the levels
/// used.
pub open spec fn log_filter_directive(levels: Option<Seq<LogLevel>>) -> Result<Option<Seq<char>>, Error> {
    match levels {
        None => Ok(None),
        Some(v) => if v.len() == 1 {
            if v[0] == LogLevel::Unset {
                Err(Error::UnsupportedCliParameter(NONE_NOT_ALLOWED))
            } else {
                Ok(Some(BIN_NAME_UNDERSCORE@ + "="@ + v[0].name()))
            }
        } else {
            if v[0] == LogLevel::Unset || v[1] == LogLevel::Unset {
                Err(Error::UnsupportedCliParameter(NONE_NOT_ALLOWED))
            } else {
                Ok(Some(v[1].name() + ","@ + BIN_NAME_UNDERSCORE@ + "="@ + v[0].name()))
            }
        },
    }
}

/// The log filter directive for the levels (see [`log_filter_directive`]).
pub fn log_filter(levels: &Option<Vec<LogLevel>>) -> (r: Result<Option<String>, Error>)
    requires
        levels matches Some(v) ==> v@.len() >= 1,
    ensures
        r matches Ok(f) ==> log_filter_directive(levels_view(*levels)) == Ok::<Option<Seq<char>>, Error>(
            match f {
                Some(s) => Some(s@),
                None => None,
            },
        ),
        r matches Err(e) ==> log_filter_directive(levels_view(*levels)) == Err::<Option<Seq<char>>, Error>(e),
{
    match levels {
        None => Ok(None),
        Some(v) => {
            if v.len() == 1 {
                if v[0].is_none() {
                    return Err(Error::UnsupportedCliParameter(NONE_NOT_ALLOWED));
                }
                let mut s = BIN_NAME_UNDERSCORE.to_string();
                s.append("=");
                let level = v[0].to_string();
                s.append(level.as_str());
                Ok(Some(s))
            } else {
                if v[0].is_none() || v[1].is_none() {
                    return Err(Error::UnsupportedCliParameter(NONE_NOT_ALLOWED));
                }
                let mut s = v[1].to_string();
                s.append(",");
                s.append(BIN_NAME_UNDERSCORE);
                s.append("=");
                let level = v[0].to_string();
                s.append(level.as_str());
                Ok(Some(s))
            }
        },
    }
}

/// With one level, the filter sets this program's level to exactly that
/// level: the directive is `matrix_commander_rs=` followed by a name that,
/// case ignored, is the keyword of the level given. With two levels, the
/// first is this program's and the second every other module's, each named
/// by its own keyword.
pub proof fn lemma_log_filter_names_the_levels(l: LogLevel, other: LogLevel)
    requires
        l != LogLevel::Unset,
        other != LogLevel::Unset,
    ensures
        ({
            let k = BIN_NAME_UNDERSCORE@.len() + 1;
            log_filter_directive(Some(seq![l])) matches Ok(Some(d))
                && d.subrange(0, k as int) == BIN_NAME_UNDERSCORE@ + "="@
                && log_level_keyword(ascii_lowered(d.subrange(k as int, d.len() as int))) == Some(l)
        }),
        ({
            let k = BIN_NAME_UNDERSCORE@.len() + 1;
            let m = other.name().len();
            log_filter_directive(Some(seq![l, other])) matches Ok(Some(d))
                && log_level_keyword(ascii_lowered(d.subrange(0, m as int))) == Some(other)
                && d.subrange(m as int, (m + 1 + k) as int) == ","@ + BIN_NAME_UNDERSCORE@ + "="@
                && log_level_keyword(ascii_lowered(d.subrange((m + 1 + k) as int, d.len() as int))) == Some(l)
        }),
{
    lemma_log_level_shown_by_its_keyword(l);
    lemma_log_level_shown_by_its_keyword(other);
    let k = BIN_NAME_UNDERSCORE@.len() + 1;
    let p = BIN_NAME_UNDERSCORE@ + "="@;
    assert(p.len() == k) by {
        reveal_strlit("=");
    }
    let d1 = p + l.name();
    assert(seq![l].len() == 1);
    assert(log_filter_directive(Some(seq![l])) == Ok::<Option<Seq<char>>, Error>(Some(d1)));
    assert(d1.subrange(0, k as int) =~= p);
    assert(d1.subrange(k as int, d1.len() as int) =~= l.name());
    let m = other.name().len();
    let d2 = other.name() + ","@ + BIN_NAME_UNDERSCORE@ + "="@ + l.name();
    assert(seq![l, other].len() == 2);
    assert(seq![l, other][0] == l);
    assert(seq![l, other][1] == other);
    assert(log_filter_directive(Some(seq![l, other])) == Ok::<Option<Seq<char>>, Error>(Some(d2)));
    reveal_strlit(",");
    assert(d2.subrange(0, m as int) =~= other.name());
    assert(d2.subrange(m as int, (m + 1 + k) as int) =~= ","@ + BIN_NAME_UNDERSCORE@ + "="@);
    assert(d2.subrange((m + 1 + k) as int, d2.len() as int) =~= l.name());
}

} // verus!
