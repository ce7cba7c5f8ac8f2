use vstd::prelude::*;
use crate::text::{ascii_lowered, is_ascii_text, lowercase, str_equal, to_lowercase};

verus! {

/// Value of the `--output` option.
#[derive(Clone, Copy, Debug, PartialEq, Eq, Structural)]
pub enum Output {
    /// Plain text, the default.
    Text,
    /// JSON.
    Json,
    /// JSON with the maximum amount of output.
    JsonMax,
    /// JSON as in the Matrix specification.
    JsonSpec,
}

impl Default for Output {
    fn default() -> (r: Output)
        ensures
            r == Output::Text,
    {
        Output::Text
    }
}

/// The output format a lowercased keyword names, if any.
pub open spec fn output_keyword(t: Seq<char>) -> Option<Output> {
    if t == "text"@ {
        Some(Output::Text)
    } else if t == "json"@ {
        Some(Output::Json)
    } else if t == "jsonmax"@ || t == "json-max"@ || t == "json_max"@ {
        Some(Output::JsonMax)
    } else if t == "jsonspec"@ || t == "json_spec"@ || t == "json-spec"@ {
        Some(Output::JsonSpec)
    } else {
        None
    }
}

/// The message of a refused output format.
pub const INVALID_OUTPUT_FORMAT: &'static str = "Invalid output format";

impl Output {
    pub fn is_text(&self) -> (r: bool)
        ensures
            r == (*self == Output::Text),
    {
        *self == Output::Text
    }

    pub fn is_json(&self) -> (r: bool)
        ensures
            r == (*self == Output::Json),
    {
        *self == Output::Json
    }

    pub fn is_json_max(&self) -> (r: bool)
        ensures
            r == (*self == Output::JsonMax),
    {
        *self == Output::JsonMax
    }

    pub fn is_json_spec(&self) -> (r: bool)
        ensures
            r == (*self == Output::JsonSpec),
    {
        *self == Output::JsonSpec
    }

    /// The format named by an already lowercased text.
    pub fn from_lowercased(lowered: &str) -> (r: Result<Output, &'static str>)
        ensures
            r == (match output_keyword(lowered@) {
                Some(v) => Ok(v),
                None => Err(INVALID_OUTPUT_FORMAT),
            }),
    {
        let t = lowered;
        if str_equal(t, "text") {
            Ok(Output::Text)
        } else if str_equal(t, "json") {
            Ok(Output::Json)
        } else if str_equal(t, "jsonmax") || str_equal(t, "json-max") || str_equal(t, "json_max") {
            Ok(Output::JsonMax)
        } else if str_equal(t, "jsonspec") || str_equal(t, "json_spec") || str_equal(t, "json-spec") {
            Ok(Output::JsonSpec)
        } else {
            Err(INVALID_OUTPUT_FORMAT)
        }
    }

    /// Parse an output format, ignoring case.
    pub fn from_str(src: &str) -> (r: Result<Output, &'static str>)
        ensures
            r == (match output_keyword(lowercase(src@)) {
                Some(v) => Ok(v),
                None => Err(INVALID_OUTPUT_FORMAT),
            }),
            is_ascii_text(src@) ==> r == (match output_keyword(ascii_lowered(src@)) {
                Some(v) => Ok(v),
                None => Err(INVALID_OUTPUT_FORMAT),
            }),
    {
        let lowered = to_lowercase(src);
        Output::from_lowercased(lowered.as_str())
    }

    /// How the format is displayed.
    pub open spec fn display_name(&self) -> Seq<char> {
        match self {
            Output::Text => "text"@,
            Output::Json => "json"@,
            Output::JsonMax => "json-max"@,
            Output::JsonSpec => "json-spec"@,
        }
    }

    /// How the format is displayed.
    pub fn to_string(&self) -> (r: String)
        ensures
            r@ == self.display_name(),
    {
        match self {
            Output::Text => "text".to_string(),
            Output::Json => "json".to_string(),
            Output::JsonMax => "json-max".to_string(),
            Output::JsonSpec => "json-spec".to_string(),
        }
    }
}

impl std::str::FromStr for Output {
    type Err = &'static str;

    fn from_str(src: &str) -> (r: Result<Output, &'static str>)
        ensures
            r == (match output_keyword(lowercase(src@)) {
                Some(v) => Ok(v),
                None => Err(INVALID_OUTPUT_FORMAT),
            }),
            is_ascii_text(src@) ==> r == (match output_keyword(ascii_lowered(src@)) {
                Some(v) => Ok(v),
                None => Err(INVALID_OUTPUT_FORMAT),
            }),
    {
        Output::from_str(src)
    }
}

/// The displayed name of every output format is ASCII and already
/// lowercase, so parsing it ignoring case reads it as it is: with
/// [`lemma_output_display_parses_back`], `from_str` of a displayed name gives
/// the format back.
pub proof fn lemma_output_display_is_lowercase_ascii(o: Output)
    ensures
        is_ascii_text(o.display_name()),
        ascii_lowered(o.display_name()) == o.display_name(),
{
    reveal_strlit("text");
    reveal_strlit("json");
    reveal_strlit("json-max");
    reveal_strlit("json-spec");
    let n = o.display_name();
    assert forall|i: int| 0 <= i < n.len() implies (#[trigger] n[i] as u32) < 128 && !('A' <= n[i] && n[i] <= 'Z') by {
        match o {
            Output::Text => assert(n =~= seq!['t', 'e', 'x', 't']),
            Output::Json => assert(n =~= seq!['j', 's', 'o', 'n']),
            Output::JsonMax => assert(n =~= seq!['j', 's', 'o', 'n', '-', 'm', 'a', 'x']),
            Output::JsonSpec => assert(n =~= seq!['j', 's', 'o', 'n', '-', 's', 'p', 'e', 'c']),
        }
    }
    assert(ascii_lowered(n) =~= n);
}

/// The displayed name of every output format is a keyword that names it
/// again: displaying and parsing back gives the same format.
pub proof fn lemma_output_display_parses_back(o: Output)
    ensures
        output_keyword(o.display_name()) == Some(o),
{
    reveal_strlit("text");
    reveal_strlit("json");
    reveal_strlit("jsonmax");
    reveal_strlit("json-max");
    reveal_strlit("json_max");
    reveal_strlit("jsonspec");
    reveal_strlit("json_spec");
    reveal_strlit("json-spec");
    let n = o.display_name();
    if n != "text"@ {
        assert(n.len() != 4 || n[0] != 't');
    }
    match o {
        Output::Json => {
            assert(n[0] != "text"@[0]);
        },
        Output::JsonMax => {
            assert(n.len() != "json"@.len());
            assert(n[4] != "jsonmax"@[4]);
        },
        Output::JsonSpec => {
            assert(n.len() != "json"@.len());
            assert(n[4] != "jsonmax"@[4]);
            assert(n[5] != "json-max"@[5]);
            assert(n.len() != "json_max"@.len());
            assert(n[4] != "jsonspec"@[4]);
        },
        _ => {},
    }
}

} // verus!
