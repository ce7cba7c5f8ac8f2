use vstd::prelude::*;
use crate::text::{ends_with_char, pop_char, has_last_char, str_equal, lemma_filter_push, views};

verus! {

/// A text with one trailing line ending removed: a final `\n`, together with
/// a `\r` just before it.
pub open spec fn newline_trimmed(s: Seq<char>) -> Seq<char> {
    if ends_with_char(s, '\n') {
        let t = s.drop_last();
        if ends_with_char(t, '\r') {
            t.drop_last()
        } else {
            t
        }
    } else {
        s
    }
}

/// Remove one trailing line ending (`\n` or `\r\n`) in place.
pub fn trim_newline(s: &mut String) -> (r: &mut String)
    ensures
        r@ == newline_trimmed(old(s)@),
        *final(s) == *final(r),
{
    if has_last_char(s.as_str(), '\n') {
        pop_char(s);
        if has_last_char(s.as_str(), '\r') {
            pop_char(s);
        }
    }
    s
}

/// What a `--message` argument asks for.
#[derive(Debug)]
pub enum MessageInput {
    /// Nothing to send (an empty argument, or the `--` separator).
    Skip,
    /// `-`: read one message from standard input.
    Stdin,
    /// `_`: stream standard input, one message per line.
    StdinStream,
    /// A message with this text.
    Text(String),
}

/// The meaning of a `--message` argument: the empty argument and `--` are
/// skipped, `-` and `_` read standard input, the escapes `\-`, `\_`, `\-\-`
/// and `\-\-\-` stand for the literal texts `-`, `_`, `--` and `---`, and any
/// other argument is sent as it is.
pub open spec fn message_input(msg: Seq<char>) -> (MessageInputKind, Seq<char>) {
    if msg.len() == 0 || msg == seq!['-', '-'] {
        (MessageInputKind::Skip, seq![])
    } else if msg == seq!['-'] {
        (MessageInputKind::Stdin, seq![])
    } else if msg == seq!['_'] {
        (MessageInputKind::StdinStream, seq![])
    } else if msg == seq!['\\', '-'] {
        (MessageInputKind::Text, seq!['-'])
    } else if msg == seq!['\\', '_'] {
        (MessageInputKind::Text, seq!['_'])
    } else if msg == seq!['\\', '-', '\\', '-'] {
        (MessageInputKind::Text, seq!['-', '-'])
    } else if msg == seq!['\\', '-', '\\', '-', '\\', '-'] {
        (MessageInputKind::Text, seq!['-', '-', '-'])
    } else {
        (MessageInputKind::Text, msg)
    }
}

/// The kind of a [`MessageInput`], without its text.
pub enum MessageInputKind {
    Skip,
    Stdin,
    StdinStream,
    Text,
}

impl MessageInput {
    /// The kind and the text of this input (the text is empty unless it is a message).
    pub open spec fn spec_kind_text(&self) -> (MessageInputKind, Seq<char>) {
        match self {
            MessageInput::Skip => (MessageInputKind::Skip, seq![]),
            MessageInput::Stdin => (MessageInputKind::Stdin, seq![]),
            MessageInput::StdinStream => (MessageInputKind::StdinStream, seq![]),
            MessageInput::Text(t) => (MessageInputKind::Text, t@),
        }
    }
}

/// Build an owned text from characters.
fn text_of(chars: &[char]) -> (r: String)
    ensures
        r@ == chars@,
{
    let mut r = String::new();
    let mut i: usize = 0;
    while i < chars.len()
        invariant
            i <= chars@.len(),
            r@ == chars@.subrange(0, i as int),
        decreases chars@.len() - i,
    {
        crate::text::push_char(&mut r, chars[i]);
        assert(chars@.subrange(0, i + 1) =~= chars@.subrange(0, i as int).push(chars@[i as int]));
        i = i + 1;
    }
    assert(chars@.subrange(0, chars@.len() as int) =~= chars@);
    r
}

/// Decide what a `--message` argument asks for.
pub fn classify_message(msg: &str) -> (r: MessageInput)
    ensures
        r.spec_kind_text() == message_input(msg@),
{
    proof {
        reveal_strlit("--");
        reveal_strlit("-");
        reveal_strlit("_");
        reveal_strlit("\\-");
        reveal_strlit("\\_");
        reveal_strlit("\\-\\-");
        reveal_strlit("\\-\\-\\-");
    }
    assert("--"@ =~= seq!['-', '-']);
    assert("-"@ =~= seq!['-']);
    assert("_"@ =~= seq!['_']);
    assert("\\-"@ =~= seq!['\\', '-']);
    assert("\\_"@ =~= seq!['\\', '_']);
    assert("\\-\\-"@ =~= seq!['\\', '-', '\\', '-']);
    assert("\\-\\-\\-"@ =~= seq!['\\', '-', '\\', '-', '\\', '-']);
    if msg.unicode_len() == 0 || str_equal(msg, "--") {
        MessageInput::Skip
    } else if str_equal(msg, "-") {
        MessageInput::Stdin
    } else if str_equal(msg, "_") {
        MessageInput::StdinStream
    } else if str_equal(msg, "\\-") {
        MessageInput::Text(text_of(&['-']))
    } else if str_equal(msg, "\\_") {
        MessageInput::Text(text_of(&['_']))
    } else if str_equal(msg, "\\-\\-") {
        MessageInput::Text(text_of(&['-', '-']))
    } else if str_equal(msg, "\\-\\-\\-") {
        MessageInput::Text(text_of(&['-', '-', '-']))
    } else {
        MessageInput::Text(msg.to_string())
    }
}


/// The text one `--message` argument contributes: an ordinary argument or
/// an escape its text, `-` what was read from standard input without its
/// trailing line ending, and a skipped argument or `_` (whose lines are sent
/// as they are read) nothing.
pub open spec fn message_text(input: MessageInput, read: Seq<char>) -> Seq<char> {
    match input {
        MessageInput::Text(t) => t@,
        MessageInput::Stdin => newline_trimmed(read),
        MessageInput::Skip => Seq::<char>::empty(),
        MessageInput::StdinStream => Seq::<char>::empty(),
    }
}

/// The text a classified `--message` argument contributes, given what was
/// read from standard input for `-` (ignored for the other arguments).
pub fn formatted_message(input: MessageInput, read: String) -> (r: String)
    ensures
        r@ == message_text(input, read@),
{
    match input {
        MessageInput::Text(t) => t,
        MessageInput::Stdin => {
            let mut line = read;
            let trimmed = trim_newline(&mut line);
            trimmed.clone()
        },
        MessageInput::Skip => String::new(),
        MessageInput::StdinStream => String::new(),
    }
}

/// The messages that are sent: the non-empty texts, in order.
pub open spec fn messages_to_send(texts: Seq<Seq<char>>) -> Seq<Seq<char>> {
    texts.filter(|t: Seq<char>| t.len() > 0)
}

/// Collect the texts of the `--message` arguments into the messages that
/// are sent: empty texts are dropped, the others keep their order. An empty
/// result means that nothing is sent.
pub fn collect_messages(texts: Vec<String>) -> (r: Vec<String>)
    ensures
        views(r@) == messages_to_send(views(texts@)),
{
    let ghost keep = |t: Seq<char>| t.len() > 0;
    let mut out: Vec<String> = Vec::new();
    let n = texts.len();
    let mut i: usize = 0;
    while i < n
        invariant
            n == texts@.len(),
            i <= n,
            keep == (|t: Seq<char>| t.len() > 0),
            views(out@) == views(texts@.subrange(0, i as int)).filter(keep),
        decreases n - i,
    {
        let t = &texts[i];
        proof {
            let pre = views(texts@.subrange(0, i as int));
            assert(views(texts@.subrange(0, i + 1)) =~= pre.push(t@));
            lemma_filter_push(pre, keep, t@);
        }
        if t.as_str().unicode_len() > 0 {
            let ghost before = views(out@);
            out.push(t.clone());
            assert(views(out@) =~= before.push(t@));
        }
        i = i + 1;
    }
    assert(texts@.subrange(0, n as int) =~= texts@);
    out
}

/// When every argument contributes nothing (all are empty, `--` or `_`),
/// no message is sent.
pub proof fn lemma_all_skipped_sends_nothing(texts: Seq<Seq<char>>)
    requires
        forall|i: int| 0 <= i < texts.len() ==> (#[trigger] texts[i]).len() == 0,
    ensures
        messages_to_send(texts).len() == 0,
    decreases texts.len(),
{
    if texts.len() > 0 {
        let pre = texts.drop_last();
        assert(forall|i: int| 0 <= i < pre.len() ==> (#[trigger] pre[i]).len() == 0) by {
            assert forall|i: int| 0 <= i < pre.len() implies (#[trigger] pre[i]).len() == 0 by {
                assert(pre[i] == texts[i]);
            }
        }
        lemma_all_skipped_sends_nothing(pre);
        assert(texts =~= pre.push(texts.last()));
        lemma_filter_push(pre, |t: Seq<char>| t.len() > 0, texts.last());
    }
}

/// When `--message` is not used but data is piped into standard input, the
/// piped data is sent as one message, as if `-m -` had been given.
pub fn default_stdin_message(messages: &mut Vec<String>, stdin_is_terminal: bool)
    ensures
        (old(messages)@.len() == 0 && !stdin_is_terminal) ==> views(final(messages)@) == seq![seq!['-']],
        !(old(messages)@.len() == 0 && !stdin_is_terminal) ==> final(messages)@ == old(messages)@,
{
    if messages.len() == 0 && !stdin_is_terminal {
        let mut dash = String::new();
        crate::text::push_char(&mut dash, '-');
        messages.push(dash);
        assert(views(messages@) =~= seq![seq!['-']]);
    }
}

} // verus!
