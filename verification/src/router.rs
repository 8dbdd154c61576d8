//! Command routing: which command an inbound message fired, the prompt
//! token forwarded to the completion API, and the handler's step before and
//! after the completion call.

use vstd::prelude::*;
use vstd::string::*;
use crate::dispatch::{build_turns, reply_text, reply_view, turns_for, views_of, CompletionError, Turn};
use crate::history::{push_bounded, push_recent};

verus! {

/// Index of the first space in `s` at or after `from`, or `s.len()` when
/// there is none.
pub open spec fn space_from(s: Seq<char>, from: int) -> int
    decreases s.len() - from,
{
    if from < 0 || from >= s.len() {
        s.len() as int
    } else if s[from] == ' ' {
        from
    } else {
        space_from(s, from + 1)
    }
}

/// The token forwarded as the prompt: the text between the first space and
/// the following space (or the end of the content). Empty when the content
/// has no space — and note that any word after the second space is dropped.
pub open spec fn prompt_token(s: Seq<char>) -> Seq<char> {
    let i = space_from(s, 0);
    if i == s.len() {
        Seq::empty()
    } else {
        s.subrange(i + 1, space_from(s, i + 1))
    }
}

/// The content that fires the ping command: exactly `"!ping"`.
pub open spec fn is_ping(content: Seq<char>) -> bool {
    content == "!ping"@
}

/// The content that fires the completion command: any content starting with
/// `"!ai "`.
pub open spec fn is_ai(content: Seq<char>) -> bool {
    content.len() >= 4 && content.subrange(0, 4) == "!ai "@
}

/// What an inbound message asks the bot to do.
pub enum Command {
    /// Exact `"!ping"`: reply with `"Pong!"`, no dispatch, no history.
    Ping,
    /// `"!ai ..."`: dispatch `prompt` to the completion API.
    Ai { prompt: String },
    /// Anything else: no action and no state mutation.
    Ignore,
}

/// Compare two string slices character by character.
fn str_eq_str(a: &str, b: &str) -> (r: bool)
    ensures
        r == (a@ == b@),
{
    let a_len = a.unicode_len();
    let b_len = b.unicode_len();
    if a_len != b_len {
        return false;
    }
    let mut i: usize = 0;
    while i < a_len
        invariant
            a_len == a@.len(),
            b_len == b@.len(),
            a_len == b_len,
            i <= a_len,
            forall|j: int| 0 <= j < i ==> a@[j] == b@[j],
        decreases a_len - i,
    {
        if a.get_char(i) != b.get_char(i) {
            return false;
        }
        i = i + 1;
    }
    proof {
        assert(a@ =~= b@);
    }
    true
}

/// Index of the first space in `s` at or after `from`, or `s`'s length when
/// there is none.
fn find_space(s: &str, from: usize, len: usize) -> (i: usize)
    requires
        len == s@.len(),
        from <= len,
    ensures
        from <= i <= len,
        i == space_from(s@, from as int),
{
    let mut i: usize = from;
    while i < len
        invariant
            len == s@.len(),
            from <= i <= len,
            space_from(s@, from as int) == space_from(s@, i as int),
        decreases len - i,
    {
        if s.get_char(i) == ' ' {
            return i;
        }
        i = i + 1;
    }
    i
}

/// The first whitespace-delimited token after the command word, or the
/// empty string when there is none.
fn extract_prompt(content: &str) -> (p: String)
    ensures
        p@ == prompt_token(content@),
{
    let len = content.unicode_len();
    let first = find_space(content, 0, len);
    if first == len {
        String::new()
    } else {
        let second = find_space(content, first + 1, len);
        content.substring_char(first + 1, second).to_owned()
    }
}

/// Whether the content starts with the completion command prefix `"!ai "`.
fn has_ai_prefix(content: &str) -> (r: bool)
    ensures
        r == is_ai(content@),
{
    proof {
        reveal_strlit("!ai ");
    }
    let len = content.unicode_len();
    if len < 4 {
        return false;
    }
    let r = content.get_char(0) == '!' && content.get_char(1) == 'a' && content.get_char(2) == 'i'
        && content.get_char(3) == ' ';
    proof {
        if r {
            assert(content@.subrange(0, 4) =~= "!ai "@);
        } else {
            assert(content@.subrange(0, 4)[0] == content@[0]);
            assert(content@.subrange(0, 4)[1] == content@[1]);
            assert(content@.subrange(0, 4)[2] == content@[2]);
            assert(content@.subrange(0, 4)[3] == content@[3]);
        }
    }
    r
}

/// Decide which command the message content fired. The ping command is
/// checked first; it never carries the completion prefix, so the two are
/// exclusive either way.
pub fn route(content: &str) -> (c: Command)
    ensures
        c is Ping <==> is_ping(content@),
        c is Ai <==> !is_ping(content@) && is_ai(content@),
        c matches Command::Ai { prompt } ==> prompt@ == prompt_token(content@),
{
    if str_eq_str(content, "!ping") {
        Command::Ping
    } else if has_ai_prefix(content) {
        Command::Ai { prompt: extract_prompt(content) }
    } else {
        Command::Ignore
    }
}

/// The handler's step for one inbound message, decided before any outside
/// call is made.
pub enum Step {
    /// Send `text` to the originating channel and stop.
    Reply { text: String },
    /// Ask the completion API with `turns`, then record and send its answer.
    Complete { turns: Vec<Turn> },
    /// Do nothing.
    Skip,
}

/// Decide the handler's step for one inbound message, given the channel's
/// current history: `"!ping"` is answered with `"Pong!"` directly; a
/// completion command builds the turn list from the history and the prompt
/// token; anything else does nothing and touches no state.
pub fn on_message(content: &str, history: &Vec<String>) -> (s: Step)
    ensures
        is_ping(content@) ==> (s matches Step::Reply { text } && text@ == "Pong!"@),
        !is_ping(content@) && is_ai(content@) ==> (s matches Step::Complete { turns }
            && views_of(turns@) == turns_for(history.deep_view(), prompt_token(content@))),
        !is_ping(content@) && !is_ai(content@) ==> s is Skip,
{
    match route(content) {
        Command::Ping => Step::Reply { text: String::from_str("Pong!") },
        Command::Ai { prompt } => Step::Complete { turns: build_turns(prompt, history) },
        Command::Ignore => Step::Skip,
    }
}

/// The handler's step after the completion API answered: the reply to send
/// and the channel's updated history. The reply is recorded either way —
/// an error reply is appended to the history exactly like a successful
/// completion, so later requests replay it as prior context.
pub fn after_completion(outcome: Result<String, CompletionError>, history: Vec<String>) -> (r: (
    String,
    Vec<String>,
))
    ensures
        r.0@ == reply_view(outcome),
        r.1.deep_view() == push_bounded(history.deep_view(), reply_view(outcome)),
{
    let reply = reply_text(outcome);
    let mut updated = history;
    push_recent(&mut updated, reply.clone());
    (reply, updated)
}

} // verus!
