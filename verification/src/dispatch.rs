//! Construction of completion-API requests and interpretation of their
//! outcomes: the ordered list of role-tagged turns sent for one request,
//! first-choice extraction, and the user-facing reply text.

use vstd::prelude::*;
use vstd::string::*;

verus! {

/// The role of one conversational turn sent to the completion API.
#[derive(Clone, Copy, PartialEq, Eq, Structural, Debug)]
pub enum Role {
    /// A prior completion result, replayed to seed multi-turn context.
    PriorAssistant,
    /// The new user request.
    CurrentUser,
}

/// One role-tagged unit of text sent to the completion API.
#[derive(Clone, Debug)]
pub struct Turn {
    pub role: Role,
    pub text: String,
}

impl View for Turn {
    type V = (Role, Seq<char>);

    open spec fn view(&self) -> (Role, Seq<char>) {
        (self.role, self.text@)
    }
}

/// The views of a built turn list, in order.
pub open spec fn views_of(turns: Seq<Turn>) -> Seq<(Role, Seq<char>)> {
    Seq::new(turns.len(), |i: int| turns[i]@)
}

/// The context part of a request: every history entry in order, tagged as
/// prior assistant output.
pub open spec fn prior_turns(history: Seq<Seq<char>>) -> Seq<(Role, Seq<char>)> {
    Seq::new(history.len(), |i: int| (Role::PriorAssistant, history[i]))
}

/// The turn list for one request: every history entry in order, tagged as
/// prior assistant output, followed by exactly one turn carrying the user's
/// text.
pub open spec fn turns_for(history: Seq<Seq<char>>, user_text: Seq<char>) -> Seq<(Role, Seq<char>)> {
    prior_turns(history).push((Role::CurrentUser, user_text))
}

/// Build the ordered turn list for a request with the given prior history.
pub fn build_turns(user_text: String, history: &Vec<String>) -> (turns: Vec<Turn>)
    ensures
        views_of(turns@) == turns_for(history.deep_view(), user_text@),
{
    let mut turns: Vec<Turn> = Vec::new();
    let mut i: usize = 0;
    while i < history.len()
        invariant
            i <= history.len(),
            views_of(turns@) == prior_turns(history.deep_view().take(i as int)),
        decreases history.len() - i,
    {
        let ghost prev = turns@;
        let entry = history[i].clone();
        proof {
            assert(entry@ == history.deep_view()[i as int]);
        }
        let ghost entry_view = entry@;
        turns.push(Turn { role: Role::PriorAssistant, text: entry });
        i = i + 1;
        proof {
            assert(history.deep_view().len() == history@.len());
            assert(views_of(prev).len() == prev.len());
            assert(prev.len() == i as int - 1);
            assert(turns@.len() == i as int);
            assert forall|j: int| 0 <= j < i as int implies views_of(turns@)[j] == prior_turns(
                history.deep_view().take(i as int),
            )[j] by {
                if j < i as int - 1 {
                    assert(views_of(prev)[j] == prior_turns(
                        history.deep_view().take(i as int - 1),
                    )[j]);
                } else {
                    assert(turns@[j]@ == (Role::PriorAssistant, entry_view));
                }
            }
            assert(views_of(turns@) =~= prior_turns(history.deep_view().take(i as int)));
        }
    }
    turns.push(Turn { role: Role::CurrentUser, text: user_text });
    proof {
        assert(history.deep_view().take(history.len() as int) =~= history.deep_view());
        assert(views_of(turns@) =~= turns_for(history.deep_view(), user_text@));
    }
    turns
}

/// Build the turn list of the stateless variant: no stored context is ever
/// read, so the request is a single user turn.
pub fn build_stateless_turns(user_text: String) -> (turns: Vec<Turn>)
    ensures
        views_of(turns@) == turns_for(Seq::empty(), user_text@),
{
    let empty: Vec<String> = Vec::new();
    let turns = build_turns(user_text, &empty);
    proof {
        assert(empty.deep_view() =~= Seq::<Seq<char>>::empty());
    }
    turns
}

/// Stateless-independence law: a stateless request is a function of the
/// user text alone — exactly one turn, tagged as the current user input, so
/// no request can reference another request's result as prior context.
pub proof fn lemma_stateless_independent(user_text: Seq<char>)
    ensures
        turns_for(Seq::empty(), user_text).len() == 1,
        turns_for(Seq::empty(), user_text)[0] == (Role::CurrentUser, user_text),
{
    assert(turns_for(Seq::empty(), user_text) =~= seq![(Role::CurrentUser, user_text)]);
}

/// Why a completion attempt failed, as reported at the API boundary.
#[derive(Clone, Debug)]
pub struct CompletionError {
    /// Human-readable detail from the transport or API layer.
    pub detail: String,
}

/// Extract the reply from the API's candidate choices: the first choice's
/// text. An empty choice list is a defect surfaced as an error — fail
/// closed, never an out-of-bounds access.
pub fn first_choice(choices: Vec<String>) -> (r: Result<String, CompletionError>)
    ensures
        choices@.len() > 0 ==> r is Ok && r->Ok_0@ == choices@[0]@,
        choices@.len() == 0 ==> r is Err && r->Err_0.detail@ == "completion returned no choices"@,
{
    if choices.len() > 0 {
        let mut c = choices;
        Ok(c.remove(0))
    } else {
        Err(CompletionError { detail: String::from_str("completion returned no choices") })
    }
}

/// The reply for a completion outcome: the completion text on success, or
/// `"Error: "` followed by the failure detail.
pub open spec fn reply_view(outcome: Result<String, CompletionError>) -> Seq<char> {
    match outcome {
        Ok(t) => t@,
        Err(e) => "Error: "@ + e.detail@,
    }
}

/// Turn a completion outcome into the user-facing reply text.
pub fn reply_text(outcome: Result<String, CompletionError>) -> (r: String)
    ensures
        r@ == reply_view(outcome),
{
    match outcome {
        Ok(t) => t,
        Err(e) => String::from_str("Error: ").concat(e.detail.as_str()),
    }
}

/// Error-surfacing law: the reply for a failed completion begins with
/// `"Error: "`, whatever the failure detail.
pub proof fn lemma_error_reply_prefix(e: CompletionError)
    ensures
        reply_view(Err(e)).len() >= 7,
        reply_view(Err(e)).subrange(0, 7) == "Error: "@,
{
    reveal_strlit("Error: ");
    assert(reply_view(Err(e)).subrange(0, 7) =~= "Error: "@);
}

} // verus!
