//! The shape of an exchange with the world outside: it is handed events, one at a time,
//! and answers each with a turn.

use crate::notice::{Notice, NoticeView};
use vstd::prelude::*;

verus! {

/// The answer of an exchange to an event: the state it is in now, what to tell the
/// window, and then what to do.
#[derive(Debug)]
pub struct Turn<S, A> {
    pub state: S,
    pub notices: Vec<Notice>,
    pub action: A,
}

#[verifier::ext_equal]
pub struct TurnView<S, A> {
    pub state: S,
    pub notices: Seq<NoticeView>,
    pub action: A,
}

/// An error text, by its characters.
pub open spec fn text_result<T>(r: Result<T, String>) -> Result<T, Seq<char>> {
    match r {
        Ok(t) => Ok(t),
        Err(e) => Err(e@),
    }
}

/// Whether a command ran and succeeded: one that could not be started did not.
pub open spec fn succeeded(r: Result<bool, Seq<char>>) -> bool {
    r == Ok::<bool, Seq<char>>(true)
}

/// The turns of an exchange that starts in `start`, answers by `answer` and is handed
/// `events`.
pub open spec fn turns<S, E, A>(
    answer: spec_fn(S, E) -> TurnView<S, A>,
    start: S,
    events: Seq<E>,
) -> Seq<TurnView<S, A>>
    decreases events.len(),
{
    if events.len() == 0 {
        Seq::empty()
    } else {
        let before = turns(answer, start, events.drop_last());
        before.push(answer(last_state(start, before), events.last()))
    }
}

/// The state that a list of turns leaves an exchange in.
pub open spec fn last_state<S, A>(start: S, list: Seq<TurnView<S, A>>) -> S {
    if list.len() == 0 {
        start
    } else {
        list.last().state
    }
}

/// Some turn of the exchange asks for `action`.
pub open spec fn asked<S, A>(list: Seq<TurnView<S, A>>, action: A) -> bool {
    exists|i: int| 0 <= i < list.len() && (#[trigger] list[i]).action == action
}

/// What was asked by the end was asked before the last turn, or is asked by it.
pub proof fn lemma_asked_push<S, A>(list: Seq<TurnView<S, A>>, turn: TurnView<S, A>, action: A)
    ensures
        asked(list.push(turn), action) <==> (asked(list, action) || turn.action == action),
{
    let longer = list.push(turn);
    if asked(list, action) {
        let i = choose|i: int| 0 <= i < list.len() && (#[trigger] list[i]).action == action;
        assert(longer[i].action == action);
    }
    if turn.action == action {
        assert(longer[list.len() as int].action == action);
    }
    if asked(longer, action) {
        let i = choose|i: int| 0 <= i < longer.len() && (#[trigger] longer[i]).action == action;
        if i < list.len() {
            assert(list[i].action == action);
        }
    }
}

/// An error text is seen as it is, and so is what came instead of one; a command counts as
/// successful only where it ran and said so.
pub proof fn law_results_are_seen_as_they_are<T>(t: T, e: String, ran: Result<bool, Seq<char>>)
    ensures
        text_result(Ok::<T, String>(t)) == Ok::<T, Seq<char>>(t),
        text_result(Err::<T, String>(e)) == Err::<T, Seq<char>>(e@),
        succeeded(ran) <==> (ran matches Ok(b) && b),
{
}

} // verus!
