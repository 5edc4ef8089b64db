//! What a worker does with one command: it runs the command to completion
//! and hands the message that it yields, if any, to the message bus.

use vstd::prelude::*;
use vstd::multiset::Multiset;
use crate::command::{Command, Message};

verus! {

/// The messages that go to the message bus for the result of a command: the
/// message itself where there is one, and nothing where there is none.
pub open spec fn forwarded<M>(result: Option<Message<M>>) -> Seq<Message<M>> {
    match result {
        Some(msg) => seq![msg],
        None => Seq::empty(),
    }
}

/// The messages to send to the message bus for the result of a command.
pub fn forward<M>(result: Option<Message<M>>) -> (messages: Vec<Message<M>>)
    ensures
        messages@ == forwarded(result),
{
    let mut messages = Vec::new();
    if let Some(msg) = result {
        messages.push(msg);
    }
    messages
}

/// Runs `cmd` to completion and returns the messages to send to the message
/// bus: at most one, and for a ready command exactly its message.
pub fn execute<M>(cmd: Command<M>) -> (messages: Vec<Message<M>>)
    ensures
        messages@.len() <= 1,
        cmd is Ready ==> messages@ == forwarded(cmd.known_result()),
{
    forward(cmd.run())
}

/// A command's result makes no message where it is nothing, and exactly one
/// where it is a message.
pub proof fn lemma_result_cardinality<M>(result: Option<Message<M>>)
    ensures
        result is None ==> forwarded(result).len() == 0,
        result is Some ==> forwarded(result).len() == 1 && forwarded(result)[0] == result->0,
{
}

/// The messages that reach the message bus for the results of several
/// commands, with no order among them: each result's own message, where it
/// has one.
pub open spec fn all_forwarded<M>(results: Seq<Option<Message<M>>>) -> Multiset<Message<M>>
    decreases results.len(),
{
    if results.len() == 0 {
        Multiset::empty()
    } else {
        match results.last() {
            Some(msg) => all_forwarded(results.drop_last()).insert(msg),
            None => all_forwarded(results.drop_last()),
        }
    }
}

/// A message reaches the bus as often as commands have yielded it.
pub proof fn lemma_all_forwarded_count<M>(results: Seq<Option<Message<M>>>, msg: Message<M>)
    ensures
        all_forwarded(results).count(msg) == results.to_multiset().count(Some(msg)),
    decreases results.len(),
{
    broadcast use {vstd::multiset::group_multiset_axioms, vstd::seq_lib::group_to_multiset_ensures};

    if results.len() == 0 {
        assert(results.to_multiset().len() == 0);
    } else {
        let head = results.drop_last();
        lemma_all_forwarded_count(head, msg);
        assert(head.push(results.last()) == results);
        assert(results.to_multiset() == head.to_multiset().insert(results.last()));
    }
}

/// The messages that reach the bus do not depend on the order in which the
/// commands finish: the same results in another order forward the same
/// messages.
pub proof fn lemma_forwarding_ignores_order<M>(
    results: Seq<Option<Message<M>>>,
    reordered: Seq<Option<Message<M>>>,
)
    requires
        results.to_multiset() == reordered.to_multiset(),
    ensures
        all_forwarded(results) == all_forwarded(reordered),
{
    broadcast use vstd::multiset::group_multiset_axioms;

    assert forall|msg: Message<M>|
        all_forwarded(results).count(msg) == all_forwarded(reordered).count(msg) by {
        lemma_all_forwarded_count(results, msg);
        lemma_all_forwarded_count(reordered, msg);
    }
    assert(all_forwarded(results) =~= all_forwarded(reordered));
}

/// Several commands forward no more messages than there are commands, and
/// one message less for each command that yields nothing.
pub proof fn lemma_all_forwarded_len<M>(results: Seq<Option<Message<M>>>)
    ensures
        all_forwarded(results).len() == results.filter(|r: Option<Message<M>>| r is Some).len(),
        all_forwarded(results).len() <= results.len(),
    decreases results.len(),
{
    broadcast use vstd::multiset::group_multiset_axioms;

    reveal(Seq::filter);
    if results.len() > 0 {
        lemma_all_forwarded_len(results.drop_last());
    }
}

} // verus!
