//! Applying messages one after another, in the order in which they arrive.

use crate::model::{issued, next_model, update, Command, Message, MessageView, Model, ModelView};
use crate::roll::RollRecordView;
use vstd::prelude::*;

verus! {

/// The contents of a run of messages, in the same order.
pub open spec fn message_views(messages: Seq<Message>) -> Seq<MessageView> {
    messages.map_values(|message: Message| message@)
}

/// The model after every message of `messages` has been applied to `model`,
/// first to last.
pub open spec fn run(model: ModelView, messages: Seq<MessageView>) -> ModelView
    decreases messages.len(),
{
    if messages.len() == 0 {
        model
    } else {
        next_model(run(model, messages.drop_last()), messages.last())
    }
}

/// The commands that applying `messages` to `model` gives rise to, in the
/// order in which they are issued.
pub open spec fn all_issued(model: ModelView, messages: Seq<MessageView>) -> Seq<Command>
    decreases messages.len(),
{
    if messages.len() == 0 {
        Seq::empty()
    } else {
        all_issued(model, messages.drop_last()) + issued(
            run(model, messages.drop_last()),
            messages.last(),
        )
    }
}

/// Applies `messages` to `model` one at a time, first to last, and returns
/// the commands to carry out, in the order in which they were issued.
pub fn update_all(messages: Vec<Message>, model: &mut Model) -> (commands: Vec<Command>)
    ensures
        final(model)@ == run(old(model)@, message_views(messages@)),
        commands@ == all_issued(old(model)@, message_views(messages@)),
{
    let mut commands: Vec<Command> = Vec::new();
    let ghost all = message_views(messages@);
    let ghost start = model@;
    for message in it: messages
        invariant
            it.seq() == messages@,
            all == message_views(messages@),
            model@ == run(start, all.take(it.index() as int)),
            commands@ == all_issued(start, all.take(it.index() as int)),
    {
        let ghost done = all.take(it.index() as int);
        let ghost more = all.take(it.index() + 1);
        assert(more.drop_last() =~= done);
        assert(more.last() == message@);
        let mut step = update(message, model);
        commands.append(&mut step);
    }
    assert(all.take(all.len() as int) =~= all);
    commands
}

/// The records that `messages` deliver, in the order of their arrival.
pub open spec fn arrivals(messages: Seq<MessageView>) -> Seq<RollRecordView>
    decreases messages.len(),
{
    if messages.len() == 0 {
        Seq::empty()
    } else {
        match messages.last() {
            MessageView::RollSucceeded(record) => arrivals(messages.drop_last()).push(record),
            _ => arrivals(messages.drop_last()),
        }
    }
}

/// The latest failure that `messages` report, if they report any.
pub open spec fn latest_failure(messages: Seq<MessageView>) -> Option<Seq<char>>
    decreases messages.len(),
{
    if messages.len() == 0 {
        None
    } else {
        match messages.last() {
            MessageView::RollFailed(reason) => Some(reason),
            _ => latest_failure(messages.drop_last()),
        }
    }
}

/// The transition has no hidden state: applied to models of equal content and
/// messages of equal content, it gives models of equal content and the same
/// commands.
pub proof fn lemma_transition_is_pure(
    first: Model,
    second: Model,
    first_message: Message,
    second_message: Message,
)
    requires
        first@ == second@,
        first_message@ == second_message@,
    ensures
        next_model(first@, first_message@) == next_model(second@, second_message@),
        issued(first@, first_message@) == issued(second@, second_message@),
{
}

/// Applying a run of messages and then another is applying the two runs joined,
/// for the model and for the commands issued.
pub proof fn lemma_run_in_parts(model: ModelView, before: Seq<MessageView>, after: Seq<MessageView>)
    ensures
        run(model, before + after) == run(run(model, before), after),
        all_issued(model, before + after) == all_issued(model, before) + all_issued(
            run(model, before),
            after,
        ),
    decreases after.len(),
{
    if after.len() == 0 {
        assert(before + after =~= before);
    } else {
        lemma_run_in_parts(model, before, after.drop_last());
        assert((before + after).drop_last() =~= before + after.drop_last());
        assert((before + after).last() == after.last());
    }
}

/// The history is the history at start followed by the records delivered, in
/// the order of their delivery: whatever the messages, no record is removed,
/// changed or moved, and each new one goes to the end.
pub proof fn lemma_history_follows_arrivals(model: ModelView, messages: Seq<MessageView>)
    ensures
        run(model, messages).history == model.history + arrivals(messages),
    decreases messages.len(),
{
    if messages.len() > 0 {
        lemma_history_follows_arrivals(model, messages.drop_last());
    }
}

/// The history only grows: after any run of messages it is at least as long
/// as before and begins with the history as it was.
pub proof fn lemma_history_only_grows(model: ModelView, messages: Seq<MessageView>)
    ensures
        run(model, messages).history.len() >= model.history.len(),
        model.history.is_prefix_of(run(model, messages).history),
{
    lemma_history_follows_arrivals(model, messages);
}

/// The failure shown is the latest one reported, and a success never clears
/// it: where the messages report none, the failure shown before stays.
pub proof fn lemma_failure_persists(model: ModelView, messages: Seq<MessageView>)
    ensures
        run(model, messages).last_error == match latest_failure(messages) {
            Some(reason) => Some(reason),
            None => model.last_error,
        },
    decreases messages.len(),
{
    if messages.len() > 0 {
        lemma_failure_persists(model, messages.drop_last());
    }
}

/// A command keeps the expression it was issued with: the commands issued so
/// far are the same whatever messages follow.
pub proof fn lemma_issued_commands_stand(
    model: ModelView,
    before: Seq<MessageView>,
    after: Seq<MessageView>,
)
    ensures
        all_issued(model, before).is_prefix_of(all_issued(model, before + after)),
{
    lemma_run_in_parts(model, before, after);
}

} // verus!
