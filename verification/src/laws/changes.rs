//! How changes relate: what one call does, another finds or undoes.

use vstd::prelude::*;

use crate::azure_openai::caching_provider::CachingTokenProvider;
use crate::azure_openai::errors::AzureOpenAIError;
use crate::compaction::{CompactionOutput, CompactionStrategy};
use crate::context_manager::{self as managers, CompactionReport, ContextManager};
use crate::duration::Duration;
use crate::history_store::InMemoryHistoryStore;
use crate::json::Json;
use crate::message::{self, Message};
use crate::prompt::{Prompt, PromptSection};
use crate::retry::{self, RetryClassification, RetryConfig, RetryState, RetryStep};
use crate::snapshot::ConversationSnapshot;
use crate::testing::{ScriptedModel, ScriptedTurn};
use crate::tokenizer::Tokenizer;

verus! {

/// A store gives back the snapshot that was saved last, and a new one gives back none.
pub proof fn stores_give_back_what_was_saved(
    store: &mut InMemoryHistoryStore,
    again: &mut InMemoryHistoryStore,
    fresh: InMemoryHistoryStore,
    first: ConversationSnapshot,
    second: ConversationSnapshot,
    none: Option<ConversationSnapshot>,
    one: Option<ConversationSnapshot>,
    two: Option<ConversationSnapshot>,
)
    requires
        call_ensures(InMemoryHistoryStore::new, (), fresh),
        call_ensures(InMemoryHistoryStore::load, (&fresh,), none),
        call_ensures(InMemoryHistoryStore::save, (store, &first), ()),
        call_ensures(InMemoryHistoryStore::load, (&*final(store),), one),
        *old(again) == *final(store),
        call_ensures(InMemoryHistoryStore::save, (again, &second), ()),
        call_ensures(InMemoryHistoryStore::load, (&*final(again),), two),
    ensures
        none is None,
        one matches Some(s) && s@ == first@,
        two matches Some(s) && s@ == second@,
{
}

/// A message that is added is the last one and not pinned; those before it keep their places and
/// their pins.
pub proof fn added_messages_come_last<T: Tokenizer, S: CompactionStrategy>(
    manager: &mut ContextManager<T, S>,
    message: Message,
    i: int,
)
    requires
        old(manager).wf(),
        call_ensures(ContextManager::<T, S>::add_message, (manager, message), ()),
        0 <= i < old(manager)@.messages.len(),
    ensures
        ({
            let before = old(manager)@;
            let after = final(manager)@;
            &&& after.messages.len() == before.messages.len() + 1
            &&& after.messages.last() == message@
            &&& !after.pinned.last()
            &&& after.messages[i] == before.messages[i]
            &&& after.pinned[i] == before.pinned[i]
            &&& after.config == before.config
            &&& final(manager).wf()
        }),
{
}

/// Extending a history by messages is adding them one after the other.
pub proof fn extending_adds_one_by_one<T: Tokenizer, S: CompactionStrategy>(
    all: &mut ContextManager<T, S>,
    first: &mut ContextManager<T, S>,
    second: &mut ContextManager<T, S>,
    messages: Vec<Message>,
)
    requires
        old(all).wf(),
        messages@.len() == 2,
        call_ensures(ContextManager::<T, S>::extend, (all, messages), ()),
        *old(first) == *old(all),
        call_ensures(ContextManager::<T, S>::add_message, (first, messages@[0]), ()),
        *old(second) == *final(first),
        call_ensures(ContextManager::<T, S>::add_message, (second, messages@[1]), ()),
    ensures
        final(all)@.messages == final(second)@.messages,
        final(all)@.pinned == final(second)@.pinned,
        final(all)@.config == final(second)@.config,
{
    let models = message::message_models(messages@);
    assert(models[0] == messages@[0]@ && models[1] == messages@[1]@);
    assert(final(all)@.messages =~= final(second)@.messages);
    assert(final(all)@.pinned =~= final(second)@.pinned);
}

/// A pin is set where it is asked for and nowhere else, the history stays as it is, and taking the
/// pin off again leaves the message unpinned and the others as they were.
pub proof fn pins_are_set_in_place<T: Tokenizer, S: CompactionStrategy>(
    manager: &mut ContextManager<T, S>,
    again: &mut ContextManager<T, S>,
    idx: usize,
    other: int,
    there: bool,
    gone: bool,
)
    requires
        old(manager).wf(),
        idx < old(manager)@.messages.len(),
        0 <= other < old(manager)@.messages.len(),
        other != idx,
        call_ensures(ContextManager::<T, S>::pin_at, (manager, idx), ()),
        call_ensures(ContextManager::<T, S>::is_pinned, (&*final(manager), idx), there),
        *old(again) == *final(manager),
        call_ensures(ContextManager::<T, S>::unpin_at, (again, idx), ()),
        call_ensures(ContextManager::<T, S>::is_pinned, (&*final(again), idx), gone),
    ensures
        there,
        !gone,
        final(manager)@.pinned[other] == old(manager)@.pinned[other],
        final(again)@.pinned[other] == old(manager)@.pinned[other],
        final(again)@.messages == old(manager)@.messages,
        !old(manager)@.pinned[idx as int] ==> final(again)@.pinned == old(manager)@.pinned,
{
    if !old(manager)@.pinned[idx as int] {
        assert(final(again)@.pinned =~= old(manager)@.pinned);
    }
}

/// Pinning the last message pins it and no other; an empty history stays as it is.
pub proof fn the_last_is_pinned<T: Tokenizer, S: CompactionStrategy>(
    manager: &mut ContextManager<T, S>,
    i: int,
)
    requires
        old(manager).wf(),
        call_ensures(ContextManager::<T, S>::pin_last, (manager,), ()),
    ensures
        final(manager)@.messages == old(manager)@.messages,
        0 <= i < old(manager)@.messages.len() ==> final(manager)@.pinned[i] == (
        old(manager)@.pinned[i] || i == old(manager)@.messages.len() - 1),
        old(manager)@.messages.len() == 0 ==> final(manager)@ == old(manager)@,
{
}

/// Pinning with tool results pins the message and those that share a call id with it, and leaves
/// every other pin and the history as they are.
pub proof fn partners_are_pinned<T: Tokenizer, S: CompactionStrategy>(
    manager: &mut ContextManager<T, S>,
    idx: usize,
    i: int,
)
    requires
        old(manager).wf(),
        idx < old(manager)@.messages.len(),
        0 <= i < old(manager)@.messages.len(),
        call_ensures(ContextManager::<T, S>::pin_with_tool_result, (manager, idx), ()),
    ensures
        final(manager)@.messages == old(manager)@.messages,
        final(manager)@.pinned.len() == old(manager)@.pinned.len(),
        final(manager)@.pinned[i] <==> {
            ||| old(manager)@.pinned[i]
            ||| i == idx
            ||| managers::partners(old(manager)@.messages[idx as int], old(manager)@.messages[i])
        },
{
}

/// A compaction is taken over as it is and reported with both lengths and its strategy.
pub proof fn compactions_are_taken_over<T: Tokenizer, S: CompactionStrategy>(
    manager: &mut ContextManager<T, S>,
    output: CompactionOutput,
    strategy: &'static str,
    report: CompactionReport,
)
    requires
        old(manager).wf(),
        output.messages@.len() == output.pinned@.len(),
        call_ensures(
            ContextManager::<T, S>::apply_compaction,
            (manager, output, strategy),
            report,
        ),
    ensures
        final(manager)@.messages == message::message_models(output.messages@),
        final(manager)@.pinned == output.pinned@,
        final(manager)@.config == old(manager)@.config,
        report.before == old(manager)@.messages.len(),
        report.after == final(manager)@.messages.len(),
        report.strategy@ == strategy@,
{
}

/// A token that was fetched is served from then on until its time is up. A failure is passed on and
/// leaves the earlier token in place.
pub proof fn fetched_tokens_are_served<P>(
    cache: &mut CachingTokenProvider<P>,
    failed: &mut CachingTokenProvider<P>,
    token: String,
    error: AzureOpenAIError,
    at: Duration,
    now: Duration,
    given: Result<String, AzureOpenAIError>,
    refused: Result<String, AzureOpenAIError>,
    served: Option<String>,
    still: Option<String>,
)
    requires
        call_ensures(
            CachingTokenProvider::<P>::fetched,
            (cache, Ok::<String, AzureOpenAIError>(token), at),
            given,
        ),
        call_ensures(CachingTokenProvider::<P>::cached_token, (&*final(cache), now), served),
        *old(failed) == *final(cache),
        call_ensures(
            CachingTokenProvider::<P>::fetched,
            (failed, Err::<String, AzureOpenAIError>(error), now),
            refused,
        ),
        call_ensures(CachingTokenProvider::<P>::cached_token, (&*final(failed), now), still),
        at@ <= now@,
    ensures
        given matches Ok(t) && t@ == token@,
        refused == Err::<String, AzureOpenAIError>(error),
        served is Some <==> now@ + old(cache)@.refresh_skew < at@ + old(cache)@.ttl,
        served matches Some(t) ==> t@ == token@,
        still is Some <==> served is Some,
        still matches Some(t) ==> t@ == token@,
{
}

/// A script plays its turns in order, one at a time, and after the last one streams are empty.
pub proof fn scripts_play_in_order(
    script: &mut ScriptedModel,
    again: &mut ScriptedModel,
    turns: Vec<ScriptedTurn>,
    first: ScriptedTurn,
    second: ScriptedTurn,
)
    requires
        call_ensures(ScriptedModel::with_turns, (turns,), *old(script)),
        turns@.len() == 1,
        call_ensures(ScriptedModel::next_turn, (script,), first),
        *old(again) == *final(script),
        call_ensures(ScriptedModel::next_turn, (again,), second),
    ensures
        first == turns@[0],
        second matches Ok(items) && items@.len() == 0,
{
}

/// A section that is added is the last one. Removing by its name, where no earlier section has it,
/// gives the prompt back as it was.
pub proof fn removing_undoes_adding(
    prompt: &mut Prompt,
    again: &mut Prompt,
    section: PromptSection,
    name: &str,
)
    requires
        section@.name == Some(name@),
        forall|i: int| 0 <= i < old(prompt)@.len() ==> (#[trigger] old(prompt)@[i]).name != Some(name@),
        call_ensures(Prompt::add_section, (prompt, section), ()),
        *old(again) == *final(prompt),
        call_ensures(Prompt::remove_section, (again, name), ()),
    ensures
        final(prompt)@.len() == old(prompt)@.len() + 1,
        final(prompt)@.last() == section@,
        final(prompt)@.drop_last() == old(prompt)@,
        final(again)@ == old(prompt)@,
{
    let before = old(prompt)@;
    let with = before.push(section@);
    let last = before.len() as int;
    assert(with.drop_last() =~= before);
    assert(crate::prompt::first_named(with, name@, last)) by {
        assert forall|k: int| 0 <= k < last implies (#[trigger] with[k]).name != Some(name@) by {
            assert(with[k] == before[k]);
        }
    }
    assert(with.remove(last) =~= before);
}

/// Each failure counts once, and a failure after which the call is repeated leaves calls to make.
pub proof fn failures_are_counted(
    state: &mut RetryState,
    config: RetryConfig,
    classification: RetryClassification,
    now_nanos: u32,
    step: RetryStep,
)
    requires
        old(state)@ < retry::allowed_calls(config),
        call_ensures(
            RetryState::failed_at,
            (state, &config, classification, now_nanos),
            step,
        ),
    ensures
        final(state)@ == old(state)@ + 1,
        classification is Permanent ==> step is GiveUp,
        classification is Transient ==> (step is RetryAfter <==> final(state)@ < config.max_attempts),
{
}

/// An entry that is set is found under its key, and every other entry is found as before. A value
/// that is no object stays as it is.
pub proof fn entries_are_found(
    value: &mut Json,
    key: &str,
    entry: Json,
    other: &str,
    there: Option<&Json>,
    before: Option<&Json>,
    after: Option<&Json>,
)
    requires
        call_ensures(Json::get, (&*old(value), other), before),
        call_ensures(Json::set, (value, key, entry), ()),
        call_ensures(Json::get, (&*final(value), key), there),
        call_ensures(Json::get, (&*final(value), other), after),
    ensures
        old(value)@ is Object ==> (there matches Some(j) && j@ == entry@),
        other@ != key@ ==> (after is Some <==> before is Some),
        other@ != key@ ==> (after matches Some(j) ==> j@ == before->0@),
        !(old(value)@ is Object) ==> final(value)@ == old(value)@,
{
}

} // verus!
