//! A conversation's history under a token budget.

use vstd::prelude::*;
use vstd::string::*;

use crate::compaction::{
    self, CompactionError, CompactionOutput, CompactionStrategy, TruncateStrategy,
};
use crate::message::{
    self, AssistantBlock, AssistantBlockModel, Message, MessageModel, UserBlock, UserBlockModel,
};
use crate::text::{self, decimal_text, same_text};
use crate::tokenizer::{CharTokenizer, Tokenizer};

verus! {

/// What a compaction did.
#[derive(Debug, Clone, PartialEq, Eq)]
pub struct CompactionReport {
    /// Number of messages before.
    pub before: usize,
    /// Number of messages after.
    pub after: usize,
    /// Name of the strategy.
    pub strategy: &'static str,
}

/// Why a history cannot be restored.
#[derive(Debug, Clone, Copy, PartialEq, Eq, Structural)]
pub enum FromMessagesError {
    /// Messages and pins differ in number.
    LengthMismatch { messages: usize, pinned: usize },
}

impl FromMessagesError {
    /// The error as text.
    pub fn text(&self) -> (r: String)
        ensures
            r@ == (match *self {
                FromMessagesError::LengthMismatch { messages, pinned } =>
                    "messages and pinned must have the same length (messages: "@ + text::decimal(
                    messages as nat,
                ) + ", pinned: "@ + text::decimal(pinned as nat) + ")"@,
            }),
    {
        match self {
            FromMessagesError::LengthMismatch { messages, pinned } => {
                let mut out = "messages and pinned must have the same length (messages: ".to_owned();
                let count = decimal_text(*messages as u64);
                out.append(count.as_str());
                out.append(", pinned: ");
                let count = decimal_text(*pinned as u64);
                out.append(count.as_str());
                out.append(")");
                out
            },
        }
    }
}

/// Owns the messages of a conversation with their pins, and the budget they are held under.
pub struct ContextManager<T: Tokenizer, S: CompactionStrategy> {
    messages: Vec<Message>,
    pinned: Vec<bool>,
    max_tokens: usize,
    preserve_n_last: usize,
    tokenizer: T,
    strategy: S,
}

/// Configuration of a [`ContextManager`].
pub struct ContextManagerBuilder<T: Tokenizer, S: CompactionStrategy> {
    max_tokens: usize,
    preserve_n_last: usize,
    tokenizer: T,
    strategy: S,
}

/// What a manager is configured with.
pub struct ConfigModel<T, S> {
    pub max_tokens: usize,
    pub preserve_n_last: usize,
    pub tokenizer: T,
    pub strategy: S,
}

/// What a [`ContextManager`] holds: `pinned[i]` is the pin of `messages[i]`.
pub struct ManagerModel<T, S> {
    pub messages: Seq<MessageModel>,
    pub pinned: Seq<bool>,
    pub config: ConfigModel<T, S>,
}

impl<T: Tokenizer, S: CompactionStrategy> View for ContextManagerBuilder<T, S> {
    type V = ConfigModel<T, S>;

    closed spec fn view(&self) -> ConfigModel<T, S> {
        ConfigModel {
            max_tokens: self.max_tokens,
            preserve_n_last: self.preserve_n_last,
            tokenizer: self.tokenizer,
            strategy: self.strategy,
        }
    }
}

impl<T: Tokenizer, S: CompactionStrategy> View for ContextManager<T, S> {
    type V = ManagerModel<T, S>;

    closed spec fn view(&self) -> ManagerModel<T, S> {
        ManagerModel {
            messages: message::message_models(self.messages@),
            pinned: self.pinned@,
            config: ConfigModel {
                max_tokens: self.max_tokens,
                preserve_n_last: self.preserve_n_last,
                tokenizer: self.tokenizer,
                strategy: self.strategy,
            },
        }
    }
}

impl<T: Tokenizer, S: CompactionStrategy> ContextManagerBuilder<T, S> {
    /// Sets how many messages at the end a compaction keeps.
    pub fn preserve_n_last(self, n: usize) -> (r: Self)
        ensures
            r@ == (ConfigModel { preserve_n_last: n, ..self@ }),
    {
        ContextManagerBuilder {
            max_tokens: self.max_tokens,
            preserve_n_last: n,
            tokenizer: self.tokenizer,
            strategy: self.strategy,
        }
    }

    /// Sets the tokenizer that measures the history.
    pub fn tokenizer<U: Tokenizer>(self, tokenizer: U) -> (r: ContextManagerBuilder<U, S>)
        ensures
            r@ == (ConfigModel {
                max_tokens: self@.max_tokens,
                preserve_n_last: self@.preserve_n_last,
                tokenizer,
                strategy: self@.strategy,
            }),
    {
        ContextManagerBuilder {
            max_tokens: self.max_tokens,
            preserve_n_last: self.preserve_n_last,
            tokenizer,
            strategy: self.strategy,
        }
    }

    /// Sets the strategy that shrinks the history.
    pub fn strategy<U: CompactionStrategy>(self, strategy: U) -> (r: ContextManagerBuilder<T, U>)
        ensures
            r@ == (ConfigModel {
                max_tokens: self@.max_tokens,
                preserve_n_last: self@.preserve_n_last,
                tokenizer: self@.tokenizer,
                strategy,
            }),
    {
        ContextManagerBuilder {
            max_tokens: self.max_tokens,
            preserve_n_last: self.preserve_n_last,
            tokenizer: self.tokenizer,
            strategy,
        }
    }

    /// A manager with this configuration and an empty history.
    pub fn build(self) -> (r: ContextManager<T, S>)
        ensures
            r@ == (ManagerModel {
                messages: Seq::empty(),
                pinned: Seq::empty(),
                config: self@,
            }),
            r.wf(),
    {
        let r = ContextManager {
            messages: Vec::new(),
            pinned: Vec::new(),
            max_tokens: self.max_tokens,
            preserve_n_last: self.preserve_n_last,
            tokenizer: self.tokenizer,
            strategy: self.strategy,
        };
        assert(r@.messages =~= Seq::<MessageModel>::empty());
        r
    }
}

impl ContextManager<CharTokenizer, TruncateStrategy> {
    /// Begins to configure a manager with a budget of `max_tokens`. Unless set otherwise, four
    /// messages stay at the end, the history is measured by its bytes and shrunk by truncation.
    pub fn builder(max_tokens: usize) -> (r: ContextManagerBuilder<CharTokenizer, TruncateStrategy>)
        ensures
            r@ == (ConfigModel {
                max_tokens,
                preserve_n_last: 4,
                tokenizer: CharTokenizer,
                strategy: TruncateStrategy,
            }),
    {
        ContextManagerBuilder {
            max_tokens,
            preserve_n_last: 4,
            tokenizer: CharTokenizer,
            strategy: TruncateStrategy,
        }
    }
}

/// Whether an assistant turn calls a tool under an id.
pub open spec fn calls(message: MessageModel, id: Seq<char>) -> bool {
    message matches MessageModel::Assistant { blocks } && exists|i: int|
        0 <= i < blocks.len() && (#[trigger] blocks[i] matches AssistantBlockModel::ToolCall {
            id: call,
            ..
        } && call == id)
}

/// Whether a user turn answers the tool call with an id.
pub open spec fn answers(message: MessageModel, id: Seq<char>) -> bool {
    message matches MessageModel::User { blocks } && exists|i: int|
        0 <= i < blocks.len() && (#[trigger] blocks[i] matches UserBlockModel::ToolResult {
            call_id,
            ..
        } && call_id == id)
}

/// Whether one message answers a tool call of another.
pub open spec fn answered_by(caller: MessageModel, answerer: MessageModel) -> bool {
    exists|id: Seq<char>| #[trigger] answers(answerer, id) && calls(caller, id)
}

/// Whether one of two messages answers a tool call of the other.
pub open spec fn partners(a: MessageModel, b: MessageModel) -> bool {
    answered_by(a, b) || answered_by(b, a)
}

fn has_call(blocks: &Vec<AssistantBlock>, id: &str) -> (r: bool)
    ensures
        r == calls(
            (MessageModel::Assistant { blocks: blocks@.map_values(|b: AssistantBlock| b@) }),
            id@,
        ),
{
    let ghost all = blocks@.map_values(|b: AssistantBlock| b@);
    let mut i: usize = 0;
    while i < blocks.len()
        invariant
            i <= blocks.len(),
            all == blocks@.map_values(|b: AssistantBlock| b@),
            forall|k: int|
                0 <= k < i ==> !(#[trigger] all[k] matches AssistantBlockModel::ToolCall {
                    id: call,
                    ..
                } && call == id@),
        decreases blocks.len() - i,
    {
        assert(all[i as int] == blocks@[i as int]@);
        if let AssistantBlock::ToolCall { id: call, .. } = &blocks[i] {
            if same_text(call.as_str(), id) {
                assert(all[i as int] matches AssistantBlockModel::ToolCall { id: call, .. } && call
                    == id@);
                return true;
            }
        }
        i = i + 1;
    }
    false
}

/// Whether the turn with `results` answers a call of the turn with `blocks`.
fn answers_any(blocks: &Vec<AssistantBlock>, results: &Vec<UserBlock>) -> (r: bool)
    ensures
        r == answered_by(
            (MessageModel::Assistant { blocks: blocks@.map_values(|b: AssistantBlock| b@) }),
            (MessageModel::User { blocks: results@.map_values(|b: UserBlock| b@) }),
        ),
{
    let ghost caller = MessageModel::Assistant {
        blocks: blocks@.map_values(|b: AssistantBlock| b@),
    };
    let ghost all = results@.map_values(|b: UserBlock| b@);
    let ghost answerer = MessageModel::User { blocks: all };
    let mut i: usize = 0;
    while i < results.len()
        invariant
            i <= results.len(),
            all == results@.map_values(|b: UserBlock| b@),
            answerer == (MessageModel::User { blocks: all }),
            caller == (MessageModel::Assistant {
                blocks: blocks@.map_values(|b: AssistantBlock| b@),
            }),
            forall|k: int|
                0 <= k < i ==> (#[trigger] all[k] matches UserBlockModel::ToolResult {
                    call_id,
                    ..
                } ==> !calls(caller, call_id)),
        decreases results.len() - i,
    {
        assert(all[i as int] == results@[i as int]@);
        if let UserBlock::ToolResult { call_id, .. } = &results[i] {
            if has_call(blocks, call_id.as_str()) {
                assert(answers(answerer, call_id@));
                return true;
            }
        }
        i = i + 1;
    }
    assert forall|id: Seq<char>| #[trigger] answers(answerer, id) implies !calls(caller, id) by {
        let k = choose|k: int|
            0 <= k < all.len() && (#[trigger] all[k] matches UserBlockModel::ToolResult {
                call_id,
                ..
            } && call_id == id);
        assert(all[k] matches UserBlockModel::ToolResult { call_id, .. } ==> !calls(
            caller,
            call_id,
        ));
    }
    false
}

fn are_partners(a: &Message, b: &Message) -> (r: bool)
    ensures
        r == partners(a@, b@),
{
    match (a, b) {
        (
            Message::Assistant { blocks },
            Message::User { blocks: results },
        ) => answers_any(blocks, results),
        (
            Message::User { blocks: results },
            Message::Assistant { blocks },
        ) => answers_any(blocks, results),
        _ => false,
    }
}

impl<T: Tokenizer, S: CompactionStrategy> ContextManager<T, S> {
    /// Every message has a pin.
    pub open spec fn wf(&self) -> bool {
        self@.messages.len() == self@.pinned.len()
    }

    /// The messages as they are held.
    pub closed spec fn history(&self) -> Vec<Message> {
        self.messages
    }

    /// The pins as they are held.
    pub closed spec fn pins(&self) -> Vec<bool> {
        self.pinned
    }

    /// Restores a manager with a history and its pins.
    pub fn from_messages(
        builder: ContextManagerBuilder<T, S>,
        messages: Vec<Message>,
        pinned: Vec<bool>,
    ) -> (r: Result<Self, FromMessagesError>)
        ensures
            r is Ok <==> messages@.len() == pinned@.len(),
            r matches Ok(manager) ==> manager.wf() && manager@ == (ManagerModel {
                messages: message::message_models(messages@),
                pinned: pinned@,
                config: builder@,
            }),
            r matches Err(e) ==> e == (FromMessagesError::LengthMismatch {
                messages: messages.len(),
                pinned: pinned.len(),
            }),
    {
        if messages.len() != pinned.len() {
            return Err(
                FromMessagesError::LengthMismatch {
                    messages: messages.len(),
                    pinned: pinned.len(),
                },
            );
        }
        Ok(
            ContextManager {
                messages,
                pinned,
                max_tokens: builder.max_tokens,
                preserve_n_last: builder.preserve_n_last,
                tokenizer: builder.tokenizer,
                strategy: builder.strategy,
            },
        )
    }

    /// Appends a message without a pin.
    pub fn add_message(&mut self, message: Message)
        requires
            old(self).wf(),
        ensures
            final(self).wf(),
            final(self)@ == (ManagerModel {
                messages: old(self)@.messages.push(message@),
                pinned: old(self)@.pinned.push(false),
                ..old(self)@
            }),
    {
        let ghost before = self@.messages;
        self.messages.push(message);
        self.pinned.push(false);
        assert(self@.messages =~= before.push(message@));
    }

    /// The token count of the history.
    pub fn estimated_tokens(&self) -> (r: usize)
        ensures
            call_ensures(T::count_messages, (&self@.config.tokenizer, &self.history()), r),
    {
        self.tokenizer.count_messages(&self.messages)
    }

    /// The history.
    pub fn messages(&self) -> (r: &Vec<Message>)
        ensures
            *r == self.history(),
            message::message_models(r@) == self@.messages,
    {
        &self.messages
    }

    /// Appends messages without pins.
    pub fn extend(&mut self, new_messages: Vec<Message>)
        requires
            old(self).wf(),
        ensures
            final(self).wf(),
            final(self)@ == (ManagerModel {
                messages: old(self)@.messages + message::message_models(new_messages@),
                pinned: old(self)@.pinned + Seq::new(new_messages@.len(), |i: int| false),
                ..old(self)@
            }),
    {
        let ghost before = self@;
        let ghost all = new_messages@;
        assert(self@.messages =~= before.messages + message::message_models(all.take(0)));
        assert(self@.pinned =~= before.pinned + Seq::new(0, |i: int| false));
        for message in it: new_messages
            invariant
                it.seq() == all,
                all == new_messages@,
                before == old(self)@,
                self.wf(),
                self@ == (ManagerModel {
                    messages: before.messages + message::message_models(
                        all.take(it.index() as int),
                    ),
                    pinned: before.pinned + Seq::new(it.index() as nat, |i: int| false),
                    ..before
                }),
        {
            let ghost k: int = it.index() as int;
            assert(message == all[k]);
            self.add_message(message);
            assert(self@.messages =~= before.messages + message::message_models(all.take(k + 1)));
            assert(self@.pinned =~= before.pinned + Seq::new((k + 1) as nat, |i: int| false));
        }
        assert(all.take(all.len() as int) =~= all);
    }

    /// The pins, one for each message.
    pub fn pinned(&self) -> (r: &Vec<bool>)
        ensures
            r@ == self@.pinned,
    {
        &self.pinned
    }

    /// Whether the message at `idx` is pinned; none is beyond the end.
    pub fn is_pinned(&self, idx: usize) -> (r: bool)
        ensures
            r == (idx < self@.pinned.len() && self@.pinned[idx as int]),
    {
        idx < self.pinned.len() && self.pinned[idx]
    }

    /// Pins the last message; without one, nothing changes.
    pub fn pin_last(&mut self)
        requires
            old(self).wf(),
        ensures
            final(self).wf(),
            final(self)@ == (if old(self)@.pinned.len() == 0 {
                old(self)@
            } else {
                ManagerModel {
                    pinned: old(self)@.pinned.update(old(self)@.pinned.len() - 1, true),
                    ..old(self)@
                }
            }),
    {
        let n: usize = self.pinned.len();
        if n > 0 {
            self.pinned.set(n - 1, true);
        }
    }

    /// Pins the message at `idx`.
    pub fn pin_at(&mut self, idx: usize)
        requires
            old(self).wf(),
            idx < old(self)@.messages.len(),
        ensures
            final(self).wf(),
            final(self)@ == (ManagerModel {
                pinned: old(self)@.pinned.update(idx as int, true),
                ..old(self)@
            }),
    {
        self.pinned.set(idx, true);
    }

    /// Unpins the message at `idx`.
    pub fn unpin_at(&mut self, idx: usize)
        requires
            old(self).wf(),
            idx < old(self)@.messages.len(),
        ensures
            final(self).wf(),
            final(self)@ == (ManagerModel {
                pinned: old(self)@.pinned.update(idx as int, false),
                ..old(self)@
            }),
    {
        self.pinned.set(idx, false);
    }

    /// Pins the message at `idx` and every message that answers one of its tool calls or makes a
    /// call that it answers.
    pub fn pin_with_tool_result(&mut self, idx: usize)
        requires
            old(self).wf(),
            idx < old(self)@.messages.len(),
        ensures
            final(self).wf(),
            final(self)@ == (ManagerModel {
                pinned: Seq::new(
                    old(self)@.pinned.len(),
                    |i: int|
                        old(self)@.pinned[i] || i == idx || partners(
                            old(self)@.messages[idx as int],
                            old(self)@.messages[i],
                        ),
                ),
                ..old(self)@
            }),
    {
        let ghost before = self@;
        let ghost target = before.messages[idx as int];
        let ghost want = |i: int|
            before.pinned[i] || i == idx || partners(target, before.messages[i]);
        self.pinned.set(idx, true);
        let mut i: usize = 0;
        while i < self.messages.len()
            invariant
                i <= self.messages.len(),
                idx < self.messages.len(),
                before == old(self)@,
                before.messages.len() == before.pinned.len(),
                before.messages == message::message_models(self.messages@),
                target == before.messages[idx as int],
                self.pinned@.len() == before.pinned.len(),
                self@ == (ManagerModel { pinned: self.pinned@, ..before }),
                want == (|j: int|
                    before.pinned[j] || j == idx || partners(target, before.messages[j])),
                forall|k: int| 0 <= k < i ==> #[trigger] self.pinned@[k] == want(k),
                forall|k: int|
                    i <= k < self.pinned@.len() ==> #[trigger] self.pinned@[k] == (before.pinned[k]
                        || k == idx),
            decreases self.messages.len() - i,
        {
            if !self.pinned[i] {
                if are_partners(&self.messages[idx], &self.messages[i]) {
                    self.pinned.set(i, true);
                }
            }
            i = i + 1;
        }
        assert(self.pinned@ =~= Seq::new(before.pinned.len(), want));
    }

    /// Whether a history of so many tokens has reached the budget.
    pub fn needs_compaction(&self, estimated_tokens: usize) -> (r: bool)
        ensures
            r == (estimated_tokens >= self@.config.max_tokens),
    {
        !(estimated_tokens < self.max_tokens)
    }

    /// Takes a compacted history over and reports what changed.
    pub fn apply_compaction(&mut self, output: CompactionOutput, strategy: &'static str) -> (r:
        CompactionReport)
        requires
            old(self).wf(),
            output.messages@.len() == output.pinned@.len(),
        ensures
            final(self).wf(),
            final(self)@ == (ManagerModel {
                messages: message::message_models(output.messages@),
                pinned: output.pinned@,
                ..old(self)@
            }),
            r.before == old(self)@.messages.len(),
            r.after == output.messages@.len(),
            r.strategy == strategy,
    {
        let before: usize = self.messages.len();
        let after: usize = output.messages.len();
        self.messages = output.messages;
        self.pinned = output.pinned;
        CompactionReport { before, after, strategy }
    }

    /// Whether the strategy may give `result` for the history as it stands.
    pub open spec fn may_compact(&self, result: Result<CompactionOutput, CompactionError>) -> bool {
        call_ensures(
            S::compact,
            (
                &self@.config.strategy,
                &self.history(),
                &self.pins(),
                self@.config.preserve_n_last,
            ),
            result,
        )
    }

    /// Compacts the history where it has reached the budget. Below the budget, and where the
    /// strategy fails, the history stays as it is. Pinned messages survive whatever the strategy.
    pub fn compact_if_needed(&mut self) -> (r: Result<Option<CompactionReport>, CompactionError>)
        requires
            old(self).wf(),
        ensures
            final(self).wf(),
            final(self)@.config == old(self)@.config,
            exists|estimated: usize|
                #[trigger] call_ensures(
                    T::count_messages,
                    (&old(self)@.config.tokenizer, &old(self).history()),
                    estimated,
                ) && (match r {
                    Ok(None) => estimated < old(self)@.config.max_tokens,
                    _ => estimated >= old(self)@.config.max_tokens,
                }),
            r matches Ok(None) ==> final(self)@ == old(self)@,
            r matches Ok(Some(report)) ==> exists|output: CompactionOutput|
                #[trigger] old(self).may_compact(Ok(output)) && final(self)@ == (ManagerModel {
                    messages: message::message_models(output.messages@),
                    pinned: output.pinned@,
                    ..old(self)@
                }) && report.before == old(self)@.messages.len() && report.after
                    == output.messages@.len(),
            r matches Ok(Some(report)) ==> call_ensures(
                S::name,
                (&old(self)@.config.strategy,),
                report.strategy,
            ),
            r matches Err(e) ==> final(self)@ == old(self)@ && old(self).may_compact(Err(e)),
            compaction::pinned_survive(
                old(self)@.messages,
                old(self)@.pinned,
                final(self)@.messages,
                final(self)@.pinned,
            ),
    {
        proof {
            compaction::pinned_survive_no_change(self@.messages, self@.pinned);
        }
        let estimated: usize = self.estimated_tokens();
        if !self.needs_compaction(estimated) {
            return Ok(None);
        }
        match self.strategy.compact(&self.messages, &self.pinned, self.preserve_n_last) {
            Ok(output) => {
                let name = self.strategy.name();
                assert(old(self).may_compact(Ok(output)));
                Ok(Some(self.apply_compaction(output, name)))
            },
            Err(e) => Err(e),
        }
    }
}

/// Pinning with tool results pairs both ways: from either of two partners the other is pinned.
pub proof fn pairing_is_symmetric(a: MessageModel, b: MessageModel)
    ensures
        partners(a, b) <==> partners(b, a),
{
}

/// Whether each tool result of a history stands right after the turn that calls for it.
pub open spec fn results_follow_calls(messages: Seq<MessageModel>) -> bool {
    forall|i: int, id: Seq<char>|
        0 <= i < messages.len() && #[trigger] answers(messages[i], id) ==> i > 0 && calls(
            messages[i - 1],
            id,
        )
}

/// Whether no two turns of a history call for tools under one id.
pub open spec fn call_ids_differ(messages: Seq<MessageModel>) -> bool {
    forall|i: int, j: int, id: Seq<char>|
        0 <= i < messages.len() && 0 <= j < messages.len() && #[trigger] calls(messages[i], id)
            && #[trigger] calls(messages[j], id) ==> i == j
}

/// Whether every pinned tool result is pinned together with the turn that calls for it.
pub open spec fn results_pinned_with_calls(messages: Seq<MessageModel>, pinned: Seq<bool>) -> bool {
    forall|i: int|
        0 < i < messages.len() && #[trigger] pinned[i] && answered_by(messages[i - 1], messages[i])
            ==> pinned[i - 1]
}

/// Pinning with tool results never pins a result without its call.
pub proof fn pinning_keeps_pairs(messages: Seq<MessageModel>, pinned: Seq<bool>, idx: int)
    requires
        messages.len() == pinned.len(),
        0 <= idx < messages.len(),
        results_follow_calls(messages),
        call_ids_differ(messages),
        results_pinned_with_calls(messages, pinned),
    ensures
        results_pinned_with_calls(
            messages,
            Seq::new(
                pinned.len(),
                |i: int| pinned[i] || i == idx || partners(messages[idx], messages[i]),
            ),
        ),
{
    let after = Seq::new(
        pinned.len(),
        |i: int| pinned[i] || i == idx || partners(messages[idx], messages[i]),
    );
    assert forall|i: int|
        0 < i < messages.len() && #[trigger] after[i] && answered_by(
            messages[i - 1],
            messages[i],
        ) implies after[i - 1] by {
        if pinned[i] {
            assert(pinned[i - 1]);
        } else if i == idx {
            assert(partners(messages[idx], messages[i - 1]));
        } else {
            let id = choose|id: Seq<char>| #[trigger]
                answers(messages[i], id) && calls(messages[idx], id);
            assert(answers(messages[i], id) && calls(messages[idx], id));
            assert(calls(messages[i - 1], id));
        }
    }
}

proof fn lemma_pinned_follow_calls(messages: Seq<MessageModel>, pinned: Seq<bool>, end: int)
    requires
        0 <= end <= messages.len(),
        messages.len() == pinned.len(),
        results_follow_calls(messages),
        results_pinned_with_calls(messages, pinned),
    ensures
        results_follow_calls(compaction::pinned_before(messages, pinned, end)),
    decreases end,
{
    if end > 0 {
        lemma_pinned_follow_calls(messages, pinned, end - 1);
        let before = compaction::pinned_before(messages, pinned, end - 1);
        let kept = compaction::pinned_before(messages, pinned, end);
        assert forall|i: int, id: Seq<char>|
            0 <= i < kept.len() && #[trigger] answers(kept[i], id) implies i > 0 && calls(
            kept[i - 1],
            id,
        ) by {
            if i < before.len() {
                assert(answers(before[i], id));
            } else {
                assert(answers(messages[end - 1], id));
                assert(answered_by(messages[end - 2], messages[end - 1]));
                assert(pinned[end - 1]);
                assert(pinned[end - 2]);
                assert(before.last() == messages[end - 2]);
            }
        }
    }
}

/// Truncation parts no tool result from its call, as long as results are pinned with their calls.
pub proof fn truncation_keeps_pairs(
    messages: Seq<MessageModel>,
    pinned: Seq<bool>,
    preserve_n_last: int,
)
    requires
        messages.len() == pinned.len(),
        0 <= preserve_n_last < messages.len(),
        results_follow_calls(messages),
        results_pinned_with_calls(messages, pinned),
    ensures
        results_follow_calls(
            compaction::truncated_messages(
                messages,
                pinned,
                compaction::truncation_start(messages, preserve_n_last),
            ),
        ),
{
    let start = compaction::truncation_start(messages, preserve_n_last);
    compaction::cut_is_safe(messages, messages.len() - preserve_n_last);
    lemma_pinned_follow_calls(messages, pinned, start);
    let front = compaction::pinned_before(messages, pinned, start);
    let kept = compaction::truncated_messages(messages, pinned, start);
    assert forall|i: int, id: Seq<char>|
        0 <= i < kept.len() && #[trigger] answers(kept[i], id) implies i > 0 && calls(
        kept[i - 1],
        id,
    ) by {
        if i < front.len() {
            assert(answers(front[i], id));
        } else {
            let at = start + i - front.len();
            assert(answers(messages[at], id));
            if at == start {
                let blocks = messages[start]->User_blocks;
                let k = choose|k: int|
                    0 <= k < blocks.len() && (#[trigger] blocks[k] matches UserBlockModel::ToolResult {
                        call_id,
                        ..
                    } && call_id == id);
                assert(blocks[k] is ToolResult);
            }
        }
    }
}

/// What a manager truncates to: with the default strategy, a history of more messages than are to
/// stay is always compacted, and every pinned message and the whole end of the history outlive it.
pub proof fn default_compaction_keeps_pinned<T: Tokenizer>(
    manager: ContextManager<T, TruncateStrategy>,
    result: Result<CompactionOutput, CompactionError>,
)
    requires
        manager.wf(),
        manager.may_compact(result),
    ensures
        result is Ok <==> manager@.messages.len() > manager@.config.preserve_n_last,
        result matches Ok(output) ==> {
            let kept = message::message_models(output.messages@);
            let n = manager@.config.preserve_n_last as int;
            &&& compaction::pinned_before(kept, output.pinned@, kept.len() as int)
                == compaction::pinned_before(
                manager@.messages,
                manager@.pinned,
                manager@.messages.len() as int,
            )
            &&& n <= kept.len() <= manager@.messages.len()
            &&& kept.subrange(kept.len() - n, kept.len() as int) == manager@.messages.subrange(
                manager@.messages.len() - n,
                manager@.messages.len() as int,
            )
        },
{
    let n = manager@.config.preserve_n_last as int;
    if manager@.messages.len() > n {
        compaction::truncation_keeps_pinned(manager@.messages, manager@.pinned, n);
        compaction::truncation_keeps_tail(manager@.messages, manager@.pinned, n);
        compaction::truncation_never_grows(manager@.messages, manager@.pinned, n);
    }
}

} // verus!
