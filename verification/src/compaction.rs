//! Shrinks a conversation history.

use vstd::prelude::*;
use vstd::string::*;

use crate::message::{self, Message, MessageModel, UserBlock};

verus! {

/// Why a compaction failed.
#[derive(Debug, PartialEq, Eq)]
pub enum CompactionError {
    /// There is nothing to drop.
    NotEnoughHistory,
    /// The model that should summarize failed, with its message.
    SummarizationFailed(String),
}

impl CompactionError {
    /// The error as text.
    pub fn text(&self) -> (r: String)
        ensures
            r@ == (match *self {
                CompactionError::NotEnoughHistory => "Not enough history to compact"@,
                CompactionError::SummarizationFailed(reason) => "Summarization failed: "@ + reason@,
            }),
    {
        match self {
            CompactionError::NotEnoughHistory => "Not enough history to compact".to_owned(),
            CompactionError::SummarizationFailed(reason) => {
                let mut out = "Summarization failed: ".to_owned();
                out.append(reason.as_str());
                out
            },
        }
    }
}

/// A compacted history: `pinned[i]` is the pin of `messages[i]`.
#[derive(Debug)]
pub struct CompactionOutput {
    pub messages: Vec<Message>,
    pub pinned: Vec<bool>,
}

/// A way to shrink a history.
pub trait CompactionStrategy: Send + Sync {
    /// Stable name of the strategy.
    fn name(&self) -> &'static str;

    /// Compacts `messages`, of which `pinned` says which ones must stay: a strategy keeps those,
    /// in order and pinned. At least the last `preserve_n_last` messages should stay as they are.
    fn compact(
        &self,
        messages: &Vec<Message>,
        pinned: &Vec<bool>,
        preserve_n_last: usize,
    ) -> (r: Result<CompactionOutput, CompactionError>)
        requires
            messages@.len() == pinned@.len(),
        ensures
            r matches Ok(output) ==> output.messages@.len() == output.pinned@.len(),
            r matches Ok(output) ==> pinned_survive(
                message::message_models(messages@),
                pinned@,
                message::message_models(output.messages@),
                output.pinned@,
            ),
    ;
}

/// Whether each pinned message stands at its place among the kept ones, pinned there, and the
/// places are in order.
pub open spec fn is_placing(
    messages: Seq<MessageModel>,
    pinned: Seq<bool>,
    kept: Seq<MessageModel>,
    kept_pinned: Seq<bool>,
    places: Seq<int>,
) -> bool {
    &&& places.len() == messages.len()
    &&& forall|i: int|
        #![trigger places[i]]
        0 <= i < messages.len() && pinned[i] ==> 0 <= places[i] < kept.len() && kept[places[i]]
            == messages[i] && kept_pinned[places[i]]
    &&& forall|i: int, j: int|
        #![trigger places[i], places[j]]
        0 <= i < j < messages.len() && pinned[i] && pinned[j] ==> places[i] < places[j]
}

/// Whether all pinned messages are among the kept ones, in order and pinned.
pub open spec fn pinned_survive(
    messages: Seq<MessageModel>,
    pinned: Seq<bool>,
    kept: Seq<MessageModel>,
    kept_pinned: Seq<bool>,
) -> bool {
    exists|places: Seq<int>| #[trigger] is_placing(messages, pinned, kept, kept_pinned, places)
}

/// Pinned messages survive where nothing changes.
pub proof fn pinned_survive_no_change(messages: Seq<MessageModel>, pinned: Seq<bool>)
    requires
        messages.len() == pinned.len(),
    ensures
        pinned_survive(messages, pinned, messages, pinned),
{
    let places = Seq::new(messages.len(), |i: int| i);
    assert(is_placing(messages, pinned, messages, pinned, places));
}

/// Pinned messages that survive one compaction and then another survive both.
pub proof fn pinned_survive_again(
    messages: Seq<MessageModel>,
    pinned: Seq<bool>,
    kept: Seq<MessageModel>,
    kept_pinned: Seq<bool>,
    last: Seq<MessageModel>,
    last_pinned: Seq<bool>,
)
    requires
        pinned_survive(messages, pinned, kept, kept_pinned),
        pinned_survive(kept, kept_pinned, last, last_pinned),
    ensures
        pinned_survive(messages, pinned, last, last_pinned),
{
    let first = choose|places: Seq<int>| #[trigger]
        is_placing(messages, pinned, kept, kept_pinned, places);
    let second = choose|places: Seq<int>| #[trigger]
        is_placing(kept, kept_pinned, last, last_pinned, places);
    let both = Seq::new(messages.len(), |i: int| second[first[i]]);
    assert forall|i: int|
        #![trigger both[i]]
        0 <= i < messages.len() && pinned[i] implies 0 <= both[i] < last.len() && last[both[i]]
        == messages[i] && last_pinned[both[i]] by {
        assert(kept[first[i]] == messages[i]);
        assert(last[second[first[i]]] == kept[first[i]]);
    }
    assert forall|i: int, j: int|
        #![trigger both[i], both[j]]
        0 <= i < j < messages.len() && pinned[i] && pinned[j] implies both[i] < both[j] by {
        assert(first[i] < first[j]);
        assert(second[first[i]] < second[first[j]]);
    }
    assert(is_placing(messages, pinned, last, last_pinned, both));
}

/// Whether a history may begin with a message: a user turn without tool results. Any other
/// beginning would part a tool result from its call.
pub open spec fn safe_start(message: MessageModel) -> bool {
    message matches MessageModel::User { blocks } && forall|i: int|
        0 <= i < blocks.len() ==> !(#[trigger] blocks[i] is ToolResult)
}

/// The last safe beginning at or before `start`, or 0 where there is none. The end of the history
/// begins nothing.
pub open spec fn cut(messages: Seq<MessageModel>, start: int) -> int
    decreases start,
{
    if start <= 0 || (start < messages.len() && safe_start(messages[start])) {
        start
    } else {
        cut(messages, start - 1)
    }
}

/// The pinned ones among the first `end` messages.
pub open spec fn pinned_before(
    messages: Seq<MessageModel>,
    pinned: Seq<bool>,
    end: int,
) -> Seq<MessageModel>
    decreases end,
{
    if end <= 0 {
        Seq::empty()
    } else {
        let before = pinned_before(messages, pinned, end - 1);
        if pinned[end - 1] {
            before.push(messages[end - 1])
        } else {
            before
        }
    }
}

/// The messages of a truncated history: what is pinned before the cut, and all from the cut on.
pub open spec fn truncated_messages(
    messages: Seq<MessageModel>,
    pinned: Seq<bool>,
    start: int,
) -> Seq<MessageModel> {
    pinned_before(messages, pinned, start) + messages.subrange(start, messages.len() as int)
}

/// The pins of a truncated history.
pub open spec fn truncated_pins(
    messages: Seq<MessageModel>,
    pinned: Seq<bool>,
    start: int,
) -> Seq<bool> {
    Seq::new(pinned_before(messages, pinned, start).len(), |i: int| true) + pinned.subrange(
        start,
        pinned.len() as int,
    )
}

/// Where a history is cut so that the last `preserve_n_last` messages stay.
pub open spec fn truncation_start(messages: Seq<MessageModel>, preserve_n_last: int) -> int {
    cut(messages, messages.len() - preserve_n_last)
}

/// Whether a message can begin a history.
pub fn is_safe_start(msg: &Message) -> (r: bool)
    ensures
        r == safe_start(msg@),
{
    match msg {
        Message::User { blocks } => {
            let ghost all = msg@->User_blocks;
            let mut i: usize = 0;
            while i < blocks.len()
                invariant
                    i <= blocks.len(),
                    all == blocks@.map_values(|b: UserBlock| b@),
                    msg@ == (MessageModel::User { blocks: all }),
                    forall|k: int| 0 <= k < i ==> !(#[trigger] all[k] is ToolResult),
                decreases blocks.len() - i,
            {
                assert(all[i as int] == blocks@[i as int]@);
                if let UserBlock::ToolResult { .. } = &blocks[i] {
                    assert(all[i as int] is ToolResult);
                    return false;
                }
                i = i + 1;
            }
            true
        },
        Message::Assistant { .. } => false,
    }
}

/// Drops the front of the history and keeps what is pinned there.
pub struct TruncateStrategy;

impl CompactionStrategy for TruncateStrategy {
    fn name(&self) -> (r: &'static str)
        ensures
            r@ == "truncate"@,
    {
        "truncate"
    }

    fn compact(
        &self,
        messages: &Vec<Message>,
        pinned: &Vec<bool>,
        preserve_n_last: usize,
    ) -> (r: Result<CompactionOutput, CompactionError>)
        ensures
            r is Err <==> messages@.len() <= preserve_n_last,
            r matches Err(e) ==> e is NotEnoughHistory,
            r matches Ok(output) ==> {
                let all = message::message_models(messages@);
                let start = truncation_start(all, preserve_n_last as int);
                &&& message::message_models(output.messages@) == truncated_messages(
                    all,
                    pinned@,
                    start,
                )
                &&& output.pinned@ == truncated_pins(all, pinned@, start)
            },
    {
        if messages.len() <= preserve_n_last {
            return Err(CompactionError::NotEnoughHistory);
        }
        let ghost all = message::message_models(messages@);
        let mut start: usize = messages.len() - preserve_n_last;
        let ghost want = cut(all, start as int);
        while start > 0 && (start == messages.len() || !is_safe_start(&messages[start]))
            invariant
                start <= messages.len(),
                all == message::message_models(messages@),
                want == cut(all, start as int),
            decreases start,
        {
            start = start - 1;
        }
        assert(start == want);
        let mut out_messages: Vec<Message> = Vec::new();
        let mut out_pinned: Vec<bool> = Vec::new();
        let mut i: usize = 0;
        assert(message::message_models(out_messages@) =~= Seq::<MessageModel>::empty());
        while i < start
            invariant
                i <= start <= messages.len(),
                messages@.len() == pinned@.len(),
                all == message::message_models(messages@),
                message::message_models(out_messages@) == pinned_before(all, pinned@, i as int),
                out_pinned@ == Seq::new(pinned_before(all, pinned@, i as int).len(), |j: int| true),
            decreases start - i,
        {
            if pinned[i] {
                let ghost before = out_messages@;
                out_messages.push(messages[i].clone());
                out_pinned.push(true);
                assert(message::message_models(out_messages@) =~= message::message_models(
                    before,
                ).push(all[i as int]));
            }
            i = i + 1;
        }
        let ghost kept = message::message_models(out_messages@);
        let ghost kept_pins = out_pinned@;
        assert(all.subrange(start as int, start as int) =~= Seq::<MessageModel>::empty());
        assert(kept + all.subrange(start as int, start as int) =~= kept);
        assert(kept_pins + pinned@.subrange(start as int, start as int) =~= kept_pins);
        while i < messages.len()
            invariant
                start <= i <= messages.len(),
                messages@.len() == pinned@.len(),
                all == message::message_models(messages@),
                message::message_models(out_messages@) == kept + all.subrange(
                    start as int,
                    i as int,
                ),
                out_pinned@ == kept_pins + pinned@.subrange(start as int, i as int),
            decreases messages.len() - i,
        {
            let ghost before = out_messages@;
            out_messages.push(messages[i].clone());
            out_pinned.push(pinned[i]);
            assert(message::message_models(out_messages@) =~= message::message_models(before).push(
                all[i as int],
            ));
            assert(all.subrange(start as int, i as int + 1) =~= all.subrange(
                start as int,
                i as int,
            ).push(all[i as int]));
            assert(pinned@.subrange(start as int, i as int + 1) =~= pinned@.subrange(
                start as int,
                i as int,
            ).push(pinned@[i as int]));
            assert((kept + all.subrange(start as int, i as int)).push(all[i as int]) =~= kept
                + all.subrange(start as int, i as int).push(all[i as int]));
            i = i + 1;
        }
        assert(message::message_models(out_messages@).len() == out_messages@.len());
        proof {
            lemma_truncation_places(all, pinned@, start as int);
        }
        Ok(CompactionOutput { messages: out_messages, pinned: out_pinned })
    }
}

proof fn lemma_pinned_place(
    messages: Seq<MessageModel>,
    pinned: Seq<bool>,
    i: int,
    end: int,
)
    requires
        0 <= i < end <= messages.len(),
        messages.len() == pinned.len(),
    ensures
        pinned_before(messages, pinned, i).len() <= pinned_before(messages, pinned, end).len(),
        pinned[i] ==> {
            let place = pinned_before(messages, pinned, i).len();
            &&& place < pinned_before(messages, pinned, end).len()
            &&& pinned_before(messages, pinned, end)[place as int] == messages[i]
        },
    decreases end,
{
    if i < end - 1 {
        lemma_pinned_place(messages, pinned, i, end - 1);
    }
}

proof fn lemma_truncation_places(messages: Seq<MessageModel>, pinned: Seq<bool>, start: int)
    requires
        0 <= start <= messages.len(),
        messages.len() == pinned.len(),
    ensures
        pinned_survive(
            messages,
            pinned,
            truncated_messages(messages, pinned, start),
            truncated_pins(messages, pinned, start),
        ),
{
    let front = pinned_before(messages, pinned, start).len() as int;
    let kept = truncated_messages(messages, pinned, start);
    let pins = truncated_pins(messages, pinned, start);
    let places = Seq::new(
        messages.len(),
        |i: int|
            if i < start {
                pinned_before(messages, pinned, i).len() as int
            } else {
                front + (i - start)
            },
    );
    assert forall|i: int|
        #![trigger places[i]]
        0 <= i < messages.len() && pinned[i] implies 0 <= places[i] < kept.len() && kept[places[i]]
        == messages[i] && pins[places[i]] by {
        if i < start {
            lemma_pinned_place(messages, pinned, i, start);
        }
    }
    assert forall|i: int, j: int|
        #![trigger places[i], places[j]]
        0 <= i < j < messages.len() && pinned[i] && pinned[j] implies places[i] < places[j] by {
        if j < start {
            lemma_pinned_place(messages, pinned, i, j);
        } else if i < start {
            lemma_pinned_place(messages, pinned, i, start);
        }
    }
    assert(is_placing(messages, pinned, kept, pins, places));
}

/// The cut lies between the front and the place it is searched from, is safe unless it is the
/// front, and is the last such place.
pub proof fn cut_is_safe(messages: Seq<MessageModel>, start: int)
    requires
        0 <= start <= messages.len(),
    ensures
        0 <= cut(messages, start) <= start,
        messages.len() > 0 ==> cut(messages, start) < messages.len(),
        cut(messages, start) == 0 || safe_start(messages[cut(messages, start)]),
        forall|i: int|
            cut(messages, start) < i <= start && i < messages.len() ==> !safe_start(
                #[trigger] messages[i],
            ),
    decreases start,
{
    if start > 0 && (start == messages.len() || !safe_start(messages[start])) {
        cut_is_safe(messages, start - 1);
    }
}

proof fn lemma_pinned_before_bound(messages: Seq<MessageModel>, pinned: Seq<bool>, end: int)
    requires
        0 <= end <= pinned.len(),
    ensures
        pinned_before(messages, pinned, end).len() <= end,
        (forall|i: int| 0 <= i < end ==> #[trigger] pinned[i]) ==> pinned_before(
            messages,
            pinned,
            end,
        ).len() == end,
        (exists|i: int| 0 <= i < end && !#[trigger] pinned[i]) ==> pinned_before(
            messages,
            pinned,
            end,
        ).len() < end,
    decreases end,
{
    if end > 0 {
        lemma_pinned_before_bound(messages, pinned, end - 1);
    }
}

proof fn lemma_pinned_before_concat(
    front: Seq<MessageModel>,
    messages: Seq<MessageModel>,
    pinned: Seq<bool>,
    start: int,
    end: int,
)
    requires
        0 <= start <= end <= messages.len(),
        messages.len() == pinned.len(),
    ensures
        pinned_before(
            front + messages.subrange(start, messages.len() as int),
            Seq::new(front.len(), |i: int| true) + pinned.subrange(start, pinned.len() as int),
            front.len() + (end - start),
        ) == front + pinned_before(messages, pinned, end).subrange(
            pinned_before(messages, pinned, start).len() as int,
            pinned_before(messages, pinned, end).len() as int,
        ),
        pinned_before(messages, pinned, start).len() <= pinned_before(messages, pinned, end).len(),
        pinned_before(messages, pinned, end).subrange(
            0,
            pinned_before(messages, pinned, start).len() as int,
        ) == pinned_before(messages, pinned, start),
    decreases end,
{
    let all = front + messages.subrange(start, messages.len() as int);
    let pins = Seq::new(front.len(), |i: int| true) + pinned.subrange(start, pinned.len() as int);
    let a = pinned_before(messages, pinned, start);
    let b = pinned_before(messages, pinned, end);
    if end == start {
        lemma_all_pinned_front(front, all, pins, front.len() as int);
        assert(front + b.subrange(a.len() as int, b.len() as int) =~= front);
        assert(b.subrange(0, a.len() as int) =~= a);
    } else {
        lemma_pinned_before_concat(front, messages, pinned, start, end - 1);
        let c = pinned_before(messages, pinned, end - 1);
        let at = front.len() + (end - start);
        assert(pins[at - 1] == pinned[end - 1]);
        assert(all[at - 1] == messages[end - 1]);
        assert(pinned_before(all, pins, at - 1) == front + c.subrange(
            a.len() as int,
            c.len() as int,
        ));
        if pinned[end - 1] {
            assert(b == c.push(messages[end - 1]));
            assert(b.subrange(a.len() as int, b.len() as int) =~= c.subrange(
                a.len() as int,
                c.len() as int,
            ).push(messages[end - 1]));
            assert((front + c.subrange(a.len() as int, c.len() as int)).push(messages[end - 1])
                =~= front + b.subrange(a.len() as int, b.len() as int));
            assert(b.subrange(0, a.len() as int) =~= c.subrange(0, a.len() as int));
        }
    }
}

proof fn lemma_all_pinned_front(
    front: Seq<MessageModel>,
    all: Seq<MessageModel>,
    pins: Seq<bool>,
    end: int,
)
    requires
        0 <= end <= front.len() <= all.len(),
        all.len() == pins.len(),
        forall|i: int| 0 <= i < front.len() ==> #[trigger] all[i] == front[i],
        forall|i: int| 0 <= i < front.len() ==> #[trigger] pins[i],
    ensures
        pinned_before(all, pins, end) == front.subrange(0, end),
    decreases end,
{
    if end > 0 {
        lemma_all_pinned_front(front, all, pins, end - 1);
        assert(pins[end - 1]);
        assert(front.subrange(0, end - 1).push(all[end - 1]) =~= front.subrange(0, end));
    } else {
        assert(front.subrange(0, 0) =~= Seq::empty());
    }
    if end == front.len() {
        assert(front.subrange(0, end) =~= front);
    }
}

/// Truncation keeps every pinned message, in order, and keeps it pinned.
pub proof fn truncation_keeps_pinned(
    messages: Seq<MessageModel>,
    pinned: Seq<bool>,
    preserve_n_last: int,
)
    requires
        messages.len() == pinned.len(),
        0 <= preserve_n_last < messages.len(),
    ensures
        ({
            let start = truncation_start(messages, preserve_n_last);
            let out = truncated_messages(messages, pinned, start);
            let pins = truncated_pins(messages, pinned, start);
            pinned_before(out, pins, out.len() as int) == pinned_before(
                messages,
                pinned,
                messages.len() as int,
            )
        }),
{
    let start = truncation_start(messages, preserve_n_last);
    cut_is_safe(messages, messages.len() - preserve_n_last);
    let front = pinned_before(messages, pinned, start);
    lemma_pinned_before_concat(front, messages, pinned, start, messages.len() as int);
    let b = pinned_before(messages, pinned, messages.len() as int);
    assert(front + b.subrange(front.len() as int, b.len() as int) =~= b);
}

/// Truncation keeps at least the last `preserve_n_last` messages, with their pins, as they are.
pub proof fn truncation_keeps_tail(
    messages: Seq<MessageModel>,
    pinned: Seq<bool>,
    preserve_n_last: int,
)
    requires
        messages.len() == pinned.len(),
        0 <= preserve_n_last < messages.len(),
    ensures
        ({
            let start = truncation_start(messages, preserve_n_last);
            let out = truncated_messages(messages, pinned, start);
            let pins = truncated_pins(messages, pinned, start);
            let len = out.len() as int;
            &&& preserve_n_last <= len == pins.len()
            &&& out.subrange(len - preserve_n_last, len) == messages.subrange(
                messages.len() - preserve_n_last,
                messages.len() as int,
            )
            &&& pins.subrange(len - preserve_n_last, len) == pinned.subrange(
                messages.len() - preserve_n_last,
                messages.len() as int,
            )
        }),
{
    cut_is_safe(messages, messages.len() - preserve_n_last);
    let start = truncation_start(messages, preserve_n_last);
    let out = truncated_messages(messages, pinned, start);
    let pins = truncated_pins(messages, pinned, start);
    let len = out.len() as int;
    assert(out.subrange(len - preserve_n_last, len) =~= messages.subrange(
        messages.len() - preserve_n_last,
        messages.len() as int,
    ));
    assert(pins.subrange(len - preserve_n_last, len) =~= pinned.subrange(
        messages.len() - preserve_n_last,
        messages.len() as int,
    ));
}

/// The part of a truncated history that was not picked out by pins begins at a safe place or is
/// the whole history: no tool result is parted from its call there.
pub proof fn truncation_starts_safely(
    messages: Seq<MessageModel>,
    pinned: Seq<bool>,
    preserve_n_last: int,
)
    requires
        messages.len() == pinned.len(),
        0 <= preserve_n_last < messages.len(),
    ensures
        ({
            let start = truncation_start(messages, preserve_n_last);
            let out = truncated_messages(messages, pinned, start);
            let front = pinned_before(messages, pinned, start).len();
            out == messages || safe_start(out[front as int])
        }),
{
    cut_is_safe(messages, messages.len() - preserve_n_last);
    let start = truncation_start(messages, preserve_n_last);
    let out = truncated_messages(messages, pinned, start);
    if start == 0 {
        assert(out =~= messages);
    }
}

/// Truncation never makes a history longer, and makes it shorter exactly where a message before
/// the cut is not pinned.
pub proof fn truncation_never_grows(
    messages: Seq<MessageModel>,
    pinned: Seq<bool>,
    preserve_n_last: int,
)
    requires
        messages.len() == pinned.len(),
        0 <= preserve_n_last < messages.len(),
    ensures
        ({
            let start = truncation_start(messages, preserve_n_last);
            let out = truncated_messages(messages, pinned, start);
            &&& out.len() <= messages.len()
            &&& out.len() < messages.len() <==> exists|i: int| 0 <= i < start && !#[trigger] pinned[i]
        }),
{
    cut_is_safe(messages, messages.len() - preserve_n_last);
    let start = truncation_start(messages, preserve_n_last);
    lemma_pinned_before_bound(messages, pinned, start);
}

} // verus!
