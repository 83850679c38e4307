//! A model that plays a script, for tests of what is built on models.

use vstd::prelude::*;
use vstd::string::*;

use crate::duration::Duration;
use crate::retry::{RetryClassification, Retryable};
use crate::stream::StreamChunk;
use crate::text::{self, chars_of, parse_unsigned, text_of};

verus! {

/// A failure out of a script.
#[derive(Debug, Clone, PartialEq, Eq)]
pub struct ScriptedError(pub String);

/// What a failure with a text is worth: `transient:` and a number of milliseconds is worth
/// another try after that time, `transient:` and anything else one at any time, and any other
/// text none.
pub open spec fn is_scripted_classification(
    text: Seq<char>,
    classification: RetryClassification,
) -> bool {
    if text.len() >= 10 && text.take(10) == "transient:"@ {
        classification matches RetryClassification::Transient { retry_after } && (
        match text::unsigned_value(text.skip(10)) {
            Some(millis) => retry_after matches Some(span) && span@ == millis * 1_000_000,
            None => retry_after is None,
        })
    } else {
        classification is Permanent
    }
}

impl ScriptedError {
    /// The error as text.
    pub fn text(&self) -> (r: String)
        ensures
            r@ == "scripted error: "@ + self.0@,
    {
        let mut out = "scripted error: ".to_owned();
        out.append(self.0.as_str());
        out
    }
}

impl Retryable for ScriptedError {
    fn retry_classification(&self) -> (r: RetryClassification)
        ensures
            is_scripted_classification(self.0@, r),
    {
        let prefix = chars_of("transient:");
        let chars = chars_of(self.0.as_str());
        proof {
            reveal_strlit("transient:");
        }
        assert(prefix.len() == 10);
        if chars.len() < 10 {
            return RetryClassification::Permanent;
        }
        let mut i: usize = 0;
        while i < 10
            invariant
                i <= 10,
                prefix@ == "transient:"@,
                prefix.len() == 10,
                chars@ == self.0@,
                10 <= chars.len(),
                forall|k: int| 0 <= k < i ==> chars@[k] == #[trigger] prefix@[k],
            decreases 10 - i,
        {
            if chars[i] != prefix[i] {
                assert(self.0@.take(10)[i as int] != "transient:"@[i as int]);
                return RetryClassification::Permanent;
            }
            i = i + 1;
        }
        assert(self.0@.take(10) =~= "transient:"@);
        let rest = text_of(&chars, 10, chars.len());
        assert(rest@ =~= self.0@.skip(10));
        let retry_after = match parse_unsigned(rest.as_str()) {
            Some(millis) => Some(Duration::from_millis(millis)),
            None => None,
        };
        RetryClassification::Transient { retry_after }
    }
}

/// What one call of a scripted model gives: its stream, or the failure of the call itself.
pub type ScriptedTurn = Result<Vec<Result<StreamChunk, ScriptedError>>, ScriptedError>;

/// A model that answers each call with the next turn of a script.
pub struct ScriptedModel {
    name: String,
    model: String,
    turns: Vec<ScriptedTurn>,
}

impl View for ScriptedModel {
    type V = Seq<ScriptedTurn>;

    /// The turns that are left.
    closed spec fn view(&self) -> Seq<ScriptedTurn> {
        self.turns@
    }
}

/// A turn that succeeds with chunks.
pub open spec fn is_success(chunks: Seq<StreamChunk>, turn: ScriptedTurn) -> bool {
    turn matches Ok(items) && items@.len() == chunks.len() && forall|i: int|
        0 <= i < chunks.len() ==> (#[trigger] items@[i] matches Ok(chunk) && chunk == chunks[i])
}

impl ScriptedModel {
    /// The name of the provider that it plays.
    pub closed spec fn provider(&self) -> Seq<char> {
        self.name@
    }

    /// The model that it plays.
    pub closed spec fn model_id(&self) -> Seq<char> {
        self.model@
    }

    /// A script of turns that succeed.
    pub fn new(turns: Vec<Vec<StreamChunk>>) -> (r: Self)
        ensures
            r@.len() == turns@.len(),
            forall|i: int| 0 <= i < turns@.len() ==> is_success(turns@[i]@, #[trigger] r@[i]),
            r.provider() == "scripted"@,
            r.model_id() == "scripted"@,
    {
        let ghost all = turns@;
        let mut script: Vec<ScriptedTurn> = Vec::new();
        for turn in it: turns
            invariant
                it.seq() == all,
                all == turns@,
                script@.len() == it.index(),
                forall|i: int|
                    0 <= i < it.index() ==> is_success(all[i]@, #[trigger] script@[i]),
        {
            let ghost chunks = turn@;
            let mut items: Vec<Result<StreamChunk, ScriptedError>> = Vec::new();
            for chunk in inner: turn
                invariant
                    inner.seq() == chunks,
                    chunks == turn@,
                    items@.len() == inner.index(),
                    forall|i: int|
                        0 <= i < inner.index() ==> (#[trigger] items@[i] matches Ok(c) && c
                            == chunks[i]),
            {
                items.push(Ok(chunk));
            }
            script.push(Ok(items));
        }
        Self::with_turns(script)
    }

    /// A script of turns that succeed or fail.
    pub fn with_turns(turns: Vec<ScriptedTurn>) -> (r: Self)
        ensures
            r@ == turns@,
            r.provider() == "scripted"@,
            r.model_id() == "scripted"@,
    {
        ScriptedModel { name: "scripted".to_owned(), model: "scripted".to_owned(), turns }
    }

    /// Plays another provider.
    pub fn with_name(self, name: &str) -> (r: Self)
        ensures
            r@ == self@,
            r.provider() == name@,
            r.model_id() == self.model_id(),
    {
        ScriptedModel { name: name.to_owned(), model: self.model, turns: self.turns }
    }

    /// Plays another model.
    pub fn with_model(self, model: &str) -> (r: Self)
        ensures
            r@ == self@,
            r.provider() == self.provider(),
            r.model_id() == model@,
    {
        ScriptedModel { name: self.name, model: model.to_owned(), turns: self.turns }
    }

    pub fn name(&self) -> (r: &str)
        ensures
            r@ == self.provider(),
    {
        self.name.as_str()
    }

    pub fn model(&self) -> (r: &str)
        ensures
            r@ == self.model_id(),
    {
        self.model.as_str()
    }

    /// Plays the next turn. After the last one, streams are empty.
    pub fn next_turn(&mut self) -> (r: ScriptedTurn)
        ensures
            old(self)@.len() > 0 ==> r == old(self)@[0] && final(self)@ == old(self)@.skip(1),
            old(self)@.len() == 0 ==> (r matches Ok(items) && items@.len() == 0) && final(self)@
                == old(self)@,
            final(self).provider() == old(self).provider(),
            final(self).model_id() == old(self).model_id(),
    {
        if self.turns.len() == 0 {
            return Ok(Vec::new());
        }
        let ghost before = self.turns@;
        let turn = self.turns.remove(0);
        assert(self.turns@ =~= before.skip(1));
        turn
    }
}

} // verus!
