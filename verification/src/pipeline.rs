use vstd::prelude::*;

use crate::classify::{classify, spec_unsupported_reply, unsupported_reply, MediaSelection};
use crate::event::{ChatId, FileReference, InboundEvent, MediaPayload};
use crate::summarize::{content_text, extract_summary};
use crate::transcribe::{lossy_decode, lossy_utf8};

verus! {

/// The stage at which a run can fail.
#[derive(Clone, Copy, Debug, PartialEq, Eq, Structural)]
pub enum Stage {
    Retrieving,
    Transcribing,
    Summarizing,
    Delivering,
}

/// One failure kind per stage; the payload is the collaborator's own
/// description of what went wrong.
#[derive(Debug, PartialEq, Eq)]
pub enum PipelineError {
    Retrieval(String),
    Transcription(String),
    Summarization(String),
    Delivery(String),
}

/// The state of one pipeline run. A run moves strictly forward:
/// `Retrieving → Transcribing → Summarizing → Delivering → Done`, with
/// `Unsupported` entered only at the start and `Failed` terminal from any
/// collaborator stage. Each state carries exactly the data the next stage
/// needs — no entity outlives the run.
#[derive(Debug, PartialEq, Eq)]
pub enum RunState {
    /// The retrieval collaborator is resolving the file reference.
    Retrieving { chat: ChatId, file: FileReference },
    /// The transcription collaborator is turning the retrieved bytes into text.
    Transcribing { chat: ChatId, audio: Vec<u8> },
    /// The summarization collaborator is condensing the transcript.
    Summarizing { chat: ChatId, transcript: String },
    /// The reply is being delivered to the originating chat.
    Delivering { chat: ChatId, summary: String },
    /// The event carried no supported media; the one pending effect is the
    /// fixed instructional reply.
    Unsupported { chat: ChatId },
    /// Terminal: exactly one reply with this text was delivered to the chat.
    Done { chat: ChatId, reply: String },
    /// Terminal: the named stage failed and the run aborted at once.
    Failed { stage: Stage, error: PipelineError },
}

/// What one collaborator call came back with. An `Err` payload is the
/// collaborator's description of the failure.
#[derive(Debug, PartialEq, Eq)]
pub enum Outcome {
    /// The retrieval collaborator's result: the raw audio bytes.
    Retrieved(Result<Vec<u8>, String>),
    /// The transcription collaborator's result: the raw response bytes,
    /// still to be decoded as UTF-8.
    Transcribed(Result<Vec<u8>, String>),
    /// The summarization collaborator's result: the first completion
    /// choice's content, absent when the response carried none.
    Summarized(Result<Option<String>, String>),
    /// The delivery collaborator's result.
    Delivered(Result<(), String>),
}

/// Whether a state is terminal: no outcome is consumed and no collaborator
/// is engaged from it.
pub open spec fn is_terminal(state: RunState) -> bool {
    state is Done || state is Failed
}

/// Which outcome a state is waiting for; terminal states wait for none.
pub open spec fn expects(state: RunState, outcome: Outcome) -> bool {
    match state {
        RunState::Retrieving { .. } => outcome is Retrieved,
        RunState::Transcribing { .. } => outcome is Transcribed,
        RunState::Summarizing { .. } => outcome is Summarized,
        RunState::Delivering { .. } => outcome is Delivered,
        RunState::Unsupported { .. } => outcome is Delivered,
        RunState::Done { .. } => false,
        RunState::Failed { .. } => false,
    }
}

/// How a run begins for a given event: a voice note or an audio attachment
/// enters `Retrieving` with that file reference; anything else enters
/// `Unsupported`.
pub open spec fn start_spec(event: InboundEvent, state: RunState) -> bool {
    match event.media {
        MediaPayload::Voice(f) => state == (RunState::Retrieving { chat: event.chat, file: f }),
        MediaPayload::Audio(f) => state == (RunState::Retrieving { chat: event.chat, file: f }),
        MediaPayload::Other => state == (RunState::Unsupported { chat: event.chat }),
    }
}

/// The transition relation of a run: from `pre`, consuming `outcome`, the
/// run is in `post`. A success carries the stage's output unmodified into
/// the next state; a failure ends the run at that stage. Pairs of state and
/// outcome that `expects` rules out relate to nothing.
pub open spec fn step_spec(pre: RunState, outcome: Outcome, post: RunState) -> bool {
    match (pre, outcome) {
        (RunState::Retrieving { chat, file }, Outcome::Retrieved(res)) => match res {
            Ok(audio) => post == (RunState::Transcribing { chat, audio }),
            Err(detail) => post == (RunState::Failed {
                stage: Stage::Retrieving,
                error: PipelineError::Retrieval(detail),
            }),
        },
        (RunState::Transcribing { chat, audio }, Outcome::Transcribed(res)) => match res {
            Ok(raw) => {
                &&& post matches RunState::Summarizing { chat: c, transcript }
                &&& c == chat
                &&& transcript@ == lossy_utf8(raw@)
            },
            Err(detail) => post == (RunState::Failed {
                stage: Stage::Transcribing,
                error: PipelineError::Transcription(detail),
            }),
        },
        (RunState::Summarizing { chat, transcript }, Outcome::Summarized(res)) => match res {
            Ok(content) => {
                &&& post matches RunState::Delivering { chat: c, summary }
                &&& c == chat
                &&& summary@ == content_text(content)
            },
            Err(detail) => post == (RunState::Failed {
                stage: Stage::Summarizing,
                error: PipelineError::Summarization(detail),
            }),
        },
        (RunState::Delivering { chat, summary }, Outcome::Delivered(res)) => match res {
            Ok(sent) => post == (RunState::Done { chat, reply: summary }),
            Err(detail) => post == (RunState::Failed {
                stage: Stage::Delivering,
                error: PipelineError::Delivery(detail),
            }),
        },
        (RunState::Unsupported { chat }, Outcome::Delivered(res)) => match res {
            Ok(sent) => {
                &&& post matches RunState::Done { chat: c, reply }
                &&& c == chat
                &&& reply@ == spec_unsupported_reply()
            },
            Err(detail) => post == (RunState::Failed {
                stage: Stage::Delivering,
                error: PipelineError::Delivery(detail),
            }),
        },
        _ => false,
    }
}

/// Classifies the event and enters the first stage of a run.
pub fn start(event: InboundEvent) -> (state: RunState)
    ensures
        start_spec(event, state),
{
    let chat = event.chat;
    match classify(event) {
        MediaSelection::VoiceNote(file) => RunState::Retrieving { chat, file },
        MediaSelection::AudioFile(file) => RunState::Retrieving { chat, file },
        MediaSelection::Unsupported => RunState::Unsupported { chat },
    }
}

/// Advances a run by one collaborator outcome. The first failure aborts the
/// run; nothing is retried and no stage is skipped or reordered.
pub fn step(state: RunState, outcome: Outcome) -> (next: RunState)
    requires
        expects(state, outcome),
    ensures
        step_spec(state, outcome, next),
{
    match (state, outcome) {
        (RunState::Retrieving { chat, .. }, Outcome::Retrieved(res)) => match res {
            Ok(audio) => RunState::Transcribing { chat, audio },
            Err(detail) => RunState::Failed {
                stage: Stage::Retrieving,
                error: PipelineError::Retrieval(detail),
            },
        },
        (RunState::Transcribing { chat, .. }, Outcome::Transcribed(res)) => match res {
            Ok(raw) => RunState::Summarizing { chat, transcript: lossy_decode(&raw) },
            Err(detail) => RunState::Failed {
                stage: Stage::Transcribing,
                error: PipelineError::Transcription(detail),
            },
        },
        (RunState::Summarizing { chat, .. }, Outcome::Summarized(res)) => match res {
            Ok(content) => RunState::Delivering { chat, summary: extract_summary(content) },
            Err(detail) => RunState::Failed {
                stage: Stage::Summarizing,
                error: PipelineError::Summarization(detail),
            },
        },
        (RunState::Delivering { chat, summary }, Outcome::Delivered(res)) => match res {
            Ok(_) => RunState::Done { chat, reply: summary },
            Err(detail) => RunState::Failed {
                stage: Stage::Delivering,
                error: PipelineError::Delivery(detail),
            },
        },
        (RunState::Unsupported { chat }, Outcome::Delivered(res)) => match res {
            Ok(_) => RunState::Done { chat, reply: unsupported_reply() },
            Err(detail) => RunState::Failed {
                stage: Stage::Delivering,
                error: PipelineError::Delivery(detail),
            },
        },
        _ => vstd::pervasive::unreached(),
    }
}

/// The reply text a run prescribes in its current state, if any: the summary
/// while delivering, the fixed instructional text for unsupported media, and
/// none anywhere else — in particular, a failed run sends nothing.
pub fn pending_reply(state: &RunState) -> (reply: Option<String>)
    ensures
        match *state {
            RunState::Delivering { summary, .. } => {
                &&& reply matches Some(text)
                &&& text@ == summary@
            },
            RunState::Unsupported { .. } => {
                &&& reply matches Some(text)
                &&& text@ == spec_unsupported_reply()
            },
            _ => reply is None,
        },
{
    match state {
        RunState::Delivering { summary, .. } => Some(summary.clone()),
        RunState::Unsupported { .. } => Some(unsupported_reply()),
        _ => None,
    }
}

/// Law: an event carrying neither a voice note nor an audio attachment never
/// engages the retrieval, transcription or summarization collaborator. The
/// run starts in `Unsupported`, whose only prescribed effect is the fixed
/// instructional reply, and one delivery outcome ends the run.
pub proof fn lemma_unsupported_short_circuits(
    event: InboundEvent,
    first: RunState,
    outcome: Outcome,
    last: RunState,
)
    requires
        event.media is Other,
        start_spec(event, first),
        step_spec(first, outcome, last),
    ensures
        first == (RunState::Unsupported { chat: event.chat }),
        outcome is Delivered,
        is_terminal(last),
        last matches RunState::Done { chat, reply } ==> chat == event.chat && reply@
            == spec_unsupported_reply(),
        last matches RunState::Failed { stage, .. } ==> stage == Stage::Delivering,
        !(last is Retrieving) && !(last is Transcribing) && !(last is Summarizing),
{
}

/// Law: in a run whose every collaborator call succeeds, the collaborators
/// are engaged in the fixed order retrieval → transcription → summarization
/// → delivery, exactly once each, and every stage's output is carried into
/// the next stage unmodified: the retrieved bytes are what is transcribed,
/// the decoded transcript is what is summarized, and the extracted summary
/// is the reply the chat receives.
pub proof fn lemma_success_order(
    event: InboundEvent,
    file: FileReference,
    audio: Vec<u8>,
    raw: Vec<u8>,
    content: Option<String>,
    s0: RunState,
    s1: RunState,
    s2: RunState,
    s3: RunState,
    s4: RunState,
)
    requires
        event.media == (MediaPayload::Voice(file)) || event.media == (MediaPayload::Audio(file)),
        start_spec(event, s0),
        step_spec(s0, Outcome::Retrieved(Ok(audio)), s1),
        step_spec(s1, Outcome::Transcribed(Ok(raw)), s2),
        step_spec(s2, Outcome::Summarized(Ok(content)), s3),
        step_spec(s3, Outcome::Delivered(Ok(())), s4),
    ensures
        s0 == (RunState::Retrieving { chat: event.chat, file }),
        s1 == (RunState::Transcribing { chat: event.chat, audio }),
        s2 matches RunState::Summarizing { chat, transcript } && chat == event.chat && transcript@
            == lossy_utf8(raw@),
        s3 matches RunState::Delivering { chat, summary } && chat == event.chat && summary@
            == content_text(content),
        s4 matches RunState::Done { chat, reply } && chat == event.chat && reply@ == content_text(
            content,
        ),
{
}

/// Law: a retrieval failure ends the run at once — the transcription and
/// summarization collaborators are never engaged, and no reply is sent.
pub proof fn lemma_retrieval_failure_halts(
    chat: ChatId,
    file: FileReference,
    detail: String,
    failed: RunState,
)
    requires
        step_spec(
            (RunState::Retrieving { chat, file }),
            Outcome::Retrieved(Err(detail)),
            failed,
        ),
    ensures
        failed == (RunState::Failed {
            stage: Stage::Retrieving,
            error: PipelineError::Retrieval(detail),
        }),
        is_terminal(failed),
        forall|later: Outcome| !expects(failed, later),
        !(failed is Delivering) && !(failed is Unsupported),
{
}

/// Law: a transcription failure ends the run at once — the summarization
/// collaborator is never engaged, and no reply is sent.
pub proof fn lemma_transcription_failure_halts(
    chat: ChatId,
    audio: Vec<u8>,
    detail: String,
    failed: RunState,
)
    requires
        step_spec(
            (RunState::Transcribing { chat, audio }),
            Outcome::Transcribed(Err(detail)),
            failed,
        ),
    ensures
        failed == (RunState::Failed {
            stage: Stage::Transcribing,
            error: PipelineError::Transcription(detail),
        }),
        is_terminal(failed),
        forall|later: Outcome| !expects(failed, later),
        !(failed is Delivering) && !(failed is Unsupported),
{
}

/// Law: an empty completion content degrades, it does not fail — the run
/// still reaches `Delivering`, and a successful delivery ends it `Done` with
/// an empty reply.
pub proof fn lemma_empty_summary_still_delivers(
    chat: ChatId,
    transcript: String,
    delivering: RunState,
    done: RunState,
)
    requires
        step_spec(
            (RunState::Summarizing { chat, transcript }),
            Outcome::Summarized(Ok(None)),
            delivering,
        ),
        step_spec(delivering, Outcome::Delivered(Ok(())), done),
    ensures
        delivering matches RunState::Delivering { chat: c, summary } && c == chat && summary@
            == Seq::<char>::empty(),
        done matches RunState::Done { chat: c, reply } && c == chat && reply@
            == Seq::<char>::empty(),
{
}

} // verus!
