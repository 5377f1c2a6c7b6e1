use vstd::prelude::*;

use crate::event::{FileReference, InboundEvent, MediaPayload};

verus! {

/// The classifier's decision over an event's media payload: which kind of
/// audio it carries, or that the pipeline does not support it.
#[derive(Debug, PartialEq, Eq)]
pub enum MediaSelection {
    VoiceNote(FileReference),
    AudioFile(FileReference),
    Unsupported,
}

/// What classification yields for a given event.
pub open spec fn spec_classify(event: InboundEvent) -> MediaSelection {
    match event.media {
        MediaPayload::Voice(f) => MediaSelection::VoiceNote(f),
        MediaPayload::Audio(f) => MediaSelection::AudioFile(f),
        MediaPayload::Other => MediaSelection::Unsupported,
    }
}

/// Classifies an inbound event: a voice note or an audio attachment is
/// selected with its file reference; every other payload kind — text, images,
/// documents, anything unrecognized — is `Unsupported`. This never fails;
/// `Unsupported` is a normal terminal outcome.
pub fn classify(event: InboundEvent) -> (selection: MediaSelection)
    ensures
        selection == spec_classify(event),
{
    match event.media {
        MediaPayload::Voice(f) => MediaSelection::VoiceNote(f),
        MediaPayload::Audio(f) => MediaSelection::AudioFile(f),
        MediaPayload::Other => MediaSelection::Unsupported,
    }
}

/// The fixed instructional reply for an unsupported payload.
pub open spec fn spec_unsupported_reply() -> Seq<char> {
    "Please send a voice message or an audio file."@
}

/// The one message a run with unsupported media sends back to the chat.
pub fn unsupported_reply() -> (reply: String)
    ensures
        reply@ == spec_unsupported_reply(),
{
    "Please send a voice message or an audio file.".to_owned()
}

} // verus!
