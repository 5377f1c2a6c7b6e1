use vstd::prelude::*;

verus! {

/// Identifies the conversation an inbound message belongs to; opaque and
/// stable per chat.
#[derive(Clone, Copy, Debug, PartialEq, Eq, Structural)]
pub struct ChatId(pub i64);

/// An opaque handle naming one media blob on the chat platform; the retrieval
/// collaborator resolves it to the actual bytes.
#[derive(Clone, Debug, PartialEq, Eq)]
pub struct FileReference {
    pub id: String,
}

/// The media payload carried by an inbound chat message: a platform-native
/// voice note, a generic audio attachment, or anything else.
#[derive(Debug, PartialEq, Eq)]
pub enum MediaPayload {
    Voice(FileReference),
    Audio(FileReference),
    Other,
}

/// One inbound chat message event; consumed by exactly one pipeline run.
#[derive(Debug, PartialEq, Eq)]
pub struct InboundEvent {
    pub chat: ChatId,
    pub media: MediaPayload,
}

} // verus!
