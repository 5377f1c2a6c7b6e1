//! Verified core of a voice-summary chat bot.
//!
//! An inbound chat event is classified by its media payload; a voice note or
//! audio attachment is retrieved, transcribed, summarized, and the summary is
//! delivered back to the originating chat. The whole run is a small state
//! machine: [`pipeline::start`] classifies the event and enters the first
//! stage, and [`pipeline::step`] consumes one collaborator outcome at a time,
//! aborting the run on the first failure. The caller performs the outside
//! calls (download, speech-to-text, chat completion, reply delivery) and feeds
//! each result back in.

pub mod classify;
pub mod event;
pub mod pipeline;
pub mod summarize;
pub mod transcribe;
