use voice_summary::summarize::{
    extract_summary, summarization_model, summary_prompt, system_instruction,
};
use voice_summary::transcribe::{transcription_file_name, transcription_model};

#[test]
fn summary_prompt_embeds_transcript_verbatim() {
    assert_eq!(
        summary_prompt("hello world"),
        "Please summarize the following text:\n\nhello world"
    );
}

#[test]
fn summary_prompt_of_empty_transcript_is_the_prefix() {
    assert_eq!(summary_prompt(""), "Please summarize the following text:\n\n");
}

#[test]
fn system_instruction_is_fixed() {
    assert_eq!(
        system_instruction(),
        "You are a helpful assistant that summarizes text concisely."
    );
}

#[test]
fn extract_summary_keeps_content() {
    assert_eq!(extract_summary(Some("Greeting.".to_string())), "Greeting.");
}

#[test]
fn extract_summary_degrades_absent_content_to_empty() {
    assert_eq!(extract_summary(None), "");
}

#[test]
fn fixed_request_parameters() {
    assert_eq!(transcription_model(), "whisper-1");
    assert_eq!(summarization_model(), "gpt-3.5-turbo");
    assert_eq!(transcription_file_name(), "input.mp3");
}
