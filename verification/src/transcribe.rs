use vstd::prelude::*;

verus! {

/// The text that lossy UTF-8 decoding yields on the given bytes; a function
/// of the bytes alone.
pub uninterp spec fn lossy_utf8(bytes: Seq<u8>) -> Seq<char>;

/// Relies on `String::from_utf8_lossy`: decodes the bytes as UTF-8,
/// replacing invalid sequences with the replacement character; the result
/// depends on the bytes alone.
#[verifier::external_body]
pub(crate) fn lossy_decode(bytes: &Vec<u8>) -> (text: String)
    ensures
        text@ == lossy_utf8(bytes@),
{
    String::from_utf8_lossy(bytes).into_owned()
}

/// The fixed model name every transcription request carries.
pub fn transcription_model() -> (model: String)
    ensures
        model@ == "whisper-1"@,
{
    "whisper-1".to_owned()
}

/// The fixed name under which the raw audio bytes are submitted; the
/// transcription service infers the format from the content, not the name.
pub fn transcription_file_name() -> (name: String)
    ensures
        name@ == "input.mp3"@,
{
    "input.mp3".to_owned()
}

} // verus!
