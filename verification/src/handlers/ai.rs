//! The AI endpoints, which answer with fixed placeholder results.

use vstd::prelude::*;
use crate::text::push_str;

verus! {

/// Body of a text-to-speech request.
#[derive(Debug, Clone, PartialEq, Eq)]
pub struct TtsRequest {
    pub text: String,
}

/// Answer of a text-to-speech request.
#[derive(Debug, Clone, PartialEq, Eq)]
pub struct TtsResponse {
    pub audio_url: String,
}

/// Body of an image edit request.
#[derive(Debug, Clone, PartialEq, Eq)]
pub struct ImageEditRequest {
    pub image_base64: String,
    pub prompt: String,
}

/// Answer of an image edit request.
#[derive(Debug, Clone, PartialEq, Eq)]
pub struct ImageEditResponse {
    pub edited_image_url: String,
}

/// Body of a chat request.
#[derive(Debug, Clone, PartialEq, Eq)]
pub struct ChatRequest {
    pub message: String,
}

/// Answer of a chat request.
#[derive(Debug, Clone, PartialEq, Eq)]
pub struct ChatResponse {
    pub reply: String,
}

/// Text-to-speech: the address of the placeholder audio, whatever the text.
pub fn tts_proxy(payload: TtsRequest) -> (r: TtsResponse)
    ensures
        r.audio_url@ == "https://rustedu.com/ai/tts/mock.mp3"@,
{
    TtsResponse { audio_url: String::from_str("https://rustedu.com/ai/tts/mock.mp3") }
}

/// The reply to a chat message.
pub open spec fn chat_reply(message: Seq<char>) -> Seq<char> {
    "Mock AI response to: '"@ + message + "'"@
}

/// Chat: a placeholder reply that quotes the message.
pub fn chat_proxy(payload: ChatRequest) -> (r: ChatResponse)
    ensures
        r.reply@ == chat_reply(payload.message@),
{
    let mut reply = String::from_str("Mock AI response to: '");
    push_str(&mut reply, payload.message.as_str());
    push_str(&mut reply, "'");
    ChatResponse { reply }
}

/// Image edit: the address of the placeholder image, whatever the request.
pub fn image_edit_proxy(payload: ImageEditRequest) -> (r: ImageEditResponse)
    ensures
        r.edited_image_url@ == "https://rustedu.com/ai/images/mock-edited.png"@,
{
    ImageEditResponse {
        edited_image_url: String::from_str("https://rustedu.com/ai/images/mock-edited.png"),
    }
}

} // verus!
