use rustedu::error::AppError;
use rustedu::handlers::ai::{chat_proxy, image_edit_proxy, tts_proxy, ChatRequest, ImageEditRequest, TtsRequest};
use rustedu::handlers::sandbox::{execute_code, ExecuteCodeRequest};
use rustedu::handlers::upload::{is_image_field, no_file_uploaded, upload_response};

#[test]
fn chat_quotes_message() {
    let r = chat_proxy(ChatRequest { message: "hola".to_string() });
    assert_eq!(r.reply, "Mock AI response to: 'hola'");
}

#[test]
fn fixed_ai_answers() {
    assert_eq!(tts_proxy(TtsRequest { text: "x".to_string() }).audio_url, "https://rustedu.com/ai/tts/mock.mp3");
    assert_eq!(
        image_edit_proxy(ImageEditRequest { image_base64: String::new(), prompt: "p".to_string() }).edited_image_url,
        "https://rustedu.com/ai/images/mock-edited.png"
    );
}

#[test]
fn sandbox_placeholder_run() {
    let r = execute_code(ExecuteCodeRequest { code: "fn main() {}".to_string() });
    assert_eq!(r.stdout, "Hello, world!");
    assert_eq!(r.stderr, "");
    assert_eq!(r.exit_code, 0);
}

#[test]
fn upload_fields() {
    assert!(is_image_field(Some("file")));
    assert!(is_image_field(Some("image")));
    assert!(!is_image_field(Some("avatar")));
    assert!(!is_image_field(None));
    assert_eq!(upload_response().url, "https://rustedu.com/uploads/mock-image.png");
    assert_eq!(no_file_uploaded(), AppError::ValidationError("No file uploaded".to_string()));
}
