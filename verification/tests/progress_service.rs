use rustedu::error::AppError;
use rustedu::models::common::{JsonValue, Timestamp};
use rustedu::models::course::Chapter;
use rustedu::models::progress::{QuizResult, QuizSubmission};
use rustedu::notification::{delivers_to, NotificationEvent};
use rustedu::progress::{
    achievement_message, certification_request, course_completed, evaluate_chapter,
    new_certification, new_progress, ChapterOutcome,
};

fn at(secs: i64) -> Timestamp {
    Timestamp { secs, nanos: 0 }
}

fn chapter(is_quiz: Option<bool>) -> Chapter {
    Chapter {
        id: 1,
        module_id: 2,
        title: JsonValue::Null,
        content: String::new(),
        is_quiz,
        quiz_data: None,
        code_snippet: None,
        video_url: None,
        order: 1,
        created_at: at(0),
        updated_at: at(0),
    }
}

#[test]
fn test_generate_certification_course_completed() {
    let user_id = 0x0123456789abcdef0123456789abcdefu128;
    let course_id = 0x10u128;
    let url = certification_request(true, user_id, course_id).expect("Failed to generate cert");
    assert_eq!(
        url,
        "https://rustedu.com/certifications/01234567-89ab-cdef-0123-456789abcdef_00000000-0000-0000-0000-000000000010.pdf"
    );
    let cert = new_certification(5, user_id, course_id, Some(url), at(1));
    assert_eq!(cert.user_id, user_id);
    assert!(cert.pdf_url.is_some());
    let msg = achievement_message(user_id, course_id);
    assert_eq!(msg.user_id, Some(user_id), "Notification must be sent specifically to the user");
    match msg.event {
        NotificationEvent::AchievementUnlocked { course_id: c_id } => assert_eq!(c_id, course_id),
        _ => panic!("Expected AchievementUnlocked event"),
    }
    assert!(delivers_to(&msg, user_id));
    assert!(!delivers_to(&msg, user_id + 1));
}

#[test]
fn test_generate_certification_forbidden_when_not_completed() {
    let result = certification_request(false, 1, 2);
    assert!(result.is_err());
    match result {
        Err(AppError::Forbidden(msg)) => {
            assert_eq!(msg, "Course is not fully completed. Cannot generate certification.")
        }
        _ => panic!("Expected Forbidden error"),
    }
}

#[test]
fn reading_chapter_completes_it() {
    let expected = Ok(ChapterOutcome { completed: true, score: None, result: None });
    assert_eq!(evaluate_chapter(&chapter(None), None), expected);
    assert_eq!(evaluate_chapter(&chapter(Some(false)), None), expected);
}

#[test]
fn quiz_needs_answers() {
    assert_eq!(
        evaluate_chapter(&chapter(Some(true)), None),
        Err(AppError::ValidationError("Quiz answers are required for this chapter".to_string()))
    );
}

#[test]
fn quiz_is_scored_and_passed() {
    let sub = QuizSubmission { answers: vec!["a".to_string()] };
    assert_eq!(
        evaluate_chapter(&chapter(Some(true)), Some(sub)),
        Ok(ChapterOutcome {
            completed: true,
            score: Some(80),
            result: Some(QuizResult { score: 80, passed: true }),
        })
    );
}

#[test]
fn completion_requires_all_chapters() {
    assert!(!course_completed(0, 0));
    assert!(!course_completed(5, 4));
    assert!(course_completed(5, 5));
}

#[test]
fn progress_records_completion_time() {
    let p = new_progress(1, 2, 3, true, Some(80), at(7));
    assert_eq!(p.completed, Some(true));
    assert_eq!(p.completed_at, Some(at(7)));
    let q = new_progress(1, 2, 3, false, None, at(7));
    assert_eq!(q.completed_at, None);
}
