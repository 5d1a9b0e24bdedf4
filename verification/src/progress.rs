//! Chapter progress, quiz evaluation and course certification.

use vstd::prelude::*;
use crate::error::AppError;
use crate::ids::{uuid_text, uuid_to_string};
use crate::models::common::Timestamp;
use crate::models::course::Chapter;
use crate::models::progress::{Certification, Progress, QuizResult, QuizSubmission};
use crate::notification::{receives, NotificationEvent, NotificationMessage};
use crate::text::push_str;

verus! {

/// The score every quiz submission currently receives.
pub const QUIZ_SCORE: i32 = 80;

/// The lowest score that passes a quiz.
pub const PASS_MARK: i32 = 70;

/// What is recorded when a user finishes a chapter.
#[derive(Debug, Clone, PartialEq, Eq)]
pub struct ChapterOutcome {
    /// Whether the chapter counts as completed.
    pub completed: bool,
    /// The quiz score, for quiz chapters.
    pub score: Option<i32>,
    /// The evaluation returned to the user, for quiz chapters.
    pub result: Option<QuizResult>,
}

/// Whether a chapter is a quiz; an unset flag means it is not.
pub open spec fn is_quiz_chapter(c: Chapter) -> bool {
    c.is_quiz == Some(true)
}

/// Evaluates a finished chapter. A quiz chapter needs the user's answers;
/// it receives the quiz score and counts as completed when the score
/// reaches the pass mark. Any other chapter is completed by reading it.
pub fn evaluate_chapter(chapter: &Chapter, submission: Option<QuizSubmission>) -> (r: Result<
    ChapterOutcome,
    AppError,
>)
    ensures
        !is_quiz_chapter(*chapter) ==> r == Ok::<ChapterOutcome, AppError>(
            ChapterOutcome { completed: true, score: None, result: None },
        ),
        is_quiz_chapter(*chapter) && submission is None ==> (r matches Err(e)
            && e matches AppError::ValidationError(m)
            && m@ == "Quiz answers are required for this chapter"@),
        is_quiz_chapter(*chapter) && submission is Some ==> r == Ok::<ChapterOutcome, AppError>(
            ChapterOutcome {
                completed: QUIZ_SCORE >= PASS_MARK,
                score: Some(QUIZ_SCORE),
                result: Some(QuizResult { score: QUIZ_SCORE, passed: QUIZ_SCORE >= PASS_MARK }),
            },
        ),
{
    let is_quiz = match chapter.is_quiz {
        Some(q) => q,
        None => false,
    };
    if is_quiz {
        if submission.is_none() {
            return Err(
                AppError::ValidationError(
                    String::from_str("Quiz answers are required for this chapter"),
                ),
            );
        }
        let score = QUIZ_SCORE;
        let passed = score >= PASS_MARK;
        Ok(
            ChapterOutcome {
                completed: passed,
                score: Some(score),
                result: Some(QuizResult { score, passed }),
            },
        )
    } else {
        Ok(ChapterOutcome { completed: true, score: None, result: None })
    }
}

/// The progress record of a chapter: the completion time is set exactly
/// when the chapter is completed.
pub fn new_progress(
    id: u128,
    user_id: u128,
    chapter_id: u128,
    completed: bool,
    score: Option<i32>,
    now: Timestamp,
) -> (p: Progress)
    ensures
        p.id == id,
        p.user_id == user_id,
        p.chapter_id == chapter_id,
        p.completed == Some(completed),
        p.score == score,
        p.completed_at == (if completed { Some(now) } else { None }),
{
    Progress {
        id,
        user_id,
        chapter_id,
        completed: Some(completed),
        score,
        completed_at: if completed {
            Some(now)
        } else {
            None
        },
    }
}

/// A course is completed when it has chapters and the user completed every
/// one of them.
pub open spec fn is_course_completed(total_chapters: u64, completed_chapters: u64) -> bool {
    total_chapters != 0 && total_chapters == completed_chapters
}

/// Decides course completion from the number of chapters of the course and
/// the number of them that the user completed.
pub fn course_completed(total_chapters: u64, completed_chapters: u64) -> (r: bool)
    ensures
        r == is_course_completed(total_chapters, completed_chapters),
        completed_chapters < total_chapters ==> !r,
        total_chapters > 0 && completed_chapters == total_chapters ==> r,
{
    if total_chapters == 0 {
        return false;
    }
    total_chapters == completed_chapters
}

/// A course with chapters is completed exactly when every chapter is: one
/// chapter short of the total is not enough, and completing all of them is.
pub proof fn lemma_completion_needs_every_chapter(total_chapters: u64, completed_chapters: u64)
    ensures
        total_chapters > 0 ==> (is_course_completed(total_chapters, completed_chapters) <==> completed_chapters
            == total_chapters),
        completed_chapters < total_chapters ==> !is_course_completed(total_chapters, completed_chapters),
        is_course_completed(total_chapters, completed_chapters) ==> completed_chapters == total_chapters,
{
}

/// A course without chapters can never be completed.
pub proof fn lemma_empty_course_never_completed(completed_chapters: u64)
    ensures
        !is_course_completed(0, completed_chapters),
{
}

/// The address of the certificate document of a user for a course.
pub open spec fn certificate_url(user_id: u128, course_id: u128) -> Seq<char> {
    "https://rustedu.com/certifications/"@ + uuid_text(user_id) + "_"@ + uuid_text(course_id)
        + ".pdf"@
}

/// Builds the address of the certificate document.
pub fn certification_pdf_url(user_id: u128, course_id: u128) -> (s: String)
    ensures
        s@ == certificate_url(user_id, course_id),
{
    let mut s = String::from_str("https://rustedu.com/certifications/");
    let u = uuid_to_string(user_id);
    let c = uuid_to_string(course_id);
    push_str(&mut s, u.as_str());
    push_str(&mut s, "_");
    push_str(&mut s, c.as_str());
    push_str(&mut s, ".pdf");
    s
}

/// The refusal to certify an unfinished course.
pub open spec fn not_completed_text() -> Seq<char> {
    "Course is not fully completed. Cannot generate certification."@
}

/// Decides a certification request: a completed course yields the address
/// of the certificate to store; an unfinished one is refused.
pub fn certification_request(is_completed: bool, user_id: u128, course_id: u128) -> (r: Result<
    String,
    AppError,
>)
    ensures
        is_completed ==> (r matches Ok(url) && url@ == certificate_url(user_id, course_id)),
        !is_completed ==> (r matches Err(e) && e matches AppError::Forbidden(m) && m@
            == not_completed_text()),
{
    if !is_completed {
        return Err(
            AppError::Forbidden(
                String::from_str("Course is not fully completed. Cannot generate certification."),
            ),
        );
    }
    Ok(certification_pdf_url(user_id, course_id))
}

/// The live event announcing a certification, sent to its holder only.
pub fn achievement_message(user_id: u128, course_id: u128) -> (msg: NotificationMessage)
    ensures
        msg.user_id == Some(user_id),
        msg.event == (NotificationEvent::AchievementUnlocked { course_id }),
{
    NotificationMessage {
        user_id: Some(user_id),
        event: NotificationEvent::AchievementUnlocked { course_id },
    }
}

/// The achievement event reaches the certified user and no one else.
pub proof fn lemma_achievement_reaches_holder_only(user_id: u128, course_id: u128, other: u128)
    requires
        other != user_id,
    ensures
        ({
            let msg = NotificationMessage {
                user_id: Some(user_id),
                event: NotificationEvent::AchievementUnlocked { course_id },
            };
            receives(msg, user_id) && !receives(msg, other)
        }),
{
}

/// A newly issued certification.
pub fn new_certification(
    id: u128,
    user_id: u128,
    course_id: u128,
    pdf_url: Option<String>,
    now: Timestamp,
) -> (c: Certification)
    ensures
        c == (Certification { id, user_id, course_id, issued_at: now, pdf_url }),
{
    Certification { id, user_id, course_id, issued_at: now, pdf_url }
}

} // verus!
