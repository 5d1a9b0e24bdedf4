//! Chapter progress, quizzes and certifications.

use vstd::prelude::*;
use crate::models::common::Timestamp;

verus! {

/// The progress of a user on one chapter.
#[derive(Debug, Clone, PartialEq, Eq)]
pub struct Progress {
    pub id: u128,
    pub user_id: u128,
    pub chapter_id: u128,
    pub completed: Option<bool>,
    pub score: Option<i32>,
    pub completed_at: Option<Timestamp>,
}

/// A certification for a completed course.
#[derive(Debug, Clone, PartialEq, Eq)]
pub struct Certification {
    pub id: u128,
    pub user_id: u128,
    pub course_id: u128,
    pub issued_at: Timestamp,
    pub pdf_url: Option<String>,
}

/// The answers to a quiz chapter.
#[derive(Debug, Clone, PartialEq, Eq)]
pub struct QuizSubmission {
    pub answers: Vec<String>,
}

/// The evaluation of a quiz.
#[derive(Debug, Clone, PartialEq, Eq)]
pub struct QuizResult {
    pub score: i32,
    pub passed: bool,
}

} // verus!
