//! Courses, their modules and chapters.

use vstd::prelude::*;
use crate::models::common::{JsonValue, Timestamp};

verus! {

/// A course.
#[derive(Debug, PartialEq, Eq)]
pub struct Course {
    pub id: u128,
    pub slug: String,
    pub title: JsonValue,
    pub description: Option<JsonValue>,
    pub level: Option<String>,
    pub image_url: Option<String>,
    pub tags: Option<Vec<String>>,
    /// Slugs of the courses that must be completed before this one.
    pub prerequisites: Option<Vec<String>>,
    pub created_at: Timestamp,
    pub updated_at: Timestamp,
}

/// A module of a course.
#[derive(Debug, PartialEq, Eq)]
pub struct Module {
    pub id: u128,
    pub course_id: u128,
    pub title: JsonValue,
    pub description: Option<JsonValue>,
    pub order: i32,
    pub created_at: Timestamp,
    pub updated_at: Timestamp,
}

/// A chapter of a module.
#[derive(Debug, PartialEq, Eq)]
pub struct Chapter {
    pub id: u128,
    pub module_id: u128,
    pub title: JsonValue,
    pub content: String,
    pub is_quiz: Option<bool>,
    pub quiz_data: Option<JsonValue>,
    pub code_snippet: Option<String>,
    pub video_url: Option<String>,
    pub order: i32,
    pub created_at: Timestamp,
    pub updated_at: Timestamp,
}

/// A course with its modules, as shown on the course page.
#[derive(Debug, PartialEq, Eq)]
pub struct CourseDetails {
    pub id: u128,
    pub slug: String,
    pub title: JsonValue,
    pub description: Option<JsonValue>,
    pub level: Option<String>,
    pub image_url: Option<String>,
    pub tags: Option<Vec<String>>,
    pub prerequisites: Option<Vec<String>>,
    pub modules: Vec<ModuleDetails>,
}

/// A module with the summaries of its chapters.
#[derive(Debug, PartialEq, Eq)]
pub struct ModuleDetails {
    pub id: u128,
    pub title: JsonValue,
    pub description: Option<JsonValue>,
    pub order: i32,
    pub chapters: Vec<ChapterSummary>,
}

/// A chapter without its content.
#[derive(Debug, PartialEq, Eq)]
pub struct ChapterSummary {
    pub id: u128,
    pub title: JsonValue,
    pub is_quiz: Option<bool>,
    pub quiz_data: Option<JsonValue>,
    pub code_snippet: Option<String>,
    pub video_url: Option<String>,
    pub order: i32,
}

/// Body of a request that creates a course.
#[derive(Debug, PartialEq, Eq)]
pub struct CreateCourse {
    pub slug: String,
    pub title: JsonValue,
    pub description: Option<JsonValue>,
    pub level: Option<String>,
    pub image_url: Option<String>,
    pub tags: Option<Vec<String>>,
    pub prerequisites: Option<Vec<String>>,
}

/// Body of a request that creates a module.
#[derive(Debug, PartialEq, Eq)]
pub struct CreateModule {
    pub title: JsonValue,
    pub description: Option<JsonValue>,
    pub order: i32,
}

/// Body of a request that edits a module; absent fields stay as they are.
#[derive(Debug, PartialEq, Eq)]
pub struct UpdateModule {
    pub title: Option<JsonValue>,
    pub description: Option<JsonValue>,
    pub order: Option<i32>,
}

/// Body of a request that creates a chapter.
#[derive(Debug, PartialEq, Eq)]
pub struct CreateChapter {
    pub title: JsonValue,
    pub content: String,
    pub is_quiz: Option<bool>,
    pub quiz_data: Option<JsonValue>,
    pub code_snippet: Option<String>,
    pub video_url: Option<String>,
    pub order: i32,
}

/// Body of a request that edits a chapter; absent fields stay as they are.
#[derive(Debug, PartialEq, Eq)]
pub struct UpdateChapter {
    pub title: Option<JsonValue>,
    pub content: Option<String>,
    pub is_quiz: Option<bool>,
    pub quiz_data: Option<JsonValue>,
    pub code_snippet: Option<String>,
    pub video_url: Option<String>,
    pub order: Option<i32>,
}

/// Body of a request that edits a course; absent fields stay as they are.
#[derive(Debug, PartialEq, Eq)]
pub struct UpdateCourse {
    pub slug: Option<String>,
    pub title: Option<JsonValue>,
    pub description: Option<JsonValue>,
    pub level: Option<String>,
    pub image_url: Option<String>,
    pub tags: Option<Vec<String>>,
    pub prerequisites: Option<Vec<String>>,
}

} // verus!
