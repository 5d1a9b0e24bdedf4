use rustedu::course::{
    all_courses_filter, apply_course_update, chapter_in_course, check_prerequisites, course_structure,
    page_window, prerequisite_gate, PrerequisiteGate,
};
use rustedu::error::{found_or_not_found, AppError, RecordKind};
use rustedu::models::common::{JsonValue, PaginationAndFilters, Timestamp};
use rustedu::models::course::{Chapter, ChapterSummary, Course, Module, UpdateCourse};
use rustedu::models::progress::Certification;

fn at(secs: i64) -> Timestamp {
    Timestamp { secs, nanos: 0 }
}

fn course(id: u128, slug: &str, prerequisites: Option<Vec<String>>) -> Course {
    Course {
        id,
        slug: slug.to_string(),
        title: JsonValue::String("Rust for Beginners".to_string()),
        description: Some(JsonValue::String("Learn Rust".to_string())),
        level: Some("Beginner".to_string()),
        image_url: None,
        tags: None,
        prerequisites,
        created_at: at(1),
        updated_at: at(1),
    }
}

fn cert(user_id: u128, course_id: u128) -> Certification {
    Certification { id: 900 + course_id, user_id, course_id, issued_at: at(5), pdf_url: None }
}

fn chapter(id: u128, module_id: u128) -> Chapter {
    Chapter {
        id,
        module_id,
        title: JsonValue::String("Hello World".to_string()),
        content: "fn main() {}".to_string(),
        is_quiz: Some(false),
        quiz_data: None,
        code_snippet: None,
        video_url: None,
        order: 1,
        created_at: at(2),
        updated_at: at(2),
    }
}

#[test]
fn test_get_course_structure_with_modules() {
    let course_id = 0x11u128;
    let module_id = 0x22u128;
    let c = course(course_id, "rust-for-beginners", None);
    let m = Module {
        id: module_id,
        course_id,
        title: JsonValue::String("Intro to Rust".to_string()),
        description: None,
        order: 1,
        created_at: at(3),
        updated_at: at(3),
    };
    let chapters = vec![ChapterSummary {
        id: 0x33,
        title: JsonValue::String("Hello World".to_string()),
        is_quiz: Some(false),
        quiz_data: None,
        code_snippet: None,
        video_url: None,
        order: 1,
    }];
    let structure = course_structure(c, vec![(m, chapters)]);
    assert_eq!(structure.id, course_id);
    assert_eq!(structure.title, JsonValue::String("Rust for Beginners".to_string()));
    assert_eq!(structure.modules.len(), 1);
    assert_eq!(structure.modules[0].id, module_id);
    assert_eq!(structure.modules[0].chapters.len(), 1);
}

fn module(id: u128, order: i32) -> Module {
    Module {
        id,
        course_id: 1,
        title: JsonValue::String(format!("Module {}", order)),
        description: None,
        order,
        created_at: at(3),
        updated_at: at(3),
    }
}

#[test]
fn course_page_keeps_module_order() {
    let page = course_structure(course(1, "c", None), vec![(module(9, 2), vec![]), (module(4, 1), vec![]), (module(7, 3), vec![])]);
    let ids: Vec<u128> = page.modules.iter().map(|m| m.id).collect();
    assert_eq!(ids, vec![9, 4, 7]);
    assert_eq!(page.modules[1].order, 1);
    assert_eq!(page.modules[2].title, JsonValue::String("Module 3".to_string()));
    let empty = course_structure(course(1, "c", None), vec![]);
    assert!(empty.modules.is_empty());
    assert_eq!(empty.slug, "c");
}

#[test]
fn test_get_course_structure_not_found() {
    let result = found_or_not_found::<Course>(None, RecordKind::Course);
    assert!(result.is_err(), "Should return an error when not found");
    match result {
        Err(AppError::NotFound(msg)) => assert_eq!(msg, "Course not found"),
        _ => panic!("Expected NotFound error"),
    }
}

#[test]
fn gate_is_open_without_prerequisites() {
    assert_eq!(prerequisite_gate(&course(1, "a", None), None), PrerequisiteGate::Open);
    assert_eq!(prerequisite_gate(&course(1, "a", Some(vec![])), None), PrerequisiteGate::Open);
}

#[test]
fn gate_needs_a_signed_in_user() {
    let c = course(1, "advanced", Some(vec!["basics".to_string()]));
    assert_eq!(prerequisite_gate(&c, Some(7)), PrerequisiteGate::CheckFor(7));
    assert_eq!(
        prerequisite_gate(&c, None),
        PrerequisiteGate::Denied(AppError::Forbidden(
            "You must be logged in to view a course with prerequisites".to_string()
        ))
    );
}

#[test]
fn prerequisites_met_when_certified() {
    let all = vec![course(1, "basics", None), course(2, "intermediate", None)];
    let prereqs = vec!["basics".to_string(), "intermediate".to_string()];
    let certs = vec![cert(7, 2), cert(7, 1)];
    assert_eq!(check_prerequisites(&prereqs, &certs, &all), Ok(()));
}

#[test]
fn prerequisite_not_completed_is_refused() {
    let all = vec![course(1, "basics", None), course(2, "intermediate", None)];
    let prereqs = vec!["basics".to_string(), "intermediate".to_string()];
    let certs = vec![cert(7, 1)];
    assert_eq!(
        check_prerequisites(&prereqs, &certs, &all),
        Err(AppError::Forbidden("Prerequisite course 'intermediate' must be completed first".to_string()))
    );
}

#[test]
fn unknown_prerequisite_is_refused() {
    let all = vec![course(1, "basics", None)];
    let prereqs = vec!["ghost-course".to_string(), "basics".to_string()];
    assert_eq!(
        check_prerequisites(&prereqs, &vec![], &all),
        Err(AppError::Forbidden("Prerequisite course 'ghost-course' not found".to_string()))
    );
}

#[test]
fn first_unmet_prerequisite_decides() {
    let all = vec![course(1, "basics", None), course(2, "intermediate", None)];
    let prereqs = vec!["intermediate".to_string(), "missing".to_string()];
    assert_eq!(
        check_prerequisites(&prereqs, &vec![], &all),
        Err(AppError::Forbidden("Prerequisite course 'intermediate' must be completed first".to_string()))
    );
}

#[test]
fn prerequisite_uses_first_course_with_slug() {
    let all = vec![course(1, "basics", None), course(2, "basics", None)];
    let prereqs = vec!["basics".to_string()];
    assert!(check_prerequisites(&prereqs, &vec![cert(7, 2)], &all).is_err());
    assert_eq!(check_prerequisites(&prereqs, &vec![cert(7, 1)], &all), Ok(()));
}

#[test]
fn all_courses_filter_lists_a_thousand() {
    let f = all_courses_filter();
    assert_eq!(f.limit, Some(1000));
    assert_eq!(f.page, None);
    assert_eq!(f.search, None);
}

#[test]
fn chapter_must_belong_to_course() {
    let m = |course_id: u128| Module {
        id: 5,
        course_id,
        title: JsonValue::Null,
        description: None,
        order: 1,
        created_at: at(0),
        updated_at: at(0),
    };
    assert!(chapter_in_course(Some((chapter(9, 5), Some(m(1)))), 1).is_some());
    assert!(chapter_in_course(Some((chapter(9, 5), Some(m(2)))), 1).is_none());
    assert!(chapter_in_course(Some((chapter(9, 5), None)), 1).is_none());
    assert!(chapter_in_course(None, 1).is_none());
}

#[test]
fn page_window_defaults_and_offsets() {
    let mut f = PaginationAndFilters::none();
    assert_eq!(page_window(&f), (50, 0));
    f.page = Some(3);
    f.limit = Some(20);
    assert_eq!(page_window(&f), (20, 40));
    f.page = Some(0);
    assert_eq!(page_window(&f), (20, 0));
    f.page = Some(4);
    assert_eq!(page_window(&f).1, page_window(&PaginationAndFilters { page: Some(3), ..f.clone() }).1 + 20);
}

#[test]
fn course_update_replaces_given_fields_only() {
    let c = course(1, "basics", Some(vec!["x".to_string()]));
    let req = UpdateCourse {
        slug: Some("renamed".to_string()),
        title: Some(JsonValue::String("New".to_string())),
        description: None,
        level: Some("Advanced".to_string()),
        image_url: None,
        tags: Some(vec!["t".to_string()]),
        prerequisites: None,
    };
    let r = apply_course_update(c, req, at(99));
    assert_eq!(r.slug, "basics");
    assert_eq!(r.title, JsonValue::String("New".to_string()));
    assert_eq!(r.description, Some(JsonValue::String("Learn Rust".to_string())));
    assert_eq!(r.level, Some("Advanced".to_string()));
    assert_eq!(r.tags, None);
    assert_eq!(r.prerequisites, Some(vec!["x".to_string()]));
    assert_eq!(r.updated_at, at(99));
    assert_eq!(r.created_at, at(1));
}
