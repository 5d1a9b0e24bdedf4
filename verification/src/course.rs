//! Course pages, chapter access and course editing.

use vstd::prelude::*;
use crate::error::AppError;
use crate::models::common::{PaginationAndFilters, Timestamp};
use crate::models::course::{
    Chapter, ChapterSummary, Course, CourseDetails, Module, ModuleDetails, UpdateChapter,
    UpdateCourse, UpdateModule,
};
use crate::models::progress::Certification;
use crate::text::{push_str, str_eq};

verus! {

// ---------------------------------------------------------------------------
// Course structure
// ---------------------------------------------------------------------------

/// The detail entry of a module, holding the summaries of its chapters.
pub fn module_details(m: Module, chapters: Vec<ChapterSummary>) -> (d: ModuleDetails)
    ensures
        d.id == m.id,
        d.title == m.title,
        d.description == m.description,
        d.order == m.order,
        d.chapters@ == chapters@,
{
    ModuleDetails { id: m.id, title: m.title, description: m.description, order: m.order, chapters }
}

/// The course page: the course's own fields and its modules, in the order
/// given.
pub fn course_details(course: Course, modules: Vec<ModuleDetails>) -> (d: CourseDetails)
    ensures
        d.id == course.id,
        d.slug == course.slug,
        d.title == course.title,
        d.description == course.description,
        d.level == course.level,
        d.image_url == course.image_url,
        d.tags == course.tags,
        d.prerequisites == course.prerequisites,
        d.modules@ == modules@,
{
    CourseDetails {
        id: course.id,
        slug: course.slug,
        title: course.title,
        description: course.description,
        level: course.level,
        image_url: course.image_url,
        tags: course.tags,
        prerequisites: course.prerequisites,
        modules,
    }
}

/// Whether `d` is the detail entry of module `m` with these chapter
/// summaries.
pub open spec fn is_module_entry(d: ModuleDetails, m: Module, chapters: Seq<ChapterSummary>) -> bool {
    &&& d.id == m.id
    &&& d.title == m.title
    &&& d.description == m.description
    &&& d.order == m.order
    &&& d.chapters@ == chapters
}

/// The course page from the course and each of its modules with the
/// summaries of its chapters: one entry per module, in the order given.
pub fn course_structure(course: Course, modules: Vec<(Module, Vec<ChapterSummary>)>) -> (d: CourseDetails)
    ensures
        d.id == course.id,
        d.slug == course.slug,
        d.title == course.title,
        d.description == course.description,
        d.level == course.level,
        d.image_url == course.image_url,
        d.tags == course.tags,
        d.prerequisites == course.prerequisites,
        d.modules@.len() == modules@.len(),
        forall|i: int|
            0 <= i < modules@.len() ==> is_module_entry(
                #[trigger] d.modules@[i],
                modules@[i].0,
                modules@[i].1@,
            ),
{
    let ghost given = modules@;
    let mut rest = modules;
    let mut entries: Vec<ModuleDetails> = Vec::new();
    while rest.len() > 0
        invariant
            entries@.len() + rest@.len() == given.len(),
            rest@ == given.subrange(entries@.len() as int, given.len() as int),
            forall|i: int|
                0 <= i < entries@.len() ==> is_module_entry(
                    #[trigger] entries@[i],
                    given[i].0,
                    given[i].1@,
                ),
        decreases rest@.len(),
    {
        let ghost k = entries@.len() as int;
        let (m, chapters) = rest.remove(0);
        assert(given[k] == (m, chapters));
        entries.push(module_details(m, chapters));
        assert(rest@ =~= given.subrange(k + 1, given.len() as int));
    }
    course_details(course, entries)
}

/// The summary of a chapter: everything but its content and timestamps.
pub fn chapter_summary(c: Chapter) -> (s: ChapterSummary)
    ensures
        s.id == c.id,
        s.title == c.title,
        s.is_quiz == c.is_quiz,
        s.quiz_data == c.quiz_data,
        s.code_snippet == c.code_snippet,
        s.video_url == c.video_url,
        s.order == c.order,
{
    ChapterSummary {
        id: c.id,
        title: c.title,
        is_quiz: c.is_quiz,
        quiz_data: c.quiz_data,
        code_snippet: c.code_snippet,
        video_url: c.video_url,
        order: c.order,
    }
}

/// A chapter looked up together with its module belongs to a course only
/// when the module exists and is a module of that course.
pub fn chapter_in_course(found: Option<(Chapter, Option<Module>)>, course_id: u128) -> (r: Option<
    Chapter,
>)
    ensures
        r == (match found {
            Some((ch, Some(m))) => if m.course_id == course_id {
                Some(ch)
            } else {
                None
            },
            _ => None,
        }),
{
    match found {
        Some((ch, Some(m))) => {
            if m.course_id == course_id {
                Some(ch)
            } else {
                None
            }
        },
        _ => None,
    }
}

// ---------------------------------------------------------------------------
// Prerequisites
// ---------------------------------------------------------------------------

/// The ids of the courses for which the certifications were issued.
pub open spec fn certified_courses(certs: Seq<Certification>) -> Set<u128> {
    Set::new(|id: u128| exists|k: int| 0 <= k < certs.len() && certs[k].course_id == id)
}

/// Whether `i` is the first position in `courses` of a course with this slug.
pub open spec fn is_first_with_slug(courses: Seq<Course>, slug: Seq<char>, i: int) -> bool {
    &&& 0 <= i < courses.len()
    &&& courses[i].slug@ == slug
    &&& forall|j: int| 0 <= j < i ==> courses[j].slug@ != slug
}

/// Whether some course in `courses` has this slug.
pub open spec fn has_slug(courses: Seq<Course>, slug: Seq<char>) -> bool {
    exists|i: int| 0 <= i < courses.len() && courses[i].slug@ == slug
}

/// A prerequisite is met when the first course with its slug has been
/// certified.
pub open spec fn prerequisite_met(courses: Seq<Course>, completed: Set<u128>, slug: Seq<char>) -> bool {
    exists|i: int| is_first_with_slug(courses, slug, i) && completed.contains(courses[i].id)
}

/// The message that refuses a chapter because a prerequisite is unmet:
/// its course is missing, or it has not been completed.
pub open spec fn prerequisite_message(slug: Seq<char>, course_exists: bool) -> Seq<char> {
    if course_exists {
        "Prerequisite course '"@ + slug + "' must be completed first"@
    } else {
        "Prerequisite course '"@ + slug + "' not found"@
    }
}

/// The answer to the prerequisite check: access is refused at the first
/// unmet prerequisite, in the order the course lists them.
pub open spec fn prerequisite_check(
    prereqs: Seq<Seq<char>>,
    certs: Seq<Certification>,
    courses: Seq<Course>,
) -> Result<(), Seq<char>> {
    let completed = certified_courses(certs);
    if forall|k: int| 0 <= k < prereqs.len() ==> prerequisite_met(courses, completed, #[trigger] prereqs[k]) {
        Ok(())
    } else {
        let k = choose|k: int|
            0 <= k < prereqs.len() && !prerequisite_met(courses, completed, prereqs[k]) && forall|j: int|
                0 <= j < k ==> prerequisite_met(courses, completed, #[trigger] prereqs[j]);
        Err(prerequisite_message(prereqs[k], has_slug(courses, prereqs[k])))
    }
}

/// The views of a list of texts.
pub open spec fn views(v: Seq<String>) -> Seq<Seq<char>> {
    v.map_values(|s: String| s@)
}

/// Whether `id` is among the course ids of the certifications.
fn is_certified(certs: &Vec<Certification>, id: u128) -> (r: bool)
    ensures
        r == certified_courses(certs@).contains(id),
{
    let mut k: usize = 0;
    while k < certs.len()
        invariant
            k <= certs.len(),
            forall|j: int| 0 <= j < k ==> certs@[j].course_id != id,
        decreases certs.len() - k,
    {
        if certs[k].course_id == id {
            return true;
        }
        k = k + 1;
    }
    false
}

/// The position of the first course with this slug, if any.
fn first_with_slug(courses: &Vec<Course>, slug: &String) -> (r: Option<usize>)
    ensures
        r matches Some(i) ==> is_first_with_slug(courses@, slug@, i as int),
        r is None ==> !has_slug(courses@, slug@),
{
    let mut i: usize = 0;
    while i < courses.len()
        invariant
            i <= courses.len(),
            forall|j: int| 0 <= j < i ==> courses@[j].slug@ != slug@,
        decreases courses.len() - i,
    {
        if courses[i].slug == *slug {
            return Some(i);
        }
        i = i + 1;
    }
    None
}

/// The refusal for an unmet prerequisite.
fn prerequisite_error(slug: &String, course_exists: bool) -> (e: AppError)
    ensures
        e matches AppError::Forbidden(m) && m@ == prerequisite_message(slug@, course_exists),
{
    let mut m = String::from_str("Prerequisite course '");
    push_str(&mut m, slug.as_str());
    if course_exists {
        push_str(&mut m, "' must be completed first");
    } else {
        push_str(&mut m, "' not found");
    }
    AppError::Forbidden(m)
}

/// Checks the prerequisites of a course against the certifications of the
/// user and the list of all courses: each prerequisite slug must name a
/// course (the first one with that slug) for which the user holds a
/// certification. Access is refused at the first prerequisite, in list
/// order, that is not met.
pub fn check_prerequisites(
    prereqs: &Vec<String>,
    certs: &Vec<Certification>,
    all_courses: &Vec<Course>,
) -> (r: Result<(), AppError>)
    ensures
        r is Ok <==> prerequisite_check(views(prereqs@), certs@, all_courses@) is Ok,
        r matches Err(e) ==> (e matches AppError::Forbidden(m) && prerequisite_check(
            views(prereqs@),
            certs@,
            all_courses@,
        ) == Err::<(), Seq<char>>(m@)),
{
    let ghost completed = certified_courses(certs@);
    let ghost ps = views(prereqs@);
    let mut k: usize = 0;
    while k < prereqs.len()
        invariant
            k <= prereqs.len(),
            ps == views(prereqs@),
            ps.len() == prereqs@.len(),
            completed == certified_courses(certs@),
            forall|j: int| 0 <= j < k ==> prerequisite_met(all_courses@, completed, #[trigger] ps[j]),
        decreases prereqs.len() - k,
    {
        let slug = &prereqs[k];
        assert(ps[k as int] == slug@);
        match first_with_slug(all_courses, slug) {
            Some(i) => {
                if !is_certified(certs, all_courses[i].id) {
                    proof {
                        assert forall|i2: int| is_first_with_slug(all_courses@, slug@, i2) implies !completed.contains(
                            all_courses@[i2].id,
                        ) by {
                            assert(i2 == i as int);
                        }
                        assert(!prerequisite_met(all_courses@, completed, ps[k as int]));
                        assert(has_slug(all_courses@, ps[k as int]));
                        let kk = choose|kk: int|
                            0 <= kk < ps.len() && !prerequisite_met(all_courses@, completed, ps[kk])
                                && forall|j: int|
                                0 <= j < kk ==> prerequisite_met(all_courses@, completed, #[trigger] ps[j]);
                        assert(kk == k as int) by {
                            if kk < k as int {
                            } else if kk > k as int {
                                assert(prerequisite_met(all_courses@, completed, ps[k as int]));
                            }
                        }
                    }
                    return Err(prerequisite_error(slug, true));
                }
                assert(prerequisite_met(all_courses@, completed, ps[k as int]));
            },
            None => {
                proof {
                    assert(!prerequisite_met(all_courses@, completed, ps[k as int]));
                    let kk = choose|kk: int|
                        0 <= kk < ps.len() && !prerequisite_met(all_courses@, completed, ps[kk])
                            && forall|j: int|
                            0 <= j < kk ==> prerequisite_met(all_courses@, completed, #[trigger] ps[j]);
                    assert(kk == k as int) by {
                        if kk < k as int {
                        } else if kk > k as int {
                            assert(prerequisite_met(all_courses@, completed, ps[k as int]));
                        }
                    }
                }
                return Err(prerequisite_error(slug, false));
            },
        }
        k = k + 1;
    }
    Ok(())
}

/// What the chapter page must check before showing a chapter of a course.
#[derive(Debug, Clone, PartialEq, Eq)]
pub enum PrerequisiteGate {
    /// The course has no prerequisites: no check is needed.
    Open,
    /// The prerequisites must be checked against the certifications of this user.
    CheckFor(u128),
    /// Access is refused.
    Denied(AppError),
}

/// Whether the course lists at least one prerequisite.
pub open spec fn has_prerequisites(course: Course) -> bool {
    course.prerequisites matches Some(p) && p@.len() > 0
}

/// Decides how a chapter request for a course must be checked: a course
/// without prerequisites is open; one with prerequisites requires a signed-in
/// user, whose certifications must then be checked.
pub fn prerequisite_gate(course: &Course, user_id: Option<u128>) -> (g: PrerequisiteGate)
    ensures
        !has_prerequisites(*course) ==> g == PrerequisiteGate::Open,
        user_id matches Some(u) ==> (has_prerequisites(*course) ==> g == PrerequisiteGate::CheckFor(u)),
        has_prerequisites(*course) && user_id is None ==> (g matches PrerequisiteGate::Denied(e)
            && e matches AppError::Forbidden(m)
            && m@ == "You must be logged in to view a course with prerequisites"@),
{
    match &course.prerequisites {
        Some(p) => {
            if p.len() == 0 {
                PrerequisiteGate::Open
            } else {
                match user_id {
                    Some(u) => PrerequisiteGate::CheckFor(u),
                    None => PrerequisiteGate::Denied(
                        AppError::Forbidden(
                            String::from_str(
                                "You must be logged in to view a course with prerequisites",
                            ),
                        ),
                    ),
                }
            }
        },
        None => PrerequisiteGate::Open,
    }
}

/// The filter with which all courses are listed for the prerequisite check:
/// up to a thousand courses, no other constraint.
pub fn all_courses_filter() -> (f: PaginationAndFilters)
    ensures
        f.limit == Some(1000u64),
        f.page is None,
        f.search is None,
        f.role is None,
        f.tag is None,
{
    PaginationAndFilters { page: None, limit: Some(1000), search: None, role: None, tag: None }
}

/// The chapter shown to a user once access has been granted, or the
/// answer that the chapter is not part of the course.
pub fn chapter_or_not_found(found: Option<Chapter>) -> (r: Result<Chapter, AppError>)
    ensures
        found matches Some(c) ==> r == Ok::<Chapter, AppError>(c),
        found is None ==> (r matches Err(e) && e matches AppError::NotFound(m)
            && m@ == "Chapter not found for this course"@),
{
    match found {
        Some(c) => Ok(c),
        None => Err(AppError::NotFound(String::from_str("Chapter not found for this course"))),
    }
}

// ---------------------------------------------------------------------------
// Lists
// ---------------------------------------------------------------------------

/// The page size of a list request: the given limit, or 50.
pub open spec fn page_limit(f: PaginationAndFilters) -> u64 {
    match f.limit {
        Some(l) => l,
        None => 50,
    }
}

/// The page number of a list request: the given page, at least 1, or 1.
pub open spec fn page_number(f: PaginationAndFilters) -> u64 {
    match f.page {
        Some(p) => if p < 1 {
            1
        } else {
            p
        },
        None => 1,
    }
}

/// The number of records skipped before the requested page.
pub open spec fn page_offset(f: PaginationAndFilters) -> int {
    (page_number(f) - 1) * page_limit(f)
}

/// The window `(limit, offset)` of a list request.
pub fn page_window(f: &PaginationAndFilters) -> (w: (u64, u64))
    requires
        page_offset(*f) <= u64::MAX,
    ensures
        w.0 == page_limit(*f),
        w.1 == page_offset(*f),
{
    let limit = match f.limit {
        Some(l) => l,
        None => 50,
    };
    let page = match f.page {
        Some(p) => if p < 1 {
            1
        } else {
            p
        },
        None => 1,
    };
    (limit, (page - 1) * limit)
}

/// Consecutive pages are adjacent: the next page starts where the previous
/// one ends.
pub proof fn lemma_pages_are_adjacent(f: PaginationAndFilters, p: u64)
    requires
        p >= 1,
        p < u64::MAX,
    ensures
        page_offset(PaginationAndFilters { page: Some((p + 1) as u64), ..f }) == page_offset(
            PaginationAndFilters { page: Some(p), ..f },
        ) + page_limit(f),
{
    let l = page_limit(f) as int;
    assert((p + 1 - 1) * l == (p - 1) * l + l) by (nonlinear_arith);
}

/// The first page starts at the first record, and a missing or zero page
/// number means the first page.
pub proof fn lemma_first_page(f: PaginationAndFilters)
    requires
        f.page is None || f.page == Some(0u64) || f.page == Some(1u64),
    ensures
        page_offset(f) == 0,
{
    assert(page_number(f) == 1);
    let l = page_limit(f) as int;
    assert(0 * l == 0) by (nonlinear_arith);
}

// ---------------------------------------------------------------------------
// Editing
// ---------------------------------------------------------------------------

/// The course after an edit (see `apply_course_update`).
pub open spec fn course_after_update(x: Course, req: UpdateCourse, now: Timestamp) -> Course {
    Course {
        title: match req.title { Some(v) => v, None => x.title },
        description: match req.description { Some(v) => Some(v), None => x.description },
        level: match req.level { Some(v) => Some(v), None => x.level },
        image_url: match req.image_url { Some(v) => Some(v), None => x.image_url },
        updated_at: now,
        ..x
    }
}

/// The course after an edit: title, description, level and image are
/// replaced where the request gives them, the edit time is recorded, and
/// every other field is kept.
pub fn apply_course_update(c: Course, req: UpdateCourse, now: Timestamp) -> (r: Course)
    ensures
        r == course_after_update(c, req, now),
{
    let mut c = c;
    if let Some(t) = req.title {
        c.title = t;
    }
    if let Some(d) = req.description {
        c.description = Some(d);
    }
    if let Some(l) = req.level {
        c.level = Some(l);
    }
    if let Some(u) = req.image_url {
        c.image_url = Some(u);
    }
    c.updated_at = now;
    c
}

/// What a course edit does to each field: a field the edit gives becomes
/// that value, a field it leaves out keeps its value, the slug, tags,
/// prerequisites, id and creation time are never touched, and the edit time
/// is recorded.
pub proof fn lemma_course_update_fields(x: Course, req: UpdateCourse, now: Timestamp)
    ensures
        ({
            let r = course_after_update(x, req, now);
            &&& (req.title matches Some(v) ==> r.title == v)
            &&& (req.title is None ==> r.title == x.title)
            &&& (req.description matches Some(v) ==> r.description == Some(v))
            &&& (req.description is None ==> r.description == x.description)
            &&& (req.level matches Some(v) ==> r.level == Some(v))
            &&& (req.level is None ==> r.level == x.level)
            &&& (req.image_url matches Some(v) ==> r.image_url == Some(v))
            &&& (req.image_url is None ==> r.image_url == x.image_url)
            &&& r.id == x.id
            &&& r.slug == x.slug
            &&& r.tags == x.tags
            &&& r.prerequisites == x.prerequisites
            &&& r.created_at == x.created_at
            &&& r.updated_at == now
        }),
{
}

/// Editing is idempotent: applying the same edit twice has the effect of
/// applying it once.
pub proof fn lemma_course_update_idempotent(x: Course, req: UpdateCourse, now: Timestamp)
    ensures
        course_after_update(course_after_update(x, req, now), req, now) == course_after_update(x, req, now),
{
}

/// An edit that gives no field only records the edit time.
pub proof fn lemma_course_empty_update(x: Course, req: UpdateCourse, now: Timestamp)
    requires
        req.slug is None && req.title is None && req.description is None && req.level is None && req.image_url is None && req.tags is None && req.prerequisites is None,
    ensures
        course_after_update(x, req, now) == (Course { updated_at: now, ..x }),
{
}

/// The module after an edit (see `apply_module_update`).
pub open spec fn module_after_update(x: Module, req: UpdateModule, now: Timestamp) -> Module {
    Module {
        title: match req.title { Some(v) => v, None => x.title },
        description: match req.description { Some(v) => Some(v), None => x.description },
        order: match req.order { Some(v) => v, None => x.order },
        updated_at: now,
        ..x
    }
}

/// The module after an edit: title, description and order are replaced
/// where the request gives them, the edit time is recorded, and every other
/// field is kept.
pub fn apply_module_update(m: Module, req: UpdateModule, now: Timestamp) -> (r: Module)
    ensures
        r == module_after_update(m, req, now),
{
    let mut m = m;
    if let Some(t) = req.title {
        m.title = t;
    }
    if let Some(d) = req.description {
        m.description = Some(d);
    }
    if let Some(o) = req.order {
        m.order = o;
    }
    m.updated_at = now;
    m
}

/// What a module edit does to each field: a field the edit gives becomes
/// that value, a field it leaves out keeps its value, the module stays in
/// its course, and the edit time is recorded.
pub proof fn lemma_module_update_fields(x: Module, req: UpdateModule, now: Timestamp)
    ensures
        ({
            let r = module_after_update(x, req, now);
            &&& (req.title matches Some(v) ==> r.title == v)
            &&& (req.title is None ==> r.title == x.title)
            &&& (req.description matches Some(v) ==> r.description == Some(v))
            &&& (req.description is None ==> r.description == x.description)
            &&& (req.order matches Some(v) ==> r.order == v)
            &&& (req.order is None ==> r.order == x.order)
            &&& r.id == x.id
            &&& r.course_id == x.course_id
            &&& r.created_at == x.created_at
            &&& r.updated_at == now
        }),
{
}

/// Editing is idempotent: applying the same edit twice has the effect of
/// applying it once.
pub proof fn lemma_module_update_idempotent(x: Module, req: UpdateModule, now: Timestamp)
    ensures
        module_after_update(module_after_update(x, req, now), req, now) == module_after_update(x, req, now),
{
}

/// An edit that gives no field only records the edit time.
pub proof fn lemma_module_empty_update(x: Module, req: UpdateModule, now: Timestamp)
    requires
        req.title is None && req.description is None && req.order is None,
    ensures
        module_after_update(x, req, now) == (Module { updated_at: now, ..x }),
{
}

/// The chapter after an edit (see `apply_chapter_update`).
pub open spec fn chapter_after_update(x: Chapter, req: UpdateChapter, now: Timestamp) -> Chapter {
    Chapter {
        title: match req.title { Some(v) => v, None => x.title },
        content: match req.content { Some(v) => v, None => x.content },
        is_quiz: match req.is_quiz { Some(v) => Some(v), None => x.is_quiz },
        video_url: match req.video_url { Some(v) => Some(v), None => x.video_url },
        order: match req.order { Some(v) => v, None => x.order },
        updated_at: now,
        ..x
    }
}

/// The chapter after an edit: title, content, quiz flag, video and order
/// are replaced where the request gives them, the edit time is recorded,
/// and every other field is kept.
pub fn apply_chapter_update(c: Chapter, req: UpdateChapter, now: Timestamp) -> (r: Chapter)
    ensures
        r == chapter_after_update(c, req, now),
{
    let mut c = c;
    if let Some(t) = req.title {
        c.title = t;
    }
    if let Some(t) = req.content {
        c.content = t;
    }
    if let Some(q) = req.is_quiz {
        c.is_quiz = Some(q);
    }
    if let Some(v) = req.video_url {
        c.video_url = Some(v);
    }
    if let Some(o) = req.order {
        c.order = o;
    }
    c.updated_at = now;
    c
}

/// What a chapter edit does to each field: a field the edit gives becomes
/// that value (the new content replaces the old one, and so on), a field it
/// leaves out keeps its value, the quiz data and code snippet are never
/// touched, the chapter stays in its module, and the edit time is recorded.
pub proof fn lemma_chapter_update_fields(x: Chapter, req: UpdateChapter, now: Timestamp)
    ensures
        ({
            let r = chapter_after_update(x, req, now);
            &&& (req.title matches Some(v) ==> r.title == v)
            &&& (req.title is None ==> r.title == x.title)
            &&& (req.content matches Some(v) ==> r.content == v)
            &&& (req.content is None ==> r.content == x.content)
            &&& (req.is_quiz matches Some(v) ==> r.is_quiz == Some(v))
            &&& (req.is_quiz is None ==> r.is_quiz == x.is_quiz)
            &&& (req.video_url matches Some(v) ==> r.video_url == Some(v))
            &&& (req.video_url is None ==> r.video_url == x.video_url)
            &&& (req.order matches Some(v) ==> r.order == v)
            &&& (req.order is None ==> r.order == x.order)
            &&& r.id == x.id
            &&& r.module_id == x.module_id
            &&& r.quiz_data == x.quiz_data
            &&& r.code_snippet == x.code_snippet
            &&& r.created_at == x.created_at
            &&& r.updated_at == now
        }),
{
}

/// Editing is idempotent: applying the same edit twice has the effect of
/// applying it once.
pub proof fn lemma_chapter_update_idempotent(x: Chapter, req: UpdateChapter, now: Timestamp)
    ensures
        chapter_after_update(chapter_after_update(x, req, now), req, now) == chapter_after_update(x, req, now),
{
}

/// An edit that gives no field only records the edit time.
pub proof fn lemma_chapter_empty_update(x: Chapter, req: UpdateChapter, now: Timestamp)
    requires
        req.title is None && req.content is None && req.is_quiz is None && req.quiz_data is None && req.code_snippet is None && req.video_url is None && req.order is None,
    ensures
        chapter_after_update(x, req, now) == (Chapter { updated_at: now, ..x }),
{
}

} // verus!
