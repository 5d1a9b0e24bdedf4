//! Seeding of the course catalogue and the reference list: the SQL
//! statements that insert the seed data.

use vstd::prelude::*;
use crate::ids::{uuid_text, uuid_to_string};
use crate::sql::{bool_text, decimal, i64_text, push_quoted, quoted, u64_text};
use crate::text::push_str;

verus! {

/// A chapter of the seed catalogue. Titles and contents are JSON texts.
#[derive(Debug, Clone, PartialEq, Eq)]
pub struct SeedChapter {
    /// The chapter's key in the catalogue, when it has one.
    pub id: Option<String>,
    pub title: String,
    pub content: String,
    /// The chapter type; `quiz` marks a quiz.
    pub kind: Option<String>,
    /// The position given in the catalogue, if any.
    pub order: Option<i64>,
}

/// A module of the seed catalogue. Its title is a JSON text.
#[derive(Debug, Clone, PartialEq, Eq)]
pub struct SeedModule {
    pub id: Option<String>,
    pub title: String,
    pub chapters: Vec<SeedChapter>,
}

/// A course of the seed catalogue. Title and description are JSON texts.
#[derive(Debug, Clone, PartialEq, Eq)]
pub struct SeedCourse {
    pub id: Option<String>,
    pub title: String,
    pub description: String,
    pub level: Option<String>,
    pub thumbnail: Option<String>,
    pub modules: Vec<SeedModule>,
}

/// The id derived from a name with `uuid::Uuid::new_v5` in the OID
/// namespace (a SHA-1 name-based UUID).
pub uninterp spec fn name_uuid(name: Seq<char>) -> u128;

/// Derives the id of a name with `uuid::Uuid::new_v5(&Uuid::NAMESPACE_OID,
/// name.as_bytes())`. The result depends on the name alone and is named
/// `name_uuid`.
#[verifier::external_body]
fn oid_uuid(name: &str) -> (id: u128)
    ensures
        id == name_uuid(name@),
{
    uuid::Uuid::new_v5(&uuid::Uuid::NAMESPACE_OID, name.as_bytes()).as_u128()
}

/// A text that may be missing, with a default.
pub open spec fn text_or(t: Option<String>, default: Seq<char>) -> Seq<char> {
    match t {
        Some(s) => s@,
        None => default,
    }
}

/// The key of a course: its catalogue id, or `unknown`.
pub open spec fn course_key(c: SeedCourse) -> Seq<char> {
    text_or(c.id, "unknown"@)
}

/// The key of a module or chapter below `parent`: the parent key, a hyphen
/// and the item's own id, or its position when it has no (or an empty) id.
pub open spec fn child_key(parent: Seq<char>, id: Option<String>, idx: int) -> Seq<char> {
    let own = text_or(id, ""@);
    parent + "-"@ + (if own.len() == 0 {
        decimal(idx)
    } else {
        own
    })
}

/// The key of module `j` of a course.
pub open spec fn module_key(c: SeedCourse, j: int) -> Seq<char> {
    child_key(course_key(c), c.modules@[j].id, j)
}

/// The key of chapter `k` of module `j` of a course.
pub open spec fn chapter_key(c: SeedCourse, j: int, k: int) -> Seq<char> {
    child_key(module_key(c, j), c.modules@[j].chapters@[k].id, k)
}

/// The statement that inserts a course.
pub open spec fn course_sql(c: SeedCourse) -> Seq<char> {
    "INSERT INTO courses (id, title, description, level, image_url) VALUES ("@ + quoted(
        uuid_text(name_uuid(course_key(c))),
    ) + ", "@ + quoted(c.title@) + ", "@ + quoted(c.description@) + ", "@ + quoted(
        text_or(c.level, ""@),
    ) + ", "@ + quoted(text_or(c.thumbnail, ""@)) + ")"@
}

/// The statement that inserts module `j` of a course; modules are numbered
/// from 1 in catalogue order.
pub open spec fn module_sql(c: SeedCourse, j: int) -> Seq<char> {
    "INSERT INTO modules (id, course_id, title, \"order\") VALUES ("@ + quoted(
        uuid_text(name_uuid(module_key(c, j))),
    ) + ", "@ + quoted(uuid_text(name_uuid(course_key(c)))) + ", "@ + quoted(
        c.modules@[j].title@,
    ) + ", "@ + decimal(j + 1) + ")"@
}

/// The position of chapter `k` of a module: the one given in the catalogue
/// (cut to 32 bits), or `k + 1`.
pub open spec fn chapter_order(ch: SeedChapter, k: int) -> i32 {
    match ch.order {
        Some(o) => o as i32,
        None => (k + 1) as i32,
    }
}

/// A chapter that gives no position takes its place in the module: the
/// chapter at index `k` gets `k + 1`; one that gives a position keeps it
/// (cut to 32 bits). So two chapters of a module without positions get
/// different positions, in the order they come.
pub proof fn lemma_chapter_order_from_place(ch: SeedChapter, other: SeedChapter, k: int, l: int)
    requires
        0 <= k < i32::MAX,
        0 <= l < i32::MAX,
    ensures
        ch.order is None ==> chapter_order(ch, k) == k + 1,
        ch.order matches Some(o) ==> chapter_order(ch, k) == o as i32,
        ch.order is None && other.order is None && k < l ==> chapter_order(ch, k) < chapter_order(other, l),
{
}

/// Whether a seed chapter is a quiz.
pub open spec fn is_quiz_kind(ch: SeedChapter) -> bool {
    text_or(ch.kind, ""@) == "quiz"@
}

/// The statement that inserts chapter `k` of module `j` of a course.
pub open spec fn chapter_sql(c: SeedCourse, j: int, k: int) -> Seq<char> {
    let ch = c.modules@[j].chapters@[k];
    "INSERT INTO chapters (id, module_id, title, content, is_quiz, \"order\") VALUES ("@ + quoted(
        uuid_text(name_uuid(chapter_key(c, j, k))),
    ) + ", "@ + quoted(uuid_text(name_uuid(module_key(c, j)))) + ", "@ + quoted(ch.title@) + ", "@
        + quoted(ch.content@) + ", "@ + bool_text(is_quiz_kind(ch)) + ", "@ + decimal(
        chapter_order(ch, k) as int,
    ) + ")"@
}

/// The statement of a chapter without a position ends with the position
/// `k + 1` of its place `k` in the module.
pub proof fn lemma_chapter_sql_ends_with_place(c: SeedCourse, j: int, k: int)
    requires
        0 <= j < c.modules@.len(),
        0 <= k < c.modules@[j].chapters@.len(),
        k < i32::MAX,
        c.modules@[j].chapters@[k].order is None,
    ensures
        ({
            let s = chapter_sql(c, j, k);
            let tail = ", "@ + decimal(k + 1) + ")"@;
            s.len() >= tail.len() && s.subrange(s.len() - tail.len(), s.len() as int) == tail
        }),
{
    let ch = c.modules@[j].chapters@[k];
    let head = "INSERT INTO chapters (id, module_id, title, content, is_quiz, \"order\") VALUES ("@ + quoted(
        uuid_text(name_uuid(chapter_key(c, j, k))),
    ) + ", "@ + quoted(uuid_text(name_uuid(module_key(c, j)))) + ", "@ + quoted(ch.title@) + ", "@
        + quoted(ch.content@) + ", "@ + bool_text(is_quiz_kind(ch));
    let tail = ", "@ + decimal(k + 1) + ")"@;
    assert(chapter_order(ch, k) as int == k + 1);
    let s = chapter_sql(c, j, k);
    assert(s =~= head + tail);
    assert(s.subrange(s.len() - tail.len(), s.len() as int) =~= tail);
}

/// The statements of the first `k` chapters of module `j`.
pub open spec fn chapters_sql(c: SeedCourse, j: int, k: int) -> Seq<Seq<char>>
    decreases k,
{
    if k <= 0 {
        Seq::empty()
    } else {
        chapters_sql(c, j, k - 1).push(chapter_sql(c, j, k - 1))
    }
}

/// The statements of module `j`: the module, then its chapters in order.
pub open spec fn module_block(c: SeedCourse, j: int) -> Seq<Seq<char>> {
    seq![module_sql(c, j)] + chapters_sql(c, j, c.modules@[j].chapters@.len() as int)
}

/// The statements of the first `j` modules of a course.
pub open spec fn modules_sql(c: SeedCourse, j: int) -> Seq<Seq<char>>
    decreases j,
{
    if j <= 0 {
        Seq::empty()
    } else {
        modules_sql(c, j - 1) + module_block(c, j - 1)
    }
}

/// The statements of a course: the course, then each module with its
/// chapters, in catalogue order.
pub open spec fn course_block(c: SeedCourse) -> Seq<Seq<char>> {
    seq![course_sql(c)] + modules_sql(c, c.modules@.len() as int)
}

/// The statements of the first `i` courses of a catalogue.
pub open spec fn catalogue_sql(cs: Seq<SeedCourse>, i: int) -> Seq<Seq<char>>
    decreases i,
{
    if i <= 0 {
        Seq::empty()
    } else {
        catalogue_sql(cs, i - 1) + course_block(cs[i - 1])
    }
}

/// Whether every position in the catalogue fits the `order` column.
pub open spec fn catalogue_fits(cs: Seq<SeedCourse>) -> bool {
    forall|i: int|
        0 <= i < cs.len() ==> #[trigger] cs[i].modules@.len() < i32::MAX && forall|j: int|
            0 <= j < cs[i].modules@.len() ==> #[trigger] cs[i].modules@[j].chapters@.len() < i32::MAX
}

/// The views of a list of statements.
pub open spec fn texts(v: Seq<String>) -> Seq<Seq<char>> {
    v.map_values(|s: String| s@)
}

/// The key of a child: the parent key, a hyphen, and the own id or the
/// position.
fn child_key_text(parent: &str, id: &Option<String>, idx: usize) -> (s: String)
    ensures
        s@ == child_key(parent@, *id, idx as int),
{
    let mut s = String::from_str(parent);
    push_str(&mut s, "-");
    let own: &str = match id {
        Some(t) => t.as_str(),
        None => "",
    };
    proof {
        reveal_strlit("");
    }
    if own.unicode_len() == 0 {
        let d = u64_text(idx as u64);
        push_str(&mut s, d.as_str());
    } else {
        push_str(&mut s, own);
    }
    s
}

/// Appends the quoted text of an id.
fn push_quoted_id(out: &mut String, id: u128)
    ensures
        final(out)@ == old(out)@ + quoted(uuid_text(id)),
{
    let t = uuid_to_string(id);
    push_quoted(out, t.as_str());
}

/// The statement that inserts a course, with the course's id.
fn course_statement(c: &SeedCourse, course_id: u128) -> (s: String)
    requires
        course_id == name_uuid(course_key(*c)),
    ensures
        s@ == course_sql(*c),
{
    let mut s = String::from_str("INSERT INTO courses (id, title, description, level, image_url) VALUES (");
    push_quoted_id(&mut s, course_id);
    push_str(&mut s, ", ");
    push_quoted(&mut s, c.title.as_str());
    push_str(&mut s, ", ");
    push_quoted(&mut s, c.description.as_str());
    push_str(&mut s, ", ");
    let level: &str = match &c.level {
        Some(l) => l.as_str(),
        None => "",
    };
    push_quoted(&mut s, level);
    push_str(&mut s, ", ");
    let image: &str = match &c.thumbnail {
        Some(l) => l.as_str(),
        None => "",
    };
    push_quoted(&mut s, image);
    push_str(&mut s, ")");
    s
}

/// The statement that inserts module `j` of a course.
fn module_statement(c: &SeedCourse, j: usize, course_id: u128, module_id: u128) -> (s: String)
    requires
        j < c.modules@.len(),
        j + 1 <= i32::MAX,
        course_id == name_uuid(course_key(*c)),
        module_id == name_uuid(module_key(*c, j as int)),
    ensures
        s@ == module_sql(*c, j as int),
{
    let mut s = String::from_str("INSERT INTO modules (id, course_id, title, \"order\") VALUES (");
    push_quoted_id(&mut s, module_id);
    push_str(&mut s, ", ");
    push_quoted_id(&mut s, course_id);
    push_str(&mut s, ", ");
    push_quoted(&mut s, c.modules[j].title.as_str());
    push_str(&mut s, ", ");
    let order: i32 = (j as i32) + 1;
    let d = i64_text(order as i64);
    push_str(&mut s, d.as_str());
    push_str(&mut s, ")");
    s
}

/// The statement that inserts chapter `k` of module `j` of a course.
fn chapter_statement(c: &SeedCourse, j: usize, k: usize, module_id: u128, chapter_id: u128) -> (s:
    String)
    requires
        j < c.modules@.len(),
        k < c.modules@[j as int].chapters@.len(),
        c.modules@[j as int].chapters@.len() < i32::MAX,
        module_id == name_uuid(module_key(*c, j as int)),
        chapter_id == name_uuid(chapter_key(*c, j as int, k as int)),
    ensures
        s@ == chapter_sql(*c, j as int, k as int),
{
    let ch = &c.modules[j].chapters[k];
    let mut s = String::from_str(
        "INSERT INTO chapters (id, module_id, title, content, is_quiz, \"order\") VALUES (",
    );
    push_quoted_id(&mut s, chapter_id);
    push_str(&mut s, ", ");
    push_quoted_id(&mut s, module_id);
    push_str(&mut s, ", ");
    push_quoted(&mut s, ch.title.as_str());
    push_str(&mut s, ", ");
    push_quoted(&mut s, ch.content.as_str());
    push_str(&mut s, ", ");
    let kind: &str = match &ch.kind {
        Some(t) => t.as_str(),
        None => "",
    };
    let is_quiz = crate::text::str_eq(kind, "quiz");
    if is_quiz {
        push_str(&mut s, "true");
    } else {
        push_str(&mut s, "false");
    }
    push_str(&mut s, ", ");
    let order: i32 = match ch.order {
        Some(o) => #[verifier::truncate] (o as i32),
        None => ((k as i64) + 1) as i32,
    };
    let d = i64_text(order as i64);
    push_str(&mut s, d.as_str());
    push_str(&mut s, ")");
    proof {
        reveal_strlit("");
    }
    s
}

/// The statements that insert the seed catalogue: for each course in
/// order, the course, then each of its modules followed by the module's
/// chapters. Ids are derived from the catalogue keys, so that seeding the
/// same catalogue again produces the same ids.
pub fn catalogue_statements(courses: &Vec<SeedCourse>) -> (out: Vec<String>)
    requires
        catalogue_fits(courses@),
    ensures
        texts(out@) == catalogue_sql(courses@, courses@.len() as int),
{
    let mut out: Vec<String> = Vec::new();
    let mut i: usize = 0;
    assert(texts(out@) =~= catalogue_sql(courses@, 0));
    while i < courses.len()
        invariant
            i <= courses@.len(),
            catalogue_fits(courses@),
            texts(out@) == catalogue_sql(courses@, i as int),
        decreases courses@.len() - i,
    {
        let c = &courses[i];
        let ghost start = texts(out@);
        let key: &str = match &c.id {
            Some(t) => t.as_str(),
            None => "unknown",
        };
        let course_id = oid_uuid(key);
        out.push(course_statement(c, course_id));
        assert(texts(out@) =~= start + seq![course_sql(*c)]);
        assert(courses@[i as int] == *c);
        assert(c.modules@.len() < i32::MAX);
        let mut j: usize = 0;
        assert(modules_sql(*c, 0) =~= Seq::<Seq<char>>::empty());
        while j < c.modules.len()
            invariant
                j <= c.modules@.len(),
                c.modules@.len() < i32::MAX,
                forall|jj: int| 0 <= jj < c.modules@.len() ==> #[trigger] c.modules@[jj].chapters@.len() < i32::MAX,
                key@ == course_key(*c),
                course_id == name_uuid(course_key(*c)),
                texts(out@) == start + seq![course_sql(*c)] + modules_sql(*c, j as int),
            decreases c.modules@.len() - j,
        {
            let module_key_text = child_key_text(key, &c.modules[j].id, j);
            let module_id = oid_uuid(module_key_text.as_str());
            let ghost before_module = texts(out@);
            out.push(module_statement(c, j, course_id, module_id));
            let mut k: usize = 0;
            let n = c.modules[j].chapters.len();
            assert(texts(out@) =~= before_module + seq![module_sql(*c, j as int)] + chapters_sql(*c, j as int, 0));
            while k < n
                invariant
                    j < c.modules@.len(),
                    n == c.modules@[j as int].chapters@.len(),
                    n < i32::MAX,
                    k <= n,
                    module_id == name_uuid(module_key(*c, j as int)),
                    module_key_text@ == module_key(*c, j as int),
                    texts(out@) == before_module + seq![module_sql(*c, j as int)] + chapters_sql(
                        *c,
                        j as int,
                        k as int,
                    ),
                decreases n - k,
            {
                let chapter_key_text = child_key_text(
                    module_key_text.as_str(),
                    &c.modules[j].chapters[k].id,
                    k,
                );
                let chapter_id = oid_uuid(chapter_key_text.as_str());
                let ghost before_chapter = texts(out@);
                out.push(chapter_statement(c, j, k, module_id, chapter_id));
                assert(texts(out@) =~= before_chapter.push(chapter_sql(*c, j as int, k as int)));
                k = k + 1;
            }
            assert(texts(out@) =~= start + seq![course_sql(*c)] + modules_sql(*c, j + 1));
            j = j + 1;
        }
        assert(texts(out@) =~= catalogue_sql(courses@, i + 1));
        i = i + 1;
    }
    out
}

/// A reference of the seed list. Title and description are JSON texts.
#[derive(Debug, Clone, PartialEq, Eq)]
pub struct SeedReference {
    pub title: String,
    pub description: String,
    pub url: Option<String>,
    pub kind: Option<String>,
}

/// The statement that inserts a reference with the given id.
pub open spec fn reference_sql(id: u128, r: SeedReference) -> Seq<char> {
    "INSERT INTO \"references\" (id, title, url, description, type) VALUES ("@ + quoted(
        uuid_text(id),
    ) + ", "@ + quoted(r.title@) + ", "@ + quoted(text_or(r.url, ""@)) + ", "@ + quoted(
        r.description@,
    ) + ", "@ + quoted(text_or(r.kind, ""@)) + ")"@
}

/// Builds the statement that inserts a reference with the given id.
pub fn reference_statement(id: u128, r: &SeedReference) -> (s: String)
    ensures
        s@ == reference_sql(id, *r),
{
    let mut s = String::from_str(
        "INSERT INTO \"references\" (id, title, url, description, type) VALUES (",
    );
    push_quoted_id(&mut s, id);
    push_str(&mut s, ", ");
    push_quoted(&mut s, r.title.as_str());
    push_str(&mut s, ", ");
    let url: &str = match &r.url {
        Some(t) => t.as_str(),
        None => "",
    };
    push_quoted(&mut s, url);
    push_str(&mut s, ", ");
    push_quoted(&mut s, r.description.as_str());
    push_str(&mut s, ", ");
    let kind: &str = match &r.kind {
        Some(t) => t.as_str(),
        None => "",
    };
    push_quoted(&mut s, kind);
    push_str(&mut s, ")");
    proof {
        reveal_strlit("");
    }
    s
}

} // verus!
