use rustedu::seed::{catalogue_statements, reference_statement, SeedChapter, SeedCourse, SeedModule, SeedReference};
use rustedu::sql::{i64_text, script_statements, sql_escape, u64_text};

#[test]
fn escaping_doubles_quotes() {
    assert_eq!(sql_escape("it's"), "it''s");
    assert_eq!(sql_escape("''"), "''''");
    assert_eq!(sql_escape("plain"), "plain");
}

#[test]
fn decimal_texts() {
    assert_eq!(u64_text(0), "0");
    assert_eq!(u64_text(1234567890), "1234567890");
    assert_eq!(i64_text(-42), "-42");
    assert_eq!(i64_text(i64::MIN), "-9223372036854775808");
}

#[test]
fn scripts_split_into_trimmed_statements() {
    let script = "\n  ALTER TABLE a ADD COLUMN b INT;\n\n  CREATE TABLE c (id INT);\n  ";
    assert_eq!(
        script_statements(script, ";"),
        vec!["ALTER TABLE a ADD COLUMN b INT".to_string(), "CREATE TABLE c (id INT)".to_string()]
    );
    assert_eq!(script_statements(";;  ;", ";"), Vec::<String>::new());
    assert_eq!(
        script_statements("INSERT 1;\nINSERT 'a;b';\n", ";\n"),
        vec!["INSERT 1".to_string(), "INSERT 'a;b'".to_string()]
    );
}

fn oid(name: &str) -> String {
    uuid::Uuid::new_v5(&uuid::Uuid::NAMESPACE_OID, name.as_bytes()).to_string()
}

#[test]
fn catalogue_statements_in_order() {
    let courses = vec![SeedCourse {
        id: Some("rust-101".to_string()),
        title: "{\"en\":\"Rust's basics\"}".to_string(),
        description: "{}".to_string(),
        level: Some("Beginner".to_string()),
        thumbnail: None,
        modules: vec![
            SeedModule {
                id: None,
                title: "\"M1\"".to_string(),
                chapters: vec![
                    SeedChapter {
                        id: Some("intro".to_string()),
                        title: "\"Intro\"".to_string(),
                        content: "\"Hi\"".to_string(),
                        kind: None,
                        order: None,
                    },
                    SeedChapter {
                        id: None,
                        title: "\"Quiz\"".to_string(),
                        content: "{}".to_string(),
                        kind: Some("quiz".to_string()),
                        order: Some(7),
                    },
                ],
            },
            SeedModule { id: Some("m2".to_string()), title: "\"M2\"".to_string(), chapters: vec![] },
        ],
    }];
    let out = catalogue_statements(&courses);
    let cid = oid("rust-101");
    let m1 = oid("rust-101-0");
    let m2 = oid("rust-101-m2");
    assert_eq!(out.len(), 5);
    assert_eq!(
        out[0],
        format!(
            "INSERT INTO courses (id, title, description, level, image_url) VALUES ('{}', '{{\"en\":\"Rust''s basics\"}}', '{{}}', 'Beginner', '')",
            cid
        )
    );
    assert_eq!(
        out[1],
        format!("INSERT INTO modules (id, course_id, title, \"order\") VALUES ('{}', '{}', '\"M1\"', 1)", m1, cid)
    );
    assert_eq!(
        out[2],
        format!(
            "INSERT INTO chapters (id, module_id, title, content, is_quiz, \"order\") VALUES ('{}', '{}', '\"Intro\"', '\"Hi\"', false, 1)",
            oid("rust-101-0-intro"),
            m1
        )
    );
    assert_eq!(
        out[3],
        format!(
            "INSERT INTO chapters (id, module_id, title, content, is_quiz, \"order\") VALUES ('{}', '{}', '\"Quiz\"', '{{}}', true, 7)",
            oid("rust-101-0-1"),
            m1
        )
    );
    assert_eq!(
        out[4],
        format!("INSERT INTO modules (id, course_id, title, \"order\") VALUES ('{}', '{}', '\"M2\"', 2)", m2, cid)
    );
}

#[test]
fn unnamed_course_uses_unknown_key() {
    let courses = vec![SeedCourse {
        id: None,
        title: "{}".to_string(),
        description: "{}".to_string(),
        level: None,
        thumbnail: Some("t.png".to_string()),
        modules: vec![],
    }];
    let out = catalogue_statements(&courses);
    assert_eq!(
        out,
        vec![format!(
            "INSERT INTO courses (id, title, description, level, image_url) VALUES ('{}', '{{}}', '{{}}', '', 't.png')",
            oid("unknown")
        )]
    );
}

#[test]
fn reference_statement_quotes_values() {
    let r = SeedReference {
        title: "{\"en\":\"The Book\"}".to_string(),
        description: "{}".to_string(),
        url: Some("https://doc.rust-lang.org/book/".to_string()),
        kind: None,
    };
    assert_eq!(
        reference_statement(1, &r),
        format!(
            "INSERT INTO \"references\" (id, title, url, description, type) VALUES ('{}', '{{\"en\":\"The Book\"}}', 'https://doc.rust-lang.org/book/', '{{}}', '')",
            "00000000-0000-0000-0000-000000000001"
        )
    );
}
