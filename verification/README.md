# rustedu

The backend of RustEdu, a learning platform with courses, quizzes,
certifications, a community forum, live notifications, posts and
references.

## Layout

- `src/` is the verified library. Its functions carry contracts that Verus
  proves, except six small functions that call `uuid`, `validator` or std
  (`String::push`, the system clock) and whose contracts are taken on trust:
  these are marked `#[verifier::external_body]` and document what they
  claim. The library holds the rules of the platform (prerequisites, who may edit
  or delete what, quiz evaluation, certification, like counters, which user
  receives which live event), the records' edits, request validation,
  session claims, pagination, and the SQL that seeds the catalogue.
  Public `proof fn`s state the laws that hold across calls, such as that an
  edit applied twice has the effect of one, or that toggling a like twice
  restores it.
- `tests/` runs the library on concrete values.
- `app/` is the server around it: the HTTP endpoints (axum), the PostgreSQL
  storage (sea-orm), the migrations, JWT signing, the Google token check and
  the OpenAPI document. It reads requests and the database, hands plain
  values to the library and writes back what the library returns.

## Checking

Verus verifies `src/`; the tests run with the outside crates linked.
