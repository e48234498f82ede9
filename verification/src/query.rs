//! Query classification and the two command handlers.
//!
//! An input string is assigned exactly one outcome by substring containment,
//! checked in a fixed priority order with the first match winning; the
//! emptiness check comes only after every keyword check. Each outcome has a
//! canned JSON payload; there is no parsing and no storage behind it.

use crate::json::escaped;
use crate::text::all_space;
use crate::text::contains_seq;
use crate::text::contains_str;
use crate::text::is_blank;
use vstd::prelude::*;
use vstd::string::*;

verus! {

/// The discrete category assigned to an input query string.
#[derive(Clone, Copy, Debug, PartialEq, Eq, Structural)]
pub enum Outcome {
    SelectUsers,
    Count,
    Insert,
    Update,
    Delete,
    CreateTable,
    EmptyInput,
    Unrecognized,
}

/// The outcome for `s`: the keyword checks in priority order, first match
/// wins; then the all-white-space check; otherwise unrecognized. The checks
/// are case-sensitive, exact-substring, with no normalization.
pub open spec fn classification(s: Seq<char>) -> Outcome {
    if contains_seq(s, "SELECT * FROM users"@) {
        Outcome::SelectUsers
    } else if contains_seq(s, "COUNT"@) {
        Outcome::Count
    } else if contains_seq(s, "INSERT"@) {
        Outcome::Insert
    } else if contains_seq(s, "UPDATE"@) {
        Outcome::Update
    } else if contains_seq(s, "DELETE"@) {
        Outcome::Delete
    } else if contains_seq(s, "CREATE TABLE"@) {
        Outcome::CreateTable
    } else if all_space(s) {
        Outcome::EmptyInput
    } else {
        Outcome::Unrecognized
    }
}

/// The canned user list: five fixed records, each with age, email, id and
/// name, object keys in sorted order.
pub open spec fn select_users_text() -> Seq<char> {
    "[{\"age\":30,\"email\":\"john@example.com\",\"id\":1,\"name\":\"John Doe\"},{\"age\":25,\"email\":\"jane@example.com\",\"id\":2,\"name\":\"Jane Smith\"},{\"age\":35,\"email\":\"bob@example.com\",\"id\":3,\"name\":\"Bob Johnson\"},{\"age\":28,\"email\":\"alice@example.com\",\"id\":4,\"name\":\"Alice Brown\"},{\"age\":32,\"email\":\"charlie@example.com\",\"id\":5,\"name\":\"Charlie Wilson\"}]"@
}

pub open spec fn count_text() -> Seq<char> {
    "[{\"user_count\":5}]"@
}

pub open spec fn insert_text() -> Seq<char> {
    "{\"message\":\"Insert successful\",\"rows_affected\":1}"@
}

pub open spec fn update_text() -> Seq<char> {
    "{\"message\":\"Update successful\",\"rows_affected\":1}"@
}

pub open spec fn delete_text() -> Seq<char> {
    "{\"message\":\"Delete successful\",\"rows_affected\":1}"@
}

pub open spec fn create_table_text() -> Seq<char> {
    "{\"message\":\"Table created successfully\"}"@
}

/// The fallback payload echoes the input, escaped as a JSON string literal.
pub open spec fn unrecognized_text(s: Seq<char>) -> Seq<char> {
    "{\"error\":\"Query not supported in demo\",\"received_query\":\""@ + escaped(s) + "\"}"@
}

pub open spec fn empty_error_text() -> Seq<char> {
    "Empty SQL query"@
}

/// The JSON payload owed for `s` by its classification. The empty-input
/// arm never reaches a caller: that outcome is an error, not a payload.
pub open spec fn payload_text(s: Seq<char>) -> Seq<char> {
    match classification(s) {
        Outcome::SelectUsers => select_users_text(),
        Outcome::Count => count_text(),
        Outcome::Insert => insert_text(),
        Outcome::Update => update_text(),
        Outcome::Delete => delete_text(),
        Outcome::CreateTable => create_table_text(),
        Outcome::EmptyInput => Seq::empty(),
        Outcome::Unrecognized => unrecognized_text(s),
    }
}

/// What a query evaluates to: the one error on empty input, the classified
/// payload otherwise. A pure function of the input text.
pub open spec fn execute_result(s: Seq<char>) -> Result<Seq<char>, Seq<char>> {
    if classification(s) == Outcome::EmptyInput {
        Err(empty_error_text())
    } else {
        Ok(payload_text(s))
    }
}

/// Classify one input string.
pub fn classify(sql: &str) -> (r: Outcome)
    ensures
        r == classification(sql@),
{
    if contains_str(sql, "SELECT * FROM users") {
        Outcome::SelectUsers
    } else if contains_str(sql, "COUNT") {
        Outcome::Count
    } else if contains_str(sql, "INSERT") {
        Outcome::Insert
    } else if contains_str(sql, "UPDATE") {
        Outcome::Update
    } else if contains_str(sql, "DELETE") {
        Outcome::Delete
    } else if contains_str(sql, "CREATE TABLE") {
        Outcome::CreateTable
    } else if is_blank(sql) {
        Outcome::EmptyInput
    } else {
        Outcome::Unrecognized
    }
}

/// Run one query: classify the input and return its canned JSON payload,
/// or the one error when the input trims to nothing.
pub fn execute_sql(sql: String) -> (r: Result<String, String>)
    ensures
        match r {
            Ok(out) => classification(sql@) != Outcome::EmptyInput && out@ == payload_text(sql@),
            Err(e) => classification(sql@) == Outcome::EmptyInput && e@ == empty_error_text(),
        },
{
    match classify(sql.as_str()) {
        Outcome::SelectUsers => Ok(
            String::from_str(
                "[{\"age\":30,\"email\":\"john@example.com\",\"id\":1,\"name\":\"John Doe\"},{\"age\":25,\"email\":\"jane@example.com\",\"id\":2,\"name\":\"Jane Smith\"},{\"age\":35,\"email\":\"bob@example.com\",\"id\":3,\"name\":\"Bob Johnson\"},{\"age\":28,\"email\":\"alice@example.com\",\"id\":4,\"name\":\"Alice Brown\"},{\"age\":32,\"email\":\"charlie@example.com\",\"id\":5,\"name\":\"Charlie Wilson\"}]",
            ),
        ),
        Outcome::Count => Ok(String::from_str("[{\"user_count\":5}]")),
        Outcome::Insert => Ok(
            String::from_str("{\"message\":\"Insert successful\",\"rows_affected\":1}"),
        ),
        Outcome::Update => Ok(
            String::from_str("{\"message\":\"Update successful\",\"rows_affected\":1}"),
        ),
        Outcome::Delete => Ok(
            String::from_str("{\"message\":\"Delete successful\",\"rows_affected\":1}"),
        ),
        Outcome::CreateTable => Ok(
            String::from_str("{\"message\":\"Table created successfully\"}"),
        ),
        Outcome::EmptyInput => Err(String::from_str("Empty SQL query")),
        Outcome::Unrecognized => {
            let mut out = String::from_str(
                "{\"error\":\"Query not supported in demo\",\"received_query\":\"",
            );
            let body = crate::json::escape(sql.as_str());
            out.append(body.as_str());
            out.append("\"}");
            proof {
                assert(out@ =~= unrecognized_text(sql@));
            }
            Ok(out)
        },
    }
}

/// Build the greeting for `name`: the fixed template with the name
/// interpolated; any string, the empty one included, is accepted.
pub open spec fn greeting_text(name: Seq<char>) -> Seq<char> {
    "Hello, "@ + name + "! You've been greeted from Rust!"@
}

/// Greet `name`.
pub fn greet(name: &str) -> (r: String)
    ensures
        r@ == greeting_text(name@),
{
    let mut out = String::from_str("Hello, ");
    out.append(name);
    out.append("! You've been greeted from Rust!");
    out
}

/// Priority tie-break: an input that holds "SELECT * FROM users" classifies
/// as the user list and evaluates to that payload, whatever else it holds —
/// a later keyword such as "DELETE" cannot override the first check.
pub proof fn lemma_select_users_priority(s: Seq<char>)
    requires
        contains_seq(s, "SELECT * FROM users"@),
    ensures
        classification(s) == Outcome::SelectUsers,
        execute_result(s) == Ok::<Seq<char>, Seq<char>>(select_users_text()),
{
}

/// Evaluation is a pure function of the input text: two results of the
/// same input are identical, byte for byte.
pub proof fn lemma_execute_idempotent(
    s: Seq<char>,
    r1: Result<Seq<char>, Seq<char>>,
    r2: Result<Seq<char>, Seq<char>>,
)
    requires
        r1 == execute_result(s),
        r2 == execute_result(s),
    ensures
        r1 == r2,
{
}

} // verus!
