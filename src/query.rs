//! Queries and their translation to SQL commands.
use vstd::prelude::*;
use crate::host::{json_text, json_text_of};

verus! {

/// Inserts `data` into column `field` of `table`.
pub struct InsertQuery {
    pub data: serde_json::Value,
    pub table: String,
    pub field: String,
}

/// Reads every row's `id` and column `field` of `table`.
pub struct SelectQuery {
    pub table: String,
    pub field: String,
}

pub enum Query {
    Insert(InsertQuery),
    Select(SelectQuery),
}

/// `INSERT INTO <table> (<field>) VALUES (json('<data>'))`, with every part
/// put in as it is: nothing is quoted or escaped.
pub open spec fn insert_sql(table: Seq<char>, field: Seq<char>, data: Seq<char>) -> Seq<char> {
    "INSERT INTO "@ + table + " ("@ + field + ") VALUES (json('"@ + data + "'))"@
}

/// `SELECT "id", json("<field>") as "<field>" FROM "<table>" ORDER BY "id" DESC`,
/// with every part put in as it is.
pub open spec fn select_sql(table: Seq<char>, field: Seq<char>) -> Seq<char> {
    "SELECT \"id\", json(\""@ + field + "\") as \""@ + field + "\" FROM \""@ + table
        + "\" ORDER BY \"id\" DESC"@
}

/// The command that a query translates to.
pub open spec fn command_of(q: &Query) -> Seq<char> {
    match q {
        Query::Insert(i) => insert_sql(i.table@, i.field@, json_text(i.data)),
        Query::Select(s) => select_sql(s.table@, s.field@),
    }
}

/// The insert command for a payload whose JSON text is `data`.
pub fn insert_command(table: &str, field: &str, data: &str) -> (r: String)
    ensures
        r@ == insert_sql(table@, field@, data@),
{
    let mut s = String::from_str("INSERT INTO ");
    s.append(table);
    s.append(" (");
    s.append(field);
    s.append(") VALUES (json('");
    s.append(data);
    s.append("'))");
    proof {
        reveal_strlit("INSERT INTO ");
        reveal_strlit(" (");
        reveal_strlit(") VALUES (json('");
        reveal_strlit("'))");
    }
    assert(s@ =~= insert_sql(table@, field@, data@));
    s
}

/// The select command for column `field` of `table`.
pub fn select_command(table: &str, field: &str) -> (r: String)
    ensures
        r@ == select_sql(table@, field@),
{
    let mut s = String::from_str("SELECT \"id\", json(\"");
    s.append(field);
    s.append("\") as \"");
    s.append(field);
    s.append("\" FROM \"");
    s.append(table);
    s.append("\" ORDER BY \"id\" DESC");
    proof {
        reveal_strlit("SELECT \"id\", json(\"");
        reveal_strlit("\") as \"");
        reveal_strlit("\" FROM \"");
        reveal_strlit("\" ORDER BY \"id\" DESC");
    }
    assert(s@ =~= select_sql(table@, field@));
    s
}

/// Translates a query to its SQL command. Nothing is validated or escaped.
pub fn translate(q: &Query) -> (r: String)
    ensures
        r@ == command_of(q),
{
    match q {
        Query::Insert(i) => {
            let data = json_text_of(&i.data);
            insert_command(i.table.as_str(), i.field.as_str(), data.as_str())
        },
        Query::Select(s) => select_command(s.table.as_str(), s.field.as_str()),
    }
}

} // verus!
