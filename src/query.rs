use vstd::prelude::*;
use crate::ident::{escape_ident, escaped};

verus! {

/// Column name of the clock record that marks a whole row as deleted.
pub const DELETE_SENTINEL: &'static str = "__crsql_del";

/// Text of the query that reads the local causal version of one column:
/// the primary-key predicate's placeholders come first, the column name last.
pub open spec fn col_version_sql(table: Seq<char>, pk_where: Seq<char>) -> Seq<char> {
    "SELECT __crsql_col_version FROM \""@ + escaped(table) + "__crsql_clock\" WHERE "@
        + pk_where + " AND ? = __crsql_col_name"@
}

/// Text of the query that reads the live value of one column of one row.
pub open spec fn curr_value_sql(table: Seq<char>, column: Seq<char>, pk_where: Seq<char>) -> Seq<
    char,
> {
    "SELECT \""@ + escaped(column) + "\" FROM \""@ + escaped(table) + "\" WHERE "@ + pk_where
}

/// Text of the query that finds a tombstone clock record for one row.
pub open spec fn local_delete_sql(table: Seq<char>, pk_where: Seq<char>) -> Seq<char> {
    "SELECT 1 FROM \""@ + escaped(table) + "__crsql_clock\" WHERE "@ + pk_where
        + " AND __crsql_col_name = '"@ + DELETE_SENTINEL@ + "' LIMIT 1"@
}

/// Builds the text of the column-version query of `table`.
pub fn col_version_query(table: &str, pk_where: &str) -> (r: String)
    ensures
        r@ == col_version_sql(table@, pk_where@),
{
    let mut q = String::from_str("SELECT __crsql_col_version FROM \"");
    q.append(escape_ident(table).as_str());
    q.append("__crsql_clock\" WHERE ");
    q.append(pk_where);
    q.append(" AND ? = __crsql_col_name");
    q
}

/// Builds the text of the current-value query of `column` in `table`.
pub fn curr_value_query(table: &str, column: &str, pk_where: &str) -> (r: String)
    ensures
        r@ == curr_value_sql(table@, column@, pk_where@),
{
    let mut q = String::from_str("SELECT \"");
    q.append(escape_ident(column).as_str());
    q.append("\" FROM \"");
    q.append(escape_ident(table).as_str());
    q.append("\" WHERE ");
    q.append(pk_where);
    q
}

/// Builds the text of the local-delete query of `table`.
pub fn local_delete_query(table: &str, pk_where: &str) -> (r: String)
    ensures
        r@ == local_delete_sql(table@, pk_where@),
{
    let mut q = String::from_str("SELECT 1 FROM \"");
    q.append(escape_ident(table).as_str());
    q.append("__crsql_clock\" WHERE ");
    q.append(pk_where);
    q.append(" AND __crsql_col_name = '");
    q.append(DELETE_SENTINEL);
    q.append("' LIMIT 1");
    q
}

} // verus!
