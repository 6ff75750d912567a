//! Building the statements behind the table-scoped operations: a `select`
//! over one table and the matching unconditional or filtered row count.

use vstd::prelude::*;

use crate::payload::or_empty;

verus! {

/// The `select` text for one table: the filter and order clauses appear
/// exactly when their text is nonempty, so an empty clause means "no clause"
/// and never a syntax error.
pub open spec fn select_sql(table: Seq<char>, where_clause: Seq<char>, order_by: Seq<char>) -> Seq<
    char,
> {
    let base = "select * from "@ + table;
    let filtered = if where_clause.len() == 0 {
        base
    } else {
        base + " where "@ + where_clause
    };
    if order_by.len() == 0 {
        filtered
    } else {
        filtered + " order by "@ + order_by
    }
}

/// The row-count text for one table: a `where` clause appears exactly when
/// the condition is nonempty, so an empty condition counts unconditionally.
pub open spec fn count_sql(table: Seq<char>, condition: Seq<char>) -> Seq<char> {
    let base = "select count(*) from "@ + table;
    if condition.len() == 0 {
        base
    } else {
        base + " where "@ + condition
    }
}

/// Builds the `select` scoped to one table.  An absent or empty filter or
/// order-by contributes no clause.
pub fn table_select_sql(table: &str, where_clause: &Option<String>, order_by: &Option<String>) -> (r:
    String)
    ensures
        r@ == select_sql(table@, or_empty(*where_clause), or_empty(*order_by)),
{
    let mut m: String = "select * from ".to_owned();
    m.append(table);
    match where_clause {
        Some(w) => {
            if !w.as_str().is_empty() {
                m.append(" where ");
                m.append(w.as_str());
            }
        },
        None => {},
    }
    match order_by {
        Some(o) => {
            if !o.as_str().is_empty() {
                m.append(" order by ");
                m.append(o.as_str());
            }
        },
        None => {},
    }
    m
}

/// Builds the row-count statement scoped to one table.  An empty condition
/// counts every row.
pub fn table_count_sql(table: &str, condition: &str) -> (r: String)
    ensures
        r@ == count_sql(table@, condition@),
{
    let mut m: String = "select count(*) from ".to_owned();
    m.append(table);
    if !condition.is_empty() {
        m.append(" where ");
        m.append(condition);
    }
    m
}

} // verus!
