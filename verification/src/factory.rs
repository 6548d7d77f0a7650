//! The SQL statement builder: pure assembly of INSERT / SELECT / UPDATE /
//! DELETE statements for one named table from field and value descriptors.
//!
//! Values are embedded between single quotes without any escaping, exactly as
//! the statements are specified; a value containing a quote character
//! therefore produces a malformed statement. This is a documented limitation
//! of the statement format, not an accident of the implementation.

use vstd::prelude::*;
use vstd::string::StrSliceExecFns;
use vstd::string::StringExecFns;

use crate::text::dec_str;
use crate::text::join_with;
use crate::text::u64_to_string;

verus! {

/// The views of a list of string slices.
pub open spec fn strs_model(ss: Seq<&str>) -> Seq<Seq<char>> {
    ss.map_values(|s: &str| s@)
}

/// The views of a list of column/value pairs.
pub open spec fn pairs_model(ps: Seq<(&str, &str)>) -> Seq<(Seq<char>, Seq<char>)> {
    ps.map_values(|p: (&str, &str)| (p.0@, p.1@))
}

/// A value between single quotes, verbatim.
pub open spec fn quoted(v: Seq<char>) -> Seq<char> {
    "'"@ + v + "'"@
}

/// Every value between single quotes.
pub open spec fn quoted_all(vs: Seq<Seq<char>>) -> Seq<Seq<char>> {
    vs.map_values(|v: Seq<char>| quoted(v))
}

/// One `column = 'value'` fragment of an UPDATE statement.
pub open spec fn set_fragment(p: (Seq<char>, Seq<char>)) -> Seq<char> {
    p.0 + " = '"@ + p.1 + "'"@
}

/// The `column = 'value'` fragments of an UPDATE statement.
pub open spec fn set_fragments(ps: Seq<(Seq<char>, Seq<char>)>) -> Seq<Seq<char>> {
    ps.map_values(|p: (Seq<char>, Seq<char>)| set_fragment(p))
}

/// "INSERT INTO {table} ({columns}) VALUES ({quoted values});"
pub open spec fn insert_stmt(
    table: Seq<char>,
    fields: Seq<Seq<char>>,
    values: Seq<Seq<char>>,
) -> Seq<char> {
    "INSERT INTO "@ + table + " ("@ + join_with(fields, ", "@) + ") VALUES ("@ + join_with(
        quoted_all(values),
        ", "@,
    ) + ");"@
}

/// "SELECT * FROM {table};"
pub open spec fn select_all_stmt(table: Seq<char>) -> Seq<char> {
    "SELECT * FROM "@ + table + ";"@
}

/// "SELECT * FROM {table} WHERE id = {id};"
pub open spec fn select_by_id_stmt(table: Seq<char>, id: u64) -> Seq<char> {
    "SELECT * FROM "@ + table + " WHERE id = "@ + dec_str(id as nat) + ";"@
}

/// "DELETE FROM {table} WHERE id = {id};"
pub open spec fn delete_stmt(table: Seq<char>, id: u64) -> Seq<char> {
    "DELETE FROM "@ + table + " WHERE id = "@ + dec_str(id as nat) + ";"@
}

/// "UPDATE {table} SET {column = 'value', ...} WHERE id = {id};"
pub open spec fn update_stmt(
    table: Seq<char>,
    id: u64,
    pairs: Seq<(Seq<char>, Seq<char>)>,
) -> Seq<char> {
    "UPDATE "@ + table + " SET "@ + join_with(set_fragments(pairs), ", "@) + " WHERE id = "@
        + dec_str(id as nat) + ";"@
}

fn join_strs_from(parts: &[&str], i: usize, sep: &str) -> (r: String)
    requires
        i <= parts.len(),
    ensures
        r@ == join_with(strs_model(parts@).skip(i as int), sep@),
    decreases parts.len() - i,
{
    let ghost model = strs_model(parts@);
    if i == parts.len() {
        let r = String::new();
        proof {
            assert(model.skip(i as int) =~= Seq::<Seq<char>>::empty());
        }
        r
    } else if i + 1 == parts.len() {
        let r: String = parts[i].to_owned();
        proof {
            assert(model.skip(i as int).len() == 1);
            assert(model.skip(i as int)[0] == model[i as int]);
        }
        r
    } else {
        let mut s: String = parts[i].to_owned();
        s.append(sep);
        let rest = join_strs_from(parts, i + 1, sep);
        s.append(rest.as_str());
        proof {
            assert(model.skip(i as int).drop_first() =~= model.skip(i as int + 1));
            assert(model.skip(i as int)[0] == model[i as int]);
            assert(s@ =~= join_with(model.skip(i as int), sep@));
        }
        s
    }
}

fn join_quoted_from(parts: &[&str], i: usize, sep: &str) -> (r: String)
    requires
        i <= parts.len(),
    ensures
        r@ == join_with(quoted_all(strs_model(parts@)).skip(i as int), sep@),
    decreases parts.len() - i,
{
    let ghost model = quoted_all(strs_model(parts@));
    if i == parts.len() {
        let r = String::new();
        proof {
            assert(model.skip(i as int) =~= Seq::<Seq<char>>::empty());
        }
        r
    } else if i + 1 == parts.len() {
        let mut r: String = "'".to_owned();
        r.append(parts[i]);
        r.append("'");
        proof {
            assert(model.skip(i as int).len() == 1);
            assert(model.skip(i as int)[0] == model[i as int]);
            assert(r@ =~= model[i as int]);
        }
        r
    } else {
        let mut s: String = "'".to_owned();
        s.append(parts[i]);
        s.append("'");
        s.append(sep);
        let rest = join_quoted_from(parts, i + 1, sep);
        s.append(rest.as_str());
        proof {
            assert(model.skip(i as int).drop_first() =~= model.skip(i as int + 1));
            assert(model.skip(i as int)[0] == model[i as int]);
            assert(s@ =~= join_with(model.skip(i as int), sep@));
        }
        s
    }
}

fn join_pairs_from(parts: &[(&str, &str)], i: usize, sep: &str) -> (r: String)
    requires
        i <= parts.len(),
    ensures
        r@ == join_with(set_fragments(pairs_model(parts@)).skip(i as int), sep@),
    decreases parts.len() - i,
{
    let ghost model = set_fragments(pairs_model(parts@));
    if i == parts.len() {
        let r = String::new();
        proof {
            assert(model.skip(i as int) =~= Seq::<Seq<char>>::empty());
        }
        r
    } else if i + 1 == parts.len() {
        let mut r: String = parts[i].0.to_owned();
        r.append(" = '");
        r.append(parts[i].1);
        r.append("'");
        proof {
            assert(model.skip(i as int).len() == 1);
            assert(model.skip(i as int)[0] == model[i as int]);
            assert(r@ =~= model[i as int]);
        }
        r
    } else {
        let mut s: String = parts[i].0.to_owned();
        s.append(" = '");
        s.append(parts[i].1);
        s.append("'");
        s.append(sep);
        let rest = join_pairs_from(parts, i + 1, sep);
        s.append(rest.as_str());
        proof {
            assert(model.skip(i as int).drop_first() =~= model.skip(i as int + 1));
            assert(model.skip(i as int)[0] == model[i as int]);
            assert(s@ =~= join_with(model.skip(i as int), sep@));
        }
        s
    }
}

/// A statement builder for one SQL dialect.
pub trait QueryBuilder {
    /// The INSERT statement for the given columns and values.
    fn insert(&self, table: &str, fields: &[&str], values: &[&str]) -> (r: String)
        ensures
            r@ == insert_stmt(table@, strs_model(fields@), strs_model(values@)),
    ;

    /// The SELECT statement fetching every row of the table.
    fn select_all(&self, table: &str) -> (r: String)
        ensures
            r@ == select_all_stmt(table@),
    ;

    /// The SELECT statement fetching the row with the given id.
    fn select_by_id(&self, table: &str, id: u64) -> (r: String)
        ensures
            r@ == select_by_id_stmt(table@, id),
    ;

    /// The DELETE statement removing the row with the given id.
    fn delete(&self, table: &str, id: u64) -> (r: String)
        ensures
            r@ == delete_stmt(table@, id),
    ;

    /// The UPDATE statement setting the given columns on the row with the
    /// given id.
    fn update(&self, table: &str, id: u64, fields: &[(&str, &str)]) -> (r: String)
        ensures
            r@ == update_stmt(table@, id, pairs_model(fields@)),
    ;
}

/// The MySQL-flavoured statement builder.
pub struct MySQLQueryBuilder;

/// A fresh MySQL statement builder.
pub fn new_mysql_query_builder() -> (b: MySQLQueryBuilder) {
    MySQLQueryBuilder
}

impl QueryBuilder for MySQLQueryBuilder {
    fn insert(&self, table: &str, fields: &[&str], values: &[&str]) -> (r: String)
        ensures
            r@ == insert_stmt(table@, strs_model(fields@), strs_model(values@)),
    {
        let mut q: String = "INSERT INTO ".to_owned();
        q.append(table);
        q.append(" (");
        let fs = join_strs_from(fields, 0, ", ");
        q.append(fs.as_str());
        q.append(") VALUES (");
        let vs = join_quoted_from(values, 0, ", ");
        q.append(vs.as_str());
        q.append(");");
        proof {
            assert(strs_model(fields@).skip(0) =~= strs_model(fields@));
            assert(quoted_all(strs_model(values@)).skip(0) =~= quoted_all(strs_model(values@)));
            assert(q@ =~= insert_stmt(table@, strs_model(fields@), strs_model(values@)));
        }
        q
    }

    fn select_all(&self, table: &str) -> (r: String)
        ensures
            r@ == select_all_stmt(table@),
    {
        let mut q: String = "SELECT * FROM ".to_owned();
        q.append(table);
        q.append(";");
        proof {
            assert(q@ =~= select_all_stmt(table@));
        }
        q
    }

    fn select_by_id(&self, table: &str, id: u64) -> (r: String)
        ensures
            r@ == select_by_id_stmt(table@, id),
    {
        let mut q: String = "SELECT * FROM ".to_owned();
        q.append(table);
        q.append(" WHERE id = ");
        let ds = u64_to_string(id);
        q.append(ds.as_str());
        q.append(";");
        proof {
            assert(q@ =~= select_by_id_stmt(table@, id));
        }
        q
    }

    fn delete(&self, table: &str, id: u64) -> (r: String)
        ensures
            r@ == delete_stmt(table@, id),
    {
        let mut q: String = "DELETE FROM ".to_owned();
        q.append(table);
        q.append(" WHERE id = ");
        let ds = u64_to_string(id);
        q.append(ds.as_str());
        q.append(";");
        proof {
            assert(q@ =~= delete_stmt(table@, id));
        }
        q
    }

    fn update(&self, table: &str, id: u64, fields: &[(&str, &str)]) -> (r: String)
        ensures
            r@ == update_stmt(table@, id, pairs_model(fields@)),
    {
        let mut q: String = "UPDATE ".to_owned();
        q.append(table);
        q.append(" SET ");
        let ps = join_pairs_from(fields, 0, ", ");
        q.append(ps.as_str());
        q.append(" WHERE id = ");
        let ds = u64_to_string(id);
        q.append(ds.as_str());
        q.append(";");
        proof {
            assert(set_fragments(pairs_model(fields@)).skip(0) =~= set_fragments(
                pairs_model(fields@),
            ));
            assert(q@ =~= update_stmt(table@, id, pairs_model(fields@)));
        }
        q
    }
}

} // verus!
