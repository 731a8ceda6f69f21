//! The four statement builders.  Each `into_query` pins the emitted SQL
//! text and value list down exactly, so that equal builder states always
//! produce byte-identical queries.

use vstd::prelude::*;

use crate::builder::{pred_ok, pred_sql, pred_vals, Predicate};
use crate::query::{placeholder, quoted, QueryBuilder, RawQuery};
use crate::text::{dec_u64, is_valid_name, u64_to_decimal, valid_name};
use crate::value::Value;

verus! {

/// The views of a sequence of identifier strings.
pub open spec fn views_of(names: Seq<String>) -> Seq<Seq<char>> {
    names.map_values(|s: String| s@)
}

/// Every identifier in the sequence is quotable.
pub open spec fn all_valid(names: Seq<Seq<char>>) -> bool {
    forall|i: int| 0 <= i < names.len() ==> valid_name(#[trigger] names[i])
}

/// Comma-joined quoted identifiers.
pub open spec fn names_sql(names: Seq<Seq<char>>) -> Seq<char>
    decreases names.len(),
{
    if names.len() == 0 {
        Seq::<char>::empty()
    } else if names.len() == 1 {
        quoted(names[0])
    } else {
        names_sql(names.drop_last()) + ", "@ + quoted(names.last())
    }
}

/// Comma-joined placeholders `$k+1 .. $k+n`.
pub open spec fn values_sql(k: int, n: int) -> Seq<char>
    decreases n,
{
    if n <= 0 {
        Seq::<char>::empty()
    } else if n == 1 {
        placeholder(k + 1)
    } else {
        values_sql(k, n - 1) + ", "@ + placeholder(k + n)
    }
}

/// Comma-joined `"name" = $i` assignments with placeholders from `k+1` on.
pub open spec fn set_sql(names: Seq<Seq<char>>, k: int) -> Seq<char>
    decreases names.len(),
{
    if names.len() == 0 {
        Seq::<char>::empty()
    } else if names.len() == 1 {
        quoted(names[0]) + " = "@ + placeholder(k + 1)
    } else {
        set_sql(names.drop_last(), k) + ", "@ + quoted(names.last()) + " = "@ + placeholder(
            k + names.len(),
        )
    }
}

/// The column names of an update row.
pub open spec fn row_names(row: Seq<(String, Value)>) -> Seq<Seq<char>> {
    row.map_values(|p: (String, Value)| p.0@)
}

/// The values of an update row, in order.
pub open spec fn row_values(row: Seq<(String, Value)>) -> Seq<Value> {
    row.map_values(|p: (String, Value)| p.1)
}

proof fn lemma_names_sql_step(s: Seq<Seq<char>>, i: int)
    requires
        0 <= i < s.len(),
    ensures
        i == 0 ==> names_sql(s.take(1)) == quoted(s[0]),
        i > 0 ==> names_sql(s.take(i + 1)) == names_sql(s.take(i)) + ", "@ + quoted(s[i]),
{
    let t = s.take(i + 1);
    assert(t.drop_last() =~= s.take(i));
    assert(t.last() == s[i]);
}

proof fn lemma_set_sql_step(s: Seq<Seq<char>>, k: int, i: int)
    requires
        0 <= i < s.len(),
    ensures
        i == 0 ==> set_sql(s.take(1), k) == quoted(s[0]) + " = "@ + placeholder(k + 1),
        i > 0 ==> set_sql(s.take(i + 1), k) == set_sql(s.take(i), k) + ", "@ + quoted(s[i])
            + " = "@ + placeholder(k + i + 1),
{
    let t = s.take(i + 1);
    assert(t.drop_last() =~= s.take(i));
    assert(t.last() == s[i]);
}

/// Checks every identifier in a list.
pub fn names_valid(names: &Vec<String>) -> (r: bool)
    ensures
        r == all_valid(views_of(names@)),
{
    let mut i: usize = 0;
    while i < names.len()
        invariant
            i <= names.len(),
            forall|j: int| 0 <= j < i ==> valid_name(#[trigger] views_of(names@)[j]),
        decreases names.len() - i,
    {
        if !is_valid_name(names[i].as_str()) {
            assert(!valid_name(views_of(names@)[i as int]));
            return false;
        }
        i += 1;
    }
    true
}

/// Emits comma-joined quoted identifiers.
fn push_names(builder: &mut QueryBuilder, names: &Vec<String>)
    requires
        all_valid(views_of(names@)),
    ensures
        final(builder).text() == old(builder).text() + names_sql(views_of(names@)),
        final(builder).vals() == old(builder).vals(),
{
    let ghost vs = views_of(names@);
    let mut i: usize = 0;
    while i < names.len()
        invariant
            i <= names.len(),
            vs == views_of(names@),
            all_valid(vs),
            builder.text() == old(builder).text() + names_sql(vs.take(i as int)),
            builder.vals() == old(builder).vals(),
        decreases names.len() - i,
    {
        if i > 0 {
            builder.push_str(", ");
        }
        proof {
            assert(vs[i as int] == names@[i as int]@);
        }
        builder.push_name(names[i].as_str());
        proof {
            lemma_names_sql_step(vs, i as int);
            assert(builder.text() =~= old(builder).text() + names_sql(vs.take(i as int + 1)));
        }
        i += 1;
    }
    proof {
        assert(vs.take(names@.len() as int) =~= vs);
    }
}

/// Emits comma-joined placeholders, binding the given values in order.
fn push_placeholders(builder: &mut QueryBuilder, values: Vec<Value>)
    requires
        old(builder).vals().len() + values@.len() <= usize::MAX,
    ensures
        final(builder).text() == old(builder).text() + values_sql(
            old(builder).vals().len() as int,
            values@.len() as int,
        ),
        final(builder).vals() == old(builder).vals() + values@,
{
    let ghost orig = values@;
    let ghost k = old(builder).vals().len() as int;
    let mut values = values;
    let mut i: usize = 0;
    let n = values.len();
    while i < n
        invariant
            i <= n,
            n == orig.len(),
            values@ == orig.skip(i as int),
            builder.text() == old(builder).text() + values_sql(k, i as int),
            builder.vals() == old(builder).vals() + orig.take(i as int),
            k == old(builder).vals().len() as int,
            k + n <= usize::MAX,
        decreases n - i,
    {
        if i > 0 {
            builder.push_str(", ");
        }
        let v = values.remove(0);
        proof {
            assert(v == orig[i as int]);
            assert(values@ =~= orig.skip(i as int + 1));
            assert(orig.take(i as int).len() == i as int);
            assert(builder.vals().len() == k + i as int);
            assert(k + n <= usize::MAX);
            assert(builder.vals().len() < usize::MAX);
        }
        builder.push_value(v);
        proof {
            assert(builder.vals() =~= old(builder).vals() + orig.take(i as int + 1));
            assert(builder.text() =~= old(builder).text() + values_sql(k, i as int + 1));
        }
        i += 1;
    }
    proof {
        assert(orig.take(n as int) =~= orig);
    }
}

/// Emits comma-joined `"name" = $i` assignments, binding the row's values.
fn push_assignments(builder: &mut QueryBuilder, row: Vec<(String, Value)>)
    requires
        all_valid(row_names(row@)),
        old(builder).vals().len() + row@.len() <= usize::MAX,
    ensures
        final(builder).text() == old(builder).text() + set_sql(
            row_names(row@),
            old(builder).vals().len() as int,
        ),
        final(builder).vals() == old(builder).vals() + row_values(row@),
{
    let ghost orig = row@;
    let ghost ns = row_names(orig);
    let ghost k = old(builder).vals().len() as int;
    let mut row = row;
    let mut i: usize = 0;
    let n = row.len();
    while i < n
        invariant
            i <= n,
            n == orig.len(),
            row@ == orig.skip(i as int),
            ns == row_names(orig),
            all_valid(ns),
            builder.text() == old(builder).text() + set_sql(ns.take(i as int), k),
            builder.vals() == old(builder).vals() + row_values(orig.take(i as int)),
            k == old(builder).vals().len() as int,
            k + n <= usize::MAX,
        decreases n - i,
    {
        if i > 0 {
            builder.push_str(", ");
        }
        let pair = row.remove(0);
        proof {
            assert(pair == orig[i as int]);
            assert(row@ =~= orig.skip(i as int + 1));
            assert(ns[i as int] == pair.0@);
            assert(row_values(orig.take(i as int)).len() == i as int);
            assert(builder.vals().len() == k + i as int);
            assert(k + n <= usize::MAX);
            assert(builder.vals().len() < usize::MAX);
        }
        let (name, v) = pair;
        builder.push_name(name.as_str());
        builder.push_str(" = ");
        builder.push_value(v);
        proof {
            lemma_set_sql_step(ns, k, i as int);
            assert(row_values(orig.take(i as int + 1)) =~= row_values(orig.take(i as int)).push(
                orig[i as int].1,
            ));
            assert(builder.vals() =~= old(builder).vals() + row_values(orig.take(i as int + 1)));
            assert(builder.text() =~= old(builder).text() + set_sql(ns.take(i as int + 1), k));
        }
        i += 1;
    }
    proof {
        assert(ns.take(n as int) =~= ns);
        assert(orig.take(n as int) =~= orig);
    }
}

/// The full text of a SELECT statement.
pub open spec fn select_sql(
    table: Seq<char>,
    columns: Seq<Seq<char>>,
    predicate: Predicate,
    order_by: Seq<Seq<char>>,
    limit: int,
    k: int,
) -> Seq<char> {
    "SELECT "@ + names_sql(columns) + " FROM "@ + quoted(table) + " WHERE "@ + pred_sql(
        predicate,
        k,
    ) + (if order_by.len() > 0 {
        " ORDER BY "@ + names_sql(order_by)
    } else {
        Seq::<char>::empty()
    }) + (if limit > 0 {
        " LIMIT "@ + dec_u64(limit)
    } else {
        Seq::<char>::empty()
    })
}

/// A composable SELECT.  A fresh builder selects nothing: its predicate
/// is the constant `false`.
pub struct Select {
    pub table: String,
    pub columns: Vec<String>,
    pub predicate: Predicate,
    pub order_by: Vec<String>,
    pub limit: usize,
}

impl Select {
    pub fn new() -> (r: Select)
        ensures
            r.table@ == Seq::<char>::empty(),
            r.columns@ == Seq::<String>::empty(),
            r.predicate == Predicate::Bool(false),
            r.order_by@ == Seq::<String>::empty(),
            r.limit == 0usize,
    {
        let r = Select {
            table: String::new(),
            columns: Vec::new(),
            predicate: Predicate::Bool(false),
            order_by: Vec::new(),
            limit: 0,
        };
        proof {
            assert(r.columns@ =~= Seq::<String>::empty());
            assert(r.order_by@ =~= Seq::<String>::empty());
        }
        r
    }

    pub fn with_table(self, table: &str) -> (r: Select)
        ensures
            r.table@ == table@,
            r.columns == self.columns,
            r.predicate == self.predicate,
            r.order_by == self.order_by,
            r.limit == self.limit,
    {
        Select { table: table.to_owned(), ..self }
    }

    pub fn with_columns(self, columns: Vec<String>) -> (r: Select)
        ensures
            r.table == self.table,
            r.columns == columns,
            r.predicate == self.predicate,
            r.order_by == self.order_by,
            r.limit == self.limit,
    {
        Select { columns, ..self }
    }

    pub fn with_where(self, predicate: Predicate) -> (r: Select)
        ensures
            r.table == self.table,
            r.columns == self.columns,
            r.predicate == predicate,
            r.order_by == self.order_by,
            r.limit == self.limit,
    {
        Select { predicate, ..self }
    }

    pub fn with_order_by(self, columns: Vec<String>) -> (r: Select)
        ensures
            r.table == self.table,
            r.columns == self.columns,
            r.predicate == self.predicate,
            r.order_by == columns,
            r.limit == self.limit,
    {
        Select { order_by: columns, ..self }
    }

    pub fn with_limit(self, limit: usize) -> (r: Select)
        ensures
            r.table == self.table,
            r.columns == self.columns,
            r.predicate == self.predicate,
            r.order_by == self.order_by,
            r.limit == limit,
    {
        Select { limit, ..self }
    }

    /// Emits `SELECT cols FROM table WHERE predicate [ORDER BY ...] [LIMIT n]`.
    pub fn into_query(self, builder: QueryBuilder) -> (r: RawQuery)
        requires
            self.columns@.len() > 0,
            valid_name(self.table@),
            all_valid(views_of(self.columns@)),
            all_valid(views_of(self.order_by@)),
            pred_ok(self.predicate),
            builder.vals().len() + pred_vals(self.predicate).len() <= usize::MAX,
        ensures
            r.text() == builder.text() + select_sql(
                self.table@,
                views_of(self.columns@),
                self.predicate,
                views_of(self.order_by@),
                self.limit as int,
                builder.vals().len() as int,
            ),
            r.vals() == builder.vals() + pred_vals(self.predicate),
    {
        let ghost t0 = builder.text();
        let ghost v0 = builder.vals();
        let mut builder = builder;
        builder.push_str("SELECT ");
        push_names(&mut builder, &self.columns);
        builder.push_str(" FROM ");
        builder.push_name(self.table.as_str());
        builder.push_str(" WHERE ");
        self.predicate.push_into(&mut builder);
        if self.order_by.len() > 0 {
            builder.push_str(" ORDER BY ");
            push_names(&mut builder, &self.order_by);
        }
        if self.limit > 0 {
            builder.push_str(" LIMIT ");
            let dec = u64_to_decimal(self.limit as u64);
            builder.push_str(dec.as_str());
        }
        let r = builder.build();
        proof {
            assert(r.text() =~= t0 + select_sql(
                self.table@,
                views_of(self.columns@),
                self.predicate,
                views_of(self.order_by@),
                self.limit as int,
                v0.len() as int,
            ));
        }
        r
    }
}

/// The full text of an INSERT statement.
pub open spec fn insert_sql(
    table: Seq<char>,
    columns: Seq<Seq<char>>,
    value_count: int,
    returning: Seq<Seq<char>>,
    k: int,
) -> Seq<char> {
    "INSERT INTO "@ + quoted(table) + " ("@ + names_sql(columns) + ") VALUES ("@ + values_sql(
        k,
        value_count,
    ) + ")"@ + (if returning.len() > 0 {
        " RETURNING "@ + names_sql(returning)
    } else {
        Seq::<char>::empty()
    })
}

/// A composable INSERT.
pub struct Insert {
    pub table: String,
    pub columns: Vec<String>,
    pub values: Vec<Value>,
    pub returning: Vec<String>,
}

impl Insert {
    pub fn new() -> (r: Insert)
        ensures
            r.table@ == Seq::<char>::empty(),
            r.columns@ == Seq::<String>::empty(),
            r.values@ == Seq::<Value>::empty(),
            r.returning@ == Seq::<String>::empty(),
    {
        let r = Insert {
            table: String::new(),
            columns: Vec::new(),
            values: Vec::new(),
            returning: Vec::new(),
        };
        proof {
            assert(r.columns@ =~= Seq::<String>::empty());
            assert(r.values@ =~= Seq::<Value>::empty());
            assert(r.returning@ =~= Seq::<String>::empty());
        }
        r
    }

    pub fn with_table(self, table: &str) -> (r: Insert)
        ensures
            r.table@ == table@,
            r.columns == self.columns,
            r.values == self.values,
            r.returning == self.returning,
    {
        Insert { table: table.to_owned(), ..self }
    }

    pub fn with_columns(self, columns: Vec<String>) -> (r: Insert)
        ensures
            r.table == self.table,
            r.columns == columns,
            r.values == self.values,
            r.returning == self.returning,
    {
        Insert { columns, ..self }
    }

    pub fn with_values(self, values: Vec<Value>) -> (r: Insert)
        ensures
            r.table == self.table,
            r.columns == self.columns,
            r.values == values,
            r.returning == self.returning,
    {
        Insert { values, ..self }
    }

    pub fn with_returning(self, columns: Vec<String>) -> (r: Insert)
        ensures
            r.table == self.table,
            r.columns == self.columns,
            r.values == self.values,
            r.returning == columns,
    {
        Insert { returning: columns, ..self }
    }

    /// Splits a row of `(column, value)` pairs into columns and values.
    pub fn with_row(self, row: Vec<(String, Value)>) -> (r: Insert)
        ensures
            r.table == self.table,
            r.returning == self.returning,
            r.columns@.len() == row@.len(),
            r.values@.len() == row@.len(),
            views_of(r.columns@) == row_names(row@),
            r.values@ == row_values(row@),
    {
        let ghost orig = row@;
        let mut row = row;
        let mut columns: Vec<String> = Vec::new();
        let mut values: Vec<Value> = Vec::new();
        let n = row.len();
        let mut i: usize = 0;
        while i < n
            invariant
                i <= n,
                n == orig.len(),
                row@ == orig.skip(i as int),
                columns@.len() == i as int,
                values@.len() == i as int,
                views_of(columns@) =~= row_names(orig.take(i as int)),
                values@ =~= row_values(orig.take(i as int)),
            decreases n - i,
        {
            let pair = row.remove(0);
            proof {
                assert(pair == orig[i as int]);
                assert(row@ =~= orig.skip(i as int + 1));
            }
            let ghost cb = columns@;
            let (name, v) = pair;
            columns.push(name);
            values.push(v);
            proof {
                let target = row_names(orig.take(i as int + 1));
                assert(columns@.len() == cb.len() + 1);
                assert(cb.len() == i as int);
                assert(orig.take(i as int + 1).len() == i as int + 1);
                assert(views_of(columns@).len() == columns@.len());
                assert(target.len() == i as int + 1);
                assert(views_of(columns@).len() == target.len());
                assert forall|j: int| 0 <= j < views_of(columns@).len() implies views_of(
                    columns@,
                )[j] == target[j] by {
                    assert(views_of(columns@)[j] == columns@[j]@);
                    assert(target[j] == orig.take(i as int + 1)[j].0@);
                    if j < i as int {
                        assert(columns@[j] == cb[j]);
                        assert(views_of(cb)[j] == cb[j]@);
                    }
                }
                assert(views_of(columns@) =~= target);
                assert(values@ =~= row_values(orig.take(i as int + 1)));
            }
            i += 1;
        }
        proof {
            assert(orig.take(n as int) =~= orig);
        }
        Insert { columns, values, ..self }
    }

    /// Emits `INSERT INTO table (cols) VALUES ($1..) [RETURNING ...]`.
    /// The column and value lists must pair up.
    pub fn into_query(self, builder: QueryBuilder) -> (r: RawQuery)
        requires
            self.columns@.len() == self.values@.len(),
            valid_name(self.table@),
            all_valid(views_of(self.columns@)),
            all_valid(views_of(self.returning@)),
            builder.vals().len() + self.values@.len() <= usize::MAX,
        ensures
            r.text() == builder.text() + insert_sql(
                self.table@,
                views_of(self.columns@),
                self.values@.len() as int,
                views_of(self.returning@),
                builder.vals().len() as int,
            ),
            r.vals() == builder.vals() + self.values@,
    {
        let ghost t0 = builder.text();
        let ghost v0 = builder.vals();
        let mut builder = builder;
        builder.push_str("INSERT INTO ");
        builder.push_name(self.table.as_str());
        builder.push_str(" (");
        push_names(&mut builder, &self.columns);
        builder.push_str(") VALUES (");
        push_placeholders(&mut builder, self.values);
        builder.push_str(")");
        if self.returning.len() > 0 {
            builder.push_str(" RETURNING ");
            push_names(&mut builder, &self.returning);
        }
        let r = builder.build();
        proof {
            assert(r.text() =~= t0 + insert_sql(
                self.table@,
                views_of(self.columns@),
                self.values@.len() as int,
                views_of(self.returning@),
                v0.len() as int,
            ));
        }
        r
    }
}

/// The full text of an UPDATE statement.
pub open spec fn update_sql(
    table: Seq<char>,
    row: Seq<(String, Value)>,
    predicate: Predicate,
    returning: Seq<Seq<char>>,
    k: int,
) -> Seq<char> {
    "UPDATE "@ + quoted(table) + " SET "@ + set_sql(row_names(row), k) + " WHERE "@ + pred_sql(
        predicate,
        k + row.len(),
    ) + (if returning.len() > 0 {
        " RETURNING "@ + names_sql(returning)
    } else {
        Seq::<char>::empty()
    })
}

/// A composable UPDATE.  A fresh builder updates nothing: its predicate
/// is the constant `false`.
pub struct Update {
    pub table: String,
    pub update: Vec<(String, Value)>,
    pub predicate: Predicate,
    pub returning: Vec<String>,
}

impl Update {
    pub fn new() -> (r: Update)
        ensures
            r.table@ == Seq::<char>::empty(),
            r.update@ == Seq::<(String, Value)>::empty(),
            r.predicate == Predicate::Bool(false),
            r.returning@ == Seq::<String>::empty(),
    {
        let r = Update {
            table: String::new(),
            update: Vec::new(),
            predicate: Predicate::Bool(false),
            returning: Vec::new(),
        };
        proof {
            assert(r.update@ =~= Seq::<(String, Value)>::empty());
            assert(r.returning@ =~= Seq::<String>::empty());
        }
        r
    }

    pub fn with_table(self, table: &str) -> (r: Update)
        ensures
            r.table@ == table@,
            r.update == self.update,
            r.predicate == self.predicate,
            r.returning == self.returning,
    {
        Update { table: table.to_owned(), ..self }
    }

    pub fn with_update(self, update: Vec<(String, Value)>) -> (r: Update)
        ensures
            r.table == self.table,
            r.update == update,
            r.predicate == self.predicate,
            r.returning == self.returning,
    {
        Update { update, ..self }
    }

    /// An alias for [`Update::with_update`], matching the insert builder.
    pub fn with_row(self, row: Vec<(String, Value)>) -> (r: Update)
        ensures
            r.table == self.table,
            r.update == row,
            r.predicate == self.predicate,
            r.returning == self.returning,
    {
        Update { update: row, ..self }
    }

    pub fn with_where(self, predicate: Predicate) -> (r: Update)
        ensures
            r.table == self.table,
            r.update == self.update,
            r.predicate == predicate,
            r.returning == self.returning,
    {
        Update { predicate, ..self }
    }

    pub fn with_returning(self, columns: Vec<String>) -> (r: Update)
        ensures
            r.table == self.table,
            r.update == self.update,
            r.predicate == self.predicate,
            r.returning == columns,
    {
        Update { returning: columns, ..self }
    }

    /// Emits `UPDATE table SET assignments WHERE predicate [RETURNING ...]`.
    /// The assignment list must not be empty.
    pub fn into_query(self, builder: QueryBuilder) -> (r: RawQuery)
        requires
            self.update@.len() > 0,
            valid_name(self.table@),
            all_valid(row_names(self.update@)),
            all_valid(views_of(self.returning@)),
            pred_ok(self.predicate),
            builder.vals().len() + self.update@.len() + pred_vals(self.predicate).len()
                <= usize::MAX,
        ensures
            r.text() == builder.text() + update_sql(
                self.table@,
                self.update@,
                self.predicate,
                views_of(self.returning@),
                builder.vals().len() as int,
            ),
            r.vals() == builder.vals() + row_values(self.update@) + pred_vals(self.predicate),
    {
        let ghost t0 = builder.text();
        let ghost v0 = builder.vals();
        let mut builder = builder;
        builder.push_str("UPDATE ");
        builder.push_name(self.table.as_str());
        builder.push_str(" SET ");
        push_assignments(&mut builder, self.update);
        builder.push_str(" WHERE ");
        self.predicate.push_into(&mut builder);
        if self.returning.len() > 0 {
            builder.push_str(" RETURNING ");
            push_names(&mut builder, &self.returning);
        }
        let r = builder.build();
        proof {
            assert(r.text() =~= t0 + update_sql(
                self.table@,
                self.update@,
                self.predicate,
                views_of(self.returning@),
                v0.len() as int,
            ));
            assert(r.vals() =~= v0 + row_values(self.update@) + pred_vals(self.predicate));
        }
        r
    }
}

/// The full text of a DELETE statement.
pub open spec fn delete_sql(table: Seq<char>, predicate: Predicate, k: int) -> Seq<char> {
    "DELETE FROM "@ + quoted(table) + " WHERE "@ + pred_sql(predicate, k)
}

/// A composable DELETE.  A fresh builder deletes nothing: its predicate
/// is the constant `false`.
pub struct Delete {
    pub table: String,
    pub predicate: Predicate,
}

impl Delete {
    pub fn new() -> (r: Delete)
        ensures
            r.table@ == Seq::<char>::empty(),
            r.predicate == Predicate::Bool(false),
    {
        Delete { table: String::new(), predicate: Predicate::Bool(false) }
    }

    pub fn with_table(self, table: &str) -> (r: Delete)
        ensures
            r.table@ == table@,
            r.predicate == self.predicate,
    {
        Delete { table: table.to_owned(), ..self }
    }

    pub fn with_where(self, predicate: Predicate) -> (r: Delete)
        ensures
            r.table == self.table,
            r.predicate == predicate,
    {
        Delete { predicate, ..self }
    }

    /// Emits `DELETE FROM table WHERE predicate`.
    pub fn into_query(self, builder: QueryBuilder) -> (r: RawQuery)
        requires
            valid_name(self.table@),
            pred_ok(self.predicate),
            builder.vals().len() + pred_vals(self.predicate).len() <= usize::MAX,
        ensures
            r.text() == builder.text() + delete_sql(
                self.table@,
                self.predicate,
                builder.vals().len() as int,
            ),
            r.vals() == builder.vals() + pred_vals(self.predicate),
    {
        let ghost t0 = builder.text();
        let ghost v0 = builder.vals();
        let mut builder = builder;
        builder.push_str("DELETE FROM ");
        builder.push_name(self.table.as_str());
        builder.push_str(" WHERE ");
        self.predicate.push_into(&mut builder);
        let r = builder.build();
        proof {
            assert(r.text() =~= t0 + delete_sql(self.table@, self.predicate, v0.len() as int));
        }
        r
    }
}

} // verus!
