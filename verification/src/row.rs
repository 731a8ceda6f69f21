//! Rows and their shared name-to-index mapping, plus the execution status
//! and transaction option types of the database contract.

use vstd::prelude::*;

use crate::error::Error;
use crate::text::str_eq;
use crate::value::Value;

verus! {

/// The index of the last occurrence of `name` in `cols`, if any.
/// Later columns shadow earlier ones of the same name.
pub open spec fn last_index_of(cols: Seq<Seq<char>>, name: Seq<char>) -> Option<int>
    decreases cols.len(),
{
    if cols.len() == 0 {
        None
    } else if cols.last() == name {
        Some(cols.len() - 1)
    } else {
        last_index_of(cols.drop_last(), name)
    }
}

/// The number of distinct column names in `cols`.
pub open spec fn distinct_count(cols: Seq<Seq<char>>) -> int
    decreases cols.len(),
{
    if cols.len() == 0 {
        0
    } else if cols.drop_last().contains(cols.last()) {
        distinct_count(cols.drop_last())
    } else {
        distinct_count(cols.drop_last()) + 1
    }
}

proof fn lemma_last_index_skip_tail(cols: Seq<Seq<char>>, name: Seq<char>, i: int)
    requires
        0 <= i <= cols.len(),
        forall|j: int| i <= j < cols.len() ==> cols[j] != name,
    ensures
        last_index_of(cols, name) == last_index_of(cols.take(i), name),
    decreases cols.len() - i,
{
    if i < cols.len() {
        lemma_last_index_skip_tail(cols, name, i + 1);
        let t = cols.take(i + 1);
        assert(t.last() == cols[i]);
        assert(t.drop_last() =~= cols.take(i));
    } else {
        assert(cols.take(i) =~= cols);
    }
}

/// A shared mapping from column names to positions.  A name that occurs
/// more than once resolves to its last position.
#[derive(Clone, Debug)]
pub struct ColumnIndex {
    columns: Vec<String>,
}

impl ColumnIndex {
    /// The column names, in declaration order.
    pub closed spec fn names(&self) -> Seq<Seq<char>> {
        self.columns@.map_values(|s: String| s@)
    }

    pub fn new(columns: Vec<String>) -> (r: ColumnIndex)
        ensures
            r.names() == columns@.map_values(|s: String| s@),
    {
        ColumnIndex { columns }
    }

    /// The number of distinct column names.
    pub fn len(&self) -> (r: usize)
        ensures
            r == distinct_count(self.names()),
    {
        let ghost cols = self.names();
        let n = self.columns.len();
        let mut count: usize = 0;
        let mut i: usize = 0;
        while i < n
            invariant
                i <= n,
                n == self.columns@.len(),
                cols == self.names(),
                count == distinct_count(cols.take(i as int)),
                count <= i,
            decreases n - i,
        {
            // `i` contributes when no earlier column has the same name.
            let mut seen = false;
            let mut j: usize = 0;
            while j < i
                invariant
                    j <= i,
                    i < n,
                    n == self.columns@.len(),
                    cols == self.names(),
                    seen == cols.take(j as int).contains(cols[i as int]),
                decreases i - j,
            {
                if self.columns[j] == self.columns[i] {
                    proof {
                        assert(cols[j as int] == self.columns@[j as int]@);
                        assert(cols[i as int] == self.columns@[i as int]@);
                        assert(cols.take(j as int + 1)[j as int] == cols[j as int]);
                        assert(cols.take(j as int + 1).contains(cols[i as int]));
                    }
                    seen = true;
                } else {
                    proof {
                        assert(cols[j as int] == self.columns@[j as int]@);
                        assert(cols[i as int] == self.columns@[i as int]@);
                        let ci = cols[i as int];
                        assert forall|x: int|
                            0 <= x < j as int + 1 && #[trigger] cols.take(j as int + 1)[x]
                                == ci implies cols.take(j as int).contains(ci) by {
                            if x < j as int {
                                assert(cols.take(j as int)[x] == cols[x]);
                            }
                        }
                    }
                }
                j += 1;
            }
            proof {
                assert(cols.take(i as int + 1).drop_last() =~= cols.take(i as int));
                assert(cols.take(i as int + 1).last() == cols[i as int]);
            }
            if !seen {
                count += 1;
            }
            i += 1;
        }
        proof {
            assert(cols.take(n as int) =~= cols);
        }
        count
    }

    /// Resolves a column name to its position; a repeated name resolves
    /// to its last position.
    pub fn get(&self, column: &str) -> (r: Option<usize>)
        ensures
            match r {
                Some(i) => last_index_of(self.names(), column@) == Some(i as int),
                None => last_index_of(self.names(), column@) is None,
            },
    {
        let ghost cols = self.names();
        let n = self.columns.len();
        let mut i: usize = n;
        while i > 0
            invariant
                i <= n,
                n == self.columns@.len(),
                cols == self.names(),
                forall|j: int| i <= j < n ==> cols[j] != column@,
            decreases i,
        {
            i -= 1;
            let hit = str_eq(self.columns[i].as_str(), column);
            proof {
                assert(cols[i as int] == self.columns@[i as int]@);
            }
            if hit {
                proof {
                    lemma_last_index_skip_tail(cols, column@, i as int + 1);
                    let t = cols.take(i as int + 1);
                    assert(t.len() == i as int + 1);
                    assert(t.last() == cols[i as int]);
                    assert(last_index_of(t, column@) == Some(i as int));
                }
                return Some(i);
            }
        }
        proof {
            lemma_last_index_skip_tail(cols, column@, 0);
            assert(cols.take(0) =~= Seq::<Seq<char>>::empty());
        }
        None
    }
}

/// Positional or named access into a row.
pub trait RowIndex<I> {
    /// The position an index resolves to, if any.
    fn index(&self, index: I) -> Option<usize>;
}

/// An ordered vector of values with a shared name-to-index mapping.
/// The mapping's distinct-name count equals the value count.
#[derive(Clone, Debug)]
pub struct Row {
    columns: ColumnIndex,
    values: Vec<Value>,
}

impl Row {
    /// The values of the row, in positional order.
    pub closed spec fn vals(&self) -> Seq<Value> {
        self.values@
    }

    /// The column names backing the row.
    pub closed spec fn names(&self) -> Seq<Seq<char>> {
        self.columns.names()
    }

    /// The value a column name resolves to, if any.
    pub open spec fn spec_col(&self, name: Seq<char>) -> Option<Value> {
        match last_index_of(self.names(), name) {
            Some(i) => if 0 <= i < self.vals().len() {
                Some(self.vals()[i])
            } else {
                None
            },
            None => None,
        }
    }

    /// Builds a row; the value count must match the mapping's
    /// distinct-name count.
    pub fn new(values: Vec<Value>, columns: ColumnIndex) -> (r: Row)
        requires
            distinct_count(columns.names()) == values@.len(),
        ensures
            r.vals() == values@,
            r.names() == columns.names(),
    {
        Row { values, columns }
    }

    pub fn len(&self) -> (r: usize)
        ensures
            r == self.vals().len(),
    {
        self.values.len()
    }

    /// The value at a position.
    pub fn get_at(&self, index: usize) -> (r: Option<&Value>)
        ensures
            match r {
                Some(v) => index < self.vals().len() && *v == self.vals()[index as int],
                None => index >= self.vals().len(),
            },
    {
        if index < self.values.len() {
            Some(&self.values[index])
        } else {
            None
        }
    }

    /// The value under a column name, resolved through the mapping.
    /// `None` when the name is unknown or its position is out of range.
    pub fn get_named(&self, column: &str) -> (r: Option<&Value>)
        ensures
            match r {
                Some(v) => self.spec_col(column@) == Some(*v),
                None => self.spec_col(column@) is None,
            },
    {
        match self.columns.get(column) {
            Some(i) => {
                if i < self.values.len() {
                    Some(&self.values[i])
                } else {
                    None
                }
            },
            None => None,
        }
    }

    /// The value under a column name, or a `RowIndex` error when the name
    /// is unknown.
    pub fn get_parsed(&self, column: &str) -> (r: Result<&Value, Error>)
        ensures
            match r {
                Ok(v) => self.spec_col(column@) == Some(*v),
                Err(e) => e.spec_kind() == crate::error::ErrorKind::RowIndex && self.spec_col(
                    column@,
                ) is None,
            },
    {
        match self.get_named(column) {
            Some(v) => Ok(v),
            None => Err(Error::RowIndex("invalid index".to_owned())),
        }
    }
}

impl RowIndex<usize> for Row {
    fn index(&self, index: usize) -> Option<usize> {
        if index < self.values.len() {
            Some(index)
        } else {
            None
        }
    }
}

impl<'a> RowIndex<&'a str> for Row {
    fn index(&self, index: &'a str) -> Option<usize> {
        self.columns.get(index)
    }
}

/// What the database reported of an executed statement.
#[derive(Clone, Debug)]
pub struct Status {
    pub rows_affected: Option<u64>,
    pub last_insert_id: Option<i64>,
}

impl Status {
    /// How many rows the statement touched, when the driver reports it.
    pub fn rows_affected(&self) -> (r: Option<u64>)
        ensures
            r == self.rows_affected,
    {
        self.rows_affected
    }

    /// The last assigned row id, when the driver reports it.
    pub fn last_insert_id(&self) -> (r: Option<i64>)
        ensures
            r == self.last_insert_id,
    {
        self.last_insert_id
    }
}

/// Transaction isolation levels of the database contract.
#[derive(Clone, Copy, Debug, PartialEq, Eq, Structural)]
pub enum IsolationLevel {
    ReadUncommitted,
    ReadCommitted,
    RepeatableRead,
    Serializable,
}

#[derive(Clone, Copy, Debug, PartialEq, Eq, Structural)]
pub struct TransactionOptions {
    pub isolation_level: IsolationLevel,
    pub read_only: bool,
}

#[derive(Clone, Copy, Debug, PartialEq, Eq, Structural)]
pub struct ConnectionOptions {
    pub read_only: bool,
}

/// The options every mutating store operation runs under: a
/// repeatable-read, read-write transaction.
pub fn write_tx_options() -> (r: TransactionOptions)
    ensures
        r.isolation_level == IsolationLevel::RepeatableRead,
        !r.read_only,
{
    TransactionOptions { isolation_level: IsolationLevel::RepeatableRead, read_only: false }
}

} // verus!
