//! Composable SELECT / INSERT / UPDATE / DELETE builders over a predicate
//! tree.  Every builder's `into_query` carries an exact contract: the SQL
//! text and the value list are pinned down, character by character, as a
//! function of the builder's state.

use vstd::prelude::*;

use crate::query::{placeholder, quoted, QueryBuilder};
use crate::text::valid_name;
use crate::value::Value;

verus! {

/// A comparison between two expressions.
pub struct BinaryExpression {
    pub left: Box<Expression>,
    pub right: Box<Expression>,
}

/// An operand of a comparison: a bound value, a quoted column name, or
/// raw SQL text.
pub enum Expression {
    Value(Value),
    Column(String),
    Raw(String),
}

/// A logical connective over two predicates.
pub struct BinaryPredicate {
    pub left: Box<Predicate>,
    pub right: Box<Predicate>,
}

/// A WHERE-clause predicate tree.
pub enum Predicate {
    Bool(bool),
    And(BinaryPredicate),
    Or(BinaryPredicate),
    Equal(BinaryExpression),
    NotEqual(BinaryExpression),
    Less(BinaryExpression),
    LessEqual(BinaryExpression),
    Greater(BinaryExpression),
    GreaterEqual(BinaryExpression),
    IsNull(Box<Expression>),
    IsNotNull(Box<Expression>),
}

/// The values an expression binds: one for a `Value` operand, none otherwise.
pub open spec fn expr_vals(e: Expression) -> Seq<Value> {
    match e {
        Expression::Value(v) => seq![v],
        Expression::Column(_) => Seq::<Value>::empty(),
        Expression::Raw(_) => Seq::<Value>::empty(),
    }
}

/// The SQL text of an expression, with `k` values already bound before it.
pub open spec fn expr_sql(e: Expression, k: int) -> Seq<char> {
    match e {
        Expression::Value(_) => placeholder(k + 1),
        Expression::Column(name) => quoted(name@),
        Expression::Raw(s) => s@,
    }
}

/// Column names inside an expression must be quotable.
pub open spec fn expr_ok(e: Expression) -> bool {
    match e {
        Expression::Column(name) => valid_name(name@),
        _ => true,
    }
}

/// The values a predicate binds, in emission order.
pub open spec fn pred_vals(p: Predicate) -> Seq<Value>
    decreases p,
{
    match p {
        Predicate::Bool(_) => Seq::<Value>::empty(),
        Predicate::And(b) => pred_vals(*b.left) + pred_vals(*b.right),
        Predicate::Or(b) => pred_vals(*b.left) + pred_vals(*b.right),
        Predicate::Equal(b) => expr_vals(*b.left) + expr_vals(*b.right),
        Predicate::NotEqual(b) => expr_vals(*b.left) + expr_vals(*b.right),
        Predicate::Less(b) => expr_vals(*b.left) + expr_vals(*b.right),
        Predicate::LessEqual(b) => expr_vals(*b.left) + expr_vals(*b.right),
        Predicate::Greater(b) => expr_vals(*b.left) + expr_vals(*b.right),
        Predicate::GreaterEqual(b) => expr_vals(*b.left) + expr_vals(*b.right),
        Predicate::IsNull(e) => expr_vals(*e),
        Predicate::IsNotNull(e) => expr_vals(*e),
    }
}

/// Every column name inside a predicate must be quotable.
pub open spec fn pred_ok(p: Predicate) -> bool
    decreases p,
{
    match p {
        Predicate::Bool(_) => true,
        Predicate::And(b) => pred_ok(*b.left) && pred_ok(*b.right),
        Predicate::Or(b) => pred_ok(*b.left) && pred_ok(*b.right),
        Predicate::Equal(b) => expr_ok(*b.left) && expr_ok(*b.right),
        Predicate::NotEqual(b) => expr_ok(*b.left) && expr_ok(*b.right),
        Predicate::Less(b) => expr_ok(*b.left) && expr_ok(*b.right),
        Predicate::LessEqual(b) => expr_ok(*b.left) && expr_ok(*b.right),
        Predicate::Greater(b) => expr_ok(*b.left) && expr_ok(*b.right),
        Predicate::GreaterEqual(b) => expr_ok(*b.left) && expr_ok(*b.right),
        Predicate::IsNull(e) => expr_ok(*e),
        Predicate::IsNotNull(e) => expr_ok(*e),
    }
}

/// A mixed And/Or subtree is parenthesised when its connective differs from
/// the enclosing one; leaves never are.
pub open spec fn needs_wrap(p: Predicate, parent_and: bool) -> bool {
    match p {
        Predicate::And(_) => !parent_and,
        Predicate::Or(_) => parent_and,
        _ => false,
    }
}

/// The SQL text of a comparison with operator text `op`.
pub open spec fn cmp_sql(b: BinaryExpression, k: int, op: Seq<char>) -> Seq<char> {
    expr_sql(*b.left, k) + op + expr_sql(*b.right, k + expr_vals(*b.left).len())
}

/// The SQL text of a predicate, with `k` values already bound before it.
pub open spec fn pred_sql(p: Predicate, k: int) -> Seq<char>
    decreases p, 0int,
{
    match p {
        Predicate::Bool(v) => if v {
            "true"@
        } else {
            "false"@
        },
        Predicate::And(b) => side_sql(*b.left, k, true) + " AND "@ + side_sql(
            *b.right,
            k + pred_vals(*b.left).len(),
            true,
        ),
        Predicate::Or(b) => side_sql(*b.left, k, false) + " OR "@ + side_sql(
            *b.right,
            k + pred_vals(*b.left).len(),
            false,
        ),
        Predicate::Equal(b) => cmp_sql(b, k, " = "@),
        Predicate::NotEqual(b) => cmp_sql(b, k, " <> "@),
        Predicate::Less(b) => cmp_sql(b, k, " < "@),
        Predicate::LessEqual(b) => cmp_sql(b, k, " <= "@),
        Predicate::Greater(b) => cmp_sql(b, k, " > "@),
        Predicate::GreaterEqual(b) => cmp_sql(b, k, " >= "@),
        Predicate::IsNull(e) => expr_sql(*e, k) + " IS NULL"@,
        Predicate::IsNotNull(e) => expr_sql(*e, k) + " IS NOT NULL"@,
    }
}

/// The SQL text of a child of an And/Or node, parenthesised when needed.
pub open spec fn side_sql(p: Predicate, k: int, parent_and: bool) -> Seq<char>
    decreases p, 1int,
{
    if needs_wrap(p, parent_and) {
        seq!['('] + pred_sql(p, k) + seq![')']
    } else {
        pred_sql(p, k)
    }
}

/// True when the expression is a bound SQL `NULL` value.
pub open spec fn is_null_value(e: Expression) -> bool {
    match e {
        Expression::Value(v) => v is Null,
        _ => false,
    }
}

/// A column operand.
pub fn column(name: &str) -> (r: Expression)
    ensures
        r matches Expression::Column(n) && n@ == name@,
{
    Expression::Column(name.to_owned())
}

impl Expression {
    /// `=` comparison; against a bound `NULL` it rewrites to `IS NULL`.
    pub fn equal(self, rhs: Expression) -> (r: Predicate)
        ensures
            is_null_value(rhs) ==> (r matches Predicate::IsNull(e) && *e == self),
            !is_null_value(rhs) ==> (r matches Predicate::Equal(b) && *b.left == self
                && *b.right == rhs),
    {
        match rhs {
            Expression::Value(Value::Null) => Predicate::IsNull(Box::new(self)),
            v => Predicate::Equal(
                BinaryExpression { left: Box::new(self), right: Box::new(v) },
            ),
        }
    }

    /// `<>` comparison; against a bound `NULL` it rewrites to `IS NOT NULL`.
    pub fn not_equal(self, rhs: Expression) -> (r: Predicate)
        ensures
            is_null_value(rhs) ==> (r matches Predicate::IsNotNull(e) && *e == self),
            !is_null_value(rhs) ==> (r matches Predicate::NotEqual(b) && *b.left == self
                && *b.right == rhs),
    {
        match rhs {
            Expression::Value(Value::Null) => Predicate::IsNotNull(Box::new(self)),
            v => Predicate::NotEqual(
                BinaryExpression { left: Box::new(self), right: Box::new(v) },
            ),
        }
    }

    pub fn less(self, rhs: Expression) -> (r: Predicate)
        ensures
            r matches Predicate::Less(b) && *b.left == self && *b.right == rhs,
    {
        Predicate::Less(BinaryExpression { left: Box::new(self), right: Box::new(rhs) })
    }

    pub fn greater(self, rhs: Expression) -> (r: Predicate)
        ensures
            r matches Predicate::Greater(b) && *b.left == self && *b.right == rhs,
    {
        Predicate::Greater(BinaryExpression { left: Box::new(self), right: Box::new(rhs) })
    }

    pub fn less_equal(self, rhs: Expression) -> (r: Predicate)
        ensures
            r matches Predicate::LessEqual(b) && *b.left == self && *b.right == rhs,
    {
        Predicate::LessEqual(BinaryExpression { left: Box::new(self), right: Box::new(rhs) })
    }

    pub fn greater_equal(self, rhs: Expression) -> (r: Predicate)
        ensures
            r matches Predicate::GreaterEqual(b) && *b.left == self && *b.right == rhs,
    {
        Predicate::GreaterEqual(BinaryExpression { left: Box::new(self), right: Box::new(rhs) })
    }

    fn write_to(self, builder: &mut QueryBuilder)
        requires
            expr_ok(self),
            old(builder).vals().len() + expr_vals(self).len() <= usize::MAX,
        ensures
            final(builder).text() == old(builder).text() + expr_sql(
                self,
                old(builder).vals().len() as int,
            ),
            final(builder).vals() == old(builder).vals() + expr_vals(self),
    {
        match self {
            Expression::Value(v) => {
                builder.push_value(v);
                proof {
                    assert(builder.vals() =~= old(builder).vals() + expr_vals(self));
                }
            },
            Expression::Column(v) => {
                builder.push_name(v.as_str());
                proof {
                    assert(builder.vals() =~= old(builder).vals() + expr_vals(self));
                }
            },
            Expression::Raw(v) => {
                builder.push_str(v.as_str());
                proof {
                    assert(builder.vals() =~= old(builder).vals() + expr_vals(self));
                }
            },
        }
    }
}

impl Predicate {
    /// Conjunction.
    pub fn and(self, rhs: Predicate) -> (r: Predicate)
        ensures
            r matches Predicate::And(b) && *b.left == self && *b.right == rhs,
    {
        Predicate::And(BinaryPredicate { left: Box::new(self), right: Box::new(rhs) })
    }

    /// Disjunction.
    pub fn or(self, rhs: Predicate) -> (r: Predicate)
        ensures
            r matches Predicate::Or(b) && *b.left == self && *b.right == rhs,
    {
        Predicate::Or(BinaryPredicate { left: Box::new(self), right: Box::new(rhs) })
    }

    /// Whether this node is parenthesised under the given connective.
    fn needs_wrap_exec(&self, parent_and: bool) -> (r: bool)
        ensures
            r == needs_wrap(*self, parent_and),
    {
        match self {
            Predicate::And(_) => !parent_and,
            Predicate::Or(_) => parent_and,
            _ => false,
        }
    }

    /// Emits the predicate's SQL text and binds its values.
    #[verifier::rlimit(50)]
    #[verifier::spinoff_prover]
    pub fn push_into(self, builder: &mut QueryBuilder)
        requires
            pred_ok(self),
            old(builder).vals().len() + pred_vals(self).len() <= usize::MAX,
        ensures
            final(builder).text() == old(builder).text() + pred_sql(
                self,
                old(builder).vals().len() as int,
            ),
            final(builder).vals() == old(builder).vals() + pred_vals(self),
        decreases self, 0int,
    {
        match self {
            Predicate::Bool(v) => {
                if v {
                    builder.push_str("true");
                } else {
                    builder.push_str("false");
                }
                proof {
                    assert(builder.vals() =~= old(builder).vals() + pred_vals(self));
                }
            },
            Predicate::And(b) => {
                let BinaryPredicate { left, right } = b;
                let ghost lv = pred_vals(*left);
                (*left).push_side(builder, true);
                builder.push_str(" AND ");
                (*right).push_side(builder, true);
                proof {
                    assert(builder.vals() =~= old(builder).vals() + pred_vals(self));
                    assert(builder.text() =~= old(builder).text() + pred_sql(
                        self,
                        old(builder).vals().len() as int,
                    ));
                }
            },
            Predicate::Or(b) => {
                let BinaryPredicate { left, right } = b;
                (*left).push_side(builder, false);
                builder.push_str(" OR ");
                (*right).push_side(builder, false);
                proof {
                    assert(builder.vals() =~= old(builder).vals() + pred_vals(self));
                    assert(builder.text() =~= old(builder).text() + pred_sql(
                        self,
                        old(builder).vals().len() as int,
                    ));
                }
            },
            Predicate::Equal(b) => {
                let BinaryExpression { left, right } = b;
                (*left).write_to(builder);
                builder.push_str(" = ");
                (*right).write_to(builder);
                proof {
                    assert(builder.vals() =~= old(builder).vals() + pred_vals(self));
                    assert(builder.text() =~= old(builder).text() + pred_sql(
                        self,
                        old(builder).vals().len() as int,
                    ));
                }
            },
            Predicate::NotEqual(b) => {
                let BinaryExpression { left, right } = b;
                (*left).write_to(builder);
                builder.push_str(" <> ");
                (*right).write_to(builder);
                proof {
                    assert(builder.vals() =~= old(builder).vals() + pred_vals(self));
                    assert(builder.text() =~= old(builder).text() + pred_sql(
                        self,
                        old(builder).vals().len() as int,
                    ));
                }
            },
            Predicate::Less(b) => {
                let BinaryExpression { left, right } = b;
                (*left).write_to(builder);
                builder.push_str(" < ");
                (*right).write_to(builder);
                proof {
                    assert(builder.vals() =~= old(builder).vals() + pred_vals(self));
                    assert(builder.text() =~= old(builder).text() + pred_sql(
                        self,
                        old(builder).vals().len() as int,
                    ));
                }
            },
            Predicate::LessEqual(b) => {
                let BinaryExpression { left, right } = b;
                (*left).write_to(builder);
                builder.push_str(" <= ");
                (*right).write_to(builder);
                proof {
                    assert(builder.vals() =~= old(builder).vals() + pred_vals(self));
                    assert(builder.text() =~= old(builder).text() + pred_sql(
                        self,
                        old(builder).vals().len() as int,
                    ));
                }
            },
            Predicate::Greater(b) => {
                let BinaryExpression { left, right } = b;
                (*left).write_to(builder);
                builder.push_str(" > ");
                (*right).write_to(builder);
                proof {
                    assert(builder.vals() =~= old(builder).vals() + pred_vals(self));
                    assert(builder.text() =~= old(builder).text() + pred_sql(
                        self,
                        old(builder).vals().len() as int,
                    ));
                }
            },
            Predicate::GreaterEqual(b) => {
                let BinaryExpression { left, right } = b;
                (*left).write_to(builder);
                builder.push_str(" >= ");
                (*right).write_to(builder);
                proof {
                    assert(builder.vals() =~= old(builder).vals() + pred_vals(self));
                    assert(builder.text() =~= old(builder).text() + pred_sql(
                        self,
                        old(builder).vals().len() as int,
                    ));
                }
            },
            Predicate::IsNull(e) => {
                (*e).write_to(builder);
                builder.push_str(" IS NULL");
                proof {
                    assert(builder.vals() =~= old(builder).vals() + pred_vals(self));
                    assert(builder.text() =~= old(builder).text() + pred_sql(
                        self,
                        old(builder).vals().len() as int,
                    ));
                }
            },
            Predicate::IsNotNull(e) => {
                (*e).write_to(builder);
                builder.push_str(" IS NOT NULL");
                proof {
                    assert(builder.vals() =~= old(builder).vals() + pred_vals(self));
                    assert(builder.text() =~= old(builder).text() + pred_sql(
                        self,
                        old(builder).vals().len() as int,
                    ));
                }
            },
        }
    }

    /// Emits a child of an And/Or node, parenthesised when its connective
    /// differs from the parent's.
    fn push_side(self, builder: &mut QueryBuilder, parent_and: bool)
        requires
            pred_ok(self),
            old(builder).vals().len() + pred_vals(self).len() <= usize::MAX,
        ensures
            final(builder).text() == old(builder).text() + side_sql(
                self,
                old(builder).vals().len() as int,
                parent_and,
            ),
            final(builder).vals() == old(builder).vals() + pred_vals(self),
        decreases self, 1int,
    {
        let wrap = self.needs_wrap_exec(parent_and);
        if wrap {
            builder.push('(');
        }
        self.push_into(builder);
        if wrap {
            builder.push(')');
            proof {
                assert(builder.text() =~= old(builder).text() + side_sql(
                    self,
                    old(builder).vals().len() as int,
                    parent_and,
                ));
            }
        }
    }
}

/// Building the same predicate twice from the same prior value count yields
/// byte-identical SQL and value lists: `push_into`'s outcome is a function
/// of the predicate and that count alone.
pub proof fn lemma_build_deterministic(
    p: Predicate,
    k: int,
    t1: Seq<char>,
    v1: Seq<Value>,
    t2: Seq<char>,
    v2: Seq<Value>,
)
    requires
        t1 == pred_sql(p, k),
        v1 == pred_vals(p),
        t2 == pred_sql(p, k),
        v2 == pred_vals(p),
    ensures
        t1 == t2,
        v1 == v2,
{
}

} // verus!
