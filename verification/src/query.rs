//! Parameterised query assembly: a dialect-neutral builder that numbers
//! positional placeholders from one and quotes identifiers.

use vstd::prelude::*;

use crate::text::{dec_u64, is_valid_name, push_u64_decimal, valid_name};
use crate::value::Value;

verus! {

/// A finished query: its SQL text and its positional values.
pub struct RawQuery {
    query: String,
    values: Vec<Value>,
}

impl RawQuery {
    /// The SQL text, as a spec-level sequence.
    pub closed spec fn text(&self) -> Seq<char> {
        self.query@
    }

    /// The bound values, as a spec-level sequence.
    pub closed spec fn vals(&self) -> Seq<Value> {
        self.values@
    }

    pub fn new(query: String, values: Vec<Value>) -> (r: RawQuery)
        ensures
            r.text() == query@,
            r.vals() == values@,
    {
        RawQuery { query, values }
    }

    /// The SQL text.
    pub fn query(&self) -> (r: &str)
        ensures
            r@ == self.text(),
    {
        self.query.as_str()
    }

    /// The values bound to the placeholders, in placeholder order.
    pub fn values(&self) -> (r: &Vec<Value>)
        ensures
            r@ == self.vals(),
    {
        &self.values
    }
}

/// The text of the placeholder that refers to the `n`-th value
/// (numbered from one).
pub open spec fn placeholder(n: int) -> Seq<char> {
    seq!['$'] + dec_u64(n)
}

/// The quoted form of an identifier.
pub open spec fn quoted(name: Seq<char>) -> Seq<char> {
    seq!['"'] + name + seq!['"']
}

/// Accumulates SQL text and positional values.  Pushing a value emits
/// `$k` where `k` is the count of values pushed so far.
pub struct QueryBuilder {
    query: String,
    values: Vec<Value>,
}

impl QueryBuilder {
    /// The SQL text accumulated so far.
    pub closed spec fn text(&self) -> Seq<char> {
        self.query@
    }

    /// The values accumulated so far.
    pub closed spec fn vals(&self) -> Seq<Value> {
        self.values@
    }

    pub fn new() -> (r: QueryBuilder)
        ensures
            r.text() == Seq::<char>::empty(),
            r.vals() == Seq::<Value>::empty(),
    {
        let r = QueryBuilder { query: String::new(), values: Vec::new() };
        proof {
            assert(r.text() =~= Seq::<char>::empty());
            assert(r.vals() =~= Seq::<Value>::empty());
        }
        r
    }

    pub fn push(&mut self, ch: char)
        ensures
            final(self).text() == old(self).text().push(ch),
            final(self).vals() == old(self).vals(),
    {
        self.query.push(ch);
    }

    pub fn push_str(&mut self, part: &str)
        ensures
            final(self).text() == old(self).text() + part@,
            final(self).vals() == old(self).vals(),
    {
        self.query.push_str(part);
    }

    /// Quotes an identifier.  An identifier that embeds a quote or a
    /// backslash is rejected by the precondition: callers check with
    /// [`is_valid_name`].
    pub fn push_name(&mut self, name: &str)
        requires
            valid_name(name@),
        ensures
            final(self).text() == old(self).text() + quoted(name@),
            final(self).vals() == old(self).vals(),
    {
        self.query.push('"');
        self.query.push_str(name);
        self.query.push('"');
        proof {
            assert(self.text() =~= old(self).text() + quoted(name@));
        }
    }

    /// Binds a value and emits its positional placeholder.
    pub fn push_value(&mut self, value: Value)
        requires
            old(self).vals().len() < usize::MAX,
        ensures
            final(self).text() == old(self).text() + placeholder(old(self).vals().len() as int + 1),
            final(self).vals() == old(self).vals().push(value),
    {
        self.values.push(value);
        self.query.push('$');
        push_u64_decimal(&mut self.query, self.values.len() as u64);
        proof {
            assert(self.text() =~= old(self).text() + placeholder(old(self).vals().len() as int + 1));
        }
    }

    pub fn build(self) -> (r: RawQuery)
        ensures
            r.text() == self.text(),
            r.vals() == self.vals(),
    {
        RawQuery { query: self.query, values: self.values }
    }
}

} // verus!
