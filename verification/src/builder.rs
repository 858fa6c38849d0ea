use vstd::prelude::*;
use vstd::string::StringExecFns;

use crate::decimal::dec_str;
use crate::decimal::u64_to_string;
use crate::model::key_str;
use crate::model::MDItemKey;
use crate::model::MDQueryScope;
use crate::query::scope_strings;
use crate::query::scope_strs;
use crate::query::MDQuery;
use crate::query::MDQueryError;
use crate::timefmt::rfc3339_of;
use crate::timefmt::rfc3339_utc;
use crate::timefmt::timestamp_representable;

verus! {

/// Comparison operators for metadata query expressions.
#[derive(Clone, Copy, PartialEq, Eq, Structural, Debug)]
pub enum MDQueryCompareOp {
    /// Greater than (>)
    GreaterThan,
    /// Less than (<)
    LessThan,
    /// Equal to (==)
    Equal,
    /// Greater than or equal to (>=)
    GreaterThanOrEqual,
    /// Less than or equal to (<=)
    LessThanOrEqual,
}

/// The operator string used in a rendered query expression.
pub open spec fn op_str(op: MDQueryCompareOp) -> Seq<char> {
    match op {
        MDQueryCompareOp::GreaterThan => ">"@,
        MDQueryCompareOp::LessThan => "<"@,
        MDQueryCompareOp::Equal => "=="@,
        MDQueryCompareOp::GreaterThanOrEqual => ">="@,
        MDQueryCompareOp::LessThanOrEqual => "<="@,
    }
}

impl MDQueryCompareOp {
    /// Converts the operator to its string representation in a query.
    fn into_query_string(self) -> (s: &'static str)
        ensures
            s@ == op_str(self),
    {
        match self {
            MDQueryCompareOp::GreaterThan => ">",
            MDQueryCompareOp::LessThan => "<",
            MDQueryCompareOp::Equal => "==",
            MDQueryCompareOp::GreaterThanOrEqual => ">=",
            MDQueryCompareOp::LessThanOrEqual => "<=",
        }
    }
}

/// A substring match on the display name: case-insensitive, word-based.
pub open spec fn name_like_expr(name: Seq<char>) -> Seq<char> {
    key_str(MDItemKey::DisplayName) + " == \"*"@ + name + "*\"w"@
}

/// An exact, case-insensitive match on the display name.
pub open spec fn name_is_expr(name: Seq<char>) -> Seq<char> {
    key_str(MDItemKey::DisplayName) + " == \""@ + name + "\"c"@
}

/// A comparison of a time-typed key against an RFC 3339 rendering of a
/// timestamp.
pub open spec fn time_expr(key: MDItemKey, op: MDQueryCompareOp, timestamp: int) -> Seq<char> {
    key_str(key) + " "@ + op_str(op) + " $time.iso("@ + rfc3339_of(timestamp) + ")"@
}

/// A comparison of the file size against a byte count.
pub open spec fn size_expr(op: MDQueryCompareOp, size: u64) -> Seq<char> {
    key_str(MDItemKey::Size) + " "@ + op_str(op) + " "@ + dec_str(size as nat)
}

/// A filter on whether the item is a plain directory.
pub open spec fn is_dir_expr(value: bool) -> Seq<char> {
    key_str(MDItemKey::ContentType) + " "@ + (if value {
        "=="@
    } else {
        "!="@
    }) + " \"public.folder\""@
}

/// A filter on the item's content type.
pub open spec fn content_type_expr(content_type: Seq<char>) -> Seq<char> {
    key_str(MDItemKey::ContentType) + " == \""@ + content_type + "\""@
}

/// A case-insensitive match on the filename suffix `*.<ext>`.
pub open spec fn extension_expr(ext: Seq<char>) -> Seq<char> {
    key_str(MDItemKey::FSName) + " == \"*."@ + ext + "\"c"@
}

/// One expression wrapped in parentheses.
pub open spec fn paren(e: Seq<char>) -> Seq<char> {
    "("@ + e + ")"@
}

/// All expressions independently parenthesized and joined by `" && "`, in
/// order.
pub open spec fn and_join(es: Seq<Seq<char>>) -> Seq<char>
    decreases es.len(),
{
    if es.len() == 0 {
        Seq::empty()
    } else if es.len() == 1 {
        paren(es[0])
    } else {
        and_join(es.drop_last()) + " && "@ + paren(es.last())
    }
}

/// A single expression renders as that expression in its own parentheses,
/// with no separator.
pub proof fn lemma_and_join_single(e: Seq<char>)
    ensures
        and_join(seq![e]) == paren(e),
{
    assert(seq![e].len() == 1);
    assert(seq![e][0] == e);
}

/// Appending an expression to a non-empty list appends `" && "` and that
/// expression in its own parentheses to the rendering: every expression is
/// parenthesized independently, and the join keeps insertion order.
pub proof fn lemma_and_join_step(es: Seq<Seq<char>>, e: Seq<char>)
    requires
        es.len() > 0,
    ensures
        and_join(es.push(e)) == and_join(es) + " && "@ + paren(e),
{
    assert(es.push(e).drop_last() =~= es);
    assert(es.push(e).last() == e);
}

/// A non-empty join always opens with the parenthesis of its first
/// expression and closes with the parenthesis of its last one.
pub proof fn lemma_and_join_parenthesized(es: Seq<Seq<char>>)
    requires
        es.len() > 0,
    ensures
        and_join(es).len() >= 2,
        and_join(es)[0] == '(',
        and_join(es)[and_join(es).len() - 1] == ')',
    decreases es.len(),
{
    reveal_strlit("(");
    reveal_strlit(")");
    if es.len() == 1 {
        let r = and_join(es);
        assert(r[0] == '(');
        assert(r[r.len() - 1] == ")"@[0]);
    } else {
        lemma_and_join_parenthesized(es.drop_last());
        let prefix = and_join(es.drop_last());
        let wrapped = paren(es.last());
        let r = and_join(es);
        assert(wrapped[wrapped.len() - 1] == ")"@[0]);
        assert(r[0] == prefix[0]);
        assert(r[r.len() - 1] == wrapped[wrapped.len() - 1]);
    }
}

/// Builder for constructing metadata queries with a fluent interface.
///
/// The builder accumulates typed predicate expressions; `build` renders them
/// into a single query string joined by logical AND and constructs the query
/// description.
pub struct MDQueryBuilder {
    expressions: Vec<String>,
}

impl MDQueryBuilder {
    /// The expressions accumulated so far, each as its sequence of
    /// characters, in insertion order.
    pub closed spec fn exprs(self) -> Seq<Seq<char>> {
        self.expressions.deep_view()
    }

    /// Builds the query description from the accumulated expressions.
    ///
    /// The expressions are rendered each in its own parentheses and joined by
    /// logical AND, in insertion order; the given scopes and optional result
    /// cap are carried along. Fails, with no query produced, exactly when no
    /// expression was added.
    pub fn build(self, scopes: Vec<MDQueryScope>, max_count: Option<usize>) -> (result: Result<
        MDQuery,
        MDQueryError,
    >)
        ensures
            result is Err <==> self.exprs().len() == 0,
            result matches Err(e) ==> e == MDQueryError::NoExpressions,
            result matches Ok(q) ==> {
                &&& q.query@ == and_join(self.exprs())
                &&& q.scopes matches Some(strs) && strs.deep_view() == scope_strs(scopes@)
                &&& q.max_count == max_count
            },
    {
        if self.expressions.len() == 0 {
            return Err(MDQueryError::NoExpressions);
        }
        let query = self.gen_query();
        Ok(MDQuery { query, scopes: Some(scope_strings(scopes)), max_count })
    }

    /// Pushes one rendered expression onto the builder.
    fn push_expr(self, expr: String) -> (builder: Self)
        ensures
            builder.exprs() == self.exprs().push(expr@),
    {
        let ghost old_exprs = self.exprs();
        let mut expressions = self.expressions;
        expressions.push(expr);
        let builder = MDQueryBuilder { expressions };
        proof {
            assert(builder.exprs() =~= old_exprs.push(expr@));
        }
        builder
    }

    /// Generates the final query string by joining all expressions, each
    /// parenthesized, with AND operators.
    pub(crate) fn gen_query(&self) -> (query: String)
        ensures
            query@ == and_join(self.exprs()),
    {
        let mut query = String::new();
        let n = self.expressions.len();
        let mut i: usize = 0;
        while i < n
            invariant
                i <= n,
                n == self.expressions@.len(),
                query@ == and_join(self.exprs().take(i as int)),
            decreases n - i,
        {
            if i > 0 {
                query.append(" && ");
            }
            query.append("(");
            query.append(self.expressions[i].as_str());
            query.append(")");
            proof {
                let es = self.exprs();
                assert(es.take(i + 1).drop_last() =~= es.take(i as int));
                assert(es.take(i + 1).last() == self.expressions@[i as int]@);
                assert(query@ =~= and_join(es.take(i + 1)));
            }
            i = i + 1;
        }
        proof {
            assert(self.exprs().take(n as int) =~= self.exprs());
        }
        query
    }

    /// Adds an expression to match items whose display name contains the
    /// specified string.
    ///
    /// This performs a case-insensitive, word-based substring search.
    pub fn name_like(self, name: &str) -> (builder: Self)
        ensures
            builder.exprs() == self.exprs().push(name_like_expr(name@)),
    {
        let mut expr = String::from_str(MDItemKey::DisplayName.as_str());
        expr.append(" == \"*");
        expr.append(name);
        expr.append("*\"w");
        proof {
            assert(expr@ =~= name_like_expr(name@));
        }
        self.push_expr(expr)
    }

    /// Adds an expression to match items whose display name exactly matches
    /// the specified string, ignoring case.
    pub fn name_is(self, name: &str) -> (builder: Self)
        ensures
            builder.exprs() == self.exprs().push(name_is_expr(name@)),
    {
        let mut expr = String::from_str(MDItemKey::DisplayName.as_str());
        expr.append(" == \"");
        expr.append(name);
        expr.append("\"c");
        proof {
            assert(expr@ =~= name_is_expr(name@));
        }
        self.push_expr(expr)
    }

    /// Adds a time-based comparison expression.
    ///
    /// The key must name a time-typed attribute, and the timestamp must lie
    /// in the range the date-time library can represent; both are
    /// preconditions, so a misuse is a caller bug, not a recoverable
    /// failure.
    pub fn time(self, key: MDItemKey, op: MDQueryCompareOp, timestamp: i64) -> (builder: Self)
        requires
            key.spec_is_time(),
            timestamp_representable(timestamp as int),
        ensures
            builder.exprs() == self.exprs().push(time_expr(key, op, timestamp as int)),
    {
        let time_str = rfc3339_utc(timestamp);
        let mut expr = String::from_str(key.as_str());
        expr.append(" ");
        expr.append(op.into_query_string());
        expr.append(" $time.iso(");
        expr.append(time_str.as_str());
        expr.append(")");
        proof {
            assert(expr@ =~= time_expr(key, op, timestamp as int));
        }
        self.push_expr(expr)
    }

    /// Adds a file size comparison expression, with the size in bytes.
    pub fn size(self, op: MDQueryCompareOp, size: u64) -> (builder: Self)
        ensures
            builder.exprs() == self.exprs().push(size_expr(op, size)),
    {
        let mut expr = String::from_str(MDItemKey::Size.as_str());
        expr.append(" ");
        expr.append(op.into_query_string());
        expr.append(" ");
        let size_str = u64_to_string(size);
        expr.append(size_str.as_str());
        proof {
            assert(expr@ =~= size_expr(op, size));
        }
        self.push_expr(expr)
    }

    /// Adds an expression to filter items on whether they are directories.
    ///
    /// Special directory types such as app bundles are not included in the
    /// directory scope.
    pub fn is_dir(self, value: bool) -> (builder: Self)
        ensures
            builder.exprs() == self.exprs().push(is_dir_expr(value)),
    {
        let mut expr = String::from_str(MDItemKey::ContentType.as_str());
        expr.append(" ");
        if value {
            expr.append("==");
        } else {
            expr.append("!=");
        }
        expr.append(" \"public.folder\"");
        proof {
            assert(expr@ =~= is_dir_expr(value));
        }
        self.push_expr(expr)
    }

    /// Adds an expression to match application bundles.
    pub fn is_app(self) -> (builder: Self)
        ensures
            builder.exprs() == self.exprs().push(
                content_type_expr("com.apple.application-bundle"@),
            ),
    {
        self.content_type("com.apple.application-bundle")
    }

    /// Adds an expression to match items with the specified file extension
    /// (without the leading dot), ignoring case.
    pub fn extension(self, ext: &str) -> (builder: Self)
        ensures
            builder.exprs() == self.exprs().push(extension_expr(ext@)),
    {
        let mut expr = String::from_str(MDItemKey::FSName.as_str());
        expr.append(" == \"*.");
        expr.append(ext);
        expr.append("\"c");
        proof {
            assert(expr@ =~= extension_expr(ext@));
        }
        self.push_expr(expr)
    }

    /// Adds an expression to match items with the specified content type
    /// (a UTI string).
    pub fn content_type(self, content_type: &str) -> (builder: Self)
        ensures
            builder.exprs() == self.exprs().push(content_type_expr(content_type@)),
    {
        let mut expr = String::from_str(MDItemKey::ContentType.as_str());
        expr.append(" == \"");
        expr.append(content_type);
        expr.append("\"");
        proof {
            assert(expr@ =~= content_type_expr(content_type@));
        }
        self.push_expr(expr)
    }
}

impl core::default::Default for MDQueryBuilder {
    /// An empty builder, with no expressions yet.
    fn default() -> (builder: Self)
        ensures
            builder.exprs() == Seq::<Seq<char>>::empty(),
    {
        let builder = MDQueryBuilder { expressions: Vec::new() };
        proof {
            assert(builder.exprs() =~= Seq::<Seq<char>>::empty());
        }
        builder
    }
}

} // verus!
