use vstd::prelude::*;

use crate::builder::MDQueryBuilder;
use crate::model::scope_str;
use crate::model::MDQueryScope;

verus! {

/// A failure in putting a query together.
#[derive(Clone, Copy, PartialEq, Eq, Structural, Debug)]
pub enum MDQueryError {
    /// `build` was called on a builder with no expressions.
    NoExpressions,
}

impl MDQueryError {
    /// A human-readable description of the failure.
    pub fn message(&self) -> (s: &'static str)
        ensures
            s@ == "No expressions to build"@,
    {
        match self {
            MDQueryError::NoExpressions => "No expressions to build",
        }
    }
}

/// The scope strings for a sequence of scopes, in order.
pub open spec fn scope_strs(scopes: Seq<MDQueryScope>) -> Seq<Seq<char>> {
    scopes.map_values(|scope: MDQueryScope| scope_str(scope))
}

/// A fully configured metadata query: the query string together with the
/// scope strings and the optional result cap that are applied to the native
/// query resource before it is executed. Construction of that resource, and
/// execution itself, happen at the native boundary outside this library.
pub struct MDQuery {
    /// The query string, in the grammar of the metadata service.
    pub query: String,
    /// The scope strings to restrict the search to; `None` leaves the search
    /// unrestricted.
    pub scopes: Option<Vec<String>>,
    /// The maximum number of results to return, if capped.
    pub max_count: Option<usize>,
}

impl MDQuery {
    /// Creates a new query builder with default settings.
    pub fn builder() -> (builder: MDQueryBuilder)
        ensures
            builder.exprs() == Seq::<Seq<char>>::empty(),
    {
        MDQueryBuilder::default()
    }

    /// Describes a query with the given query string and optional scopes and
    /// result cap. Each scope is translated to its scope string, in order.
    pub fn new(query: &str, scopes: Option<Vec<MDQueryScope>>, max_count: Option<usize>) -> (q:
        Self)
        ensures
            q.query@ == query@,
            q.max_count == max_count,
            match scopes {
                None => q.scopes is None,
                Some(list) => q.scopes matches Some(strs) && strs.deep_view() == scope_strs(
                    list@,
                ),
            },
    {
        let scopes = match scopes {
            None => None,
            Some(list) => Some(scope_strings(list)),
        };
        MDQuery { query: String::from_str(query), scopes, max_count }
    }
}

/// Translates each scope to its scope string, keeping the order.
pub(crate) fn scope_strings(scopes: Vec<MDQueryScope>) -> (strs: Vec<String>)
    ensures
        strs.deep_view() == scope_strs(scopes@),
{
    let ghost orig = scopes@;
    let mut rest = scopes;
    let mut strs: Vec<String> = Vec::new();
    while rest.len() > 0
        invariant
            strs@.len() + rest@.len() == orig.len(),
            strs.deep_view() == scope_strs(orig.take(strs@.len() as int)),
            rest@ == orig.skip(strs@.len() as int),
        decreases rest@.len(),
    {
        let ghost done = strs@.len() as int;
        let ghost prev = strs.deep_view();
        let scope = rest.remove(0);
        let s = scope.into_scope_string();
        strs.push(s);
        proof {
            assert(orig.skip(done)[0] == orig[done]);
            assert(rest@ =~= orig.skip(done + 1));
            assert(s@ == scope_str(orig[done]));
            assert forall|i: int| 0 <= i < done + 1 implies strs.deep_view()[i] == scope_strs(
                orig.take(done + 1),
            )[i] by {
                assert(orig.take(done + 1)[i] == orig[i]);
                if i < done {
                    assert(strs.deep_view()[i] == prev[i]);
                    assert(prev[i] == scope_strs(orig.take(done))[i]);
                    assert(scope_strs(orig.take(done))[i] == scope_str(orig.take(done)[i]));
                } else {
                    assert(strs@[done] == s);
                }
            }
            assert(strs.deep_view() =~= scope_strs(orig.take(done + 1)));
        }
    }
    proof {
        assert(orig.take(strs@.len() as int) =~= orig);
    }
    strs
}

} // verus!
