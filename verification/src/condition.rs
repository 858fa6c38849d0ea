use vstd::prelude::*;
use vstd::string::StringExecFns;

verus! {

/// Defines the logical operation to apply when combining multiple
/// expressions: All combines with logical AND, Any with logical OR.
#[derive(Clone, Copy, PartialEq, Eq, Structural, Debug)]
pub enum MDQueryConditionType {
    /// Combines all expressions with logical AND (&&)
    All,
    /// Combines all expressions with logical OR (||)
    Any,
}

/// The separator a connective joins its expressions with.
pub open spec fn connective_sep(t: MDQueryConditionType) -> Seq<char> {
    match t {
        MDQueryConditionType::All => " && "@,
        MDQueryConditionType::Any => " || "@,
    }
}

/// A structure for building complex, nested query conditions with logical
/// operators, beyond what the chained builder methods express.
pub struct MDQueryCondition {
    /// Whether the expressions are combined with logical AND (All) or OR
    /// (Any).
    pub condition_type: MDQueryConditionType,
    /// The list of expressions combined according to the condition type.
    pub expressions: Vec<MDQueryConditionExpression>,
}

/// Either a nested condition or a raw query expression string.
pub enum MDQueryConditionExpression {
    /// A nested condition structure
    Condition(MDQueryCondition),
    /// A raw query expression string
    Expression(String),
}

/// The fully parenthesized rendering of a condition: its expressions, each
/// rendered and joined by the connective's separator, wrapped in one pair of
/// parentheses. An empty condition renders to a bare pair of parentheses.
pub open spec fn cond_render(c: MDQueryCondition) -> Seq<char>
    decreases c,
{
    "("@ + exprs_join(c.expressions@, connective_sep(c.condition_type)) + ")"@
}

/// The rendering of one expression: a nested condition renders recursively,
/// a raw expression is wrapped in parentheses.
pub open spec fn expr_render(e: MDQueryConditionExpression) -> Seq<char>
    decreases e,
{
    match e {
        MDQueryConditionExpression::Condition(c) => cond_render(c),
        MDQueryConditionExpression::Expression(s) => "("@ + s@ + ")"@,
    }
}

/// The renderings of the expressions joined by the separator, in order.
pub open spec fn exprs_join(es: Seq<MDQueryConditionExpression>, sep: Seq<char>) -> Seq<char>
    decreases es,
{
    if es.len() == 0 {
        Seq::empty()
    } else if es.len() == 1 {
        expr_render(es[0])
    } else {
        exprs_join(es.drop_last(), sep) + sep + expr_render(es.last())
    }
}

/// A condition always renders syntactically wrapped: whatever its
/// expressions, the rendering is non-empty, opens with a parenthesis and
/// closes with one, so that conditions compose without regard to their
/// surroundings.
pub proof fn lemma_cond_render_parenthesized(c: MDQueryCondition)
    ensures
        cond_render(c).len() >= 2,
        cond_render(c)[0] == '(',
        cond_render(c)[cond_render(c).len() - 1] == ')',
{
    reveal_strlit("(");
    reveal_strlit(")");
    let body = exprs_join(c.expressions@, connective_sep(c.condition_type));
    let r = cond_render(c);
    assert(r[0] == '(');
    assert(r[r.len() - 1] == ")"@[0]);
}

/// An expression always renders wrapped in parentheses, whether it is a raw
/// expression or a nested condition.
pub proof fn lemma_expr_render_parenthesized(e: MDQueryConditionExpression)
    ensures
        expr_render(e).len() >= 2,
        expr_render(e)[0] == '(',
        expr_render(e)[expr_render(e).len() - 1] == ')',
{
    match e {
        MDQueryConditionExpression::Condition(c) => {
            lemma_cond_render_parenthesized(c);
        },
        MDQueryConditionExpression::Expression(s) => {
            reveal_strlit("(");
            reveal_strlit(")");
            let r = expr_render(e);
            assert(r[0] == '(');
            assert(r[r.len() - 1] == ")"@[0]);
        },
    }
}

impl MDQueryCondition {
    /// Converts the condition structure into a query expression string,
    /// recursively combining all expressions according to the condition type
    /// and parenthesizing the result.
    pub fn into_expression(self) -> (expr: String)
        ensures
            expr@ == cond_render(self),
    {
        self.render()
    }

    /// Renders the condition without consuming it.
    fn render(&self) -> (expr: String)
        ensures
            expr@ == cond_render(*self),
        decreases *self,
    {
        let sep: &str = match self.condition_type {
            MDQueryConditionType::All => " && ",
            MDQueryConditionType::Any => " || ",
        };
        let mut result = String::from_str("(");
        let ghost sp = connective_sep(self.condition_type);
        proof {
            assert(result@ =~= "("@ + exprs_join(self.expressions@.take(0), sp));
        }
        let n = self.expressions.len();
        let mut i: usize = 0;
        while i < n
            invariant
                i <= n,
                n == self.expressions@.len(),
                sep@ == sp,
                sp == connective_sep(self.condition_type),
                result@ == "("@ + exprs_join(self.expressions@.take(i as int), sp),
            decreases n - i,
        {
            if i > 0 {
                result.append(sep);
            }
            proof {
                assert(decreases_to!(*self => self.expressions@[i as int]));
            }
            let part = self.expressions[i].render();
            result.append(part.as_str());
            proof {
                let es = self.expressions@;
                if i == 0 {
                    assert(es.take(1)[0] == es[0]);
                    assert(result@ =~= "("@ + exprs_join(es.take(1), sp));
                } else {
                    assert(es.take(i as int + 1).drop_last() =~= es.take(i as int));
                    assert(es.take(i as int + 1).last() == es[i as int]);
                    assert(result@ =~= "("@ + exprs_join(es.take(i as int + 1), sp));
                }
            }
            i = i + 1;
        }
        result.append(")");
        proof {
            assert(self.expressions@.take(n as int) =~= self.expressions@);
        }
        result
    }
}

impl MDQueryConditionExpression {
    /// Converts the expression into a query string: a nested condition is
    /// processed recursively, a raw expression is wrapped in parentheses.
    pub fn into_expression(self) -> (expr: String)
        ensures
            expr@ == expr_render(self),
    {
        self.render()
    }

    /// Renders the expression without consuming it.
    fn render(&self) -> (expr: String)
        ensures
            expr@ == expr_render(*self),
        decreases *self,
    {
        match self {
            MDQueryConditionExpression::Condition(c) => c.render(),
            MDQueryConditionExpression::Expression(e) => {
                let mut result = String::from_str("(");
                result.append(e.as_str());
                result.append(")");
                proof {
                    assert(result@ =~= expr_render(*self));
                }
                result
            },
        }
    }
}

} // verus!
