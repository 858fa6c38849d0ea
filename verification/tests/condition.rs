use mdquery_rs::MDQueryCondition;
use mdquery_rs::MDQueryConditionExpression;
use mdquery_rs::MDQueryConditionType;

#[test]
fn test_condition_all() {
    let condition = MDQueryCondition {
        condition_type: MDQueryConditionType::All,
        expressions: vec![
            MDQueryConditionExpression::Expression("kMDItemFSName == \"test.txt\"".into()),
            MDQueryConditionExpression::Expression("kMDItemTextContent == \"hello\"".into()),
        ],
    };
    assert_eq!(
        condition.into_expression(),
        "((kMDItemFSName == \"test.txt\") && (kMDItemTextContent == \"hello\"))"
    );
}

#[test]
fn test_condition_any() {
    let condition = MDQueryCondition {
        condition_type: MDQueryConditionType::Any,
        expressions: vec![
            MDQueryConditionExpression::Expression("kMDItemFSName == \"doc.pdf\"".into()),
            MDQueryConditionExpression::Expression("kMDItemFSName == \"doc.txt\"".into()),
        ],
    };
    assert_eq!(
        condition.into_expression(),
        "((kMDItemFSName == \"doc.pdf\") || (kMDItemFSName == \"doc.txt\"))"
    );
}

#[test]
fn test_nested_condition() {
    let inner_condition = MDQueryCondition {
        condition_type: MDQueryConditionType::Any,
        expressions: vec![
            MDQueryConditionExpression::Expression("kMDItemFSName == \"*.txt\"".into()),
            MDQueryConditionExpression::Expression("kMDItemFSName == \"*.pdf\"".into()),
        ],
    };

    let outer_condition = MDQueryCondition {
        condition_type: MDQueryConditionType::All,
        expressions: vec![
            MDQueryConditionExpression::Condition(inner_condition),
            MDQueryConditionExpression::Expression("kMDItemTextContent == \"test\"".into()),
        ],
    };

    assert_eq!(
        outer_condition.into_expression(),
        "(((kMDItemFSName == \"*.txt\") || (kMDItemFSName == \"*.pdf\")) && (kMDItemTextContent == \"test\"))"
    );
}

#[test]
fn test_empty_condition() {
    let condition = MDQueryCondition {
        condition_type: MDQueryConditionType::All,
        expressions: vec![],
    };
    assert_eq!(condition.into_expression(), "()");
}

#[test]
fn test_single_expression_condition() {
    let condition = MDQueryCondition {
        condition_type: MDQueryConditionType::Any,
        expressions: vec![MDQueryConditionExpression::Expression("kMDItemFSSize > 10".into())],
    };
    assert_eq!(condition.into_expression(), "((kMDItemFSSize > 10))");
}

#[test]
fn test_expression_into_expression() {
    let expr = MDQueryConditionExpression::Expression("kMDItemFSName == \"a\"".into());
    assert_eq!(expr.into_expression(), "(kMDItemFSName == \"a\")");
}
