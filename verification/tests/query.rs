use mdquery_rs::MDQuery;
use mdquery_rs::MDQueryBuilder;
use mdquery_rs::MDQueryScope;

#[test]
fn test_new_keeps_query_string() {
    let query = MDQuery::new("kMDItemFSName = \"Safari.app\"", None, None);
    assert_eq!(query.query, "kMDItemFSName = \"Safari.app\"");
    assert!(query.scopes.is_none());
    assert!(query.max_count.is_none());
}

#[test]
fn test_new_translates_scopes() {
    let scopes = vec![
        MDQueryScope::Home,
        MDQueryScope::Computer,
        MDQueryScope::Network,
        MDQueryScope::AllIndexed,
        MDQueryScope::ComputerIndexed,
        MDQueryScope::NetworkIndexed,
        MDQueryScope::Custom("/Applications".into()),
    ];
    let query = MDQuery::new("q", Some(scopes), Some(5));
    assert_eq!(
        query.scopes.as_deref(),
        Some(
            &[
                "kMDQueryScopeHome".to_string(),
                "kMDQueryScopeComputer".to_string(),
                "kMDQueryScopeNetwork".to_string(),
                "kMDQueryScopeAllIndexed".to_string(),
                "kMDQueryScopeComputerIndexed".to_string(),
                "kMDQueryScopeNetworkIndexed".to_string(),
                "/Applications".to_string(),
            ][..]
        )
    );
    assert_eq!(query.max_count, Some(5));
}

#[test]
fn test_scope_from_path() {
    let scope = MDQueryScope::from_path("/Applications");
    let query = MDQuery::new("q", Some(vec![scope]), None);
    assert_eq!(
        query.scopes.as_deref(),
        Some(&["/Applications".to_string()][..])
    );
}

#[test]
fn test_builder_starts_empty() {
    let result = MDQuery::builder().build(vec![MDQueryScope::Home], Some(1));
    assert!(result.is_err());
}

#[test]
fn test_build_carries_scopes_and_cap() {
    let query = MDQueryBuilder::default()
        .name_like("Safari")
        .build(vec![MDQueryScope::Computer], Some(1))
        .unwrap();
    assert_eq!(
        query.scopes.as_deref(),
        Some(&["kMDQueryScopeComputer".to_string()][..])
    );
    assert_eq!(query.max_count, Some(1));
}
