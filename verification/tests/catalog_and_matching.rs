use web_spec::cli::commands::{handle_list_steps, handle_search_steps};
use web_spec::discovery::catalog::build_step_catalog;
use web_spec::discovery::registry::StepRegistry;
use web_spec::discovery::search::{filter_by_category, search_steps};
use web_spec::discovery::schema::SchemaExport;

#[test]
fn test_list_steps() {
    let result = handle_list_steps(None, None);
    assert!(result.is_ok());
    let steps = result.unwrap();
    assert!(!steps.is_empty());
}

#[test]
fn test_search_steps() {
    let result = handle_search_steps("click", None);
    assert!(result.is_ok());
    let results = result.unwrap();
    assert!(!results.is_empty());
}

#[test]
fn test_search_by_id() {
    let catalog = build_step_catalog();
    let results = search_steps(catalog.all_steps(), "click");
    assert!(!results.is_empty());
    assert!(results.iter().any(|s| s.id == "click"));
}

#[test]
fn test_search_by_description() {
    let catalog = build_step_catalog();
    let results = search_steps(catalog.all_steps(), "navigate");
    assert!(!results.is_empty());
}

#[test]
fn test_filter_by_category() {
    let catalog = build_step_catalog();
    let results = filter_by_category(catalog.all_steps(), "Navigation");
    assert!(!results.is_empty());
    assert!(results.iter().all(|s| s.category == "Navigation"));
}

#[test]
fn catalog_categories_are_sorted_and_unique() {
    let catalog = build_step_catalog();
    let cats = &catalog.categories;
    assert!(!cats.is_empty());
    for w in cats.windows(2) {
        assert!(w[0] < w[1], "{} should sort before {}", w[0], w[1]);
    }
}

#[test]
fn find_by_id_returns_the_first_registration() {
    let catalog = build_step_catalog();
    let s = catalog.find_by_id("navigate_to").expect("navigate_to is registered");
    assert_eq!(s.category, "Navigation");
    assert!(catalog.find_by_id("no_such_step").is_none());
}

#[test]
fn first_match_wins_between_identical_patterns() {
    // two identical patterns registered under A (first) and B (second):
    // matching always selects A, never B
    let mut registry = StepRegistry::new();
    registry.register(r#"I poke "([^"]+)""#, "A").unwrap();
    registry.register(r#"I poke "([^"]+)""#, "B").unwrap();
    let m = registry.match_text(r#"I poke "the bear""#).expect("the pattern matches");
    assert_eq!(m.0, "A");
    let dups = registry.find_duplicate_patterns();
    assert_eq!(dups.len(), 1);
    assert_eq!(dups[0].0, "A");
    assert_eq!(dups[0].1, "B");
}

#[test]
fn match_text_scans_in_registration_order() {
    let mut registry = StepRegistry::new();
    registry.register(r#"I type "([^"]+)" into "([^"]+)""#, "type_text").unwrap();
    registry.register(r#"I type "([^"]+)""#, "type_short").unwrap();
    let m = registry.match_text(r#"I type "hello" into "input.name""#).unwrap();
    assert_eq!(m.0, "type_text");
    assert_eq!(m.1, vec!["hello".to_string(), "input.name".to_string()]);
    assert!(registry.match_text("I do nothing recognisable").is_none());
}

#[test]
fn invalid_pattern_fails_at_registration_time() {
    let mut registry = StepRegistry::new();
    let err = registry.register("I have an (unclosed group", "bad").err().unwrap();
    assert_eq!(err.identifier, "bad");
    // nothing was registered, so nothing matches
    assert!(registry.match_text("I have an (unclosed group").is_none());
}

#[test]
fn catalog_patterns_all_reach_the_matcher() {
    // cross-consistency: the registry built from the catalog accepts
    // every pattern the catalog holds
    let catalog = build_step_catalog();
    let registry = StepRegistry::from_catalog(&catalog).expect("all patterns compile");
    let entries = registry.entries.len();
    let expected: usize = catalog
        .all_steps()
        .iter()
        .map(|s| 1 + s.aliases.len())
        .sum();
    assert_eq!(entries, expected);
}

#[test]
fn matching_extracts_parameters_in_group_order() {
    let catalog = build_step_catalog();
    let registry = StepRegistry::from_catalog(&catalog).unwrap();
    let m = registry.match_text(r#"I type "secret" into "input.password""#).unwrap();
    assert_eq!(m.0, "type_text");
    assert_eq!(m.1, vec!["secret".to_string(), "input.password".to_string()]);
}

#[test]
fn non_participating_groups_are_omitted() {
    let mut registry = StepRegistry::new();
    registry.register(r#"I pick (?:a "([^"]+)"|nothing)"#, "pick").unwrap();
    // the alternation branch without the capture participates: the
    // parameter list is empty rather than holding a placeholder
    let m = registry.match_text("I pick nothing").unwrap();
    assert_eq!(m.0, "pick");
    assert_eq!(m.1, Vec::<String>::new());
    let m = registry.match_text(r#"I pick a "flower""#).unwrap();
    assert_eq!(m.1, vec!["flower".to_string()]);
}

#[test]
fn schema_export_mirrors_the_catalog() {
    let catalog = build_step_catalog();
    let schema = SchemaExport::from_catalog(&catalog);
    assert_eq!(schema.metadata.version, "0.1.0");
    assert_eq!(schema.metadata.total_steps, catalog.total_steps());
    assert_eq!(schema.steps.len(), catalog.total_steps());
    assert!(!schema.categories.is_empty());
    assert_eq!(schema.steps[0].id, catalog.all_steps()[0].id);
}

#[test]
fn list_steps_line_format_is_exact() {
    let lines = handle_list_steps(Some("Navigation".to_string()), None).unwrap();
    assert!(lines.contains(&"[Navigation] navigate_to - Navigate to a specified URL".to_string()));
    for l in &lines {
        assert!(l.starts_with("[Navigation] "));
    }
}

#[test]
fn catalog_is_the_fixed_table() {
    let a = build_step_catalog();
    let b = build_step_catalog();
    assert_eq!(a.total_steps(), 174);
    assert_eq!(b.total_steps(), 174);
    for (x, y) in a.all_steps().iter().zip(b.all_steps().iter()) {
        assert_eq!(x.id, y.id);
        assert_eq!(x.pattern, y.pattern);
        assert!(!x.id.is_empty());
        assert!(!x.pattern.is_empty());
    }
}

#[test]
fn the_first_table_entry_is_pinned() {
    let catalog = build_step_catalog();
    let first = &catalog.all_steps()[0];
    assert_eq!(first.id, "activate_tab");
    assert_eq!(first.pattern, r#"I activate tab "([^"]+)""#);
    assert_eq!(first.category, "Other");
}

