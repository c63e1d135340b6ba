//! The explicit plugin registry: each interceptor registers its
//! (group, name) pair once, and duplicates are refused.

use router_pipeline::registry::{PluginRegistry, RegistryError};

fn registered() -> PluginRegistry {
    let mut registry = PluginRegistry::new();
    for name in [
        "catch_invalid_type_error",
        "catch_query_planner_error",
        "change_status_code",
        "response_stream_context_propagation",
        "test_plugin",
    ] {
        registry.register("my_example", name).expect("fresh name registers");
    }
    registry
}

#[test]
fn catch_invalid_type_error_plugin_registered() {
    assert!(registered().contains("my_example", "catch_invalid_type_error"));
}

#[test]
fn catch_query_planner_error_plugin_registered() {
    assert!(registered().contains("my_example", "catch_query_planner_error"));
}

#[test]
fn change_status_code_plugin_registered() {
    assert!(registered().contains("my_example", "change_status_code"));
}

#[test]
fn response_stream_context_propagation_plugin_registered() {
    assert!(registered().contains("my_example", "response_stream_context_propagation"));
}

#[test]
fn test_plugin_plugin_registered() {
    assert!(registered().contains("my_example", "test_plugin"));
}

#[test]
fn duplicate_registration_is_refused() {
    let mut registry = registered();
    assert_eq!(registry.len(), 5);
    assert_eq!(
        registry.register("my_example", "test_plugin"),
        Err(RegistryError::DuplicateName)
    );
    assert_eq!(registry.len(), 5);
}

#[test]
fn same_name_under_another_group_is_fine() {
    let mut registry = registered();
    assert_eq!(registry.register("another_group", "test_plugin"), Ok(()));
    assert!(registry.contains("another_group", "test_plugin"));
    assert!(!registry.contains("another_group", "change_status_code"));
}
