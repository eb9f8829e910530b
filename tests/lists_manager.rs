use mcp_ectors::lists::{ListStore, ListToolsActor, Prompt, Resource, Tool};
use mcp_ectors::manager::RouterServiceManager;
use mcp_ectors::registry::RegisterError;
use mcp_ectors::watch::{watch_action, FsEventKind, WatchAction};

fn tool(name: &str) -> Tool {
    Tool {
        name: name.to_string(),
        description: format!("{} tool", name),
        input_schema: "{\"type\":\"object\"}".to_string(),
    }
}

fn resource(uri: &str) -> Resource {
    Resource {
        uri: uri.to_string(),
        name: "res".to_string(),
        description: None,
        mime_type: "text/plain".to_string(),
        annotations: None,
    }
}

fn prompt(name: &str) -> Prompt {
    Prompt { name: name.to_string(), description: Some("a prompt".to_string()), arguments: None }
}

fn tool_names(m: &RouterServiceManager) -> Vec<String> {
    m.get_list_tools().list_tools().iter().map(|t| t.name.clone()).collect()
}

#[test]
fn store_add_prefixes_and_keeps_order() {
    let mut s: ListStore<Tool> = ListStore::new();
    s.add("mock", vec![tool("b"), tool("a")]);
    let names: Vec<String> = s.items().iter().map(|t| t.name.clone()).collect();
    assert_eq!(names, vec!["mock_b".to_string(), "mock_a".to_string()]);
    assert_eq!(s.items()[0].description, "b tool");
    assert_eq!(s.items()[0].input_schema, "{\"type\":\"object\"}");
}

#[test]
fn store_remove_by_prefixed_identity() {
    let mut s: ListStore<Tool> = ListStore::new();
    s.add("x", vec![tool("t1"), tool("t2")]);
    s.add("y", vec![tool("t1")]);
    s.remove("x", &vec![tool("t1")]);
    let names: Vec<String> = s.items().iter().map(|t| t.name.clone()).collect();
    assert_eq!(names, vec!["x_t2".to_string(), "y_t1".to_string()]);
}

#[test]
fn store_remove_router_drops_all_its_items() {
    let mut s: ListStore<Resource> = ListStore::new();
    s.add("x", vec![resource("a"), resource("b_c")]);
    s.add("xy", vec![resource("a")]);
    s.remove_router(&"x".to_string());
    let uris: Vec<String> = s.items().iter().map(|r| r.uri.clone()).collect();
    assert_eq!(uris, vec!["xy_a".to_string()]);
}

#[test]
fn tools_actor_add_and_remove() {
    let mut a = ListToolsActor::new();
    a.add_tools(vec![tool("p_q")]);
    assert_eq!(a.list_tools().len(), 1);
    a.remove_tools("p", &vec![tool("q")]);
    assert!(a.list_tools().is_empty());
}

#[test]
fn tool_listing_contains_prefixed_name() {
    let mut m = RouterServiceManager::new();
    assert_eq!(m.register_router("mock".to_string(), 1, vec![tool("tool1")], vec![], vec![]), Ok(()));
    assert_eq!(tool_names(&m), vec!["mock_tool1".to_string()]);
}

#[test]
fn register_lists_each_item_once_and_unregister_removes_it() {
    let mut m = RouterServiceManager::new();
    assert_eq!(
        m.register_router(
            "mock".to_string(),
            1,
            vec![tool("tool1"), tool("echo_tool")],
            vec![resource("echo://fixedresource")],
            vec![prompt("dummy_prompt")],
        ),
        Ok(())
    );
    assert_eq!(m.register_router("other".to_string(), 2, vec![tool("tool1")], vec![], vec![]), Ok(()));
    let names = tool_names(&m);
    assert_eq!(names.iter().filter(|n| n.as_str() == "mock_tool1").count(), 1);
    assert_eq!(names.iter().filter(|n| n.as_str() == "mock_echo_tool").count(), 1);
    assert_eq!(m.get_list_resources().list_resources()[0].uri, "mock_echo://fixedresource");
    assert_eq!(m.get_list_prompts().list_prompts()[0].name, "mock_dummy_prompt");
    m.unregister_router(&"mock".to_string());
    assert_eq!(tool_names(&m), vec!["other_tool1".to_string()]);
    assert!(m.get_list_resources().list_resources().is_empty());
    assert!(m.get_list_prompts().list_prompts().is_empty());
    assert_eq!(m.get_router("mock_tool1".to_string()), None);
    assert_eq!(m.get_router("other_tool1".to_string()), Some((2, "tool1".to_string())));
}

#[test]
fn refused_registration_changes_nothing() {
    let mut m = RouterServiceManager::new();
    assert_eq!(m.register_router("a_b".to_string(), 1, vec![tool("t")], vec![], vec![]), Err(RegisterError::InvalidId));
    assert!(tool_names(&m).is_empty());
    assert_eq!(m.register_router("a".to_string(), 1, vec![tool("t")], vec![], vec![]), Ok(()));
    assert_eq!(
        m.register_router("a".to_string(), 2, vec![tool("u")], vec![], vec![]),
        Err(RegisterError::AlreadyRegistered)
    );
    assert_eq!(tool_names(&m), vec!["a_t".to_string()]);
    assert_eq!(m.get_registry().get_router("a".to_string()), Some((1, "a".to_string())));
}

#[test]
fn unregister_on_wasm_file_deletion() {
    let mut m = RouterServiceManager::new();
    let action = watch_action(FsEventKind::Create, Some("wasm"), Some("plugin"), true);
    let id = match action {
        WatchAction::Register(id) => id,
        _ => panic!("expected a registration"),
    };
    assert_eq!(id, "plugin");
    assert_eq!(m.register_router(id, 9, vec![tool("a"), tool("b")], vec![], vec![]), Ok(()));
    match watch_action(FsEventKind::Remove, Some("wasm"), Some("plugin"), false) {
        WatchAction::Unregister(id) => m.unregister_router(&id),
        _ => panic!("expected a removal"),
    }
    assert!(tool_names(&m).iter().all(|n| !n.starts_with("plugin_")));
    assert!(tool_names(&m).is_empty());
}

#[test]
fn watch_policy_per_event_kind() {
    assert!(matches!(watch_action(FsEventKind::Modify, Some("wasm"), Some("my_plugin"), true), WatchAction::Reregister(ref id) if id == "myplugin"));
    assert!(matches!(watch_action(FsEventKind::Modify, Some("wasm"), Some("my_plugin"), false), WatchAction::Unregister(ref id) if id == "myplugin"));
    assert!(matches!(watch_action(FsEventKind::Create, Some("txt"), Some("notes"), true), WatchAction::Ignore));
    assert!(matches!(watch_action(FsEventKind::Create, None, Some("notes"), true), WatchAction::Ignore));
    assert!(matches!(watch_action(FsEventKind::Other, Some("wasm"), Some("p"), true), WatchAction::Ignore));
    assert!(matches!(watch_action(FsEventKind::Create, Some("wasm"), None, true), WatchAction::Register(ref id) if id == "defaultname"));
}

#[test]
fn default_manager_has_the_system_router() {
    let m = RouterServiceManager::default(1);
    assert_eq!(m.get_router("system_all".to_string()), Some((1, "all".to_string())));
    assert!(tool_names(&m).is_empty());
    let resources = m.get_list_resources().list_resources();
    assert_eq!(resources.len(), 1);
    assert_eq!(resources[0].uri, "system_all");
    assert!(m.get_list_prompts().list_prompts().is_empty());
}
