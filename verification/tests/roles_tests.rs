use warp_terminal::ai::mcp::view::roles::McpRolesManager;
use warp_terminal::ai::mcp::view::editor::McpViewEditor;
use warp_terminal::ai::mcp::view::collection::McpViewCollection;

#[test]
fn test_role_assignment_and_permissions() {
    let mut manager = McpRolesManager::new();

    manager.assign_role("test_user_1", "developer");
    let user_role = manager.get_user_role("test_user_1");
    assert!(user_role.is_some());
    assert_eq!(user_role.unwrap().name, "developer");
    assert!(manager.has_permission("test_user_1", "read_code"));
    assert!(!manager.has_permission("test_user_1", "delete_data"));

    manager.assign_role("test_user_2", "non_existent_role");
    assert!(manager.get_user_role("test_user_2").is_none());

    manager.assign_role("admin_user", "admin");
    assert!(manager.has_permission("admin_user", "any_permission_imaginable"));
    assert!(manager.has_permission("admin_user", "read_only"));
}

#[test]
fn unknown_user_has_no_permission() {
    let manager = McpRolesManager::new();
    assert!(manager.get_user_role("nobody").is_none());
    assert!(!manager.has_permission("nobody", "read_code"));
}

#[test]
fn reassigning_replaces_the_role() {
    let mut manager = McpRolesManager::new();
    manager.assign_role("u", "admin");
    manager.assign_role("u", "developer");
    assert_eq!(manager.get_user_role("u").unwrap().name, "developer");
    assert!(!manager.has_permission("u", "delete_data"));
}

#[test]
fn editor_answers_and_renders() {
    let mut e = McpViewEditor::new();
    e.set_prompt("hello".to_string());
    e.process_input("list files");
    assert_eq!(e.get_current_context(), "Current prompt: hello");
    assert_eq!(e.render(), "Rendering MCP Editor View. Prompt: 'hello', Response: 'AI response to: list files'");
}

#[test]
fn collection_selects_existing_items_only() {
    let mut c = McpViewCollection::new();
    assert!(c.get_selected_item_name().is_none());
    c.select_item(1);
    assert_eq!(c.get_selected_item_name().unwrap(), "Notebook B");
    c.select_item(7);
    assert_eq!(c.get_selected_item_name().unwrap(), "Notebook B");
}

#[test]
fn each_role_is_named_by_its_key() {
    let mut manager = McpRolesManager::new();
    for name in ["admin", "developer", "viewer"] {
        manager.assign_role(name, name);
        assert_eq!(manager.get_user_role(name).unwrap().name, name);
    }
    assert!(manager.has_permission("viewer", "read_only"));
    assert!(!manager.has_permission("viewer", "read_code"));
}

#[test]
fn selection_is_the_last_index_in_range() {
    let mut c = McpViewCollection::new();
    for i in [5usize, 9, 3] {
        c.select_item(i);
    }
    assert!(c.get_selected_item_name().is_none());
    for i in [2usize, 0, 8, 3] {
        c.select_item(i);
    }
    assert_eq!(c.get_selected_item_name().unwrap(), "Workflow A");
    c.display();
    assert_eq!(c.get_selected_item_name().unwrap(), "Workflow A");
}
