use warp_terminal::profiles::{
    all_project_markers, project_files, AutoSwitchRule, ProfileError, ProfileManager, ProfilesConfig,
    SwitchCondition, SwitchContext, UserProfile,
};

fn manager() -> ProfileManager {
    ProfileManager::from_config(ProfilesConfig::default(), "/tmp/profiles".to_string(), "/tmp/profiles/profiles.yaml".to_string())
}

fn ctx() -> SwitchContext {
    SwitchContext {
        directory: "/home/me/projects/warp".to_string(),
        seconds_from_midnight: 10 * 3600,
        nanosecond: 0,
        weekday: "Mon".to_string(),
        present_files: vec!["Cargo.toml".to_string()],
        origin_url: Some("git@github.com:me/warp.git".to_string()),
    }
}

fn rule(condition: SwitchCondition, target: u128, enabled: bool) -> AutoSwitchRule {
    AutoSwitchRule { id: target + 1000, name: "r".to_string(), condition, target_profile_id: target, enabled }
}

#[test]
fn default_configuration_has_one_active_default_profile() {
    let m = manager();
    let active = m.get_active_profile().unwrap();
    assert!(active.is_default);
    assert_eq!(active.name, "Default");
    assert_eq!(active.description.as_deref(), Some("Default user profile"));
    assert_eq!(active.tags, vec!["default".to_string()]);
    assert_eq!(m.get_all_profiles().len(), 1);
    assert_eq!(m.get_quick_switch_profiles().len(), 1);
}

#[test]
fn test_profile_creation() {
    let mut m = manager();
    let id = m.create_profile("Test Profile".to_string(), Some("Test description".to_string()));
    let p = m.get_profile(&id).unwrap();
    assert_eq!(p.name, "Test Profile");
    assert_eq!(p.description, Some("Test description".to_string()));
    assert!(!p.is_default);
    assert_eq!(p.id, id);
    assert_eq!(m.get_all_profiles().len(), 2);
}

#[test]
fn test_profile_switching() {
    let mut m = manager();
    let id = m.create_profile("Test Profile".to_string(), None);
    assert_eq!(m.switch_profile(&id), Ok(()));
    assert_eq!(m.get_active_profile().unwrap().id, id);
    assert_eq!(m.get_config().active_profile_id, id);
    assert_eq!(m.switch_profile(&12345), Err(ProfileError::NotFound));
    assert_eq!(ProfileError::NotFound.message(), "Profile not found");
}

#[test]
fn test_profile_duplication() {
    let mut m = manager();
    let original_id = m.create_profile("Original".to_string(), None);
    let duplicate_id = m.duplicate_profile(&original_id, "Duplicate".to_string()).unwrap();
    let original = m.get_profile(&original_id).unwrap();
    let duplicate = m.get_profile(&duplicate_id).unwrap();
    assert_eq!(duplicate.name, "Duplicate");
    assert_eq!(original.config.theme, duplicate.config.theme);
    assert_ne!(original.id, duplicate.id);
    assert!(!duplicate.is_default);
    assert_eq!(m.duplicate_profile(&1, "x".to_string()), Err(ProfileError::SourceNotFound));
    assert_eq!(ProfileError::SourceNotFound.message(), "Source profile not found");
}

#[test]
fn default_profile_cannot_be_deleted() {
    let mut m = manager();
    let default_id = m.get_active_profile().unwrap().id;
    assert_eq!(m.delete_profile(&default_id), Err(ProfileError::CannotDeleteDefault));
    assert!(m.get_profile(&default_id).is_some());
    assert_eq!(ProfileError::CannotDeleteDefault.message(), "Cannot delete default profile");
}

#[test]
fn deleting_the_active_profile_falls_back_to_the_default() {
    let mut m = manager();
    let default_id = m.get_active_profile().unwrap().id;
    let id = m.create_profile("Work".to_string(), None);
    m.add_to_quick_switch(id);
    m.switch_profile(&id).unwrap();
    assert_eq!(m.delete_profile(&id), Ok(()));
    assert!(m.get_profile(&id).is_none());
    assert_eq!(m.get_active_profile().unwrap().id, default_id);
    assert!(!m.get_config().quick_switch_profiles.contains(&id));
    assert_eq!(m.delete_profile(&777), Ok(()));
}

#[test]
fn quick_switch_list_has_no_duplicates() {
    let mut m = manager();
    let id = m.create_profile("Work".to_string(), None);
    m.add_to_quick_switch(id);
    m.add_to_quick_switch(id);
    assert_eq!(m.get_config().quick_switch_profiles.iter().filter(|x| **x == id).count(), 1);
    assert_eq!(m.get_quick_switch_profiles().len(), 2);
    m.add_to_quick_switch(4242);
    assert_eq!(m.get_quick_switch_profiles().len(), 2);
    m.remove_from_quick_switch(&id);
    assert!(!m.get_config().quick_switch_profiles.contains(&id));
}

#[test]
fn update_and_import() {
    let mut m = manager();
    let id = m.create_profile("A".to_string(), None);
    let mut replacement = UserProfile::default();
    replacement.name = "B".to_string();
    assert_eq!(m.update_profile(&id, replacement), Ok(()));
    assert_eq!(m.get_profile(&id).unwrap().name, "B");
    assert_eq!(m.update_profile(&99, UserProfile::default()), Err(ProfileError::NotFound));
    let mut imported = UserProfile::default();
    imported.name = "Imported".to_string();
    let new_id = m.import_profile(imported);
    let p = m.get_profile(&new_id).unwrap();
    assert_eq!(p.name, "Imported");
    assert!(!p.is_default);
    assert_eq!(p.id, new_id);
}

#[test]
fn tags_and_search() {
    let mut m = manager();
    let id = m.create_profile("Work Setup".to_string(), Some("For the OFFICE".to_string()));
    assert_eq!(m.get_profiles_by_tag("default").len(), 1);
    assert_eq!(m.get_profiles_by_tag("work").len(), 0);
    let found = m.search_profiles("office");
    assert_eq!(found.len(), 1);
    assert_eq!(found[0].id, id);
    assert_eq!(m.search_profiles("SETUP").len(), 1);
    assert_eq!(m.search_profiles("DEFAULT").len(), 1);
    assert_eq!(m.search_profiles("zzz").len(), 0);
}

#[test]
fn auto_switch_rules_pick_the_first_enabled_match() {
    let mut m = manager();
    m.add_auto_switch_rule(rule(SwitchCondition::DirectoryPattern("elsewhere".to_string()), 1, true));
    m.add_auto_switch_rule(rule(SwitchCondition::DirectoryPattern("warp".to_string()), 2, false));
    m.add_auto_switch_rule(rule(SwitchCondition::ProjectType("rust".to_string()), 3, true));
    m.add_auto_switch_rule(rule(SwitchCondition::DirectoryPattern("projects".to_string()), 4, true));
    assert_eq!(m.check_auto_switch_rules(&ctx()), Some(3));
    m.remove_auto_switch_rule(&1003);
    assert_eq!(m.check_auto_switch_rules(&ctx()), Some(4));
}

#[test]
fn each_condition_kind() {
    let c = ctx();
    let cases = vec![
        (SwitchCondition::TimeOfDay { start: "09:00".to_string(), end: "17:30".to_string() }, true),
        (SwitchCondition::TimeOfDay { start: "11:00".to_string(), end: "12:00".to_string() }, false),
        (SwitchCondition::TimeOfDay { start: "bad".to_string(), end: "12:00".to_string() }, false),
        (SwitchCondition::TimeOfDay { start: "09:00".to_string(), end: "10:00".to_string() }, true),
        (SwitchCondition::DayOfWeek(vec!["Sat".to_string(), "Mon".to_string()]), true),
        (SwitchCondition::DayOfWeek(vec!["Tue".to_string()]), false),
        (SwitchCondition::ProjectType("node".to_string()), false),
        (SwitchCondition::ProjectType("cobol".to_string()), false),
        (SwitchCondition::GitRepository("me/warp".to_string()), true),
        (SwitchCondition::GitRepository("other".to_string()), false),
    ];
    for (cond, expected) in cases {
        let mut m = manager();
        m.add_auto_switch_rule(rule(cond, 7, true));
        assert_eq!(m.check_auto_switch_rules(&c).is_some(), expected);
    }
    let mut late = ctx();
    late.seconds_from_midnight = 10 * 3600;
    late.nanosecond = 5;
    let mut m = manager();
    m.add_auto_switch_rule(rule(SwitchCondition::TimeOfDay { start: "09:00".to_string(), end: "10:00".to_string() }, 7, true));
    assert_eq!(m.check_auto_switch_rules(&late), None);
}

#[test]
fn project_markers() {
    assert_eq!(project_files("python"), vec!["requirements.txt".to_string(), "pyproject.toml".to_string()]);
    assert!(project_files("haskell").is_empty());
    assert_eq!(all_project_markers().len(), 5);
}
