use ccswitch::config::{resolve_config_dir, ConfigError};
use ccswitch::profile::{join_path, Profile};
use ccswitch::select::{
    build_choices, confirm_plan, confirmation_message, decide_mode, direct_switch_plan,
    find_by_name, find_by_path, resolve_selection, Mode, SelectError, Selection,
};
use ccswitch::store::{create_profile, get_profiles, DirEntry};

fn entry(name: &str, is_dir: bool) -> DirEntry {
    DirEntry { name: name.to_string(), is_dir }
}

fn sample_profiles() -> Vec<Profile> {
    let entries = vec![entry("work", true), entry("home", true), entry("play", true)];
    get_profiles("/cfg", &entries)
}

#[test]
fn join_path_inserts_single_separator() {
    assert_eq!(join_path("/cfg", "work"), "/cfg/work");
    assert_eq!(join_path("", ""), "/");
}

#[test]
fn config_dir_prefers_override() {
    let r = resolve_config_dir(Some("/override".to_string()), Some("/home/u".to_string()));
    assert_eq!(r.unwrap(), "/override");
}

#[test]
fn config_dir_override_without_home() {
    let r = resolve_config_dir(Some("/override".to_string()), None);
    assert_eq!(r.unwrap(), "/override");
}

#[test]
fn config_dir_defaults_under_home() {
    let r = resolve_config_dir(None, Some("/home/u".to_string()));
    assert_eq!(r.unwrap(), "/home/u/.config/ccswitch");
}

#[test]
fn config_dir_fails_without_home() {
    let r = resolve_config_dir(None, None);
    let e = r.unwrap_err();
    assert!(matches!(e, ConfigError::HomeNotSet));
    assert_eq!(e.message(), "Failed to read $HOME env");
}

#[test]
fn create_then_list_yields_the_profile() {
    let created = create_profile("/cfg", "alpha".to_string());
    assert_eq!(created.name, "alpha");
    assert_eq!(created.path, "/cfg/alpha");
    let entries = vec![entry("alpha", true)];
    let listed = get_profiles("/cfg", &entries);
    assert_eq!(listed.len(), 1);
    assert_eq!(listed[0].name, created.name);
    assert_eq!(listed[0].path, created.path);
}

#[test]
fn listing_skips_non_directories() {
    let entries = vec![
        entry("notes.txt", false),
        entry("work", true),
        entry("stray.log", false),
        entry("home", true),
        entry("link-to-file", false),
    ];
    let listed = get_profiles("/cfg", &entries);
    assert_eq!(listed.len(), 2);
    assert_eq!(listed[0].name, "work");
    assert_eq!(listed[0].path, "/cfg/work");
    assert_eq!(listed[1].name, "home");
    assert_eq!(listed[1].path, "/cfg/home");
}

#[test]
fn listing_of_empty_root_is_empty() {
    let listed = get_profiles("/cfg", &Vec::new());
    assert!(listed.is_empty());
}

#[test]
fn create_profile_twice_gives_the_same_path() {
    let first = create_profile("/cfg", "x".to_string());
    let second = create_profile("/cfg", "x".to_string());
    assert_eq!(first.path, second.path);
    assert_eq!(first.name, second.name);
}

#[test]
fn direct_switch_writes_exactly_the_path() {
    let profiles = sample_profiles();
    let content = direct_switch_plan(&profiles, "home".to_string()).unwrap();
    assert_eq!(content, "/cfg/home");
}

#[test]
fn direct_switch_unknown_name_is_an_error() {
    let profiles = sample_profiles();
    let e = direct_switch_plan(&profiles, "zzz".to_string()).unwrap_err();
    assert!(matches!(e, SelectError::ProfileNotFound { .. }));
    assert_eq!(e.message(), "Profile zzz is not found");
}

#[test]
fn confirm_reports_the_matching_profile() {
    let profiles = sample_profiles();
    let i = confirm_plan(&profiles, Some("/cfg/work".to_string())).unwrap();
    let message = confirmation_message(&profiles[i]);
    assert_eq!(message, "Switched to work (/cfg/work)");
    assert!(message.contains("work"));
}

#[test]
fn confirm_without_active_dir_is_an_error() {
    let profiles = sample_profiles();
    let e = confirm_plan(&profiles, None).unwrap_err();
    assert!(matches!(e, SelectError::ActiveDirNotSet));
    assert_eq!(e.message(), "Failed to get CLAUDE_CONFIG_DIR");
}

#[test]
fn confirm_with_unknown_path_is_an_error() {
    let profiles = sample_profiles();
    let e = confirm_plan(&profiles, Some("/elsewhere".to_string())).unwrap_err();
    assert!(matches!(e, SelectError::ActiveProfileNotFound));
    assert_eq!(e.message(), "No profile matches CLAUDE_CONFIG_DIR");
}

#[test]
fn mode_precedence_confirmation_first() {
    assert!(matches!(decide_mode(Some("work".to_string()), true), Mode::Confirm));
    assert!(matches!(decide_mode(None, true), Mode::Confirm));
    match decide_mode(Some("work".to_string()), false) {
        Mode::Direct { name } => assert_eq!(name, "work"),
        other => panic!("expected direct mode, got {:?}", other),
    }
    assert!(matches!(decide_mode(None, false), Mode::Interactive));
}

#[test]
fn choices_show_name_and_path_then_sentinel() {
    let profiles = sample_profiles();
    let choices = build_choices(&profiles);
    assert_eq!(choices.len(), 4);
    assert_eq!(choices[0], "work /cfg/work");
    assert_eq!(choices[1], "home /cfg/home");
    assert_eq!(choices[2], "play /cfg/play");
    assert_eq!(choices[3], "+ Create new Profile");
}

#[test]
fn selecting_the_sentinel_means_create() {
    let profiles = sample_profiles();
    let choices = build_choices(&profiles);
    let s = resolve_selection(&choices, &"+ Create new Profile".to_string()).unwrap();
    assert!(matches!(s, Selection::CreateNew));
}

#[test]
fn selecting_a_profile_resolves_by_position() {
    let profiles = sample_profiles();
    let choices = build_choices(&profiles);
    let s = resolve_selection(&choices, &"home /cfg/home".to_string()).unwrap();
    match s {
        Selection::Existing { index } => {
            assert_eq!(index, 1);
            assert_eq!(profiles[index].path, "/cfg/home");
        },
        other => panic!("expected an existing profile, got {:?}", other),
    }
}

#[test]
fn selecting_an_unknown_string_is_an_error() {
    let profiles = sample_profiles();
    let choices = build_choices(&profiles);
    let e = resolve_selection(&choices, &"nothing like this".to_string()).unwrap_err();
    assert!(matches!(e, SelectError::SelectionNotFound));
    assert_eq!(e.message(), "Failed to find selected profile");
}

#[test]
fn interactive_create_path_for_typed_name() {
    let profiles = sample_profiles();
    let choices = build_choices(&profiles);
    let s = resolve_selection(&choices, &"+ Create new Profile".to_string()).unwrap();
    assert!(matches!(s, Selection::CreateNew));
    let created = create_profile("/cfg", "work".to_string());
    assert_eq!(created.path, "/cfg/work");
}

#[test]
fn interactive_choices_for_empty_store() {
    let choices = build_choices(&Vec::new());
    assert_eq!(choices.len(), 1);
    assert_eq!(choices[0], "+ Create new Profile");
    let s = resolve_selection(&choices, &"+ Create new Profile".to_string()).unwrap();
    assert!(matches!(s, Selection::CreateNew));
}

#[test]
fn find_by_name_takes_the_first_match() {
    let entries = vec![entry("dup", true), entry("other", true), entry("dup", true)];
    let profiles = get_profiles("/cfg", &entries);
    assert_eq!(find_by_name(&profiles, &"dup".to_string()), Some(0));
    assert_eq!(find_by_name(&profiles, &"other".to_string()), Some(1));
    assert_eq!(find_by_name(&profiles, &"absent".to_string()), None);
}

#[test]
fn find_by_path_matches_exactly() {
    let profiles = sample_profiles();
    assert_eq!(find_by_path(&profiles, &"/cfg/play".to_string()), Some(2));
    assert_eq!(find_by_path(&profiles, &"/cfg/play/".to_string()), None);
}
