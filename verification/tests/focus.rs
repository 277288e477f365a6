use cyberpunk_mod_manager::app::state::{AppMode, AppState, AppStatus, Focus, UiMode};

fn names(list: &[&str]) -> Vec<String> {
    list.iter().map(|s| s.to_string()).collect()
}

#[test]
fn the_names_of_the_widgets() {
    assert_eq!(Focus::NoFocus.to_str(), "Nothing");
    assert_eq!(Focus::Submit.to_str(), "Submit");
    assert_eq!(Focus::ModFolderInput.to_str(), "Mod Folder");
    assert_eq!(Focus::CyberpunkFolderInput.to_str(), "Cyberpunk Folder");
    assert_eq!(Focus::from_str("Submit"), Focus::Submit);
    assert_eq!(Focus::from_str("Mod Folder"), Focus::ModFolderInput);
    assert_eq!(Focus::from_str("Cyberpunk Folder"), Focus::CyberpunkFolderInput);
    assert_eq!(Focus::from_str("Nothing"), Focus::NoFocus);
    assert_eq!(Focus::from_str("submit"), Focus::NoFocus);
    assert_eq!(Focus::from_str(""), Focus::NoFocus);
    assert_eq!(
        Focus::all(),
        vec![Focus::Submit, Focus::ModFolderInput, Focus::CyberpunkFolderInput]
    );
}

#[test]
fn the_focus_goes_through_the_form_in_order() {
    let tabs = UiMode::SelectFolder.get_available_targets();
    assert_eq!(tabs, names(&["Mod Folder", "Cyberpunk Folder", "Submit"]));
    assert_eq!(Focus::ModFolderInput.next(&tabs), Focus::CyberpunkFolderInput);
    assert_eq!(Focus::CyberpunkFolderInput.next(&tabs), Focus::Submit);
    assert_eq!(Focus::Submit.next(&tabs), Focus::ModFolderInput);
    assert_eq!(Focus::ModFolderInput.prev(&tabs), Focus::Submit);
    assert_eq!(Focus::CyberpunkFolderInput.prev(&tabs), Focus::ModFolderInput);
    assert_eq!(Focus::Submit.prev(&tabs), Focus::CyberpunkFolderInput);
}

#[test]
fn next_and_prev_undo_each_other() {
    let lists = vec![
        names(&["Mod Folder", "Cyberpunk Folder", "Submit"]),
        names(&["Submit", "Mod Folder"]),
        names(&["Nothing", "Submit", "Cyberpunk Folder", "Mod Folder"]),
    ];
    for tabs in lists {
        for name in &tabs {
            let focus = Focus::from_str(name);
            assert_eq!(focus.next(&tabs).prev(&tabs), focus);
            assert_eq!(focus.prev(&tabs).next(&tabs), focus);
        }
    }
}

#[test]
fn a_widget_that_is_not_listed_counts_as_the_first() {
    let tabs = names(&["Mod Folder", "Cyberpunk Folder", "Submit"]);
    assert_eq!(Focus::NoFocus.next(&tabs), Focus::CyberpunkFolderInput);
    assert_eq!(Focus::NoFocus.prev(&tabs), Focus::Submit);
    assert_eq!(Focus::NoFocus.next(&tabs).prev(&tabs), Focus::ModFolderInput);
}

#[test]
fn a_name_of_no_widget_gives_no_focus() {
    let tabs = names(&["Submit", "Somewhere"]);
    assert_eq!(Focus::Submit.next(&tabs), Focus::NoFocus);
    assert_eq!(Focus::Submit.prev(&tabs), Focus::NoFocus);
}

#[test]
fn a_list_of_at_most_one_name_gives_no_focus() {
    let none: Vec<String> = vec![];
    let one = names(&["Submit"]);
    for focus in [
        Focus::NoFocus,
        Focus::Submit,
        Focus::ModFolderInput,
        Focus::CyberpunkFolderInput,
    ] {
        assert_eq!(focus.next(&none), Focus::NoFocus);
        assert_eq!(focus.prev(&none), Focus::NoFocus);
        assert_eq!(focus.next(&one), Focus::NoFocus);
        assert_eq!(focus.prev(&one), Focus::NoFocus);
    }
    assert!(UiMode::Explore.get_available_targets().is_empty());
    assert_eq!(Focus::Submit.next(&UiMode::Explore.get_available_targets()), Focus::NoFocus);
}

#[test]
fn the_names_of_the_views() {
    assert_eq!(UiMode::Explore.to_string(), "Explore");
    assert_eq!(UiMode::SelectFolder.to_string(), "Select Folder");
    assert_eq!(UiMode::from_string("Explore"), Some(UiMode::Explore));
    assert_eq!(UiMode::from_string("Select Folder"), Some(UiMode::SelectFolder));
    assert_eq!(UiMode::from_string("select folder"), None);
    assert_eq!(UiMode::from_string(""), None);
}

#[test]
fn the_phases() {
    assert_eq!(AppStatus::initialized(), AppStatus::Initialized);
    assert!(AppStatus::Initialized.is_initialized());
    assert!(!AppStatus::Init.is_initialized());
    assert!(!AppStatus::UserInput.is_initialized());
    assert_ne!(AppMode::Normal, AppMode::Input);
}

#[test]
fn the_state_at_start() {
    let state = AppState::default();
    assert_eq!(state.status, AppStatus::Init);
    assert_eq!(state.focus, Focus::NoFocus);
    assert_eq!(state.current_input, "");
    assert_eq!(state.select_folder_form.to_vec(), vec![String::new(), String::new()]);
    assert_eq!(state.ui_mode, UiMode::Explore);
    assert!(state.file_list.items.is_empty());
    assert_eq!(state.file_list.state.selected(), None);
    assert_eq!(state.mod_options.items, names(&["Install", "Uninstall", "Repair"]));
    assert_eq!(state.mod_options.state.selected(), None);
    assert_eq!(state.cursor_position, None);
}
