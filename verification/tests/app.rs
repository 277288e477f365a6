use cyberpunk_mod_manager::app::actions::Action;
use cyberpunk_mod_manager::app::state::{AppStatus, Focus, UiMode};
use cyberpunk_mod_manager::app::utils::ModPopup;
use cyberpunk_mod_manager::app::utils::log_help;
use cyberpunk_mod_manager::app::{App, AppReturn, LogLevel};
use cyberpunk_mod_manager::inputs::key::Key;
use cyberpunk_mod_manager::io::handler::{do_load_mods, folder_inputs, FolderScan};
use cyberpunk_mod_manager::io::IoEvent;

fn pair(texts: Vec<String>) -> [String; 2] {
    texts.try_into().expect("two texts")
}

fn ready() -> App {
    let mut app = App::new();
    app.initialized();
    app
}

fn with_files(names: &[&str]) -> App {
    let mut app = ready();
    app.state.file_list.items = names.iter().map(|n| (n.to_string(), 1usize)).collect();
    app
}

fn press_all(app: &mut App, keys: &[Key]) {
    for key in keys {
        assert_eq!(app.do_action(*key), AppReturn::Continue);
    }
}

fn type_text(app: &mut App, text: &str) {
    for c in text.chars() {
        assert_eq!(app.do_action(Key::Char(c)), AppReturn::Continue);
    }
}

fn no_folder(path: &str) -> FolderScan {
    FolderScan { path: path.to_string(), is_dir: false, entries: vec![] }
}

#[test]
fn at_start_only_quitting_is_enabled() {
    let mut app = App::new();
    assert_eq!(app.actions().actions(), &[Action::Quit]);
    assert_eq!(*app.status(), AppStatus::Init);
    assert!(!app.is_loading());
    assert!(app.requests.is_empty());
    assert!(app.mod_popup.is_none());
    assert!(app.mod_folder.is_none());
    assert!(app.cyberpunk_folder.is_none());
    assert_eq!(app.do_action(Key::Char('f')), AppReturn::Continue);
    assert_eq!(app.state.ui_mode, UiMode::Explore);
    assert_eq!(app.do_action(Key::Esc), AppReturn::Continue);
    assert_eq!(app.do_action(Key::Char('q')), AppReturn::Exit);
    assert_eq!(app.do_action(Key::Ctrl('c')), AppReturn::Exit);
}

#[test]
fn after_start_up_every_command_is_enabled() {
    let app = ready();
    assert_eq!(app.actions().actions(), Action::all().as_slice());
    assert_eq!(*app.status(), AppStatus::Initialized);
}

#[test]
fn a_chord_that_stands_for_nothing_changes_nothing() {
    let mut app = with_files(&["a.zip", "b.zip"]);
    assert_eq!(app.do_action(Key::Alt('w')), AppReturn::Continue);
    assert_eq!(app.do_action(Key::Char('z')), AppReturn::Continue);
    assert_eq!(app.do_action(Key::PageDown), AppReturn::Continue);
    assert_eq!(app.state.ui_mode, UiMode::Explore);
    assert_eq!(app.state.focus, Focus::NoFocus);
    assert_eq!(app.state.file_list.state.selected(), None);
    assert_eq!(*app.status(), AppStatus::Initialized);
    assert!(app.requests.is_empty());
    assert!(!app.is_loading());
}

#[test]
fn quit_ends_the_loop_in_every_view() {
    let mut app = ready();
    assert_eq!(app.do_action(Key::Char('q')), AppReturn::Exit);
    press_all(&mut app, &[Key::Char('f')]);
    assert_eq!(app.do_action(Key::Ctrl('c')), AppReturn::Exit);
}

#[test]
fn the_selection_goes_round_the_packages() {
    let mut app = with_files(&["a.zip", "b.zip", "c.zip"]);
    press_all(&mut app, &[Key::Down]);
    assert_eq!(app.state.file_list.state.selected(), Some(0));
    press_all(&mut app, &[Key::Down, Key::Down]);
    assert_eq!(app.state.file_list.state.selected(), Some(2));
    press_all(&mut app, &[Key::Down]);
    assert_eq!(app.state.file_list.state.selected(), Some(0));
    press_all(&mut app, &[Key::Up]);
    assert_eq!(app.state.file_list.state.selected(), Some(2));
    press_all(&mut app, &[Key::Up]);
    assert_eq!(app.state.file_list.state.selected(), Some(1));
    assert_eq!(app.state.mod_options.state.selected(), None);
}

#[test]
fn an_empty_list_selects_the_first_index() {
    let mut app = ready();
    press_all(&mut app, &[Key::Down]);
    assert_eq!(app.state.file_list.state.selected(), Some(0));
    press_all(&mut app, &[Key::Down]);
    assert_eq!(app.state.file_list.state.selected(), Some(0));
    press_all(&mut app, &[Key::Up]);
    assert_eq!(app.state.file_list.state.selected(), Some(0));
    press_all(&mut app, &[Key::Enter]);
    assert_eq!(app.pending_check, None);
    assert!(app.requests.is_empty());
}

#[test]
fn with_the_popup_open_the_selection_goes_round_the_choices() {
    let mut app = with_files(&["a.zip", "b.zip"]);
    press_all(&mut app, &[Key::Down]);
    app.mod_popup = Some(ModPopup::new("a.zip".to_string()));
    press_all(&mut app, &[Key::Down]);
    assert_eq!(app.state.mod_options.state.selected(), Some(0));
    press_all(&mut app, &[Key::Up]);
    assert_eq!(app.state.mod_options.state.selected(), Some(2));
    press_all(&mut app, &[Key::Down]);
    assert_eq!(app.state.mod_options.state.selected(), Some(0));
    assert_eq!(app.state.file_list.state.selected(), Some(0));
}

#[test]
fn left_and_right_do_nothing_outside_a_text() {
    let mut app = with_files(&["a.zip"]);
    app.state.cursor_position = None;
    press_all(&mut app, &[Key::Left, Key::Right]);
    assert_eq!(app.state.cursor_position, None);
    assert_eq!(app.state.file_list.state.selected(), None);
}

#[test]
fn the_form_opens_with_the_known_folders() {
    let mut app = with_files(&["a.zip"]);
    app.mod_folder = Some("/mods".to_string());
    app.state.select_folder_form = pair(vec!["old".to_string(), "kept".to_string()]);
    press_all(&mut app, &[Key::Char('f')]);
    assert_eq!(app.state.ui_mode, UiMode::SelectFolder);
    assert_eq!(app.state.focus, Focus::ModFolderInput);
    assert_eq!(app.state.select_folder_form.to_vec(), vec!["/mods".to_string(), "kept".to_string()]);
    app.cyberpunk_folder = Some("/game".to_string());
    press_all(&mut app, &[Key::Char('f')]);
    assert_eq!(app.state.ui_mode, UiMode::Explore);
    assert_eq!(app.state.focus, Focus::NoFocus);
    assert_eq!(app.state.file_list.state.selected(), Some(0));
    press_all(&mut app, &[Key::Char('f')]);
    assert_eq!(app.state.select_folder_form.to_vec(), vec!["/mods".to_string(), "/game".to_string()]);
}

#[test]
fn leaving_the_form_keeps_a_selection() {
    let mut app = with_files(&["a.zip", "b.zip"]);
    press_all(&mut app, &[Key::Down, Key::Down, Key::Char('f'), Key::Char('f')]);
    assert_eq!(app.state.file_list.state.selected(), Some(1));
}

#[test]
fn the_focus_goes_round_the_form() {
    let mut app = ready();
    press_all(&mut app, &[Key::Char('f')]);
    assert_eq!(*app.current_focus(), Focus::ModFolderInput);
    press_all(&mut app, &[Key::Tab]);
    assert_eq!(*app.current_focus(), Focus::CyberpunkFolderInput);
    press_all(&mut app, &[Key::Tab]);
    assert_eq!(*app.current_focus(), Focus::Submit);
    press_all(&mut app, &[Key::Tab]);
    assert_eq!(*app.current_focus(), Focus::ModFolderInput);
    press_all(&mut app, &[Key::ShiftTab]);
    assert_eq!(*app.current_focus(), Focus::Submit);
    press_all(&mut app, &[Key::ShiftTab]);
    assert_eq!(*app.current_focus(), Focus::CyberpunkFolderInput);
}

#[test]
fn in_the_list_the_focus_stays_where_it_is() {
    let mut app = ready();
    press_all(&mut app, &[Key::Tab, Key::ShiftTab]);
    assert_eq!(*app.current_focus(), Focus::NoFocus);
    app.change_focus(Focus::Submit);
    press_all(&mut app, &[Key::Tab]);
    assert_eq!(*app.current_focus(), Focus::Submit);
}

#[test]
fn escape_closes_the_form_then_the_popup_then_the_loop() {
    let mut app = with_files(&["a.zip"]);
    app.mod_popup = Some(ModPopup::new("a.zip".to_string()));
    press_all(&mut app, &[Key::Char('f')]);
    assert_eq!(app.do_action(Key::Esc), AppReturn::Continue);
    assert_eq!(app.state.ui_mode, UiMode::Explore);
    assert!(app.mod_popup.is_some());
    assert_eq!(app.state.focus, Focus::ModFolderInput);
    assert_eq!(app.do_action(Key::Esc), AppReturn::Continue);
    assert!(app.mod_popup.is_none());
    assert_eq!(app.do_action(Key::Esc), AppReturn::Exit);
    assert_eq!(app.state.ui_mode, UiMode::Explore);
}

#[test]
fn enter_on_the_button_asks_for_the_folders() {
    let mut app = ready();
    press_all(&mut app, &[Key::Char('f'), Key::Tab, Key::Tab, Key::Enter]);
    assert_eq!(app.requests, vec![IoEvent::LoadMods]);
    assert!(app.is_loading());
    assert_eq!(app.state.ui_mode, UiMode::SelectFolder);
    assert_eq!(app.take_requests(), vec![IoEvent::LoadMods]);
    assert!(app.requests.is_empty());
    assert!(app.is_loading());
    app.loaded();
    assert!(!app.is_loading());
}

#[test]
fn enter_on_a_field_asks_for_nothing() {
    let mut app = ready();
    press_all(&mut app, &[Key::Char('f'), Key::Enter, Key::Tab, Key::Enter]);
    assert!(app.requests.is_empty());
    assert!(!app.is_loading());
    assert_eq!(app.pending_check, None);
}

#[test]
fn enter_on_a_package_asks_to_look_into_it() {
    let mut app = with_files(&["a.zip", "b.zip"]);
    press_all(&mut app, &[Key::Down, Key::Down, Key::Enter]);
    assert_eq!(app.pending_check, Some("b.zip".to_string()));
    assert!(app.mod_popup.is_none());
    assert!(app.requests.is_empty());
    assert!(!app.is_loading());
}

#[test]
fn enter_without_a_selection_asks_for_nothing() {
    let mut app = with_files(&["a.zip", "b.zip"]);
    press_all(&mut app, &[Key::Enter]);
    assert_eq!(app.pending_check, None);
    app.state.file_list.state.select(Some(2));
    press_all(&mut app, &[Key::Enter]);
    assert_eq!(app.pending_check, None);
}

#[test]
fn a_package_opens_the_popup() {
    let mut app = with_files(&["a.zip", "b.zip"]);
    press_all(&mut app, &[Key::Down, Key::Enter]);
    app.mod_checked(true);
    assert_eq!(app.pending_check, None);
    let popup = app.mod_popup.as_ref().expect("the popup is open");
    assert_eq!(popup.get_mod_name(), "a.zip");
    assert_eq!(popup.get_mod_install_status(), None);
    assert_eq!(app.requests, vec![IoEvent::CheckIfModIsInstalled]);
    assert!(app.is_loading());
}

#[test]
fn what_is_no_package_opens_no_popup() {
    let mut app = with_files(&["a.txt"]);
    press_all(&mut app, &[Key::Down, Key::Enter]);
    app.mod_checked(false);
    assert_eq!(app.pending_check, None);
    assert!(app.mod_popup.is_none());
    assert!(app.requests.is_empty());
    assert!(!app.is_loading());
    app.mod_checked(true);
    assert!(app.mod_popup.is_none());
    assert!(app.requests.is_empty());
}

#[test]
fn the_choices_of_the_popup_ask_the_worker() {
    let expected = [
        vec![IoEvent::InstallMod],
        vec![IoEvent::UninstallMod],
        vec![IoEvent::UninstallMod, IoEvent::InstallMod],
    ];
    for (index, requests) in expected.iter().enumerate() {
        let mut app = with_files(&["a.zip"]);
        app.mod_popup = Some(ModPopup::new("a.zip".to_string()));
        app.state.mod_options.state.select(Some(index));
        press_all(&mut app, &[Key::Enter]);
        assert_eq!(&app.requests, requests);
        assert!(app.is_loading());
        assert!(app.mod_popup.is_some());
        assert_eq!(app.pending_check, None);
    }
}

#[test]
fn a_popup_without_a_selected_choice_asks_for_nothing() {
    let mut app = with_files(&["a.zip"]);
    app.state.file_list.state.select(Some(0));
    app.mod_popup = Some(ModPopup::new("a.zip".to_string()));
    press_all(&mut app, &[Key::Enter]);
    assert!(app.requests.is_empty());
    assert_eq!(app.pending_check, None);
    app.state.mod_options.state.select(Some(3));
    press_all(&mut app, &[Key::Enter]);
    assert!(app.requests.is_empty());
}

#[test]
fn requests_keep_their_order() {
    let mut app = ready();
    press_all(&mut app, &[Key::Ctrl('s')]);
    app.dispatch(IoEvent::LoadMods);
    press_all(&mut app, &[Key::Ctrl('s')]);
    assert_eq!(
        app.take_requests(),
        vec![IoEvent::SaveSettings, IoEvent::LoadMods, IoEvent::SaveSettings]
    );
}

#[test]
fn help_changes_nothing() {
    let mut app = with_files(&["a.zip"]);
    press_all(&mut app, &[Key::Char('h')]);
    assert!(app.requests.is_empty());
    assert_eq!(app.state.ui_mode, UiMode::Explore);
    assert_eq!(app.state.file_list.state.selected(), None);
}

#[test]
fn editing_a_field() {
    let mut app = ready();
    press_all(&mut app, &[Key::Char('f'), Key::Char('i')]);
    assert_eq!(*app.status(), AppStatus::UserInput);
    assert_eq!(app.state.cursor_position, Some(0));
    type_text(&mut app, "/mods");
    assert_eq!(app.state.select_folder_form[0], "/mods");
    assert_eq!(app.state.cursor_position, Some(5));
    press_all(&mut app, &[Key::Left, Key::Left, Key::Char('x')]);
    assert_eq!(app.state.select_folder_form[0], "/moxds");
    assert_eq!(app.state.cursor_position, Some(4));
    press_all(&mut app, &[Key::Backspace, Key::Home, Key::Char('q'), Key::End, Key::Char('f')]);
    assert_eq!(app.state.select_folder_form[0], "q/modsf");
    assert_eq!(app.state.cursor_position, Some(7));
    assert_eq!(app.state.select_folder_form[1], "");
    assert_eq!(app.state.current_input, "");
    assert_eq!(app.state.ui_mode, UiMode::SelectFolder);
    press_all(&mut app, &[Key::Enter]);
    assert_eq!(*app.status(), AppStatus::Initialized);
    assert_eq!(app.state.cursor_position, None);
    assert_eq!(app.state.select_folder_form[0], "q/modsf");
    assert!(app.requests.is_empty());
}

#[test]
fn editing_the_second_field_and_the_free_text() {
    let mut app = ready();
    press_all(&mut app, &[Key::Char('f'), Key::Tab, Key::Char('i')]);
    type_text(&mut app, "game");
    press_all(&mut app, &[Key::Esc]);
    assert_eq!(app.state.select_folder_form.to_vec(), vec!["".to_string(), "game".to_string()]);
    assert_eq!(*app.status(), AppStatus::Initialized);
    assert_eq!(app.state.ui_mode, UiMode::SelectFolder);
    press_all(&mut app, &[Key::Tab, Key::Char('i')]);
    assert_eq!(*app.current_focus(), Focus::Submit);
    type_text(&mut app, "free");
    press_all(&mut app, &[Key::Esc]);
    assert_eq!(app.state.current_input, "free");
    assert_eq!(app.state.select_folder_form.to_vec(), vec!["".to_string(), "game".to_string()]);
}

#[test]
fn escape_in_a_text_leaves_the_popup_open() {
    let mut app = with_files(&["a.zip"]);
    app.mod_popup = Some(ModPopup::new("a.zip".to_string()));
    press_all(&mut app, &[Key::Char('f'), Key::Char('i'), Key::Char('x'), Key::Esc]);
    assert!(app.mod_popup.is_some());
    assert_eq!(app.state.ui_mode, UiMode::SelectFolder);
    assert_eq!(*app.status(), AppStatus::Initialized);
}

#[test]
fn in_a_text_the_chords_of_commands_are_typed() {
    let mut app = ready();
    press_all(&mut app, &[Key::Char('f'), Key::Char('i')]);
    type_text(&mut app, "qfih");
    assert_eq!(app.do_action(Key::Ctrl('c')), AppReturn::Continue);
    press_all(&mut app, &[Key::Tab, Key::Up, Key::Down]);
    assert_eq!(app.state.select_folder_form[0], "qfih ");
    assert_eq!(*app.current_focus(), Focus::ModFolderInput);
    assert_eq!(app.state.ui_mode, UiMode::SelectFolder);
    assert!(app.requests.is_empty());
}

#[test]
fn editing_takes_the_message_out_of_the_field() {
    let mut app = ready();
    press_all(&mut app, &[Key::Char('f')]);
    app.state.select_folder_form[0] = "/nowhere is not a directory".to_string();
    app.state.select_folder_form[1] = "/here is not a valid Cyberpunk folder".to_string();
    press_all(&mut app, &[Key::Char('i')]);
    assert_eq!(app.state.select_folder_form[0], "/nowhere");
    assert_eq!(app.state.cursor_position, Some(8));
    assert_eq!(app.state.select_folder_form[1], "/here is not a valid Cyberpunk folder");
    press_all(&mut app, &[Key::Esc, Key::Tab, Key::Char('i')]);
    assert_eq!(app.state.select_folder_form[1], "/here");
    assert_eq!(app.state.cursor_position, Some(5));
    press_all(&mut app, &[Key::Esc]);
    app.state.select_folder_form[1] = "Cyberpunk Folder input is empty".to_string();
    press_all(&mut app, &[Key::Char('i')]);
    assert_eq!(app.state.select_folder_form[1], "");
    assert_eq!(app.state.cursor_position, Some(0));
    press_all(&mut app, &[Key::Esc]);
    app.state.select_folder_form[1] = "/x is not a directory".to_string();
    press_all(&mut app, &[Key::Char('i')]);
    assert_eq!(app.state.select_folder_form[1], "/x");
}

#[test]
fn a_message_in_the_middle_of_a_text_stays() {
    let mut app = ready();
    press_all(&mut app, &[Key::Char('f')]);
    app.state.select_folder_form[0] = "/a is not a directory/b".to_string();
    press_all(&mut app, &[Key::Char('i')]);
    assert_eq!(app.state.select_folder_form[0], "/a is not a directory/b");
    assert_eq!(app.state.cursor_position, Some(23));
}

#[test]
fn an_empty_field_shows_its_message_and_editing_clears_it() {
    let mut app = ready();
    press_all(&mut app, &[Key::Char('f'), Key::Tab, Key::Tab, Key::Enter]);
    assert_eq!(app.take_requests(), vec![IoEvent::LoadMods]);
    let (source, target) = folder_inputs(&app, false);
    assert_eq!(source, "");
    assert_eq!(target, "");
    do_load_mods(&mut app, &no_folder(&source), &no_folder(&target));
    app.loaded();
    assert_eq!(app.state.select_folder_form[0], "Mods Folder input is empty");
    assert_eq!(app.state.select_folder_form[1], "Cyberpunk Folder input is empty");
    assert_eq!(app.state.ui_mode, UiMode::SelectFolder);
    press_all(&mut app, &[Key::Tab]);
    assert_eq!(*app.current_focus(), Focus::ModFolderInput);
    press_all(&mut app, &[Key::Char('i')]);
    assert_eq!(app.state.select_folder_form[0], "");
    assert_eq!(*app.status(), AppStatus::UserInput);
    assert_eq!(app.state.cursor_position, Some(0));
}

#[test]
fn the_cursor_follows_the_focus_into_a_shorter_text() {
    let mut app = ready();
    press_all(&mut app, &[Key::Char('f')]);
    app.state.select_folder_form[0] = "long text".to_string();
    app.state.select_folder_form[1] = "ab".to_string();
    app.state.cursor_position = Some(9);
    press_all(&mut app, &[Key::Tab]);
    assert_eq!(app.state.cursor_position, Some(2));
    press_all(&mut app, &[Key::Tab]);
    assert_eq!(app.state.cursor_position, Some(0));
}

#[test]
fn the_log_is_told_of_help_and_of_chords_without_a_command() {
    let mut app = ready();
    let lines = app.notes(Key::Char('h'));
    assert_eq!(lines.len(), 9);
    assert!(lines.iter().all(|line| line.level == LogLevel::Info));
    let texts: Vec<String> = lines.iter().map(|line| line.text.clone()).collect();
    assert_eq!(texts, log_help());
    let lines = app.notes(Key::Alt('w'));
    assert_eq!(lines.len(), 1);
    assert_eq!(lines[0].level, LogLevel::Warn);
    assert_eq!(lines[0].text, "No action accociated to <Alt+w>");
    let lines = app.notes(Key::PageUp);
    assert_eq!(lines[0].text, "No action accociated to <PageUp>");
    assert!(app.notes(Key::Enter).is_empty());
    assert!(app.notes(Key::Char('q')).is_empty());
    press_all(&mut app, &[Key::Char('f'), Key::Char('i')]);
    assert!(app.notes(Key::Char('h')).is_empty());
    assert!(app.notes(Key::Alt('w')).is_empty());
    for key in [Key::Enter, Key::Esc] {
        let lines = app.notes(key);
        assert_eq!(lines.len(), 1);
        assert_eq!(lines[0].level, LogLevel::Debug);
        assert_eq!(lines[0].text, "Exiting user input mode");
    }
}

#[test]
fn before_start_up_ends_every_chord_but_quit_is_without_a_command() {
    let app = App::new();
    assert_eq!(app.notes(Key::Char('h'))[0].text, "No action accociated to <h>");
    assert_eq!(app.notes(Key::Char(' '))[0].text, "No action accociated to <Space>");
    assert!(app.notes(Key::Char('q')).is_empty());
}

#[test]
fn a_request_that_could_not_be_handed_on_is_not_under_way() {
    let mut app = ready();
    app.dispatch(IoEvent::SaveSettings);
    assert!(app.is_loading());
    app.sent(true);
    assert!(app.is_loading());
    app.sent(false);
    assert!(!app.is_loading());
    app.sent(false);
    assert!(!app.is_loading());
    app.sent(true);
    assert!(!app.is_loading());
    assert_eq!(app.requests, vec![IoEvent::SaveSettings]);
}
