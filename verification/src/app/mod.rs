//! The application: its state, and what each key chord does to it.
//!
//! Nothing here waits or blocks. A chord changes the state and may leave
//! requests for the worker in `requests`, and the name of a package to
//! look into in `pending_check`; the caller passes both on.

pub mod actions;
pub mod state;
pub mod utils;

use crate::inputs::key::Key;
use crate::io::IoEvent;
use crate::text::{press, Line};
use actions::{
    lemma_catalogue_conflict_free, lemma_single_conflict_free, resolve, Action, Actions,
};
use state::{
    clear_source_error, clear_target_error, source_cleared, target_cleared, AppState, AppStatus,
    Focus, StateView, UiMode,
};
use utils::{help_lines, log_help, text_of, ModOptions, ModPopup, PopupView};
use vstd::prelude::*;
use vstd::string::*;

verus! {

/// Whether the interactive loop goes on after a chord.
#[derive(Debug, Clone, Copy, PartialEq, Eq, Structural)]
pub enum AppReturn {
    Exit,
    Continue,
}

/// How much a line of the log matters.
#[derive(Debug, Clone, Copy, PartialEq, Eq, Structural)]
pub enum LogLevel {
    Debug,
    Info,
    Warn,
}

/// What a line for the log is to the contracts.
pub ghost struct LogView {
    pub level: LogLevel,
    pub text: Seq<char>,
}

/// A line for the log.
#[derive(Debug, Clone)]
pub struct LogLine {
    pub level: LogLevel,
    pub text: String,
}

impl View for LogLine {
    type V = LogView;

    open spec fn view(&self) -> LogView {
        LogView { level: self.level, text: self.text@ }
    }
}

impl DeepView for LogLine {
    type V = LogView;

    open spec fn deep_view(&self) -> LogView {
        self@
    }
}

/// What the application is to the contracts.
pub ghost struct AppView {
    pub requests: Seq<IoEvent>,
    pub pending_check: Option<Seq<char>>,
    pub actions: Seq<Action>,
    pub is_loading: bool,
    pub mod_popup: Option<PopupView>,
    pub state: StateView,
    pub mod_folder: Option<Seq<char>>,
    pub cyberpunk_folder: Option<Seq<char>>,
}

impl AppView {
    /// The form has its two fields.
    pub open spec fn wf(self) -> bool {
        self.state.wf()
    }

    /// The application with `event` added to the requests for the worker,
    /// and marked as busy.
    pub open spec fn dispatched(self, event: IoEvent) -> AppView {
        AppView { is_loading: true, requests: self.requests.push(event), ..self }
    }

    /// The text that the focus addresses, with the cursor.
    pub open spec fn line(self) -> Line {
        Line { text: self.state.active_text(), cursor: self.state.cursor_position }
    }

    /// The application with `line` in place of the text that the focus
    /// addresses and of the cursor.
    pub open spec fn with_line(self, line: Line) -> AppView {
        AppView {
            state: StateView {
                cursor_position: line.cursor,
                ..self.state.with_active_text(line.text)
            },
            ..self
        }
    }

    /// The application with the cursor, if there is one, brought back
    /// into the text that the focus addresses.
    pub open spec fn settled(self) -> AppView {
        AppView {
            state: StateView { cursor_position: self.line().settled().cursor, ..self.state },
            ..self
        }
    }

    /// The application with the message of a failed check taken out of
    /// the field that has the focus.
    pub open spec fn cleared(self) -> AppView {
        match self.state.focus {
            Focus::ModFolderInput => AppView {
                state: self.state.with_active_text(source_cleared(self.state.active_text())),
                ..self
            },
            Focus::CyberpunkFolderInput => AppView {
                state: self.state.with_active_text(target_cleared(self.state.active_text())),
                ..self
            },
            _ => self,
        }
    }

    /// The application after it has gone over to editing: the message of
    /// a failed check is out of the field with the focus, and the cursor
    /// stands behind the text.
    pub open spec fn editing(self) -> AppView {
        let clean = self.cleared();
        AppView {
            state: StateView {
                status: AppStatus::UserInput,
                cursor_position: Some(clean.state.active_text().len() as usize),
                ..clean.state
            },
            ..clean
        }
    }

    /// The application after editing has ended: it is ready for commands,
    /// has no cursor, and the field with the focus holds no message of a
    /// failed check.
    pub open spec fn committed(self) -> AppView {
        let clean = self.cleared();
        AppView {
            state: StateView {
                status: AppStatus::Initialized,
                cursor_position: None,
                ..clean.state
            },
            ..clean
        }
    }

    /// The application after `key` was pressed while a text is under
    /// edit: Enter and Escape end the editing, any other chord goes to
    /// the text that the focus addresses.
    pub open spec fn typed(self, key: Key) -> AppView {
        if key == Key::Enter || key == Key::Esc {
            self.committed()
        } else {
            self.with_line(self.line().pressed(key))
        }
    }

    /// The application with the focus gone to `to`. The focus stays where
    /// it is if `to` is the widget that has it, or no widget.
    pub open spec fn moved(self, to: Focus) -> AppView {
        if to == self.state.focus || to == Focus::NoFocus {
            self
        } else {
            (AppView { state: StateView { focus: to, ..self.state }, ..self }).settled()
        }
    }

    /// The application with the selection one step up: in the choices
    /// where the popup is open, else in the packages.
    pub open spec fn stepped_up(self) -> AppView {
        if self.mod_popup is Some {
            AppView {
                state: StateView { mod_options: self.state.mod_options.previous(), ..self.state },
                ..self
            }
        } else {
            AppView {
                state: StateView { file_list: self.state.file_list.previous(), ..self.state },
                ..self
            }
        }
    }

    /// The application with the selection one step down: in the choices
    /// where the popup is open, else in the packages.
    pub open spec fn stepped_down(self) -> AppView {
        if self.mod_popup is Some {
            AppView {
                state: StateView { mod_options: self.state.mod_options.next(), ..self.state },
                ..self
            }
        } else {
            AppView {
                state: StateView { file_list: self.state.file_list.next(), ..self.state },
                ..self
            }
        }
    }

    /// The application with the form on show: each field holds the folder
    /// that is known for it, else what it held, and the first field has
    /// the focus.
    pub open spec fn opened(self) -> AppView {
        let first = match self.mod_folder {
            Some(folder) => folder,
            None => self.state.select_folder_form[0],
        };
        let second = match self.cyberpunk_folder {
            Some(folder) => folder,
            None => self.state.select_folder_form[1],
        };
        AppView {
            state: StateView {
                ui_mode: UiMode::SelectFolder,
                select_folder_form: seq![first, second],
                focus: Focus::ModFolderInput,
                ..self.state
            },
            ..self
        }
    }

    /// The application with the list on show: the first package is
    /// selected if none was, and no widget has the focus.
    pub open spec fn closed(self) -> AppView {
        AppView {
            state: StateView {
                ui_mode: UiMode::Explore,
                file_list: if self.state.file_list.selected is None {
                    self.state.file_list.next()
                } else {
                    self.state.file_list
                },
                focus: Focus::NoFocus,
                ..self.state
            },
            ..self
        }
    }

    /// The application after a change between the form and the list: to
    /// the form from the list, and back.
    pub open spec fn toggled(self) -> AppView {
        if self.state.ui_mode != UiMode::SelectFolder {
            self.opened().settled()
        } else {
            self.closed().settled()
        }
    }

    /// The application after Escape, and whether the loop goes on: the
    /// form closes; else the popup closes; else the loop ends.
    pub open spec fn escaped(self) -> (AppView, AppReturn) {
        if self.state.ui_mode == UiMode::SelectFolder {
            (
                AppView { state: StateView { ui_mode: UiMode::Explore, ..self.state }, ..self },
                AppReturn::Continue,
            )
        } else if self.mod_popup is Some {
            (AppView { mod_popup: None, ..self }, AppReturn::Continue)
        } else {
            (self, AppReturn::Exit)
        }
    }

    /// The choice of the popup that is selected, if one is.
    pub open spec fn choice(self) -> Option<ModOptions> {
        match self.state.mod_options.selected {
            Some(i) => if i < ModOptions::every().len() {
                Some(ModOptions::every()[i as int])
            } else {
                None
            },
            None => None,
        }
    }

    /// The application after the selected choice of the popup was
    /// accepted: the request for it is left for the worker. To repair is
    /// to uninstall, then to install.
    pub open spec fn chosen(self) -> AppView {
        match self.choice() {
            Some(ModOptions::Install) => self.dispatched(IoEvent::InstallMod),
            Some(ModOptions::Uninstall) => self.dispatched(IoEvent::UninstallMod),
            Some(ModOptions::Repair) => self.dispatched(IoEvent::UninstallMod).dispatched(
                IoEvent::InstallMod,
            ),
            None => self,
        }
    }

    /// The application after Enter. On the button of the form the folders
    /// are to be loaded. In the list, an open popup has its selected
    /// choice accepted; without a popup the selected package is to be
    /// looked into.
    pub open spec fn confirmed(self) -> AppView {
        let sent = if self.state.focus == Focus::Submit {
            self.dispatched(IoEvent::LoadMods)
        } else {
            self
        };
        if sent.state.ui_mode == UiMode::Explore {
            if sent.mod_popup is Some {
                sent.chosen()
            } else {
                match sent.state.file_list.chosen() {
                    Some(file) => AppView { pending_check: Some(file.0), ..sent },
                    None => sent,
                }
            }
        } else {
            sent
        }
    }

    /// The application after the command `action`, and whether the loop
    /// goes on.
    pub open spec fn acted(self, action: Action) -> (AppView, AppReturn) {
        match action {
            Action::Quit => (self, AppReturn::Exit),
            Action::Tab => (
                self.moved(self.state.focus.following(self.state.ui_mode.targets())),
                AppReturn::Continue,
            ),
            Action::ShiftTab => (
                self.moved(self.state.focus.preceding(self.state.ui_mode.targets())),
                AppReturn::Continue,
            ),
            Action::Up => (self.stepped_up(), AppReturn::Continue),
            Action::Down => (self.stepped_down(), AppReturn::Continue),
            Action::Right => (self, AppReturn::Continue),
            Action::Left => (self, AppReturn::Continue),
            Action::SelectFolder => (self.toggled(), AppReturn::Continue),
            Action::TakeUserInput => (self.editing(), AppReturn::Continue),
            Action::Escape => self.escaped(),
            Action::Enter => (self.confirmed(), AppReturn::Continue),
            Action::LogHelp => (self, AppReturn::Continue),
            Action::SaveSettings => (self.dispatched(IoEvent::SaveSettings), AppReturn::Continue),
        }
    }

    /// The application after the chord `key`, and whether the loop goes
    /// on. While a text is under edit the chord goes to the text. Else it
    /// stands for a command, or for none: then nothing changes.
    pub open spec fn handled(self, key: Key) -> (AppView, AppReturn) {
        if self.state.status == AppStatus::UserInput {
            (self.typed(key), AppReturn::Continue)
        } else {
            match resolve(self.actions, key) {
                Some(action) => self.acted(action),
                None => (self, AppReturn::Continue),
            }
        }
    }

    /// What the log is told when `key` is pressed: that editing has ended;
    /// the help, line by line, for the command that shows it; a warning
    /// for a chord that stands for no command.
    pub open spec fn said(self, key: Key) -> Seq<LogView> {
        if self.state.status == AppStatus::UserInput {
            if key == Key::Enter || key == Key::Esc {
                seq![LogView { level: LogLevel::Debug, text: "Exiting user input mode"@ }]
            } else {
                Seq::empty()
            }
        } else {
            match resolve(self.actions, key) {
                Some(Action::LogHelp) => Seq::new(
                    help_lines().len(),
                    |i: int| LogView { level: LogLevel::Info, text: help_lines()[i] },
                ),
                Some(_) => Seq::empty(),
                None => seq![
                    LogView {
                        level: LogLevel::Warn,
                        text: "No action accociated to "@ + key.label(),
                    },
                ],
            }
        }
    }

    /// The application after the package that was to be looked into has
    /// been found to be one, or not. For a package the popup opens, and
    /// the worker is asked whether it is installed.
    pub open spec fn checked(self, valid: bool) -> AppView {
        match self.pending_check {
            Some(name) => if valid {
                (AppView {
                    pending_check: None,
                    mod_popup: Some(PopupView { mod_name: name, mod_install_status: None }),
                    ..self
                }).dispatched(IoEvent::CheckIfModIsInstalled)
            } else {
                AppView { pending_check: None, ..self }
            },
            None => self,
        }
    }

    /// A chord leaves the cursor in the text that the focus addresses, if
    /// it was in it before.
    pub proof fn lemma_handled_keeps_cursor(self, key: Key)
        requires
            self.wf(),
            self.state.cursor_in_bounds(),
            self.state.active_text().len() < usize::MAX,
        ensures
            self.handled(key).0.wf(),
            self.handled(key).0.state.cursor_in_bounds(),
    {
        self.line().lemma_pressed_in_bounds(key);
    }
}

/// The view of a popup that may be absent.
pub open spec fn popup_of(popup: Option<ModPopup>) -> Option<PopupView> {
    match popup {
        Some(p) => Some(p@),
        None => None,
    }
}

/// The application.
#[derive(Debug)]
pub struct App {
    /// The requests that wait to be handed to the worker, oldest first.
    pub requests: Vec<IoEvent>,
    /// The file name of the package that is to be looked into before its
    /// popup opens.
    pub pending_check: Option<String>,
    /// The commands that are enabled.
    pub actions: Actions,
    /// Whether a request is under way.
    pub is_loading: bool,
    /// The popup over the selected package, while it is open.
    pub mod_popup: Option<ModPopup>,
    pub state: AppState,
    /// The folder of packages, once one has passed its check.
    pub mod_folder: Option<String>,
    /// The game's folder, once one has passed its check.
    pub cyberpunk_folder: Option<String>,
}

impl View for App {
    type V = AppView;

    open spec fn view(&self) -> AppView {
        AppView {
            requests: self.requests@,
            pending_check: text_of(self.pending_check),
            actions: self.actions@,
            is_loading: self.is_loading,
            mod_popup: popup_of(self.mod_popup),
            state: self.state@,
            mod_folder: text_of(self.mod_folder),
            cyberpunk_folder: text_of(self.cyberpunk_folder),
        }
    }
}

impl App {
    /// The application at start-up: only quitting is enabled.
    pub fn new() -> (app: App)
        ensures
            app@ == (AppView {
                requests: Seq::empty(),
                pending_check: None,
                actions: seq![Action::Quit],
                is_loading: false,
                mod_popup: None,
                state: AppState::default_view(),
                mod_folder: None,
                cyberpunk_folder: None,
            }),
    {
        let only = vec![Action::Quit];
        proof {
            assert(only@ =~= seq![Action::Quit]);
            lemma_single_conflict_free(Action::Quit);
        }
        let actions = Actions::from(only);
        let state = AppState::default();
        App {
            requests: Vec::new(),
            pending_check: None,
            actions,
            is_loading: false,
            mod_popup: None,
            state,
            mod_folder: None,
            cyberpunk_folder: None,
        }
    }

    /// Leaves `action` for the worker and marks the application as busy.
    pub fn dispatch(&mut self, action: IoEvent)
        ensures
            final(self)@ == old(self)@.dispatched(action),
    {
        self.is_loading = true;
        self.requests.push(action);
    }

    /// Takes in whether a request was handed to the worker. One that
    /// could not be handed on is not under way: the application is marked
    /// as no longer busy.
    pub fn sent(&mut self, delivered: bool)
        ensures
            final(self)@ == if delivered {
                old(self)@
            } else {
                (AppView { is_loading: false, ..old(self)@ })
            },
    {
        if !delivered {
            self.is_loading = false;
        }
    }

    /// Hands out the requests that wait for the worker, oldest first, and
    /// keeps none.
    pub fn take_requests(&mut self) -> (requests: Vec<IoEvent>)
        ensures
            requests@ == old(self)@.requests,
            final(self)@ == (AppView { requests: Seq::empty(), ..old(self)@ }),
    {
        let mut requests: Vec<IoEvent> = Vec::new();
        std::mem::swap(&mut requests, &mut self.requests);
        requests
    }

    /// The commands that are enabled.
    pub fn actions(&self) -> (actions: &Actions)
        ensures
            actions@ == self@.actions,
    {
        &self.actions
    }

    /// The phase of the application.
    pub fn status(&self) -> (status: &AppStatus)
        ensures
            *status == self@.state.status,
    {
        &self.state.status
    }

    /// Whether a request is under way.
    pub fn is_loading(&self) -> (busy: bool)
        ensures
            busy == self@.is_loading,
    {
        self.is_loading
    }

    /// Ends start-up: every command is enabled, and the application is
    /// ready for them.
    pub fn initialized(&mut self)
        ensures
            final(self)@ == (AppView {
                actions: Action::catalogue(),
                state: StateView { status: AppStatus::Initialized, ..old(self)@.state },
                ..old(self)@
            }),
    {
        proof {
            lemma_catalogue_conflict_free();
        }
        self.actions = Actions::from(Action::all());
        self.state.status = AppStatus::initialized();
    }

    /// Marks the application as no longer busy.
    pub fn loaded(&mut self)
        ensures
            final(self)@ == (AppView { is_loading: false, ..old(self)@ }),
    {
        self.is_loading = false;
    }

    /// The widget that has the focus.
    pub fn current_focus(&self) -> (focus: &Focus)
        ensures
            *focus == self@.state.focus,
    {
        &self.state.focus
    }

    /// Gives the focus to `focus`.
    pub fn change_focus(&mut self, focus: Focus)
        ensures
            final(self)@ == (AppView {
                state: StateView { focus, ..old(self)@.state },
                ..old(self)@
            }),
    {
        self.state.focus = focus;
    }

    fn active_text(&self) -> (text: &str)
        ensures
            text@ == self@.state.active_text(),
    {
        match self.state.focus {
            Focus::ModFolderInput => {
                assert(self.state.select_folder_form.deep_view()[0]
                    == self.state.select_folder_form[0]@);
                self.state.select_folder_form[0].as_str()
            },
            Focus::CyberpunkFolderInput => {
                assert(self.state.select_folder_form.deep_view()[1]
                    == self.state.select_folder_form[1]@);
                self.state.select_folder_form[1].as_str()
            },
            _ => self.state.current_input.as_str(),
        }
    }

    fn put_active_text(&mut self, text: String)
        ensures
            final(self)@ == (AppView {
                state: old(self)@.state.with_active_text(text@),
                ..old(self)@
            }),
    {
        let ghost before = self.state.select_folder_form.deep_view();
        match self.state.focus {
            Focus::ModFolderInput => {
                self.state.select_folder_form.set(0, text);
                assert(self.state.select_folder_form.deep_view() =~= before.update(0, text@));
            },
            Focus::CyberpunkFolderInput => {
                self.state.select_folder_form.set(1, text);
                assert(self.state.select_folder_form.deep_view() =~= before.update(1, text@));
            },
            _ => {
                self.state.current_input = text;
            },
        }
    }

    /// Brings the cursor, if there is one, back into the text that the
    /// focus addresses.
    pub fn settle(&mut self)
        ensures
            final(self)@ == old(self)@.settled(),
            final(self)@.state.cursor_in_bounds(),
    {
        match self.state.cursor_position {
            Some(c) => {
                let n = self.active_text().unicode_len();
                if c > n {
                    self.state.cursor_position = Some(n);
                }
            },
            None => {},
        }
    }

    fn clear_error(&mut self)
        ensures
            final(self)@ == old(self)@.cleared(),
    {
        match self.state.focus {
            Focus::ModFolderInput => {
                let clean = clear_source_error(self.active_text());
                self.put_active_text(clean);
            },
            Focus::CyberpunkFolderInput => {
                let clean = clear_target_error(self.active_text());
                self.put_active_text(clean);
            },
            _ => {},
        }
    }

    fn enter_text_mode(&mut self)
        ensures
            final(self)@ == old(self)@.editing(),
            final(self)@.state.cursor_in_bounds(),
    {
        self.clear_error();
        let n = self.active_text().unicode_len();
        self.state.status = AppStatus::UserInput;
        self.state.cursor_position = Some(n);
    }

    fn leave_text_mode(&mut self)
        ensures
            final(self)@ == old(self)@.committed(),
            final(self)@.state.cursor_in_bounds(),
    {
        self.clear_error();
        self.state.status = AppStatus::Initialized;
        self.state.cursor_position = None;
    }

    fn type_key(&mut self, key: Key)
        ensures
            final(self)@ == old(self)@.with_line(old(self)@.line().pressed(key)),
            final(self)@.state.cursor_in_bounds(),
    {
        let (text, cursor) = press(self.active_text(), self.state.cursor_position, key);
        self.put_active_text(text);
        self.state.cursor_position = cursor;
    }

    fn move_focus(&mut self, to: Focus)
        ensures
            final(self)@ == old(self)@.moved(to),
            old(self)@.state.cursor_in_bounds() ==> final(self)@.state.cursor_in_bounds(),
    {
        if to == self.state.focus || to == Focus::NoFocus {
        } else {
            self.state.focus = to;
            self.settle();
        }
    }

    fn open_form(&mut self)
        ensures
            final(self)@ == old(self)@.opened(),
    {
        let ghost before = self.state.select_folder_form.deep_view();
        self.state.ui_mode = UiMode::SelectFolder;
        let known = match &self.mod_folder {
            Some(folder) => Some(folder.clone()),
            None => None,
        };
        match known {
            Some(folder) => {
                self.state.select_folder_form.set(0, folder);
            },
            None => {},
        }
        let known = match &self.cyberpunk_folder {
            Some(folder) => Some(folder.clone()),
            None => None,
        };
        match known {
            Some(folder) => {
                self.state.select_folder_form.set(1, folder);
            },
            None => {},
        }
        self.state.focus = Focus::ModFolderInput;
        assert(self.state.select_folder_form.deep_view()
            =~= old(self)@.opened().state.select_folder_form);
    }

    fn close_form(&mut self)
        ensures
            final(self)@ == old(self)@.closed(),
    {
        self.state.ui_mode = UiMode::Explore;
        if self.state.file_list.state.selected().is_none() {
            self.state.file_list.next();
        }
        self.state.focus = Focus::NoFocus;
    }

    fn toggle_form(&mut self)
        ensures
            final(self)@ == old(self)@.toggled(),
            final(self)@.state.cursor_in_bounds(),
    {
        if self.state.ui_mode != UiMode::SelectFolder {
            self.open_form();
        } else {
            self.close_form();
        }
        self.settle();
    }

    fn escape(&mut self) -> (ret: AppReturn)
        ensures
            (final(self)@, ret) == old(self)@.escaped(),
    {
        if self.state.ui_mode == UiMode::SelectFolder {
            self.state.ui_mode = UiMode::Explore;
            AppReturn::Continue
        } else if self.mod_popup.is_some() {
            self.mod_popup = None;
            AppReturn::Continue
        } else {
            AppReturn::Exit
        }
    }

    fn accept_choice(&mut self)
        ensures
            final(self)@ == old(self)@.chosen(),
    {
        let options = ModOptions::get_all_options();
        match self.state.mod_options.state.selected() {
            Some(i) => {
                if i < options.len() {
                    match options[i] {
                        ModOptions::Install => {
                            self.dispatch(IoEvent::InstallMod);
                        },
                        ModOptions::Uninstall => {
                            self.dispatch(IoEvent::UninstallMod);
                        },
                        ModOptions::Repair => {
                            self.dispatch(IoEvent::UninstallMod);
                            self.dispatch(IoEvent::InstallMod);
                        },
                    }
                }
            },
            None => {},
        }
    }

    fn confirm(&mut self)
        ensures
            final(self)@ == old(self)@.confirmed(),
    {
        if self.state.focus == Focus::Submit {
            self.dispatch(IoEvent::LoadMods);
        }
        if self.state.ui_mode == UiMode::Explore {
            if self.mod_popup.is_some() {
                self.accept_choice();
            } else {
                match self.state.file_list.state.selected() {
                    Some(i) => {
                        if i < self.state.file_list.items.len() {
                            assert(self.state.file_list.items.deep_view()[i as int]
                                == self.state.file_list.items[i as int].deep_view());
                            let name = self.state.file_list.items[i].0.clone();
                            self.pending_check = Some(name);
                        }
                    },
                    None => {},
                }
            }
        }
    }

    fn step_up(&mut self)
        ensures
            final(self)@ == old(self)@.stepped_up(),
    {
        if self.mod_popup.is_some() {
            self.state.mod_options.previous();
        } else {
            self.state.file_list.previous();
        }
    }

    fn step_down(&mut self)
        ensures
            final(self)@ == old(self)@.stepped_down(),
    {
        if self.mod_popup.is_some() {
            self.state.mod_options.next();
        } else {
            self.state.file_list.next();
        }
    }

    fn act(&mut self, action: Action) -> (ret: AppReturn)
        ensures
            (final(self)@, ret) == old(self)@.acted(action),
            old(self)@.state.cursor_in_bounds() ==> final(self)@.state.cursor_in_bounds(),
    {
        match action {
            Action::Quit => AppReturn::Exit,
            Action::Tab => {
                let targets = self.state.ui_mode.get_available_targets();
                let next = self.state.focus.next(&targets);
                self.move_focus(next);
                AppReturn::Continue
            },
            Action::ShiftTab => {
                let targets = self.state.ui_mode.get_available_targets();
                let prev = self.state.focus.prev(&targets);
                self.move_focus(prev);
                AppReturn::Continue
            },
            Action::Up => {
                self.step_up();
                AppReturn::Continue
            },
            Action::Down => {
                self.step_down();
                AppReturn::Continue
            },
            Action::Right => AppReturn::Continue,
            Action::Left => AppReturn::Continue,
            Action::SelectFolder => {
                self.toggle_form();
                AppReturn::Continue
            },
            Action::TakeUserInput => {
                self.enter_text_mode();
                AppReturn::Continue
            },
            Action::Escape => self.escape(),
            Action::Enter => {
                self.confirm();
                AppReturn::Continue
            },
            Action::LogHelp => AppReturn::Continue,
            Action::SaveSettings => {
                self.dispatch(IoEvent::SaveSettings);
                AppReturn::Continue
            },
        }
    }

    /// Handles one key chord. While a text is under edit the chord goes
    /// to the text; else it stands for a command, or for none. The result
    /// says whether the interactive loop goes on.
    pub fn do_action(&mut self, key: Key) -> (ret: AppReturn)
        ensures
            (final(self)@, ret) == old(self)@.handled(key),
            old(self)@.state.cursor_in_bounds() ==> final(self)@.state.cursor_in_bounds(),
    {
        if self.state.status == AppStatus::UserInput {
            if key == Key::Enter || key == Key::Esc {
                self.leave_text_mode();
            } else {
                self.type_key(key);
            }
            AppReturn::Continue
        } else {
            let found = match self.actions.find(key) {
                Some(action) => Some(*action),
                None => None,
            };
            match found {
                Some(action) => self.act(action),
                None => AppReturn::Continue,
            }
        }
    }

    /// What the log is to be told when `key` is pressed, in the state in
    /// which the application is now.
    pub fn notes(&self, key: Key) -> (lines: Vec<LogLine>)
        ensures
            lines.deep_view() == self@.said(key),
    {
        let mut lines: Vec<LogLine> = Vec::new();
        if self.state.status == AppStatus::UserInput {
            if key == Key::Enter || key == Key::Esc {
                lines.push(
                    LogLine {
                        level: LogLevel::Debug,
                        text: String::from_str("Exiting user input mode"),
                    },
                );
            }
            assert(lines.deep_view() =~= self@.said(key));
        } else {
            let found = match self.actions.find(key) {
                Some(action) => Some(*action),
                None => None,
            };
            match found {
                Some(Action::LogHelp) => {
                    let help = log_help();
                    let mut i: usize = 0;
                    while i < help.len()
                        invariant
                            i <= help.len(),
                            help.deep_view() == help_lines(),
                            lines.len() == i,
                            forall|j: int|
                                0 <= j < i ==> (#[trigger] lines[j])@ == (LogView {
                                    level: LogLevel::Info,
                                    text: help_lines()[j],
                                }),
                        decreases help.len() - i,
                    {
                        assert(help.deep_view()[i as int] == help[i as int]@);
                        lines.push(LogLine { level: LogLevel::Info, text: help[i].clone() });
                        i += 1;
                    }
                    assert(lines.deep_view() =~= self@.said(key));
                },
                Some(_) => {
                    assert(lines.deep_view() =~= self@.said(key));
                },
                None => {
                    let mut text = String::from_str("No action accociated to ");
                    let label = key.to_string();
                    text.append(label.as_str());
                    lines.push(LogLine { level: LogLevel::Warn, text });
                    assert(lines.deep_view() =~= self@.said(key));
                },
            }
        }
        lines
    }

    /// Takes in whether the package that was to be looked into is one.
    /// For a package the popup opens and the worker is asked whether it
    /// is installed.
    pub fn mod_checked(&mut self, valid: bool)
        ensures
            final(self)@ == old(self)@.checked(valid),
    {
        let mut pending: Option<String> = None;
        std::mem::swap(&mut pending, &mut self.pending_check);
        match pending {
            Some(name) => {
                if valid {
                    self.mod_popup = Some(ModPopup::new(name));
                    self.dispatch(IoEvent::CheckIfModIsInstalled);
                }
            },
            None => {},
        }
    }
}

} // verus!
