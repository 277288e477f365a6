//! The state of the interaction: phase, view, focus and the texts under
//! edit.

use super::utils::{ListView, ModOptions, StatefulList};
use crate::constants::{
    CYBERPUNK_FOLDER_INPUT_EMPTY_ERROR, MOD_FOLDER_INPUT_EMPTY_ERROR, NOT_A_DIRECTORY_ERROR,
    NOT_A_VALID_CYBERPUNK_FOLDER_ERROR,
};
use crate::text::{ends_with, same_text, strip_suffix, trim, trimmed, without_suffix};
use vstd::prelude::*;
use vstd::string::*;

verus! {

/// The phase of the application.
#[derive(Clone, Copy, PartialEq, Eq, Debug, Structural)]
pub enum AppStatus {
    /// Starting up: only quitting is possible.
    Init,
    /// Ready: chords stand for commands.
    Initialized,
    /// A text is under edit: chords are typed into it.
    UserInput,
}

impl AppStatus {
    /// The phase after start-up.
    pub fn initialized() -> (status: AppStatus)
        ensures
            status == AppStatus::Initialized,
    {
        AppStatus::Initialized
    }

    /// Whether the phase is the one after start-up.
    pub fn is_initialized(&self) -> (yes: bool)
        ensures
            yes == (*self == AppStatus::Initialized),
    {
        match self {
            AppStatus::Initialized => true,
            _ => false,
        }
    }
}

/// The widget that the keyboard addresses.
#[derive(Debug, Clone, Copy, PartialEq, Eq, Structural)]
pub enum Focus {
    NoFocus,
    Submit,
    ModFolderInput,
    CyberpunkFolderInput,
}

/// `at` is the first place of `tabs` that holds `name`.
pub open spec fn is_place(tabs: Seq<Seq<char>>, name: Seq<char>, at: int) -> bool {
    &&& 0 <= at < tabs.len()
    &&& tabs[at] == name
    &&& forall|j: int| 0 <= j < at ==> tabs[j] != name
}

/// The first place of `tabs` that holds `name`; 0 where none does.
pub open spec fn place(tabs: Seq<Seq<char>>, name: Seq<char>) -> int {
    if exists|at: int| is_place(tabs, name, at) {
        choose|at: int| is_place(tabs, name, at)
    } else {
        0
    }
}

impl Focus {
    /// The name of the widget.
    pub open spec fn name(self) -> Seq<char> {
        match self {
            Focus::NoFocus => "Nothing"@,
            Focus::Submit => "Submit"@,
            Focus::ModFolderInput => "Mod Folder"@,
            Focus::CyberpunkFolderInput => "Cyberpunk Folder"@,
        }
    }

    /// The widget that `name` names; no widget where it names none.
    pub open spec fn named(name: Seq<char>) -> Focus {
        if name == "Submit"@ {
            Focus::Submit
        } else if name == "Mod Folder"@ {
            Focus::ModFolderInput
        } else if name == "Cyberpunk Folder"@ {
            Focus::CyberpunkFolderInput
        } else {
            Focus::NoFocus
        }
    }

    /// The widget after this one in `tabs`, the first after the last. The
    /// place of a widget that is not in `tabs` is taken to be the first.
    /// With fewer than two names there is no widget to go to.
    pub open spec fn following(self, tabs: Seq<Seq<char>>) -> Focus {
        if tabs.len() <= 1 {
            Focus::NoFocus
        } else {
            let at = place(tabs, self.name());
            Focus::named(
                tabs[if at + 1 == tabs.len() {
                    0
                } else {
                    at + 1
                }],
            )
        }
    }

    /// The widget before this one in `tabs`, the last before the first.
    /// The place of a widget that is not in `tabs` is taken to be the
    /// first. With fewer than two names there is no widget to go to.
    pub open spec fn preceding(self, tabs: Seq<Seq<char>>) -> Focus {
        if tabs.len() <= 1 {
            Focus::NoFocus
        } else {
            let at = place(tabs, self.name());
            Focus::named(
                tabs[if at == 0 {
                    tabs.len() - 1
                } else {
                    at - 1
                }],
            )
        }
    }

    /// The name of the widget.
    pub fn to_str(&self) -> (name: &'static str)
        ensures
            name@ == self.name(),
    {
        match self {
            Focus::NoFocus => "Nothing",
            Focus::Submit => "Submit",
            Focus::ModFolderInput => "Mod Folder",
            Focus::CyberpunkFolderInput => "Cyberpunk Folder",
        }
    }

    /// The widgets that can have the focus.
    pub fn all() -> (all: Vec<Focus>)
        ensures
            all@ == seq![Focus::Submit, Focus::ModFolderInput, Focus::CyberpunkFolderInput],
    {
        let all = vec![Focus::Submit, Focus::ModFolderInput, Focus::CyberpunkFolderInput];
        assert(all@ =~= seq![Focus::Submit, Focus::ModFolderInput, Focus::CyberpunkFolderInput]);
        all
    }

    fn index_in(&self, available_tabs: &Vec<String>) -> (at: usize)
        ensures
            at == place(available_tabs.deep_view(), self.name()),
            available_tabs.len() > 0 ==> at < available_tabs.len(),
    {
        let current = self.to_str();
        let ghost tabs = available_tabs.deep_view();
        let mut i: usize = 0;
        while i < available_tabs.len()
            invariant
                i <= available_tabs.len(),
                tabs == available_tabs.deep_view(),
                current@ == self.name(),
                forall|j: int| 0 <= j < i ==> tabs[j] != self.name(),
            decreases available_tabs.len() - i,
        {
            assert(tabs[i as int] == available_tabs[i as int]@);
            if same_text(available_tabs[i].as_str(), current) {
                assert(is_place(tabs, self.name(), i as int));
                return i;
            }
            i += 1;
        }
        0
    }

    /// The widget after this one in `available_tabs`.
    pub fn next(&self, available_tabs: &Vec<String>) -> (next: Focus)
        ensures
            next == self.following(available_tabs.deep_view()),
    {
        if available_tabs.len() <= 1 {
            return Focus::NoFocus;
        }
        let index = self.index_in(available_tabs);
        let next_index = if index == available_tabs.len() - 1 {
            0
        } else {
            index + 1
        };
        assert(available_tabs.deep_view()[next_index as int] == available_tabs[next_index as int]@);
        Focus::from_str(available_tabs[next_index].as_str())
    }

    /// The widget before this one in `available_tabs`.
    pub fn prev(&self, available_tabs: &Vec<String>) -> (prev: Focus)
        ensures
            prev == self.preceding(available_tabs.deep_view()),
    {
        if available_tabs.len() <= 1 {
            return Focus::NoFocus;
        }
        let index = self.index_in(available_tabs);
        let prev_index = if index == 0 {
            available_tabs.len() - 1
        } else {
            index - 1
        };
        assert(available_tabs.deep_view()[prev_index as int] == available_tabs[prev_index as int]@);
        Focus::from_str(available_tabs[prev_index].as_str())
    }

    /// The widget that `s` names; no widget where it names none.
    pub fn from_str(s: &str) -> (focus: Focus)
        ensures
            focus == Focus::named(s@),
    {
        if same_text(s, "Submit") {
            Focus::Submit
        } else if same_text(s, "Mod Folder") {
            Focus::ModFolderInput
        } else if same_text(s, "Cyberpunk Folder") {
            Focus::CyberpunkFolderInput
        } else {
            Focus::NoFocus
        }
    }

    /// Each widget is the one that its name names.
    pub proof fn lemma_named_name(focus: Focus)
        ensures
            Focus::named(focus.name()) == focus,
    {
        reveal_strlit("Nothing");
        reveal_strlit("Submit");
        reveal_strlit("Mod Folder");
        reveal_strlit("Cyberpunk Folder");
        assert("Nothing"@.len() == 7);
        assert("Submit"@.len() == 6);
        assert("Mod Folder"@.len() == 10);
        assert("Cyberpunk Folder"@.len() == 16);
    }

    /// Going on and then back, or back and then on, in a list of two or
    /// more different names of widgets, ends at the widget where it began,
    /// if that widget is in the list.
    pub proof fn lemma_next_prev_inverse(focus: Focus, tabs: Seq<Seq<char>>)
        requires
            tabs.len() >= 2,
            tabs.no_duplicates(),
            tabs.contains(focus.name()),
            forall|i: int|
                0 <= i < tabs.len() ==> (#[trigger] Focus::named(tabs[i])).name() == tabs[i],
        ensures
            focus.following(tabs).preceding(tabs) == focus,
            focus.preceding(tabs).following(tabs) == focus,
    {
        let n = tabs.len() as int;
        let at = tabs.index_of(focus.name());
        lemma_place_of(tabs, at);
        Focus::lemma_named_name(focus);
        let up = if at + 1 == n {
            0
        } else {
            at + 1
        };
        let down = if at == 0 {
            n - 1
        } else {
            at - 1
        };
        assert(Focus::named(tabs[up]).name() == tabs[up]);
        assert(Focus::named(tabs[down]).name() == tabs[down]);
        lemma_place_of(tabs, up);
        lemma_place_of(tabs, down);
    }

    /// In the form, going on and then back, or back and then on, ends at
    /// the widget where it began, for each widget of the form.
    pub proof fn lemma_form_next_prev_inverse(focus: Focus)
        requires
            focus != Focus::NoFocus,
        ensures
            focus.following(UiMode::SelectFolder.targets()).preceding(
                UiMode::SelectFolder.targets(),
            ) == focus,
            focus.preceding(UiMode::SelectFolder.targets()).following(
                UiMode::SelectFolder.targets(),
            ) == focus,
    {
        let tabs = UiMode::SelectFolder.targets();
        UiMode::lemma_form_targets();
        assert(tabs[0] == Focus::ModFolderInput.name());
        assert(tabs[1] == Focus::CyberpunkFolderInput.name());
        assert(tabs[2] == Focus::Submit.name());
        Focus::lemma_next_prev_inverse(focus, tabs);
    }

    /// In a list of at most one name there is no widget to go to.
    pub proof fn lemma_short_list_no_focus(focus: Focus, tabs: Seq<Seq<char>>)
        requires
            tabs.len() <= 1,
        ensures
            focus.following(tabs) == Focus::NoFocus,
            focus.preceding(tabs) == Focus::NoFocus,
    {
    }
}

/// In a list without repetition each name is at its first place.
pub proof fn lemma_place_of(tabs: Seq<Seq<char>>, at: int)
    requires
        tabs.no_duplicates(),
        0 <= at < tabs.len(),
    ensures
        place(tabs, tabs[at]) == at,
{
    assert(is_place(tabs, tabs[at], at));
}

/// The view that the application shows.
#[derive(Debug, Clone, Copy, PartialEq, Eq, Structural)]
pub enum UiMode {
    /// The list of packages.
    Explore,
    /// The form with the two folders.
    SelectFolder,
}

impl UiMode {
    /// The name of the view.
    pub open spec fn name(self) -> Seq<char> {
        match self {
            UiMode::Explore => "Explore"@,
            UiMode::SelectFolder => "Select Folder"@,
        }
    }

    /// The view that `name` names, if it names one.
    pub open spec fn named(name: Seq<char>) -> Option<UiMode> {
        if name == "Explore"@ {
            Some(UiMode::Explore)
        } else if name == "Select Folder"@ {
            Some(UiMode::SelectFolder)
        } else {
            None
        }
    }

    /// The names of the widgets that the focus can go to in the view, in
    /// the order in which it goes through them.
    pub open spec fn targets(self) -> Seq<Seq<char>> {
        match self {
            UiMode::Explore => Seq::empty(),
            UiMode::SelectFolder => seq![
                Focus::ModFolderInput.name(),
                Focus::CyberpunkFolderInput.name(),
                Focus::Submit.name(),
            ],
        }
    }

    /// The name of the view.
    pub fn to_string(&self) -> (name: String)
        ensures
            name@ == self.name(),
    {
        match self {
            UiMode::Explore => String::from_str("Explore"),
            UiMode::SelectFolder => String::from_str("Select Folder"),
        }
    }

    /// The view that `s` names, if it names one.
    pub fn from_string(s: &str) -> (mode: Option<UiMode>)
        ensures
            mode == UiMode::named(s@),
    {
        if same_text(s, "Explore") {
            Some(UiMode::Explore)
        } else if same_text(s, "Select Folder") {
            Some(UiMode::SelectFolder)
        } else {
            None
        }
    }

    /// The names of the widgets that the focus can go to in the view.
    pub fn get_available_targets(&self) -> (targets: Vec<String>)
        ensures
            targets.deep_view() == self.targets(),
    {
        let mut targets: Vec<String> = Vec::new();
        match self {
            UiMode::Explore => {},
            UiMode::SelectFolder => {
                targets.push(String::from_str("Mod Folder"));
                targets.push(String::from_str("Cyberpunk Folder"));
                targets.push(String::from_str("Submit"));
            },
        }
        assert(targets.deep_view() =~= self.targets());
        targets
    }

    /// The form's widgets are three different names, each the name of a
    /// widget.
    pub proof fn lemma_form_targets()
        ensures
            UiMode::SelectFolder.targets().no_duplicates(),
            UiMode::SelectFolder.targets().len() == 3,
            forall|i: int|
                0 <= i < 3 ==> (#[trigger] Focus::named(UiMode::SelectFolder.targets()[i])).name()
                    == UiMode::SelectFolder.targets()[i],
    {
        Focus::lemma_named_name(Focus::ModFolderInput);
        Focus::lemma_named_name(Focus::CyberpunkFolderInput);
        Focus::lemma_named_name(Focus::Submit);
    }
}

/// Whether chords are commands or text.
#[derive(Debug, Clone, Copy, PartialEq, Eq, Structural)]
pub enum AppMode {
    Normal,
    Input,
}

/// What the state of the interaction is to the contracts.
pub ghost struct StateView {
    pub status: AppStatus,
    pub focus: Focus,
    pub current_input: Seq<char>,
    pub select_folder_form: Seq<Seq<char>>,
    pub ui_mode: UiMode,
    pub file_list: ListView<(Seq<char>, usize)>,
    pub mod_options: ListView<Seq<char>>,
    pub cursor_position: Option<usize>,
}

impl StateView {
    /// The form has its two fields.
    pub open spec fn wf(self) -> bool {
        self.select_folder_form.len() == 2
    }

    /// The text that the focus addresses: that of the field with the
    /// focus, or the free text where no field has it.
    pub open spec fn active_text(self) -> Seq<char> {
        match self.focus {
            Focus::ModFolderInput => self.select_folder_form[0],
            Focus::CyberpunkFolderInput => self.select_folder_form[1],
            _ => self.current_input,
        }
    }

    /// The state with `text` in place of the text that the focus
    /// addresses.
    pub open spec fn with_active_text(self, text: Seq<char>) -> StateView {
        match self.focus {
            Focus::ModFolderInput => StateView {
                select_folder_form: self.select_folder_form.update(0, text),
                ..self
            },
            Focus::CyberpunkFolderInput => StateView {
                select_folder_form: self.select_folder_form.update(1, text),
                ..self
            },
            _ => StateView { current_input: text, ..self },
        }
    }

    /// The cursor, if there is one, is at a character of the text that the
    /// focus addresses or just behind its last one.
    pub open spec fn cursor_in_bounds(self) -> bool {
        match self.cursor_position {
            Some(c) => c <= self.active_text().len(),
            None => true,
        }
    }
}

/// The state of the interaction.
#[derive(Debug, Clone)]
pub struct AppState {
    pub status: AppStatus,
    pub focus: Focus,
    /// The free text, edited where no field has the focus.
    pub current_input: String,
    /// The texts of the form: the folder of packages, then the game's.
    pub select_folder_form: [String; 2],
    pub ui_mode: UiMode,
    /// The packages: file name and size in bytes.
    pub file_list: StatefulList<(String, usize)>,
    /// The choices of the popup.
    pub mod_options: StatefulList<String>,
    /// The offset of the cursor in the text under edit, counted in
    /// characters; `None` where no text is under edit.
    pub cursor_position: Option<usize>,
}

impl View for AppState {
    type V = StateView;

    open spec fn view(&self) -> StateView {
        StateView {
            status: self.status,
            focus: self.focus,
            current_input: self.current_input@,
            select_folder_form: self.select_folder_form.deep_view(),
            ui_mode: self.ui_mode,
            file_list: self.file_list@,
            mod_options: self.mod_options@,
            cursor_position: self.cursor_position,
        }
    }
}

impl AppState {
    /// The state at start-up: nothing loaded, nothing selected, the list
    /// of packages on show.
    pub open spec fn default_view() -> StateView {
        StateView {
            status: AppStatus::Init,
            focus: Focus::NoFocus,
            current_input: Seq::empty(),
            select_folder_form: seq![Seq::empty(), Seq::empty()],
            ui_mode: UiMode::Explore,
            file_list: ListView { selected: None, items: Seq::empty() },
            mod_options: ListView { selected: None, items: ModOptions::names() },
            cursor_position: None,
        }
    }
}

impl Default for AppState {
    /// The state at start-up.
    fn default() -> (state: AppState)
        ensures
            state@ == AppState::default_view(),
    {
        let mod_options_list = ModOptions::get_all_options_as_listitems();
        let form: [String; 2] = [String::new(), String::new()];
        let files: Vec<(String, usize)> = Vec::new();
        let state = AppState {
            status: AppStatus::Init,
            focus: Focus::NoFocus,
            current_input: String::new(),
            select_folder_form: form,
            ui_mode: UiMode::Explore,
            file_list: StatefulList::with_items(files),
            mod_options: StatefulList::with_items(mod_options_list),
            cursor_position: None,
        };
        assert(state@.select_folder_form =~= seq![Seq::empty(), Seq::empty()]);
        assert(state@.file_list.items =~= Seq::empty());
        state
    }
}

/// The text of the field of the folder of packages without the message
/// that a failed check has left at its end, and without the blanks
/// around what is left. A text that ends with no message is left alone.
pub open spec fn source_cleared(text: Seq<char>) -> Seq<char> {
    if NOT_A_DIRECTORY_ERROR@.is_suffix_of(text) {
        trimmed(without_suffix(text, NOT_A_DIRECTORY_ERROR@))
    } else if MOD_FOLDER_INPUT_EMPTY_ERROR@.is_suffix_of(text) {
        trimmed(without_suffix(text, MOD_FOLDER_INPUT_EMPTY_ERROR@))
    } else {
        text
    }
}

/// The text of the field of the game's folder without the message that a
/// failed check has left at its end, and without the blanks around what
/// is left. A text that ends with no message is left alone.
pub open spec fn target_cleared(text: Seq<char>) -> Seq<char> {
    if NOT_A_DIRECTORY_ERROR@.is_suffix_of(text) {
        trimmed(without_suffix(text, NOT_A_DIRECTORY_ERROR@))
    } else if CYBERPUNK_FOLDER_INPUT_EMPTY_ERROR@.is_suffix_of(text) {
        trimmed(without_suffix(text, CYBERPUNK_FOLDER_INPUT_EMPTY_ERROR@))
    } else if NOT_A_VALID_CYBERPUNK_FOLDER_ERROR@.is_suffix_of(text) {
        trimmed(without_suffix(text, NOT_A_VALID_CYBERPUNK_FOLDER_ERROR@))
    } else {
        text
    }
}

fn cut_message(text: &str, message: &str) -> (out: String)
    ensures
        out@ == trimmed(without_suffix(text@, message@)),
{
    let cut = strip_suffix(text, message);
    trim(cut.as_str())
}

/// The text of the field of the folder of packages without the message
/// of a failed check.
pub fn clear_source_error(text: &str) -> (out: String)
    ensures
        out@ == source_cleared(text@),
{
    if ends_with(text, NOT_A_DIRECTORY_ERROR) {
        cut_message(text, NOT_A_DIRECTORY_ERROR)
    } else if ends_with(text, MOD_FOLDER_INPUT_EMPTY_ERROR) {
        cut_message(text, MOD_FOLDER_INPUT_EMPTY_ERROR)
    } else {
        String::from_str(text)
    }
}

/// The text of the field of the game's folder without the message of a
/// failed check.
pub fn clear_target_error(text: &str) -> (out: String)
    ensures
        out@ == target_cleared(text@),
{
    if ends_with(text, NOT_A_DIRECTORY_ERROR) {
        cut_message(text, NOT_A_DIRECTORY_ERROR)
    } else if ends_with(text, CYBERPUNK_FOLDER_INPUT_EMPTY_ERROR) {
        cut_message(text, CYBERPUNK_FOLDER_INPUT_EMPTY_ERROR)
    } else if ends_with(text, NOT_A_VALID_CYBERPUNK_FOLDER_ERROR) {
        cut_message(text, NOT_A_VALID_CYBERPUNK_FOLDER_ERROR)
    } else {
        String::from_str(text)
    }
}

/// `text` without `message` at its end, and without the one blank that
/// stands before the message where a failed check has put it there.
pub open spec fn without_message(text: Seq<char>, message: Seq<char>) -> Seq<char> {
    let cut = without_suffix(text, message);
    if cut.len() > 0 && cut.last() == ' ' {
        cut.drop_last()
    } else {
        cut
    }
}

/// What was entered in the field of the folder of packages: its text
/// without the message that a failed check has left at its end. Nothing
/// else of the text is changed.
pub open spec fn source_entered(text: Seq<char>) -> Seq<char> {
    if NOT_A_DIRECTORY_ERROR@.is_suffix_of(text) {
        without_message(text, NOT_A_DIRECTORY_ERROR@)
    } else if MOD_FOLDER_INPUT_EMPTY_ERROR@.is_suffix_of(text) {
        without_message(text, MOD_FOLDER_INPUT_EMPTY_ERROR@)
    } else {
        text
    }
}

/// What was entered in the field of the game's folder: its text without
/// the message that a failed check has left at its end. Nothing else of
/// the text is changed.
pub open spec fn target_entered(text: Seq<char>) -> Seq<char> {
    if NOT_A_DIRECTORY_ERROR@.is_suffix_of(text) {
        without_message(text, NOT_A_DIRECTORY_ERROR@)
    } else if CYBERPUNK_FOLDER_INPUT_EMPTY_ERROR@.is_suffix_of(text) {
        without_message(text, CYBERPUNK_FOLDER_INPUT_EMPTY_ERROR@)
    } else if NOT_A_VALID_CYBERPUNK_FOLDER_ERROR@.is_suffix_of(text) {
        without_message(text, NOT_A_VALID_CYBERPUNK_FOLDER_ERROR@)
    } else {
        text
    }
}

fn drop_message(text: &str, message: &str) -> (out: String)
    ensures
        out@ == without_message(text@, message@),
{
    let cut = strip_suffix(text, message);
    let n = cut.as_str().unicode_len();
    if n > 0 && cut.as_str().get_char(n - 1) == ' ' {
        let out = String::from_str(cut.as_str().substring_char(0, n - 1));
        assert(cut@.subrange(0, n - 1) == cut@.drop_last());
        out
    } else {
        cut
    }
}

/// What was entered in the field of the folder of packages.
pub fn entered_source(text: &str) -> (out: String)
    ensures
        out@ == source_entered(text@),
{
    if ends_with(text, NOT_A_DIRECTORY_ERROR) {
        drop_message(text, NOT_A_DIRECTORY_ERROR)
    } else if ends_with(text, MOD_FOLDER_INPUT_EMPTY_ERROR) {
        drop_message(text, MOD_FOLDER_INPUT_EMPTY_ERROR)
    } else {
        String::from_str(text)
    }
}

/// What was entered in the field of the game's folder.
pub fn entered_target(text: &str) -> (out: String)
    ensures
        out@ == target_entered(text@),
{
    if ends_with(text, NOT_A_DIRECTORY_ERROR) {
        drop_message(text, NOT_A_DIRECTORY_ERROR)
    } else if ends_with(text, CYBERPUNK_FOLDER_INPUT_EMPTY_ERROR) {
        drop_message(text, CYBERPUNK_FOLDER_INPUT_EMPTY_ERROR)
    } else if ends_with(text, NOT_A_VALID_CYBERPUNK_FOLDER_ERROR) {
        drop_message(text, NOT_A_VALID_CYBERPUNK_FOLDER_ERROR)
    } else {
        String::from_str(text)
    }
}

} // verus!
