//! Lists with a selection, the choices offered for a package, the popup
//! that offers them, the remembered settings, and the checks on a
//! directory tree that tell a package and the game's folder.

use crate::text::{ends_with, same_text};
use vstd::prelude::*;
use vstd::string::*;

verus! {

/// Which entry of a list is selected, if any.
#[derive(Debug, Clone, Copy, PartialEq, Eq, Structural)]
pub struct ListState {
    pub selected: Option<usize>,
}

impl Default for ListState {
    /// Nothing is selected.
    fn default() -> (state: ListState)
        ensures
            state.selected is None,
    {
        ListState { selected: None }
    }
}

impl ListState {
    /// The selected index.
    pub fn selected(&self) -> (index: Option<usize>)
        ensures
            index == self.selected,
    {
        self.selected
    }

    /// Selects `index`, or nothing.
    pub fn select(&mut self, index: Option<usize>)
        ensures
            final(self).selected == index,
    {
        self.selected = index;
    }
}

/// The index that a step down a list of `len` items selects: the next
/// one, the first after the last, and the first where nothing was selected
/// or the list is empty.
pub open spec fn index_after(selected: Option<usize>, len: nat) -> usize {
    match selected {
        Some(i) => if len == 0 || i >= len - 1 {
            0
        } else {
            (i + 1) as usize
        },
        None => 0,
    }
}

/// The index that a step up a list of `len` items selects: the one before,
/// the last before the first, and the first where nothing was selected or
/// the list is empty.
pub open spec fn index_before(selected: Option<usize>, len: nat) -> usize {
    match selected {
        Some(i) => if len == 0 {
            0
        } else if i == 0 {
            (len - 1) as usize
        } else {
            (i - 1) as usize
        },
        None => 0,
    }
}

/// What a list with a selection is to the contracts: the selection and
/// the views of the items.
pub ghost struct ListView<V> {
    pub selected: Option<usize>,
    pub items: Seq<V>,
}

impl<V> ListView<V> {
    /// The list with the selection moved one step down.
    pub open spec fn next(self) -> ListView<V> {
        ListView { selected: Some(index_after(self.selected, self.items.len())), items: self.items }
    }

    /// The list with the selection moved one step up.
    pub open spec fn previous(self) -> ListView<V> {
        ListView {
            selected: Some(index_before(self.selected, self.items.len())),
            items: self.items,
        }
    }

    /// The selected item, where the selection points at one.
    pub open spec fn chosen(self) -> Option<V> {
        match self.selected {
            Some(i) => if i < self.items.len() {
                Some(self.items[i as int])
            } else {
                None
            },
            None => None,
        }
    }
}

/// A list of items, one of which may be selected.
#[derive(Debug, Clone)]
pub struct StatefulList<T> {
    pub state: ListState,
    pub items: Vec<T>,
}

impl<T: DeepView> View for StatefulList<T> {
    type V = ListView<T::V>;

    open spec fn view(&self) -> ListView<T::V> {
        ListView { selected: self.state.selected, items: self.items.deep_view() }
    }
}

impl<T> StatefulList<T> {
    /// The list of `items`, none selected.
    pub fn with_items(items: Vec<T>) -> (list: StatefulList<T>)
        ensures
            list.state.selected is None,
            list.items == items,
    {
        StatefulList { state: ListState::default(), items }
    }

    /// Moves the selection one step down, from the last item to the
    /// first. An empty list selects index 0.
    pub fn next(&mut self)
        ensures
            final(self).state.selected == Some(
                index_after(old(self).state.selected, old(self).items@.len()),
            ),
            final(self).items == old(self).items,
    {
        let i = match self.state.selected() {
            Some(i) => {
                if self.items.len() == 0 {
                    0
                } else if i >= self.items.len() - 1 {
                    0
                } else {
                    i + 1
                }
            },
            None => 0,
        };
        self.state.select(Some(i));
    }

    /// Moves the selection one step up, from the first item to the last.
    /// An empty list selects index 0.
    pub fn previous(&mut self)
        ensures
            final(self).state.selected == Some(
                index_before(old(self).state.selected, old(self).items@.len()),
            ),
            final(self).items == old(self).items,
    {
        let i = match self.state.selected() {
            Some(i) => {
                if self.items.len() == 0 {
                    0
                } else if i == 0 {
                    self.items.len() - 1
                } else {
                    i - 1
                }
            },
            None => 0,
        };
        self.state.select(Some(i));
    }

    /// Selects nothing.
    pub fn unselect(&mut self)
        ensures
            final(self).state.selected is None,
            final(self).items == old(self).items,
    {
        self.state.select(None);
    }
}

/// What can be done with a package.
#[derive(Debug, Clone, Copy, PartialEq, Eq, Structural)]
pub enum ModOptions {
    Install,
    Uninstall,
    /// Uninstall, then install.
    Repair,
}

impl ModOptions {
    /// Every choice, in the order in which the popup lists them.
    pub open spec fn every() -> Seq<ModOptions> {
        seq![ModOptions::Install, ModOptions::Uninstall, ModOptions::Repair]
    }

    /// The name of the choice.
    pub open spec fn name(self) -> Seq<char> {
        match self {
            ModOptions::Install => "Install"@,
            ModOptions::Uninstall => "Uninstall"@,
            ModOptions::Repair => "Repair"@,
        }
    }

    /// The choice that `name` names, if it names one.
    pub open spec fn named(name: Seq<char>) -> Option<ModOptions> {
        if name == "Install"@ {
            Some(ModOptions::Install)
        } else if name == "Uninstall"@ {
            Some(ModOptions::Uninstall)
        } else if name == "Repair"@ {
            Some(ModOptions::Repair)
        } else {
            None
        }
    }

    /// The names of all choices, in order.
    pub open spec fn names() -> Seq<Seq<char>> {
        seq!["Install"@, "Uninstall"@, "Repair"@]
    }

    /// Every choice, in the order in which the popup lists them.
    pub fn get_all_options() -> (all: Vec<ModOptions>)
        ensures
            all@ == ModOptions::every(),
    {
        let all = vec![ModOptions::Install, ModOptions::Uninstall, ModOptions::Repair];
        assert(all@ =~= ModOptions::every());
        all
    }

    /// The names of all choices, in order.
    pub fn get_all_options_as_listitems() -> (names: Vec<String>)
        ensures
            names.deep_view() == ModOptions::names(),
    {
        let all = ModOptions::get_all_options();
        let mut names: Vec<String> = Vec::new();
        let mut i: usize = 0;
        while i < all.len()
            invariant
                i <= all.len(),
                all@ == ModOptions::every(),
                names.len() == i,
                forall|j: int| 0 <= j < i ==> (#[trigger] names[j])@ == ModOptions::names()[j],
            decreases all.len() - i,
        {
            names.push(all[i].to_string());
            i += 1;
        }
        assert(names.deep_view() =~= ModOptions::names());
        names
    }

    /// The name of the choice.
    pub fn to_string(&self) -> (name: String)
        ensures
            name@ == self.name(),
    {
        match self {
            ModOptions::Install => String::from_str("Install"),
            ModOptions::Uninstall => String::from_str("Uninstall"),
            ModOptions::Repair => String::from_str("Repair"),
        }
    }

    /// The choice that `option` names, if it names one.
    pub fn get_option_from_string(option: &str) -> (choice: Option<ModOptions>)
        ensures
            choice == ModOptions::named(option@),
    {
        if same_text(option, "Install") {
            Some(ModOptions::Install)
        } else if same_text(option, "Uninstall") {
            Some(ModOptions::Uninstall)
        } else if same_text(option, "Repair") {
            Some(ModOptions::Repair)
        } else {
            None
        }
    }

    /// Each choice is the one that its name names.
    pub proof fn lemma_named_name(choice: ModOptions)
        ensures
            ModOptions::named(choice.name()) == Some(choice),
    {
        reveal_strlit("Install");
        reveal_strlit("Uninstall");
        reveal_strlit("Repair");
        assert("Install"@.len() == 7);
        assert("Uninstall"@.len() == 9);
        assert("Repair"@.len() == 6);
    }
}

/// What the popup over a package is to the contracts.
pub ghost struct PopupView {
    pub mod_name: Seq<char>,
    pub mod_install_status: Option<bool>,
}

/// The popup that offers the choices for one package.
#[derive(Debug, Clone)]
pub struct ModPopup {
    /// The file name of the package.
    pub mod_name: String,
    /// Whether the package is installed; `None` while that is being
    /// looked up.
    pub mod_install_status: Option<bool>,
}

impl View for ModPopup {
    type V = PopupView;

    open spec fn view(&self) -> PopupView {
        PopupView { mod_name: self.mod_name@, mod_install_status: self.mod_install_status }
    }
}

impl ModPopup {
    /// The popup for the package `mod_name`, its state not yet known.
    pub fn new(mod_name: String) -> (popup: ModPopup)
        ensures
            popup.mod_name == mod_name,
            popup.mod_install_status is None,
    {
        ModPopup { mod_name, mod_install_status: None }
    }

    /// The file name of the package.
    pub fn get_mod_name(&self) -> (name: &str)
        ensures
            name@ == self.mod_name@,
    {
        self.mod_name.as_str()
    }

    /// Whether the package is installed, if known.
    pub fn get_mod_install_status(&self) -> (status: Option<bool>)
        ensures
            status == self.mod_install_status,
    {
        self.mod_install_status
    }

    /// Records whether the package is installed.
    pub fn set_mod_install_status(&mut self, status: bool)
        ensures
            final(self).mod_install_status == Some(status),
            final(self).mod_name == old(self).mod_name,
    {
        self.mod_install_status = Some(status);
    }
}

/// The view of a text that may be absent.
pub open spec fn text_of(text: Option<String>) -> Option<Seq<char>> {
    match text {
        Some(t) => Some(t@),
        None => None,
    }
}

/// What the settings are to the contracts.
pub ghost struct SettingsView {
    pub cyberpunk_folder: Option<Seq<char>>,
    pub mod_folder: Option<Seq<char>>,
}

/// The two folders that are remembered from one run to the next.
#[derive(Debug, Clone)]
pub struct Settings {
    pub cyberpunk_folder: Option<String>,
    pub mod_folder: Option<String>,
}

impl View for Settings {
    type V = SettingsView;

    open spec fn view(&self) -> SettingsView {
        SettingsView {
            cyberpunk_folder: text_of(self.cyberpunk_folder),
            mod_folder: text_of(self.mod_folder),
        }
    }
}

/// The lines of the help message.
pub open spec fn help_lines() -> Seq<Seq<char>> {
    seq![
        "Press <f> to select Mod and Cyberpunk Folders"@,
        "Use UP/DOWN to navigate the list"@,
        "Press <Enter> to select a file"@,
        "Press <i> to enter input mode (Green Highlight)"@,
        "Press <Tab> to switch between input and submit button (Blue Highlight)"@,
        "Press <h> to see this help message again"@,
        "Press <Ctrl + s> to save settings"@,
        "Press <Esc> to exit input mode or close popup"@,
        "Press <q> to quit"@,
    ]
}

/// The help message, line by line, for the caller to show.
pub fn log_help() -> (lines: Vec<String>)
    ensures
        lines.deep_view() == help_lines(),
{
    let mut lines: Vec<String> = Vec::new();
    lines.push(String::from_str("Press <f> to select Mod and Cyberpunk Folders"));
    lines.push(String::from_str("Use UP/DOWN to navigate the list"));
    lines.push(String::from_str("Press <Enter> to select a file"));
    lines.push(String::from_str("Press <i> to enter input mode (Green Highlight)"));
    lines.push(
        String::from_str("Press <Tab> to switch between input and submit button (Blue Highlight)"),
    );
    lines.push(String::from_str("Press <h> to see this help message again"));
    lines.push(String::from_str("Press <Ctrl + s> to save settings"));
    lines.push(String::from_str("Press <Esc> to exit input mode or close popup"));
    lines.push(String::from_str("Press <q> to quit"));
    assert(lines.deep_view() =~= help_lines());
    lines
}

/// What an entry of a directory tree is.
#[derive(Debug, Clone, Copy, PartialEq, Eq, Structural)]
pub enum EntryKind {
    File,
    Directory,
    /// Neither a file nor a directory.
    Other,
}

/// What an entry of a directory tree is to the contracts.
pub ghost struct EntryView {
    pub path: Seq<char>,
    pub name: Seq<char>,
    pub kind: EntryKind,
    pub size: usize,
}

/// One entry that a walk through a directory tree has met.
#[derive(Debug, Clone)]
pub struct TreeEntry {
    /// The path of the entry from the root of the walk.
    pub path: String,
    /// The last component of the path.
    pub name: String,
    pub kind: EntryKind,
    /// The size in bytes, for a file.
    pub size: usize,
}

impl View for TreeEntry {
    type V = EntryView;

    open spec fn view(&self) -> EntryView {
        EntryView { path: self.path@, name: self.name@, kind: self.kind, size: self.size }
    }
}

impl DeepView for TreeEntry {
    type V = EntryView;

    open spec fn deep_view(&self) -> EntryView {
        self@
    }
}

/// The names of the directories by which the game's folder is known.
pub open spec fn is_game_marker(name: Seq<char>) -> bool {
    name == "archive"@ || name == "bin"@ || name == "engine"@ || name == "mods"@
}

/// The names of the directories by which a package is known.
pub open spec fn is_mod_marker(name: Seq<char>) -> bool {
    is_game_marker(name) || name == "red4ext"@ || name == "r6"@
}

/// The entry shows that its tree is the game's folder: a directory with
/// one of the marker names.
pub open spec fn marks_game(entry: EntryView) -> bool {
    entry.kind == EntryKind::Directory && is_game_marker(entry.name)
}

/// The entry shows that its tree is a package: a directory with one of
/// the marker names, or a file whose name ends in `.archive`.
pub open spec fn marks_mod(entry: EntryView) -> bool {
    ||| entry.kind == EntryKind::Directory && is_mod_marker(entry.name)
    ||| entry.kind == EntryKind::File && ".archive"@.is_suffix_of(entry.name)
}

/// The tree is the game's folder: one of its entries shows it.
pub open spec fn is_game_tree(entries: Seq<EntryView>) -> bool {
    exists|i: int| 0 <= i < entries.len() && marks_game(#[trigger] entries[i])
}

/// The tree is a package: one of its entries shows it.
pub open spec fn is_mod_tree(entries: Seq<EntryView>) -> bool {
    exists|i: int| 0 <= i < entries.len() && marks_mod(#[trigger] entries[i])
}

fn is_game_marker_name(name: &str) -> (r: bool)
    ensures
        r == is_game_marker(name@),
{
    same_text(name, "archive") || same_text(name, "bin") || same_text(name, "engine") || same_text(
        name,
        "mods",
    )
}

fn entry_marks_mod(entry: &TreeEntry) -> (r: bool)
    ensures
        r == marks_mod(entry@),
{
    let name = entry.name.as_str();
    match entry.kind {
        EntryKind::Directory => is_game_marker_name(name) || same_text(name, "red4ext")
            || same_text(name, "r6"),
        EntryKind::File => ends_with(name, ".archive"),
        EntryKind::Other => false,
    }
}

/// Whether the unpacked tree `entries` is that of a package.
pub fn check_if_mod_is_valid(entries: &Vec<TreeEntry>) -> (valid: bool)
    ensures
        valid == is_mod_tree(entries.deep_view()),
{
    let mut i: usize = 0;
    while i < entries.len()
        invariant
            i <= entries.len(),
            forall|j: int| 0 <= j < i ==> !marks_mod(#[trigger] entries.deep_view()[j]),
        decreases entries.len() - i,
    {
        assert(entries.deep_view()[i as int] == entries[i as int]@);
        if entry_marks_mod(&entries[i]) {
            return true;
        }
        i += 1;
    }
    false
}

/// Whether the tree `entries` is that of the game's folder.
pub fn check_if_cyberpunk_dir_is_valid(entries: &Vec<TreeEntry>) -> (valid: bool)
    ensures
        valid == is_game_tree(entries.deep_view()),
{
    let mut i: usize = 0;
    while i < entries.len()
        invariant
            i <= entries.len(),
            forall|j: int| 0 <= j < i ==> !marks_game(#[trigger] entries.deep_view()[j]),
        decreases entries.len() - i,
    {
        assert(entries.deep_view()[i as int] == entries[i as int]@);
        let entry = &entries[i];
        if entry.kind == EntryKind::Directory && is_game_marker_name(entry.name.as_str()) {
            return true;
        }
        i += 1;
    }
    false
}

/// A tree in which no directory has a marker name is not the game's
/// folder; with one directory of such a name added, it is.
pub proof fn lemma_marker_directory_decides(entries: Seq<EntryView>, added: EntryView)
    requires
        forall|i: int|
            0 <= i < entries.len() && (#[trigger] entries[i]).kind == EntryKind::Directory
                ==> !is_game_marker(entries[i].name),
        added.kind == EntryKind::Directory,
        is_game_marker(added.name),
    ensures
        !is_game_tree(entries),
        is_game_tree(entries.push(added)),
{
    assert(marks_game(entries.push(added)[entries.len() as int]));
}

} // verus!
