//! What the worker decides. The worker itself reads and writes the disk;
//! the functions of this module say which steps a request takes, what is
//! to be read, and what the application and the game's folder are to look
//! like afterwards.
//!
//! A package is known by the tree into which its archive was unpacked.
//! The game's folder is known by the paths, relative to it, at which a
//! file exists. Paths are compared as texts.

use super::IoEvent;
use crate::app::state::{entered_source, entered_target, source_entered, target_entered};
use crate::app::actions::Action;
use crate::app::state::{AppStatus, Focus, StateView, UiMode};
use crate::app::utils::{
    check_if_cyberpunk_dir_is_valid, is_game_marker, is_game_tree,
    lemma_marker_directory_decides, text_of, EntryKind, EntryView, ListView,
    ModPopup, PopupView, Settings, SettingsView, TreeEntry,
};
use crate::app::{App, AppView};
use crate::constants::{
    CYBERPUNK_FOLDER_INPUT_EMPTY_ERROR, MOD_FOLDER_INPUT_EMPTY_ERROR, NOT_A_DIRECTORY_ERROR,
    NOT_A_VALID_CYBERPUNK_FOLDER_ERROR,
};
use crate::app::state::without_message;
use crate::text::{
    before_first, is_blank_text, lemma_strip_twice, prefix_before, quote, same_text, trim_quotes,
    trimmed, unquoted,
};
use vstd::prelude::*;
use vstd::string::*;

verus! {

/// One step of the worker on a request.
#[derive(Debug, Clone, Copy, PartialEq, Eq, Structural)]
pub enum IoStep {
    /// Read the settings file and take in its folders.
    ReadSettings,
    /// Look at the two folders that are known, and take in what was found.
    LoadKnownFolders,
    /// Look at the two folders of the form, and take in what was found.
    LoadFormFolders,
    /// Open the application for commands.
    Open,
    /// Unpack the package of the popup and copy what the game's folder
    /// lacks of it.
    Install,
    /// Unpack the package of the popup and remove what the game's folder
    /// has of it.
    Uninstall,
    /// Unpack the package of the popup and note in the popup whether the
    /// game's folder has all of it.
    Verify,
    /// Write the settings file.
    WriteSettings,
}

/// The steps that the request `event` takes, in order.
pub open spec fn steps(event: IoEvent) -> Seq<IoStep> {
    match event {
        IoEvent::Initialize => seq![IoStep::ReadSettings, IoStep::LoadKnownFolders, IoStep::Open],
        IoEvent::InstallMod => seq![IoStep::Install, IoStep::Verify],
        IoEvent::UninstallMod => seq![IoStep::Uninstall, IoStep::Verify],
        IoEvent::CheckIfModIsInstalled => seq![IoStep::Verify],
        IoEvent::SaveSettings => seq![IoStep::WriteSettings],
        IoEvent::LoadMods => seq![IoStep::LoadFormFolders],
    }
}

/// The steps that are left of `plan` after its first step has ended: the
/// rest if it has succeeded, none if it has failed.
pub open spec fn left_after(plan: Seq<IoStep>, succeeded: bool) -> Seq<IoStep> {
    if succeeded && plan.len() > 0 {
        plan.drop_first()
    } else {
        Seq::empty()
    }
}

/// The application after the first step of `plan` has ended: no longer
/// busy if no step is left, else as it is.
pub open spec fn stepped(app: AppView, plan: Seq<IoStep>, succeeded: bool) -> AppView {
    if left_after(plan, succeeded).len() == 0 {
        AppView { is_loading: false, ..app }
    } else {
        app
    }
}

/// Takes in that the first step of `plan` has ended, and gives the steps
/// that are left. A step that fails ends the request: no step is left.
/// When no step is left the request is over, whether it has succeeded or
/// failed, and the application is marked as no longer busy.
pub fn after_step(app: &mut App, plan: Vec<IoStep>, succeeded: bool) -> (left: Vec<IoStep>)
    ensures
        left@ == left_after(plan@, succeeded),
        final(app)@ == stepped(old(app)@, plan@, succeeded),
        plan@.len() > 0 ==> left@.len() < plan@.len(),
{
    let mut left: Vec<IoStep> = Vec::new();
    if succeeded && plan.len() > 0 {
        let mut i: usize = 1;
        while i < plan.len()
            invariant
                1 <= i <= plan.len(),
                left@ == plan@.subrange(1, i as int),
            decreases plan.len() - i,
        {
            left.push(plan[i]);
            i += 1;
        }
        assert(left@ =~= plan@.drop_first());
    }
    if left.len() == 0 {
        app.loaded();
    }
    left
}

/// The steps that the request `io_event` takes, in order; there is at
/// least one. The worker takes them one after the other and tells
/// `after_step` how each has ended: that function says what is left, and
/// ends the request.
pub fn handle_io_event(io_event: IoEvent) -> (plan: Vec<IoStep>)
    ensures
        plan@ == steps(io_event),
        plan@.len() > 0,
{
    let plan = match io_event {
        IoEvent::Initialize => vec![IoStep::ReadSettings, IoStep::LoadKnownFolders, IoStep::Open],
        IoEvent::InstallMod => vec![IoStep::Install, IoStep::Verify],
        IoEvent::UninstallMod => vec![IoStep::Uninstall, IoStep::Verify],
        IoEvent::CheckIfModIsInstalled => vec![IoStep::Verify],
        IoEvent::SaveSettings => vec![IoStep::WriteSettings],
        IoEvent::LoadMods => vec![IoStep::LoadFormFolders],
    };
    assert(plan@ =~= steps(io_event));
    plan
}

/// The application after start-up has ended: every command is enabled,
/// and the first package is selected if none was.
pub open spec fn opened_up(app: AppView) -> AppView {
    AppView {
        actions: Action::catalogue(),
        state: StateView {
            status: AppStatus::Initialized,
            file_list: if app.state.file_list.selected is None {
                app.state.file_list.next()
            } else {
                app.state.file_list
            },
            ..app.state
        },
        ..app
    }
}

/// Ends start-up: enables every command and selects the first package if
/// none is selected.
pub fn do_initialize(app: &mut App)
    ensures
        final(app)@ == opened_up(old(app)@),
{
    app.initialized();
    if app.state.file_list.state.selected().is_none() {
        app.state.file_list.next();
    }
}

/// A folder as it is remembered: an empty path is no folder.
pub open spec fn remembered(folder: Option<Seq<char>>) -> Option<Seq<char>> {
    match folder {
        Some(path) => if path.len() == 0 {
            None
        } else {
            Some(path)
        },
        None => None,
    }
}

/// A folder as it is written to the settings: no folder is written as the
/// empty path.
pub open spec fn written(folder: Option<Seq<char>>) -> Option<Seq<char>> {
    match folder {
        Some(path) => Some(path),
        None => Some(Seq::empty()),
    }
}

/// What is written and then read again is what was known, an empty path
/// apart.
pub proof fn lemma_written_then_remembered(folder: Option<Seq<char>>)
    requires
        folder is Some ==> folder->0.len() > 0,
    ensures
        remembered(written(folder)) == folder,
{
}

fn remember(folder: &Option<String>) -> (known: Option<String>)
    ensures
        text_of(known) == remembered(text_of(*folder)),
{
    match folder {
        Some(path) => if path.as_str().unicode_len() == 0 {
            None
        } else {
            Some(path.clone())
        },
        None => None,
    }
}

fn write(folder: &Option<String>) -> (out: Option<String>)
    ensures
        text_of(out) == written(text_of(*folder)),
{
    match folder {
        Some(path) => Some(path.clone()),
        None => Some(String::new()),
    }
}

/// Takes in the folders of `settings`, as they were read from the
/// settings file. An absent and an empty path both stand for no folder.
pub fn get_saved_settings(app: &mut App, settings: &Settings)
    ensures
        final(app)@ == (AppView {
            mod_folder: remembered(settings@.mod_folder),
            cyberpunk_folder: remembered(settings@.cyberpunk_folder),
            ..old(app)@
        }),
{
    app.mod_folder = remember(&settings.mod_folder);
    app.cyberpunk_folder = remember(&settings.cyberpunk_folder);
}

/// The settings to write: the two folders, the empty path for a folder
/// that is not known.
pub fn do_save_settings(app: &App) -> (settings: Settings)
    ensures
        settings@ == (SettingsView {
            mod_folder: written(app@.mod_folder),
            cyberpunk_folder: written(app@.cyberpunk_folder),
        }),
{
    Settings { mod_folder: write(&app.mod_folder), cyberpunk_folder: write(&app.cyberpunk_folder) }
}

/// What a look at a folder has found, to the contracts.
pub ghost struct ScanView {
    pub path: Seq<char>,
    pub is_dir: bool,
    pub entries: Seq<EntryView>,
}

/// What a look at a folder has found.
#[derive(Debug, Clone)]
pub struct FolderScan {
    /// The path that was looked at.
    pub path: String,
    /// Whether a directory is there.
    pub is_dir: bool,
    /// What the directory holds. For the folder of packages: what lies
    /// directly in it. For the game's folder: its whole tree.
    pub entries: Vec<TreeEntry>,
}

impl View for FolderScan {
    type V = ScanView;

    open spec fn view(&self) -> ScanView {
        ScanView { path: self.path@, is_dir: self.is_dir, entries: self.entries.deep_view() }
    }
}

/// The path of the folder of packages that a load is to look at: the
/// folder that is known, or what was entered in the form's first field;
/// either without quotes around it.
pub open spec fn source_input(app: AppView, from_save: bool) -> Seq<char> {
    if from_save {
        match app.mod_folder {
            Some(path) => unquoted(path),
            None => Seq::empty(),
        }
    } else {
        unquoted(source_entered(app.state.select_folder_form[0]))
    }
}

/// The path of the game's folder that a load is to look at: the folder
/// that is known, or what was entered in the form's second field; either
/// without quotes around it.
pub open spec fn target_input(app: AppView, from_save: bool) -> Seq<char> {
    if from_save {
        match app.cyberpunk_folder {
            Some(path) => unquoted(path),
            None => Seq::empty(),
        }
    } else {
        unquoted(target_entered(app.state.select_folder_form[1]))
    }
}

/// The two paths that a load is to look at: that of the folder of
/// packages, then that of the game's folder.
pub fn folder_inputs(app: &App, from_save: bool) -> (paths: (String, String))
    ensures
        paths.0@ == source_input(app@, from_save),
        paths.1@ == target_input(app@, from_save),
{
    assert(app.state.select_folder_form.deep_view()[0] == app.state.select_folder_form[0]@);
    assert(app.state.select_folder_form.deep_view()[1] == app.state.select_folder_form[1]@);
    let source = if from_save {
        match &app.mod_folder {
            Some(path) => trim_quotes(path.as_str()),
            None => {
                let none = String::new();
                assert(none@ =~= Seq::<char>::empty());
                none
            },
        }
    } else {
        let clean = entered_source(app.state.select_folder_form[0].as_str());
        trim_quotes(clean.as_str())
    };
    let target = if from_save {
        match &app.cyberpunk_folder {
            Some(path) => trim_quotes(path.as_str()),
            None => {
                let none = String::new();
                assert(none@ =~= Seq::<char>::empty());
                none
            },
        }
    } else {
        let clean = entered_target(app.state.select_folder_form[1].as_str());
        trim_quotes(clean.as_str())
    };
    (source, target)
}

/// How the check of a folder has ended.
#[derive(Debug, Clone, Copy, PartialEq, Eq, Structural)]
pub enum FolderCheck {
    Valid,
    /// No path was given.
    Empty,
    /// The path leads to no directory.
    NotADirectory,
    /// The directory is not the game's.
    NotTheGame,
}

/// How the check of the folder of packages ends.
pub open spec fn source_check(scan: ScanView) -> FolderCheck {
    if scan.is_dir {
        FolderCheck::Valid
    } else if trimmed(scan.path).len() == 0 {
        FolderCheck::Empty
    } else {
        FolderCheck::NotADirectory
    }
}

/// How the check of the game's folder ends.
pub open spec fn target_check(scan: ScanView) -> FolderCheck {
    if scan.is_dir {
        if is_game_tree(scan.entries) {
            FolderCheck::Valid
        } else {
            FolderCheck::NotTheGame
        }
    } else if trimmed(scan.path).len() == 0 {
        FolderCheck::Empty
    } else {
        FolderCheck::NotADirectory
    }
}

/// A directory in whose tree no directory has a marker name fails the
/// check of the game's folder; with one directory of such a name added
/// to the tree, it passes.
pub proof fn lemma_marker_directory_flips_check(scan: ScanView, added: EntryView)
    requires
        scan.is_dir,
        forall|i: int|
            0 <= i < scan.entries.len() && (#[trigger] scan.entries[i]).kind
                == EntryKind::Directory ==> !is_game_marker(scan.entries[i].name),
        added.kind == EntryKind::Directory,
        is_game_marker(added.name),
    ensures
        target_check(scan) == FolderCheck::NotTheGame,
        target_check(ScanView { entries: scan.entries.push(added), ..scan }) == FolderCheck::Valid,
{
    lemma_marker_directory_decides(scan.entries, added);
}

/// `path`, a blank, and `message`.
pub open spec fn with_message(path: Seq<char>, message: Seq<char>) -> Seq<char> {
    path + " "@ + message
}

/// What the form's first field shows after a check that has ended with
/// `check`; `text` is what it showed before.
pub open spec fn source_report(check: FolderCheck, path: Seq<char>, text: Seq<char>) -> Seq<char> {
    match check {
        FolderCheck::Empty => MOD_FOLDER_INPUT_EMPTY_ERROR@,
        FolderCheck::NotADirectory => with_message(path, NOT_A_DIRECTORY_ERROR@),
        _ => text,
    }
}

/// What the form's second field shows after a check that has ended with
/// `check`; `text` is what it showed before.
pub open spec fn target_report(check: FolderCheck, path: Seq<char>, text: Seq<char>) -> Seq<char> {
    match check {
        FolderCheck::Empty => CYBERPUNK_FOLDER_INPUT_EMPTY_ERROR@,
        FolderCheck::NotADirectory => with_message(path, NOT_A_DIRECTORY_ERROR@),
        FolderCheck::NotTheGame => with_message(path, NOT_A_VALID_CYBERPUNK_FOLDER_ERROR@),
        FolderCheck::Valid => text,
    }
}

/// The files among `entries`, each with its name and its size, in order.
pub open spec fn listed_files(entries: Seq<EntryView>) -> Seq<(Seq<char>, usize)>
    decreases entries.len(),
{
    if entries.len() == 0 {
        Seq::empty()
    } else if entries.last().kind == EntryKind::File {
        listed_files(entries.drop_last()).push((entries.last().name, entries.last().size))
    } else {
        listed_files(entries.drop_last())
    }
}

/// The application after a load that has found `source` for the folder
/// of packages and `target` for the game's folder.
///
/// A folder that has passed its check is known from then on. If both
/// have passed, the list shows the files of the folder of packages, with
/// the first selected if none was, the form is empty and no widget has
/// the focus. Else each field whose folder has failed shows the
/// message of its failure, and the list is as it was.
pub open spec fn loaded(app: AppView, source: ScanView, target: ScanView) -> AppView {
    let first = source_check(source);
    let second = target_check(target);
    let known = AppView {
        mod_folder: if first == FolderCheck::Valid {
            Some(source.path)
        } else {
            app.mod_folder
        },
        cyberpunk_folder: if second == FolderCheck::Valid {
            Some(target.path)
        } else {
            app.cyberpunk_folder
        },
        ..app
    };
    if first == FolderCheck::Valid && second == FolderCheck::Valid {
        (AppView {
            state: StateView {
                ui_mode: UiMode::Explore,
                focus: Focus::NoFocus,
                select_folder_form: seq![Seq::empty(), Seq::empty()],
                file_list: ListView {
                    selected: if app.state.file_list.selected is None {
                        Some(0)
                    } else {
                        app.state.file_list.selected
                    },
                    items: listed_files(source.entries),
                },
                ..app.state
            },
            ..known
        }).settled()
    } else {
        (AppView {
            state: StateView {
                select_folder_form: seq![
                    source_report(first, source.path, app.state.select_folder_form[0]),
                    target_report(second, target.path, app.state.select_folder_form[1]),
                ],
                ..app.state
            },
            ..known
        }).settled()
    }
}

/// What a look at `path` finds on a disk on which `dirs` are the paths of
/// the directories and `tree` says what each of them holds.
pub open spec fn scan_at(
    dirs: Set<Seq<char>>,
    tree: spec_fn(Seq<char>) -> Seq<EntryView>,
    path: Seq<char>,
) -> ScanView {
    ScanView { path, is_dir: dirs.contains(path), entries: tree(path) }
}

/// The application after a load of the two folders of the form from the
/// disk that `dirs` and `tree` describe.
pub open spec fn form_loaded(
    app: AppView,
    dirs: Set<Seq<char>>,
    tree: spec_fn(Seq<char>) -> Seq<EntryView>,
) -> AppView {
    loaded(
        app,
        scan_at(dirs, tree, source_input(app, false)),
        scan_at(dirs, tree, target_input(app, false)),
    )
}

/// A path with a message behind it ends with the message, and is the
/// path again once the message is taken off.
pub proof fn lemma_message_comes_off(path: Seq<char>, message: Seq<char>)
    ensures
        message.is_suffix_of(with_message(path, message)),
        without_message(with_message(path, message), message) == path,
        message.len() > 0 ==> with_message(path, message).last() == message.last(),
{
    reveal_strlit(" ");
    let text = with_message(path, message);
    assert(" "@.len() == 1);
    assert(text.subrange(text.len() - message.len(), text.len() as int) =~= message);
    let cut = text.subrange(0, text.len() - message.len());
    assert(cut =~= path + " "@);
    assert(cut.last() == ' ');
    assert(cut.drop_last() =~= path);
}

/// No message of a failed check ends with another one, whatever stands
/// before it.
proof fn lemma_messages_differ(path: Seq<char>)
    ensures
        !NOT_A_DIRECTORY_ERROR@.is_suffix_of(MOD_FOLDER_INPUT_EMPTY_ERROR@),
        !NOT_A_DIRECTORY_ERROR@.is_suffix_of(CYBERPUNK_FOLDER_INPUT_EMPTY_ERROR@),
        !NOT_A_DIRECTORY_ERROR@.is_suffix_of(
            with_message(path, NOT_A_VALID_CYBERPUNK_FOLDER_ERROR@),
        ),
        !CYBERPUNK_FOLDER_INPUT_EMPTY_ERROR@.is_suffix_of(
            with_message(path, NOT_A_VALID_CYBERPUNK_FOLDER_ERROR@),
        ),
        without_message(MOD_FOLDER_INPUT_EMPTY_ERROR@, MOD_FOLDER_INPUT_EMPTY_ERROR@)
            == Seq::<char>::empty(),
        without_message(
            CYBERPUNK_FOLDER_INPUT_EMPTY_ERROR@,
            CYBERPUNK_FOLDER_INPUT_EMPTY_ERROR@,
        ) == Seq::<char>::empty(),
{
    reveal_strlit("is not a directory");
    reveal_strlit("Mods Folder input is empty");
    reveal_strlit("Cyberpunk Folder input is empty");
    reveal_strlit("is not a valid Cyberpunk folder");
    let dir = NOT_A_DIRECTORY_ERROR@;
    let none = MOD_FOLDER_INPUT_EMPTY_ERROR@;
    let no_game = CYBERPUNK_FOLDER_INPUT_EMPTY_ERROR@;
    let other = NOT_A_VALID_CYBERPUNK_FOLDER_ERROR@;
    assert(dir.len() == 18 && dir[16] == 'r' && dir[17] == 'y');
    assert(none.len() == 26 && none[24] == 't');
    assert(no_game.len() == 31 && no_game[29] == 't' && no_game[30] == 'y');
    assert(other.len() == 31 && other[30] == 'r');
    if dir.is_suffix_of(none) {
        assert(none.subrange(8, 26)[16] == dir[16]);
    }
    if dir.is_suffix_of(no_game) {
        assert(no_game.subrange(13, 31)[16] == dir[16]);
    }
    lemma_message_comes_off(path, other);
    let text = with_message(path, other);
    if dir.is_suffix_of(text) {
        assert(text.subrange(text.len() - 18, text.len() as int)[17] == dir[17]);
    }
    if no_game.is_suffix_of(text) {
        assert(text.subrange(text.len() - 31, text.len() as int)[30] == no_game[30]);
    }
    assert(none.subrange(0, 0) =~= Seq::<char>::empty());
    assert(no_game.subrange(0, 0) =~= Seq::<char>::empty());
}

/// The path that a load takes from the first field is the path that it
/// has looked at before, where that look has left a message in the field:
/// the message comes off, and nothing else of the text is changed. Where
/// no path was given, none is taken.
pub proof fn lemma_source_path_stays(path: Seq<char>, text: Seq<char>, check: FolderCheck)
    requires
        path == unquoted(source_entered(text)),
        check != FolderCheck::NotTheGame,
    ensures
        unquoted(source_entered(source_report(check, path, text))) == if check
            == FolderCheck::Empty {
            Seq::<char>::empty()
        } else {
            path
        },
{
    lemma_messages_differ(path);
    lemma_message_comes_off(path, NOT_A_DIRECTORY_ERROR@);
    lemma_strip_twice(source_entered(text), quote());
}

/// The path that a load takes from the second field is the path that it
/// has looked at before, where that look has left a message in the field.
/// Where no path was given, none is taken.
pub proof fn lemma_target_path_stays(path: Seq<char>, text: Seq<char>, check: FolderCheck)
    requires
        path == unquoted(target_entered(text)),
    ensures
        unquoted(target_entered(target_report(check, path, text))) == if check
            == FolderCheck::Empty {
            Seq::<char>::empty()
        } else {
            path
        },
{
    lemma_messages_differ(path);
    lemma_message_comes_off(path, NOT_A_DIRECTORY_ERROR@);
    lemma_message_comes_off(path, NOT_A_VALID_CYBERPUNK_FOLDER_ERROR@);
    lemma_strip_twice(target_entered(text), quote());
}

/// A load that has failed, done again on the same disk, looks at the
/// same paths and leaves the application as it is: both fields keep
/// their texts, character for character, and no message is there twice.
pub proof fn lemma_second_load(
    app: AppView,
    dirs: Set<Seq<char>>,
    tree: spec_fn(Seq<char>) -> Seq<EntryView>,
)
    requires
        app.wf(),
        !dirs.contains(Seq::<char>::empty()),
        !(source_check(scan_at(dirs, tree, source_input(app, false))) == FolderCheck::Valid
            && target_check(scan_at(dirs, tree, target_input(app, false)))
            == FolderCheck::Valid),
    ensures
        form_loaded(form_loaded(app, dirs, tree), dirs, tree) == form_loaded(app, dirs, tree),
        source_check(scan_at(dirs, tree, source_input(app, false))) != FolderCheck::Empty
            ==> source_input(form_loaded(app, dirs, tree), false) == source_input(app, false),
        target_check(scan_at(dirs, tree, target_input(app, false))) != FolderCheck::Empty
            ==> target_input(form_loaded(app, dirs, tree), false) == target_input(app, false),
{
    let first = scan_at(dirs, tree, source_input(app, false));
    let second = scan_at(dirs, tree, target_input(app, false));
    let once = form_loaded(app, dirs, tree);
    lemma_source_path_stays(first.path, app.state.select_folder_form[0], source_check(first));
    lemma_target_path_stays(second.path, app.state.select_folder_form[1], target_check(second));
    let again_first = scan_at(dirs, tree, source_input(once, false));
    let again_second = scan_at(dirs, tree, target_input(once, false));
    assert(trimmed(Seq::<char>::empty()) =~= Seq::<char>::empty());
    assert(source_check(again_first) == source_check(first));
    assert(target_check(again_second) == target_check(second));
    let twice = form_loaded(once, dirs, tree);
    assert(twice.state.select_folder_form =~= once.state.select_folder_form);
    assert(twice.mod_folder == once.mod_folder);
    assert(twice.cyberpunk_folder == once.cyberpunk_folder);
    assert(twice.state == once.state);
}

fn check_source(scan: &FolderScan) -> (check: FolderCheck)
    ensures
        check == source_check(scan@),
{
    if scan.is_dir {
        FolderCheck::Valid
    } else if is_blank_text(scan.path.as_str()) {
        FolderCheck::Empty
    } else {
        FolderCheck::NotADirectory
    }
}

fn check_target(scan: &FolderScan) -> (check: FolderCheck)
    ensures
        check == target_check(scan@),
{
    if scan.is_dir {
        if check_if_cyberpunk_dir_is_valid(&scan.entries) {
            FolderCheck::Valid
        } else {
            FolderCheck::NotTheGame
        }
    } else if is_blank_text(scan.path.as_str()) {
        FolderCheck::Empty
    } else {
        FolderCheck::NotADirectory
    }
}

fn message_after(path: &str, message: &str) -> (text: String)
    ensures
        text@ == with_message(path@, message@),
{
    let mut text = String::from_str(path);
    text.append(" ");
    text.append(message);
    text
}

fn list_files(entries: &Vec<TreeEntry>) -> (files: Vec<(String, usize)>)
    ensures
        files.deep_view() == listed_files(entries.deep_view()),
{
    let mut files: Vec<(String, usize)> = Vec::new();
    let mut i: usize = 0;
    let ghost all = entries.deep_view();
    assert(all.take(0) =~= Seq::<EntryView>::empty());
    while i < entries.len()
        invariant
            i <= entries.len(),
            all == entries.deep_view(),
            files.deep_view() == listed_files(all.take(i as int)),
        decreases entries.len() - i,
    {
        let entry = &entries[i];
        proof {
            assert(all.take(i + 1).drop_last() =~= all.take(i as int));
            assert(all.take(i + 1).last() == entry@);
        }
        if entry.kind == EntryKind::File {
            let ghost before = files.deep_view();
            files.push((entry.name.clone(), entry.size));
            assert(files.deep_view() =~= before.push((entry.name@, entry.size)));
        }
        i += 1;
    }
    assert(all.take(i as int) =~= all);
    files
}

/// Takes in what a load has found: `source` for the folder of packages,
/// `target` for the game's folder, each looked at under the path that
/// `folder_inputs` gave for it.
pub fn do_load_mods(app: &mut App, source: &FolderScan, target: &FolderScan)
    ensures
        final(app)@ == loaded(old(app)@, source@, target@),
        final(app)@.state.cursor_in_bounds(),
{
    let first = check_source(source);
    let second = check_target(target);
    let ghost form = app.state.select_folder_form.deep_view();
    if first == FolderCheck::Valid {
        app.mod_folder = Some(source.path.clone());
    }
    if second == FolderCheck::Valid {
        app.cyberpunk_folder = Some(target.path.clone());
    }
    if first == FolderCheck::Valid && second == FolderCheck::Valid {
        app.state.ui_mode = UiMode::Explore;
        app.state.focus = Focus::NoFocus;
        app.state.select_folder_form.set(0, String::new());
        app.state.select_folder_form.set(1, String::new());
        app.state.file_list.items = list_files(&source.entries);
        if app.state.file_list.state.selected().is_none() {
            app.state.file_list.state.select(Some(0));
        }
        assert(app.state.select_folder_form.deep_view() =~= seq![Seq::empty(), Seq::empty()]);
    } else {
        match first {
            FolderCheck::Empty => {
                app.state.select_folder_form.set(0, String::from_str(MOD_FOLDER_INPUT_EMPTY_ERROR));
            },
            FolderCheck::NotADirectory => {
                app.state.select_folder_form.set(
                    0,
                    message_after(source.path.as_str(), NOT_A_DIRECTORY_ERROR),
                );
            },
            _ => {},
        }
        match second {
            FolderCheck::Empty => {
                app.state.select_folder_form.set(
                    1,
                    String::from_str(CYBERPUNK_FOLDER_INPUT_EMPTY_ERROR),
                );
            },
            FolderCheck::NotADirectory => {
                app.state.select_folder_form.set(
                    1,
                    message_after(target.path.as_str(), NOT_A_DIRECTORY_ERROR),
                );
            },
            FolderCheck::NotTheGame => {
                app.state.select_folder_form.set(
                    1,
                    message_after(target.path.as_str(), NOT_A_VALID_CYBERPUNK_FOLDER_ERROR),
                );
            },
            FolderCheck::Valid => {},
        }
        assert(app.state.select_folder_form.deep_view() =~= seq![
            source_report(first, source@.path, form[0]),
            target_report(second, target@.path, form[1]),
        ]);
    }
    app.settle();
}

/// What the worker needs to know to work on the package of the popup, to
/// the contracts.
pub ghost struct JobView {
    pub mod_folder: Seq<char>,
    pub mod_name: Seq<char>,
    pub work_dir: Seq<char>,
    pub cyberpunk_folder: Seq<char>,
}

/// What the worker needs to know to work on the package of the popup.
#[derive(Debug, Clone)]
pub struct ModJob {
    /// The folder in which the archive lies.
    pub mod_folder: String,
    /// The file name of the archive.
    pub mod_name: String,
    /// The name of the directory, in the working area, into which the
    /// archive is unpacked: the file name up to its first dot.
    pub work_dir: String,
    /// The game's folder.
    pub cyberpunk_folder: String,
}

impl View for ModJob {
    type V = JobView;

    open spec fn view(&self) -> JobView {
        JobView {
            mod_folder: self.mod_folder@,
            mod_name: self.mod_name@,
            work_dir: self.work_dir@,
            cyberpunk_folder: self.cyberpunk_folder@,
        }
    }
}

/// The work on the package of the popup, where the popup is open and
/// both folders are known.
pub open spec fn job_of(app: AppView) -> Option<JobView> {
    if app.mod_popup is Some && app.mod_folder is Some && app.cyberpunk_folder is Some {
        Some(
            JobView {
                mod_folder: app.mod_folder->0,
                mod_name: app.mod_popup->0.mod_name,
                work_dir: before_first(app.mod_popup->0.mod_name, '.'),
                cyberpunk_folder: app.cyberpunk_folder->0,
            },
        )
    } else {
        None
    }
}

/// The view of a job that may be absent.
pub open spec fn job_view(job: Option<ModJob>) -> Option<JobView> {
    match job {
        Some(j) => Some(j@),
        None => None,
    }
}

/// The work on the package of the popup; `None` where no popup is open
/// or a folder is not known.
pub fn mod_job(app: &App) -> (job: Option<ModJob>)
    ensures
        job_view(job) == job_of(app@),
{
    match (&app.mod_popup, &app.mod_folder, &app.cyberpunk_folder) {
        (Some(popup), Some(mod_folder), Some(cyberpunk_folder)) => {
            let name = popup.get_mod_name();
            Some(
                ModJob {
                    mod_folder: mod_folder.clone(),
                    mod_name: String::from_str(name),
                    work_dir: prefix_before(name, '.'),
                    cyberpunk_folder: cyberpunk_folder.clone(),
                },
            )
        },
        _ => None,
    }
}

/// The paths of the files among `entries`, in order.
pub open spec fn file_paths(entries: Seq<EntryView>) -> Seq<Seq<char>>
    decreases entries.len(),
{
    if entries.len() == 0 {
        Seq::empty()
    } else if entries.last().kind == EntryKind::File {
        file_paths(entries.drop_last()).push(entries.last().path)
    } else {
        file_paths(entries.drop_last())
    }
}

/// A path is planned for a package only if it is the path of a file of
/// the package: directories, and what is neither file nor directory, are
/// left alone.
pub proof fn lemma_file_paths(entries: Seq<EntryView>, path: Seq<char>)
    ensures
        file_paths(entries).contains(path) <==> exists|i: int|
            0 <= i < entries.len() && (#[trigger] entries[i]).kind == EntryKind::File
                && entries[i].path == path,
    decreases entries.len(),
{
    if entries.len() > 0 {
        let rest = entries.drop_last();
        let last = entries.last();
        lemma_file_paths(rest, path);
        if file_paths(entries).contains(path) {
            if file_paths(rest).contains(path) {
                let i = choose|i: int|
                    0 <= i < rest.len() && (#[trigger] rest[i]).kind == EntryKind::File
                        && rest[i].path == path;
                assert(entries[i] == rest[i]);
            } else {
                let at = file_paths(entries).index_of(path);
                assert(last.kind == EntryKind::File && last.path == path);
                assert(entries[entries.len() - 1] == last);
            }
        }
        if exists|i: int|
            0 <= i < entries.len() && (#[trigger] entries[i]).kind == EntryKind::File
                && entries[i].path == path {
            let i = choose|i: int|
                0 <= i < entries.len() && (#[trigger] entries[i]).kind == EntryKind::File
                    && entries[i].path == path;
            if i < entries.len() - 1 {
                assert(rest[i] == entries[i]);
                let at = file_paths(rest).index_of(path);
                if last.kind == EntryKind::File {
                    assert(file_paths(rest).push(last.path)[at] == path);
                }
            } else {
                assert(file_paths(rest).push(path)[file_paths(rest).len() as int] == path);
            }
        }
    }
}

/// The paths of `files` at which `dest` has no file, each once, in
/// order: what an installation copies.
pub open spec fn to_copy(files: Seq<Seq<char>>, dest: Set<Seq<char>>) -> Seq<Seq<char>>
    decreases files.len(),
{
    if files.len() == 0 {
        Seq::empty()
    } else {
        let rest = to_copy(files.drop_last(), dest);
        if dest.contains(files.last()) || rest.contains(files.last()) {
            rest
        } else {
            rest.push(files.last())
        }
    }
}

/// The paths of `files` at which `dest` has a file, each once, in order:
/// what an uninstallation removes.
pub open spec fn to_remove(files: Seq<Seq<char>>, dest: Set<Seq<char>>) -> Seq<Seq<char>>
    decreases files.len(),
{
    if files.len() == 0 {
        Seq::empty()
    } else {
        let rest = to_remove(files.drop_last(), dest);
        if dest.contains(files.last()) && !rest.contains(files.last()) {
            rest.push(files.last())
        } else {
            rest
        }
    }
}

/// The files of the game's folder after the installation of `files`.
pub open spec fn installed(files: Seq<Seq<char>>, dest: Set<Seq<char>>) -> Set<Seq<char>> {
    dest.union(to_copy(files, dest).to_set())
}

/// The files of the game's folder after the uninstallation of `files`.
pub open spec fn uninstalled(files: Seq<Seq<char>>, dest: Set<Seq<char>>) -> Set<Seq<char>> {
    dest.difference(to_remove(files, dest).to_set())
}

/// The game's folder has every one of `files`.
pub open spec fn is_installed(files: Seq<Seq<char>>, dest: Set<Seq<char>>) -> bool {
    forall|i: int| 0 <= i < files.len() ==> dest.contains(#[trigger] files[i])
}

/// What is copied are the files that the game's folder lacks, and no
/// path twice.
pub proof fn lemma_to_copy(files: Seq<Seq<char>>, dest: Set<Seq<char>>)
    ensures
        to_copy(files, dest).no_duplicates(),
        forall|p: Seq<char>|
            to_copy(files, dest).contains(p) <==> files.contains(p) && !dest.contains(p),
    decreases files.len(),
{
    if files.len() > 0 {
        let rest = to_copy(files.drop_last(), dest);
        let last = files.last();
        lemma_to_copy(files.drop_last(), dest);
        assert forall|p: Seq<char>|
            to_copy(files, dest).contains(p) <==> files.contains(p) && !dest.contains(p) by {
            if files.contains(p) {
                let i = files.index_of(p);
                if i < files.len() - 1 {
                    assert(files.drop_last()[i] == p);
                }
            }
            if files.drop_last().contains(p) {
                let i = files.drop_last().index_of(p);
                assert(files[i] == p);
            }
            assert(files[files.len() - 1] == last);
            if rest.contains(p) {
                let i = rest.index_of(p);
                assert(rest.push(last)[i] == p);
            }
            assert(rest.push(last)[rest.len() as int] == last);
        }
    }
}

/// What is removed are the files that the game's folder has, and no path
/// twice.
pub proof fn lemma_to_remove(files: Seq<Seq<char>>, dest: Set<Seq<char>>)
    ensures
        to_remove(files, dest).no_duplicates(),
        forall|p: Seq<char>|
            to_remove(files, dest).contains(p) <==> files.contains(p) && dest.contains(p),
    decreases files.len(),
{
    if files.len() > 0 {
        let rest = to_remove(files.drop_last(), dest);
        let last = files.last();
        lemma_to_remove(files.drop_last(), dest);
        assert forall|p: Seq<char>|
            to_remove(files, dest).contains(p) <==> files.contains(p) && dest.contains(p) by {
            if files.contains(p) {
                let i = files.index_of(p);
                if i < files.len() - 1 {
                    assert(files.drop_last()[i] == p);
                }
            }
            if files.drop_last().contains(p) {
                let i = files.drop_last().index_of(p);
                assert(files[i] == p);
            }
            assert(files[files.len() - 1] == last);
            if rest.contains(p) {
                let i = rest.index_of(p);
                assert(rest.push(last)[i] == p);
            }
            assert(rest.push(last)[rest.len() as int] == last);
        }
    }
}

/// Nothing is copied or removed where nothing is to be.
proof fn lemma_nothing_to_do(files: Seq<Seq<char>>, dest: Set<Seq<char>>)
    ensures
        is_installed(files, dest) ==> to_copy(files, dest) == Seq::<Seq<char>>::empty(),
        (forall|i: int| 0 <= i < files.len() ==> !dest.contains(#[trigger] files[i])) ==> to_remove(
            files,
            dest,
        ) == Seq::<Seq<char>>::empty(),
    decreases files.len(),
{
    if files.len() > 0 {
        lemma_nothing_to_do(files.drop_last(), dest);
        assert(files.last() == files[files.len() - 1]);
        assert forall|i: int| 0 <= i < files.drop_last().len() implies files.drop_last()[i]
            == files[i] by {}
        if is_installed(files, dest) {
            assert(is_installed(files.drop_last(), dest)) by {
                assert forall|i: int| 0 <= i < files.drop_last().len() implies dest.contains(
                    #[trigger] files.drop_last()[i],
                ) by {
                    assert(files.drop_last()[i] == files[i]);
                }
            }
        }
        if forall|i: int| 0 <= i < files.len() ==> !dest.contains(#[trigger] files[i]) {
            assert forall|i: int| 0 <= i < files.drop_last().len() implies !dest.contains(
                #[trigger] files.drop_last()[i],
            ) by {
                assert(files.drop_last()[i] == files[i]);
            }
        }
    }
}

/// After an installation the package is installed, and a second
/// installation copies nothing and leaves the game's folder as it is.
pub proof fn lemma_install_twice(files: Seq<Seq<char>>, dest: Set<Seq<char>>)
    ensures
        is_installed(files, installed(files, dest)),
        to_copy(files, installed(files, dest)) == Seq::<Seq<char>>::empty(),
        installed(files, installed(files, dest)) == installed(files, dest),
{
    let once = installed(files, dest);
    lemma_to_copy(files, dest);
    assert forall|i: int| 0 <= i < files.len() implies once.contains(#[trigger] files[i]) by {
        assert(files.contains(files[i]));
    }
    lemma_nothing_to_do(files, once);
    assert(Seq::<Seq<char>>::empty().to_set() =~= Set::<Seq<char>>::empty());
    assert(installed(files, once) =~= once);
}

/// After an uninstallation the game's folder has none of the files of
/// the package, and a second uninstallation removes nothing and leaves
/// the game's folder as it is.
pub proof fn lemma_uninstall_twice(files: Seq<Seq<char>>, dest: Set<Seq<char>>)
    ensures
        forall|i: int|
            0 <= i < files.len() ==> !uninstalled(files, dest).contains(#[trigger] files[i]),
        to_remove(files, uninstalled(files, dest)) == Seq::<Seq<char>>::empty(),
        uninstalled(files, uninstalled(files, dest)) == uninstalled(files, dest),
{
    let once = uninstalled(files, dest);
    lemma_to_remove(files, dest);
    assert forall|i: int| 0 <= i < files.len() implies !once.contains(#[trigger] files[i]) by {
        assert(files.contains(files[i]));
    }
    lemma_nothing_to_do(files, once);
    assert(Seq::<Seq<char>>::empty().to_set() =~= Set::<Seq<char>>::empty());
    assert(uninstalled(files, once) =~= once);
}

/// After the uninstallation of a package that has a file, the package is
/// not installed.
pub proof fn lemma_uninstalled_is_not_installed(files: Seq<Seq<char>>, dest: Set<Seq<char>>)
    requires
        files.len() > 0,
    ensures
        !is_installed(files, uninstalled(files, dest)),
{
    lemma_uninstall_twice(files, dest);
    assert(!uninstalled(files, dest).contains(files[0]));
}

/// An installation only adds files, and only files of the package; an
/// uninstallation only removes files, and only files of the package.
pub proof fn lemma_only_the_package(files: Seq<Seq<char>>, dest: Set<Seq<char>>)
    ensures
        forall|p: Seq<char>|
            installed(files, dest).contains(p) <==> dest.contains(p) || files.contains(p),
        forall|p: Seq<char>|
            uninstalled(files, dest).contains(p) <==> dest.contains(p) && !files.contains(p),
{
    lemma_to_copy(files, dest);
    lemma_to_remove(files, dest);
}

/// The paths of the files of the unpacked tree `package`, in order:
/// the paths at which the game's folder is to be looked at.
pub fn package_files(package: &Vec<TreeEntry>) -> (paths: Vec<String>)
    ensures
        paths.deep_view() == file_paths(package.deep_view()),
{
    let mut paths: Vec<String> = Vec::new();
    let mut i: usize = 0;
    let ghost all = package.deep_view();
    assert(all.take(0) =~= Seq::<EntryView>::empty());
    while i < package.len()
        invariant
            i <= package.len(),
            all == package.deep_view(),
            paths.deep_view() == file_paths(all.take(i as int)),
        decreases package.len() - i,
    {
        let entry = &package[i];
        proof {
            assert(all.take(i + 1).drop_last() =~= all.take(i as int));
            assert(all.take(i + 1).last() == entry@);
        }
        if entry.kind == EntryKind::File {
            let ghost before = paths.deep_view();
            paths.push(entry.path.clone());
            assert(paths.deep_view() =~= before.push(entry.path@));
        }
        i += 1;
    }
    assert(all.take(i as int) =~= all);
    paths
}

fn holds(list: &Vec<String>, text: &str) -> (found: bool)
    ensures
        found == list.deep_view().contains(text@),
{
    let mut i: usize = 0;
    let ghost all = list.deep_view();
    while i < list.len()
        invariant
            i <= list.len(),
            all == list.deep_view(),
            forall|j: int| 0 <= j < i ==> all[j] != text@,
        decreases list.len() - i,
    {
        assert(all[i as int] == list[i as int]@);
        if same_text(list[i].as_str(), text) {
            return true;
        }
        i += 1;
    }
    false
}

fn plan(package: &Vec<TreeEntry>, present: &Vec<String>, copy: bool) -> (paths: Vec<String>)
    ensures
        paths.deep_view() == if copy {
            to_copy(file_paths(package.deep_view()), present.deep_view().to_set())
        } else {
            to_remove(file_paths(package.deep_view()), present.deep_view().to_set())
        },
{
    let mut paths: Vec<String> = Vec::new();
    let mut i: usize = 0;
    let ghost all = package.deep_view();
    let ghost dest = present.deep_view().to_set();
    assert(all.take(0) =~= Seq::<EntryView>::empty());
    while i < package.len()
        invariant
            i <= package.len(),
            all == package.deep_view(),
            dest == present.deep_view().to_set(),
            paths.deep_view() == if copy {
                to_copy(file_paths(all.take(i as int)), dest)
            } else {
                to_remove(file_paths(all.take(i as int)), dest)
            },
        decreases package.len() - i,
    {
        let entry = &package[i];
        proof {
            assert(all.take(i + 1).drop_last() =~= all.take(i as int));
            assert(all.take(i + 1).last() == entry@);
        }
        if entry.kind == EntryKind::File {
            let there = holds(present, entry.path.as_str());
            let planned = holds(&paths, entry.path.as_str());
            proof {
                let files = file_paths(all.take(i + 1));
                assert(files.drop_last() =~= file_paths(all.take(i as int)));
                assert(files.last() == entry.path@);
            }
            if there != copy && !planned {
                let ghost before = paths.deep_view();
                paths.push(entry.path.clone());
                assert(paths.deep_view() =~= before.push(entry.path@));
            }
        }
        i += 1;
    }
    assert(all.take(i as int) =~= all);
    paths
}

/// The files to copy from the unpacked tree `package` into the game's
/// folder, as paths relative to both: those files of the package at
/// whose path the game's folder has no file. `present` holds the paths
/// at which it has one. No file is overwritten, no directory made.
pub fn install_mod(package: &Vec<TreeEntry>, present: &Vec<String>) -> (copies: Vec<String>)
    ensures
        copies.deep_view() == to_copy(
            file_paths(package.deep_view()),
            present.deep_view().to_set(),
        ),
{
    plan(package, present, true)
}

/// The files to remove from the game's folder, as paths relative to it:
/// those files of the unpacked tree `package` at whose path the game's
/// folder has a file. `present` holds the paths at which it has one. No
/// directory is removed.
pub fn uninstall_mod(package: &Vec<TreeEntry>, present: &Vec<String>) -> (removals: Vec<String>)
    ensures
        removals.deep_view() == to_remove(
            file_paths(package.deep_view()),
            present.deep_view().to_set(),
        ),
{
    plan(package, present, false)
}

/// The application with `status` noted in the popup, if one is open.
pub open spec fn verified(app: AppView, status: bool) -> AppView {
    match app.mod_popup {
        Some(popup) => AppView {
            mod_popup: Some(PopupView { mod_install_status: Some(status), ..popup }),
            ..app
        },
        None => app,
    }
}

/// Whether the game's folder has every file of the unpacked tree
/// `package`; `present` holds the paths at which it has a file.
pub fn is_mod_installed(package: &Vec<TreeEntry>, present: &Vec<String>) -> (status: bool)
    ensures
        status == is_installed(file_paths(package.deep_view()), present.deep_view().to_set()),
{
    let missing = plan(package, present, true);
    proof {
        let files = file_paths(package.deep_view());
        let dest = present.deep_view().to_set();
        lemma_to_copy(files, dest);
        lemma_nothing_to_do(files, dest);
        if missing.len() == 0 && !is_installed(files, dest) {
            let i = choose|i: int| 0 <= i < files.len() && !dest.contains(#[trigger] files[i]);
            assert(files.contains(files[i]));
            assert(to_copy(files, dest).contains(files[i]));
        }
        if missing.len() > 0 {
            assert(missing.deep_view().len() > 0);
        }
    }
    missing.len() == 0
}

/// Finds out whether the package of the popup is installed, and notes it
/// in the popup, if one is open. `package` is the unpacked tree, and
/// `present` holds the paths at which the game's folder has a file.
pub fn check_if_mod_is_installed(
    app: &mut App,
    package: &Vec<TreeEntry>,
    present: &Vec<String>,
) -> (status: bool)
    ensures
        status == is_installed(file_paths(package.deep_view()), present.deep_view().to_set()),
        final(app)@ == verified(old(app)@, status),
{
    let status = is_mod_installed(package, present);
    let mut popup: Option<ModPopup> = None;
    std::mem::swap(&mut popup, &mut app.mod_popup);
    match popup {
        Some(mut open) => {
            open.set_mod_install_status(status);
            app.mod_popup = Some(open);
        },
        None => {},
    }
    status
}

} // verus!
