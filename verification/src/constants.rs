//! Names and messages that the rest of the library shares.

use vstd::prelude::*;

verus! {

/// The directory, below the system's temporary directory, into which
/// packages are unpacked.
pub const WORKING_DIR_NAME: &'static str = "cyberpunk_mod_manager";

/// The directory, below the system's temporary directory, that holds the
/// settings file.
pub const SAVE_DIR_NAME: &'static str = "cyberpunk_mod_manager";

/// The name of the settings file.
pub const SAVE_FILE_NAME: &'static str = "cyberpunk_mod_manager.json";

/// The least width of the terminal, in columns.
pub const MIN_TERM_WIDTH: u16 = 110;

/// The least height of the terminal, in rows.
pub const MIN_TERM_HEIGHT: u16 = 30;

/// The title that the application shows.
pub const APP_TITLE: &'static str = "Cyberpunk Mod Manager";

/// Shown in the field of the folder of packages when it was left empty.
pub const MOD_FOLDER_INPUT_EMPTY_ERROR: &'static str = "Mods Folder input is empty";

/// Shown in the field of the game's folder when it was left empty.
pub const CYBERPUNK_FOLDER_INPUT_EMPTY_ERROR: &'static str = "Cyberpunk Folder input is empty";

/// Follows a path that is a directory but not one of the game.
pub const NOT_A_VALID_CYBERPUNK_FOLDER_ERROR: &'static str = "is not a valid Cyberpunk folder";

/// Follows a path that is no directory.
pub const NOT_A_DIRECTORY_ERROR: &'static str = "is not a directory";

} // verus!
