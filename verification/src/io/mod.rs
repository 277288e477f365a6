//! The requests that the interactive loop hands to the worker.

pub mod handler;

use vstd::prelude::*;

verus! {

/// One request for the worker. A request carries no data: the worker
/// reads what it needs from the application's state.
#[derive(Debug, Clone, Copy, PartialEq, Eq, Structural)]
pub enum IoEvent {
    /// Load the settings and the packages, then open the application.
    Initialize,
    /// Install the package of the popup.
    InstallMod,
    /// Uninstall the package of the popup.
    UninstallMod,
    /// Find out whether the package of the popup is installed.
    CheckIfModIsInstalled,
    /// Write the two folders to the settings file.
    SaveSettings,
    /// Check the two folders of the form and list the packages.
    LoadMods,
}

} // verus!
