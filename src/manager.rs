//! The module state manager: it decides what the control files mean and how the
//! description of `module.prop` and the PD nodes follow them.
use vstd::prelude::*;
use crate::error::FreePPSError;
use crate::mode::{ModuleMode, mode_of};
use crate::prop::{rewrite_description, rewrite_text};
use crate::text::same_text;

verus! {

/// The module's directory.
pub const MODULE_BASE_PATH: &'static str = "/data/adb/modules/FreePPS";

/// "1" enables the module, "0" suspends it.
pub const FREE_FILE: &'static str = "/data/adb/modules/FreePPS/free";

/// Dropped by an outside supervisor to force the module off.
pub const DISABLE_FILE: &'static str = "/data/adb/modules/FreePPS/disable";

/// Its presence selects auto-protocol mode over locked mode.
pub const AUTO_FILE: &'static str = "/data/adb/modules/FreePPS/auto";

/// The name of the `auto` flag file within the module's directory.
pub const AUTO_FILE_NAME: &'static str = "auto";

/// The module's metadata, whose description line carries the status tag.
pub const MODULE_PROP: &'static str = "/data/adb/modules/FreePPS/module.prop";

/// What happens at start-up, in this order.
#[derive(Clone, Copy, Debug, PartialEq, Eq, Structural)]
pub struct StartupPlan {
    /// Create the `free` file with "1".
    pub create_free: bool,
    /// Remove the `disable` file.
    pub remove_disable: bool,
    /// The mode whose tag the description gets.
    pub mode: ModuleMode,
    /// Write "1" to both PD authentication nodes (each only if it exists).
    pub enable_nodes: bool,
}

/// What follows a change of the `free` file.
#[derive(Clone, Copy, Debug, PartialEq, Eq, Structural)]
pub struct FreeChange {
    /// The mode whose tag the description gets.
    pub mode: ModuleMode,
    /// Write "0" to both PD authentication nodes (each only if it exists).
    pub reset_nodes: bool,
}

/// The mode that `free` holding `content` (trimmed) selects, when it holds "1" or "0".
pub open spec fn free_mode(content: Seq<char>, auto_exists: bool) -> Option<ModuleMode> {
    if content == "1"@ {
        Some(mode_of(true, auto_exists))
    } else if content == "0"@ {
        Some(ModuleMode::Suspended)
    } else {
        None
    }
}

/// Whether `free` holding `content` (trimmed) enables the module.
pub fn free_enabled(content: &str) -> (r: bool)
    ensures
        r == (content@ == "1"@),
{
    same_text(content, "1")
}

/// The start-up plan: `free` is created with "1" when missing and `disable` removed when
/// present; then "1" in `free` selects the enabled mode and sets both nodes, and
/// anything else suspends.
pub open spec fn startup_of(
    free_exists: bool,
    free_content: Seq<char>,
    disable_exists: bool,
    auto_exists: bool,
) -> StartupPlan {
    let enabled = !free_exists || free_content == "1"@;
    StartupPlan {
        create_free: !free_exists,
        remove_disable: disable_exists,
        mode: mode_of(enabled, auto_exists),
        enable_nodes: enabled,
    }
}

/// Owns the idempotence cache: the mode that the last handled change of `free` selected.
#[derive(Clone, Copy, Debug, PartialEq, Eq, Structural)]
pub struct ModuleManager {
    pub last_state: Option<ModuleMode>,
}

impl ModuleManager {
    /// A manager that has handled no change yet.
    pub fn new() -> (r: Result<ModuleManager, FreePPSError>)
        ensures
            r matches Ok(m) && m.last_state is None,
    {
        Ok(ModuleManager { last_state: None })
    }

    /// The start-up plan, given whether `free` exists and what it holds (trimmed),
    /// whether `disable` exists and whether `auto` exists.
    pub fn initialize_module(
        &self,
        free_exists: bool,
        free_content: &str,
        disable_exists: bool,
        auto_exists: bool,
    ) -> (r: StartupPlan)
        ensures
            r == startup_of(free_exists, free_content@, disable_exists, auto_exists),
    {
        let enabled = !free_exists || same_text(free_content, "1");
        StartupPlan {
            create_free: !free_exists,
            remove_disable: disable_exists,
            mode: ModuleMode::from_flags(enabled, auto_exists),
            enable_nodes: enabled,
        }
    }

    /// The new contents of `module.prop`: its description carries the tag of the mode
    /// that `enabled` and the presence of `auto` select.
    pub fn update_module_description(
        &self,
        enabled: bool,
        auto_exists: bool,
        prop_content: &str,
    ) -> (r: String)
        ensures
            r@ == rewrite_text(prop_content@, mode_of(enabled, auto_exists)),
    {
        rewrite_description(prop_content, ModuleMode::from_flags(enabled, auto_exists))
    }

    /// Takes the new contents of `free` (trimmed) and whether `auto` exists. When they
    /// select the same mode as the change handled last, nothing is to be done. Otherwise
    /// the new mode is remembered and returned, with the nodes to be reset on suspend.
    /// Contents other than "1" and "0" ask for nothing and clear the cache.
    pub fn handle_free_file_change(&mut self, content: &str, auto_exists: bool) -> (r: Option<
        FreeChange,
    >)
        ensures
            final(self).last_state == free_mode(content@, auto_exists),
            r == (match free_mode(content@, auto_exists) {
                Some(m) => if old(self).last_state == Some(m) {
                    None
                } else {
                    Some(FreeChange { mode: m, reset_nodes: m == ModuleMode::Suspended })
                },
                None => None,
            }),
    {
        let mode = if same_text(content, "1") {
            Some(ModuleMode::from_flags(true, auto_exists))
        } else if same_text(content, "0") {
            Some(ModuleMode::Suspended)
        } else {
            None
        };
        let previous = self.last_state;
        self.last_state = mode;
        match mode {
            Some(m) => {
                if previous == Some(m) {
                    None
                } else {
                    Some(FreeChange { mode: m, reset_nodes: m == ModuleMode::Suspended })
                }
            },
            None => None,
        }
    }

    /// What to write to `free` when the `disable` file appears ("0") or goes ("1").
    pub fn handle_disable_file_change(&self, exists: bool) -> (r: &'static str)
        ensures
            r@ == (if exists { "0"@ } else { "1"@ }),
    {
        if exists { "0" } else { "1" }
    }
}

} // verus!
