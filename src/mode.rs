//! The three-valued module mode and the status tag that shows it in `module.prop`.
use vstd::prelude::*;

verus! {

/// What the module is currently doing, derived from the `free` and `auto` control files.
#[derive(Clone, Copy, Debug, PartialEq, Eq, Structural)]
pub enum ModuleMode {
    /// `free` holds "0".
    Suspended,
    /// `free` holds "1" and the `auto` flag file is absent.
    LockedPps,
    /// `free` holds "1" and the `auto` flag file is present.
    AutoProtocol,
}

/// The mode for an enabled/suspended module, given whether the `auto` flag file exists.
pub open spec fn mode_of(enabled: bool, auto_exists: bool) -> ModuleMode {
    if !enabled {
        ModuleMode::Suspended
    } else if auto_exists {
        ModuleMode::AutoProtocol
    } else {
        ModuleMode::LockedPps
    }
}

/// The status tag put in front of the description; the trailing space belongs to it.
pub open spec fn status_prefix(m: ModuleMode) -> Seq<char> {
    match m {
        ModuleMode::Suspended => "[⏸️PPS已暂停💤] "@,
        ModuleMode::LockedPps => "[✅锁定PPS支持⚡] "@,
        ModuleMode::AutoProtocol => "[🔄协议自动识别💡] "@,
    }
}

impl ModuleMode {
    /// The mode for an enabled/suspended module, given whether the `auto` flag file exists.
    pub fn from_flags(enabled: bool, auto_exists: bool) -> (r: ModuleMode)
        ensures
            r == mode_of(enabled, auto_exists),
    {
        if !enabled {
            ModuleMode::Suspended
        } else if auto_exists {
            ModuleMode::AutoProtocol
        } else {
            ModuleMode::LockedPps
        }
    }

    /// The status tag of this mode.
    pub fn prefix(&self) -> (r: &'static str)
        ensures
            r@ == status_prefix(*self),
    {
        match self {
            ModuleMode::Suspended => "[⏸️PPS已暂停💤] ",
            ModuleMode::LockedPps => "[✅锁定PPS支持⚡] ",
            ModuleMode::AutoProtocol => "[🔄协议自动识别💡] ",
        }
    }
}

/// Facts about the status tags: none contains a line break, each has at least two
/// characters, and two different tags already differ in their second character, so
/// no tag begins another.
pub proof fn lemma_status_prefixes()
    ensures
        forall|m: ModuleMode| #[trigger] status_prefix(m).len() >= 2,
        forall|m: ModuleMode, j: int|
            0 <= j < status_prefix(m).len() ==> #[trigger] status_prefix(m)[j] != '\n',
        forall|m: ModuleMode, k: ModuleMode|
            m != k ==> #[trigger] status_prefix(m)[1] != #[trigger] status_prefix(k)[1],
{
    reveal_strlit("[⏸️PPS已暂停💤] ");
    reveal_strlit("[✅锁定PPS支持⚡] ");
    reveal_strlit("[🔄协议自动识别💡] ");
    assert forall|m: ModuleMode, j: int|
        0 <= j < status_prefix(m).len() implies #[trigger] status_prefix(m)[j] != '\n' by {
        match m {
            ModuleMode::Suspended => {},
            ModuleMode::LockedPps => {},
            ModuleMode::AutoProtocol => {},
        }
    }
}

} // verus!
