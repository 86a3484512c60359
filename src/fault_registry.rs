//! The process-wide slot for the handler that reports unrecoverable faults
//! to the host. It is filled once and never replaced.
use vstd::prelude::*;

verus! {

/// Why a handler could not be installed.
#[derive(PartialEq, Eq, Structural, Clone, Copy, Debug)]
pub enum InstallFault {
    AlreadyInstalled,
}

/// Whether the fault handler has been installed.
pub struct FaultRegistry {
    installed: bool,
}

impl FaultRegistry {
    pub closed spec fn is_installed_spec(&self) -> bool {
        self.installed
    }

    /// A registry with no handler yet.
    pub fn new() -> (r: FaultRegistry)
        ensures
            !r.is_installed_spec(),
    {
        FaultRegistry { installed: false }
    }

    pub fn is_installed(&self) -> (r: bool)
        ensures
            r == self.is_installed_spec(),
    {
        self.installed
    }

    /// Marks the handler as installed. A second installation is refused and
    /// leaves the registry as it was.
    pub fn install(&mut self) -> (r: Result<(), InstallFault>)
        ensures
            !old(self).is_installed_spec() ==> r is Ok,
            old(self).is_installed_spec() ==> r == Err::<(), InstallFault>(InstallFault::AlreadyInstalled),
            final(self).is_installed_spec(),
    {
        if self.installed {
            Err(InstallFault::AlreadyInstalled)
        } else {
            self.installed = true;
            Ok(())
        }
    }

    /// The text to hand to the host's fault sink for a fault described by
    /// `diagnostic`: the description itself, once a handler is installed.
    pub fn report(&self, diagnostic: String) -> (r: Option<String>)
        ensures
            self.is_installed_spec() ==> r == Some(diagnostic),
            !self.is_installed_spec() ==> r is None,
    {
        if self.installed {
            Some(diagnostic)
        } else {
            None
        }
    }
}

} // verus!
