//! What the host runtime must be given before its event loop starts.

use vstd::prelude::*;

verus! {

/// A privileged operation that the host runtime grants the shell on request.
#[derive(Clone, Copy, Debug, PartialEq, Eq, Structural)]
pub enum Capability {
    /// Access to the file system.
    FileSystem,
    /// Opening links and paths with the system's own handler.
    Opener,
}

/// The capabilities the shell needs, in the order in which they are registered.
pub open spec fn required_capabilities_spec() -> Seq<Capability> {
    seq![Capability::FileSystem, Capability::Opener]
}

/// The capabilities to register with the host runtime, first to last.
///
/// The list is fixed: file-system access, then the opener, each once.
pub fn required_capabilities() -> (capabilities: Vec<Capability>)
    ensures
        capabilities@ == required_capabilities_spec(),
{
    let mut capabilities: Vec<Capability> = Vec::new();
    capabilities.push(Capability::FileSystem);
    capabilities.push(Capability::Opener);
    proof {
        assert(capabilities@ =~= required_capabilities_spec());
    }
    capabilities
}

} // verus!
