//! The host platforms this library knows, and how a host is recognised.

use vstd::prelude::*;
use vstd::string::*;

verus! {

/// The kind of operating system the host reports.
#[derive(Clone, Copy, Debug, PartialEq, Eq, Structural)]
pub enum PlatformKind {
    Windows,
    MacOS,
    Linux,
    Unsupported,
}

/// The platform kind that an operating system identifier stands for.
pub open spec fn platform_of(os: Seq<char>) -> PlatformKind {
    if os == "windows"@ {
        PlatformKind::Windows
    } else if os == "macos"@ {
        PlatformKind::MacOS
    } else if os == "linux"@ {
        PlatformKind::Linux
    } else {
        PlatformKind::Unsupported
    }
}

/// Recognises the host from its operating system identifier.
pub fn resolve(os: &str) -> (kind: PlatformKind)
    ensures
        kind == platform_of(os@),
{
    let id = os.to_owned();
    if id == "windows".to_owned() {
        PlatformKind::Windows
    } else if id == "macos".to_owned() {
        PlatformKind::MacOS
    } else if id == "linux".to_owned() {
        PlatformKind::Linux
    } else {
        PlatformKind::Unsupported
    }
}

impl PlatformKind {
    /// Whether native commands can be synthesized for this platform.
    pub open spec fn supported(self) -> bool {
        self != PlatformKind::Unsupported
    }

    /// Whether native commands can be synthesized for this platform.
    pub fn is_supported(&self) -> (b: bool)
        ensures
            b == self.supported(),
    {
        match self {
            PlatformKind::Unsupported => false,
            _ => true,
        }
    }
}

} // verus!
