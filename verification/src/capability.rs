//! The catalogue of capability types.

use vstd::prelude::*;

use crate::text::same_text;

verus! {

/// A capability that the runtime hands to a program.
#[derive(Copy, Clone, Debug, PartialEq, Eq, Structural, Hash)]
pub enum CapabilityType {
    /// `Clock`.
    Clock,
    /// `MonotonicClock`.
    MonotonicClock,
    /// `Stdout`.
    Stdout,
    /// `Stderr`.
    Stderr,
    /// `Stdin`.
    Stdin,
    /// `Allocator`.
    Allocator,
    /// `Filesystem`.
    Filesystem,
    /// `Network`.
    Network,
    /// `Random`.
    Random,
    /// `Executor`.
    Executor,
    /// `ReadOnlyFilesystem`.
    ReadOnlyFilesystem,
    /// `SandboxedFilesystem`.
    SandboxedFilesystem,
    /// `LocalhostNetwork`.
    LocalhostNetwork,
    /// `RestrictedNetwork`.
    RestrictedNetwork,
    /// `BoundedAllocator`.
    BoundedAllocator,
    /// `DeterministicRandom`.
    DeterministicRandom,
    /// `Subprocess`.
    Subprocess,
    /// `Debugger`.
    Debugger,
}

impl CapabilityType {
    /// Source spelling.
    pub open spec fn spelling(self) -> Seq<char> {
        match self {
            CapabilityType::Clock => "Clock"@,
            CapabilityType::MonotonicClock => "MonotonicClock"@,
            CapabilityType::Stdout => "Stdout"@,
            CapabilityType::Stderr => "Stderr"@,
            CapabilityType::Stdin => "Stdin"@,
            CapabilityType::Allocator => "Allocator"@,
            CapabilityType::Filesystem => "Filesystem"@,
            CapabilityType::Network => "Network"@,
            CapabilityType::Random => "Random"@,
            CapabilityType::Executor => "Executor"@,
            CapabilityType::ReadOnlyFilesystem => "ReadOnlyFilesystem"@,
            CapabilityType::SandboxedFilesystem => "SandboxedFilesystem"@,
            CapabilityType::LocalhostNetwork => "LocalhostNetwork"@,
            CapabilityType::RestrictedNetwork => "RestrictedNetwork"@,
            CapabilityType::BoundedAllocator => "BoundedAllocator"@,
            CapabilityType::DeterministicRandom => "DeterministicRandom"@,
            CapabilityType::Subprocess => "Subprocess"@,
            CapabilityType::Debugger => "Debugger"@,
        }
    }

    /// Position in the catalogue.
    pub open spec fn rank(self) -> usize {
        match self {
            CapabilityType::Clock => 0,
            CapabilityType::MonotonicClock => 1,
            CapabilityType::Stdout => 2,
            CapabilityType::Stderr => 3,
            CapabilityType::Stdin => 4,
            CapabilityType::Allocator => 5,
            CapabilityType::Filesystem => 6,
            CapabilityType::Network => 7,
            CapabilityType::Random => 8,
            CapabilityType::Executor => 9,
            CapabilityType::ReadOnlyFilesystem => 10,
            CapabilityType::SandboxedFilesystem => 11,
            CapabilityType::LocalhostNetwork => 12,
            CapabilityType::RestrictedNetwork => 13,
            CapabilityType::BoundedAllocator => 14,
            CapabilityType::DeterministicRandom => 15,
            CapabilityType::Subprocess => 16,
            CapabilityType::Debugger => 17,
        }
    }

    /// The entry of the catalogue that is spelled `text`.
    pub open spec fn named(text: Seq<char>) -> Option<CapabilityType> {
        if text == "Clock"@ {
            Some(CapabilityType::Clock)
        } else if text == "MonotonicClock"@ {
            Some(CapabilityType::MonotonicClock)
        } else if text == "Stdout"@ {
            Some(CapabilityType::Stdout)
        } else if text == "Stderr"@ {
            Some(CapabilityType::Stderr)
        } else if text == "Stdin"@ {
            Some(CapabilityType::Stdin)
        } else if text == "Allocator"@ {
            Some(CapabilityType::Allocator)
        } else if text == "Filesystem"@ {
            Some(CapabilityType::Filesystem)
        } else if text == "Network"@ {
            Some(CapabilityType::Network)
        } else if text == "Random"@ {
            Some(CapabilityType::Random)
        } else if text == "Executor"@ {
            Some(CapabilityType::Executor)
        } else if text == "ReadOnlyFilesystem"@ {
            Some(CapabilityType::ReadOnlyFilesystem)
        } else if text == "SandboxedFilesystem"@ {
            Some(CapabilityType::SandboxedFilesystem)
        } else if text == "LocalhostNetwork"@ {
            Some(CapabilityType::LocalhostNetwork)
        } else if text == "RestrictedNetwork"@ {
            Some(CapabilityType::RestrictedNetwork)
        } else if text == "BoundedAllocator"@ {
            Some(CapabilityType::BoundedAllocator)
        } else if text == "DeterministicRandom"@ {
            Some(CapabilityType::DeterministicRandom)
        } else if text == "Subprocess"@ {
            Some(CapabilityType::Subprocess)
        } else if text == "Debugger"@ {
            Some(CapabilityType::Debugger)
        } else {
            None
        }
    }

    /// Source spelling.
    pub fn name(self) -> (r: &'static str)
        ensures
            r@ == self.spelling(),
    {
        match self {
            CapabilityType::Clock => "Clock",
            CapabilityType::MonotonicClock => "MonotonicClock",
            CapabilityType::Stdout => "Stdout",
            CapabilityType::Stderr => "Stderr",
            CapabilityType::Stdin => "Stdin",
            CapabilityType::Allocator => "Allocator",
            CapabilityType::Filesystem => "Filesystem",
            CapabilityType::Network => "Network",
            CapabilityType::Random => "Random",
            CapabilityType::Executor => "Executor",
            CapabilityType::ReadOnlyFilesystem => "ReadOnlyFilesystem",
            CapabilityType::SandboxedFilesystem => "SandboxedFilesystem",
            CapabilityType::LocalhostNetwork => "LocalhostNetwork",
            CapabilityType::RestrictedNetwork => "RestrictedNetwork",
            CapabilityType::BoundedAllocator => "BoundedAllocator",
            CapabilityType::DeterministicRandom => "DeterministicRandom",
            CapabilityType::Subprocess => "Subprocess",
            CapabilityType::Debugger => "Debugger",
        }
    }

    /// Position in the catalogue.
    pub fn index(self) -> (r: usize)
        ensures
            r == self.rank(),
    {
        match self {
            CapabilityType::Clock => 0,
            CapabilityType::MonotonicClock => 1,
            CapabilityType::Stdout => 2,
            CapabilityType::Stderr => 3,
            CapabilityType::Stdin => 4,
            CapabilityType::Allocator => 5,
            CapabilityType::Filesystem => 6,
            CapabilityType::Network => 7,
            CapabilityType::Random => 8,
            CapabilityType::Executor => 9,
            CapabilityType::ReadOnlyFilesystem => 10,
            CapabilityType::SandboxedFilesystem => 11,
            CapabilityType::LocalhostNetwork => 12,
            CapabilityType::RestrictedNetwork => 13,
            CapabilityType::BoundedAllocator => 14,
            CapabilityType::DeterministicRandom => 15,
            CapabilityType::Subprocess => 16,
            CapabilityType::Debugger => 17,
        }
    }

    /// The entry of the catalogue that is spelled `text`.
    pub fn from_name(text: &str) -> (r: Option<CapabilityType>)
        ensures
            r == CapabilityType::named(text@),
    {
        if same_text(text, "Clock") {
            Some(CapabilityType::Clock)
        } else if same_text(text, "MonotonicClock") {
            Some(CapabilityType::MonotonicClock)
        } else if same_text(text, "Stdout") {
            Some(CapabilityType::Stdout)
        } else if same_text(text, "Stderr") {
            Some(CapabilityType::Stderr)
        } else if same_text(text, "Stdin") {
            Some(CapabilityType::Stdin)
        } else if same_text(text, "Allocator") {
            Some(CapabilityType::Allocator)
        } else if same_text(text, "Filesystem") {
            Some(CapabilityType::Filesystem)
        } else if same_text(text, "Network") {
            Some(CapabilityType::Network)
        } else if same_text(text, "Random") {
            Some(CapabilityType::Random)
        } else if same_text(text, "Executor") {
            Some(CapabilityType::Executor)
        } else if same_text(text, "ReadOnlyFilesystem") {
            Some(CapabilityType::ReadOnlyFilesystem)
        } else if same_text(text, "SandboxedFilesystem") {
            Some(CapabilityType::SandboxedFilesystem)
        } else if same_text(text, "LocalhostNetwork") {
            Some(CapabilityType::LocalhostNetwork)
        } else if same_text(text, "RestrictedNetwork") {
            Some(CapabilityType::RestrictedNetwork)
        } else if same_text(text, "BoundedAllocator") {
            Some(CapabilityType::BoundedAllocator)
        } else if same_text(text, "DeterministicRandom") {
            Some(CapabilityType::DeterministicRandom)
        } else if same_text(text, "Subprocess") {
            Some(CapabilityType::Subprocess)
        } else if same_text(text, "Debugger") {
            Some(CapabilityType::Debugger)
        } else {
            None
        }
    }

}

/// Each entry of the catalogue is found again under its spelling.
pub proof fn law_capability_spelling(entry: CapabilityType)
    ensures
        CapabilityType::named(entry.spelling()) == Some(entry),
{
    reveal_strlit("Clock");
    assert("Clock"@.len() == 5);
    reveal_strlit("MonotonicClock");
    assert("MonotonicClock"@.len() == 14);
    reveal_strlit("Stdout");
    assert("Stdout"@.len() == 6);
    reveal_strlit("Stderr");
    assert("Stderr"@.len() == 6);
    reveal_strlit("Stdin");
    assert("Stdin"@.len() == 5);
    reveal_strlit("Allocator");
    assert("Allocator"@.len() == 9);
    reveal_strlit("Filesystem");
    assert("Filesystem"@.len() == 10);
    reveal_strlit("Network");
    assert("Network"@.len() == 7);
    reveal_strlit("Random");
    assert("Random"@.len() == 6);
    reveal_strlit("Executor");
    assert("Executor"@.len() == 8);
    reveal_strlit("ReadOnlyFilesystem");
    assert("ReadOnlyFilesystem"@.len() == 18);
    reveal_strlit("SandboxedFilesystem");
    assert("SandboxedFilesystem"@.len() == 19);
    reveal_strlit("LocalhostNetwork");
    assert("LocalhostNetwork"@.len() == 16);
    reveal_strlit("RestrictedNetwork");
    assert("RestrictedNetwork"@.len() == 17);
    reveal_strlit("BoundedAllocator");
    assert("BoundedAllocator"@.len() == 16);
    reveal_strlit("DeterministicRandom");
    assert("DeterministicRandom"@.len() == 19);
    reveal_strlit("Subprocess");
    assert("Subprocess"@.len() == 10);
    reveal_strlit("Debugger");
    assert("Debugger"@.len() == 8);
    assert("Stderr"@[3] != "Stdout"@[3]);
    assert("Stdin"@[0] != "Clock"@[0]);
    assert("Random"@[0] != "Stdout"@[0]);
    assert("Random"@[0] != "Stderr"@[0]);
    assert("BoundedAllocator"@[0] != "LocalhostNetwork"@[0]);
    assert("DeterministicRandom"@[0] != "SandboxedFilesystem"@[0]);
    assert("Subprocess"@[0] != "Filesystem"@[0]);
    assert("Debugger"@[0] != "Executor"@[0]);
}

} // verus!
