//! Early bootstrap layer of a bare-metal x86_64 kernel: a lazily initialised
//! cell, a spinlock, and the descriptor tables the processor needs before it
//! can survive a breakpoint or a double fault.

pub mod gdt;
pub mod idt;
pub mod sync;
pub mod vga_buffer;

use vstd::prelude::*;

verus! {

/// One step of bringing the processor's tables up.
#[derive(Clone, Copy, PartialEq, Eq, Structural, Debug)]
pub enum BootStep {
    /// Load the interrupt table.
    LoadInterruptTable,
    /// Load the descriptor table into the table register.
    LoadDescriptorTable,
    /// Reload the code-segment register with the new code selector.
    ReloadCodeSegment,
    /// Load the task register with the task-state selector.
    LoadTaskRegister,
}

/// The order the tables come up in: the interrupt table first, so that a
/// double fault never meets the new descriptor table with the firmware's
/// interrupt table; then the descriptor table, and only then the registers
/// that hold selectors into it.
pub open spec fn boot_order() -> Seq<BootStep> {
    seq![
        BootStep::LoadInterruptTable,
        BootStep::LoadDescriptorTable,
        BootStep::ReloadCodeSegment,
        BootStep::LoadTaskRegister,
    ]
}

/// The steps of `init`, each once, in `boot_order`.
pub fn boot_sequence() -> (r: Vec<BootStep>)
    ensures
        r@ == boot_order(),
{
    let mut v: Vec<BootStep> = Vec::new();
    v.push(BootStep::LoadInterruptTable);
    v.push(BootStep::LoadDescriptorTable);
    v.push(BootStep::ReloadCodeSegment);
    v.push(BootStep::LoadTaskRegister);
    proof {
        assert(v@ =~= boot_order());
    }
    v
}

/// What the test device at port 0xf4 is told when the tests end.
#[derive(Clone, Copy, PartialEq, Eq, Structural, Debug)]
pub enum QemuExitCode {
    Success,
    Failure,
}

impl QemuExitCode {
    pub open spec fn spec_code(self) -> u32 {
        match self {
            QemuExitCode::Success => 0x10,
            QemuExitCode::Failure => 0x11,
        }
    }

    /// The value written to the device.
    pub fn code(self) -> (r: u32)
        ensures
            r == self.spec_code(),
    {
        match self {
            QemuExitCode::Success => 0x10,
            QemuExitCode::Failure => 0x11,
        }
    }
}

} // verus!
