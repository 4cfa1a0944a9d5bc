//! The interrupt descriptor table: loading it into the processor.

use vstd::prelude::*;
use x86_64::structures::idt::InterruptDescriptorTable;

verus! {

#[verifier::external_type_specification]
#[verifier::external_body]
pub struct ExInterruptDescriptorTable(InterruptDescriptorTable);

/// Relies on `InterruptDescriptorTable::load`: executes `lidt` on the table.
#[verifier::external_body]
fn load_table(idt: &'static InterruptDescriptorTable) {
    idt.load()
}

/// Loads the interrupt table into the processor's table register. It must
/// run before the descriptor table is loaded: see `boot_sequence`.
pub fn init(idt: &'static InterruptDescriptorTable) {
    load_table(idt)
}

} // verus!
