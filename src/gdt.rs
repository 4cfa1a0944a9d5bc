//! The global descriptor table, with one kernel code segment and one
//! task-state segment, and the task-state segment whose interrupt-stack-table
//! slot points at the top of a stack reserved for double faults.

use vstd::prelude::*;
use x86_64::structures::gdt::{Descriptor, GlobalDescriptorTable, SegmentSelector};
use x86_64::structures::tss::TaskStateSegment;
use x86_64::VirtAddr;

verus! {

#[verifier::external_type_specification]
#[verifier::external_body]
pub struct ExGlobalDescriptorTable(GlobalDescriptorTable);

#[verifier::external_type_specification]
pub struct ExDescriptor(Descriptor);

#[verifier::external_type_specification]
pub struct ExSegmentSelector(SegmentSelector);

#[verifier::external_type_specification]
#[verifier::external_body]
pub struct ExTaskStateSegment(TaskStateSegment);

/// The interrupt-stack-table slot that holds the double-fault stack.
pub const DOUBLE_FAULT_IST_INDEX: u16 = 0;

/// Size in bytes of the stack reserved for double faults: five pages.
pub const STACK_SIZE: u64 = 4096 * 5;

/// The descriptor a kernel code segment gets: 64-bit, present, ring 0,
/// executable and readable.
pub const KERNEL_CODE64: u64 = 0x00af9b000000ffff;

/// The words a table holds, the null descriptor at index 0 included.
pub uninterp spec fn gdt_entries(g: GlobalDescriptorTable) -> Seq<u64>;

/// The seven interrupt-stack-table slots of a task-state segment, as addresses.
pub uninterp spec fn tss_ist(t: TaskStateSegment) -> Seq<u64>;

/// The words a descriptor takes in the table.
pub open spec fn descriptor_words(d: Descriptor) -> Seq<u64> {
    match d {
        Descriptor::UserSegment(v) => seq![v],
        Descriptor::SystemSegment(lo, hi) => seq![lo, hi],
    }
}

/// The first word of a descriptor.
pub open spec fn descriptor_low(d: Descriptor) -> u64 {
    match d {
        Descriptor::UserSegment(v) => v,
        Descriptor::SystemSegment(lo, _) => lo,
    }
}

/// The privilege level a descriptor asks for, bits 45 and 46 of its low word.
pub open spec fn descriptor_dpl(d: Descriptor) -> u16 {
    ((descriptor_low(d) >> 45u64) & 3) as u16
}

/// The table slot a selector refers to.
pub open spec fn selector_index(s: SegmentSelector) -> u16 {
    (s.0 >> 3u16) as u16
}

/// The privilege level a selector requests.
pub open spec fn selector_rpl(s: SegmentSelector) -> u16 {
    (s.0 & 3) as u16
}

/// The addresses a virtual address may be made from: those whose bits 48 to
/// 63 copy bit 47, or are all clear.
pub open spec fn accepted_address(addr: u64) -> bool {
    addr >> 47u64 == 0 || addr >> 47u64 == 1 || addr >> 47u64 == 0x1ffff
}

/// The canonical form of an accepted address: bit 47 copied into bits 48 to 63.
pub open spec fn canonical_address(addr: u64) -> u64 {
    if addr >> 47u64 == 1 {
        addr | 0xffff_0000_0000_0000
    } else {
        addr
    }
}

/// Relies on `GlobalDescriptorTable::new`: a table holding only the null entry.
#[verifier::external_body]
fn new_table() -> (r: GlobalDescriptorTable)
    ensures
        gdt_entries(r) == seq![0u64],
{
    GlobalDescriptorTable::new()
}

/// Relies on `GlobalDescriptorTable::add_entry`: the descriptor's words are
/// appended (it panics when the eight slots would overflow), and the selector
/// names the first of them with the descriptor's privilege level.
#[verifier::external_body]
fn add_entry(g: &mut GlobalDescriptorTable, d: Descriptor) -> (r: SegmentSelector)
    requires
        gdt_entries(*old(g)).len() + descriptor_words(d).len() <= 8,
    ensures
        gdt_entries(*final(g)) == gdt_entries(*old(g)) + descriptor_words(d),
        r.0 == ((gdt_entries(*old(g)).len() as u16) << 3u16) | descriptor_dpl(d),
{
    g.add_entry(d)
}

/// Relies on `Descriptor::kernel_code_segment`: a single word with the kernel
/// code flags.
#[verifier::external_body]
fn kernel_code_segment() -> (r: Descriptor)
    ensures
        r == Descriptor::UserSegment(KERNEL_CODE64),
{
    Descriptor::kernel_code_segment()
}

/// Relies on `Descriptor::tss_segment`: a two-word system descriptor whose low
/// word is present, ring 0, of type "available 64-bit TSS", with the limit
/// 0x67 of a task-state segment.
#[verifier::external_body]
fn tss_segment(tss: &'static TaskStateSegment) -> (r: Descriptor)
    ensures
        r is SystemSegment,
        (descriptor_low(r) >> 40u64) & 0xff == 0x89,
        descriptor_low(r) & 0xffff == 0x67,
{
    Descriptor::tss_segment(tss)
}

/// Relies on `TaskStateSegment::new`: every interrupt-stack-table slot is zero.
#[verifier::external_body]
fn new_tss() -> (r: TaskStateSegment)
    ensures
        tss_ist(r) == Seq::new(7, |i: int| 0u64),
{
    TaskStateSegment::new()
}

/// Relies on `VirtAddr::new`, which panics on an address it does not accept
/// and otherwise makes it canonical, to fill one interrupt-stack-table slot.
#[verifier::external_body]
fn set_ist_slot(t: &mut TaskStateSegment, slot: usize, addr: u64)
    requires
        slot < 7,
        accepted_address(addr),
    ensures
        tss_ist(*final(t)) == tss_ist(*old(t)).update(slot as int, canonical_address(addr)),
{
    t.interrupt_stack_table[slot] = VirtAddr::new(addr);
}

/// Relies on `GlobalDescriptorTable::load`: executes `lgdt` on the table.
#[verifier::external_body]
fn load_table(g: &'static GlobalDescriptorTable) {
    g.load()
}

/// The selectors of the two entries a descriptor table is built with.
pub struct Selectors {
    pub code_selector: SegmentSelector,
    pub tss_selector: SegmentSelector,
}

/// The address one past the end of the reserved stack that starts at
/// `stack_start`: stacks grow down, so this is where the processor starts.
pub fn fault_stack_top(stack_start: u64) -> (r: u64)
    requires
        stack_start + STACK_SIZE <= u64::MAX,
    ensures
        r == stack_start + STACK_SIZE,
{
    stack_start + STACK_SIZE
}

/// Builds the task-state segment: its double-fault slot points at the top of
/// the stack that starts at `stack_start`, every other slot is zero.
pub fn build_tss(stack_start: u64) -> (r: TaskStateSegment)
    requires
        stack_start + STACK_SIZE <= u64::MAX,
        accepted_address((stack_start + STACK_SIZE) as u64),
    ensures
        tss_ist(r) == Seq::new(7, |i: int| 0u64).update(
            DOUBLE_FAULT_IST_INDEX as int,
            canonical_address((stack_start + STACK_SIZE) as u64),
        ),
{
    let mut tss = new_tss();
    let top = fault_stack_top(stack_start);
    set_ist_slot(&mut tss, DOUBLE_FAULT_IST_INDEX as usize, top);
    tss
}

/// What a table built by `build_gdt` holds: the null entry, the kernel code
/// segment at index 1 and the task-state segment at index 2, each selector
/// naming its own entry at ring 0.
pub open spec fn gdt_built(g: GlobalDescriptorTable, s: Selectors) -> bool {
    let e = gdt_entries(g);
    &&& e.len() == 4
    &&& e[0] == 0
    &&& e[1] == KERNEL_CODE64
    &&& (e[2] >> 40u64) & 0xff == 0x89
    &&& e[2] & 0xffff == 0x67
    &&& s.code_selector.0 == 8
    &&& s.tss_selector.0 == 16
}

/// Builds the descriptor table: the kernel code segment, then the task-state
/// segment `tss`.
pub fn build_gdt(tss: &'static TaskStateSegment) -> (r: (GlobalDescriptorTable, Selectors))
    ensures
        gdt_built(r.0, r.1),
{
    let mut gdt = new_table();
    let code = kernel_code_segment();
    let code_selector = add_entry(&mut gdt, code);
    let tss_desc = tss_segment(tss);
    let tss_selector = add_entry(&mut gdt, tss_desc);
    assert(((KERNEL_CODE64 >> 45u64) & 3) as u16 == 0) by (bit_vector);
    proof {
        let lo = descriptor_low(tss_desc);
        assert((lo >> 40u64) & 0xff == 0x89 ==> ((lo >> 45u64) & 3) as u16 == 0) by (bit_vector);
        assert((1u16 << 3u16) | 0u16 == 8u16) by (bit_vector);
        assert((2u16 << 3u16) | 0u16 == 16u16) by (bit_vector);
        assert(gdt_entries(gdt)[2] == lo);
    }
    (gdt, Selectors { code_selector, tss_selector })
}

/// Loads a built table into the processor's table register.
pub fn load(g: &'static GlobalDescriptorTable) {
    load_table(g)
}

/// Each selector of a built table refers to the slot that holds its own
/// descriptor, at ring 0: the code selector to the kernel code segment at
/// index 1, the task-state selector to the task-state segment at index 2.
pub proof fn lemma_selector_consistency(g: GlobalDescriptorTable, s: Selectors)
    requires
        gdt_built(g, s),
    ensures
        selector_index(s.code_selector) == 1,
        selector_index(s.tss_selector) == 2,
        selector_rpl(s.code_selector) == 0,
        selector_rpl(s.tss_selector) == 0,
        gdt_entries(g)[selector_index(s.code_selector) as int] == KERNEL_CODE64,
        (gdt_entries(g)[selector_index(s.tss_selector) as int] >> 40u64) & 0xff == 0x89,
{
    assert((8u16 >> 3u16) == 1u16 && (8u16 & 3u16) == 0u16) by (bit_vector);
    assert((16u16 >> 3u16) == 2u16 && (16u16 & 3u16) == 0u16) by (bit_vector);
}

/// The double-fault stack slot lies inside the interrupt stack table, and a
/// built task-state segment fills exactly that slot with the stack's top.
pub proof fn lemma_fault_slot_holds_stack_top(stack_start: u64, t: TaskStateSegment)
    requires
        stack_start + STACK_SIZE <= u64::MAX,
        accepted_address((stack_start + STACK_SIZE) as u64),
        tss_ist(t) == Seq::new(7, |i: int| 0u64).update(
            DOUBLE_FAULT_IST_INDEX as int,
            canonical_address((stack_start + STACK_SIZE) as u64),
        ),
    ensures
        (DOUBLE_FAULT_IST_INDEX as int) < tss_ist(t).len(),
        tss_ist(t)[DOUBLE_FAULT_IST_INDEX as int] == canonical_address((stack_start + STACK_SIZE) as u64),
        forall|i: int| 0 <= i < 7 && i != DOUBLE_FAULT_IST_INDEX ==> #[trigger] tss_ist(t)[i] == 0,
{
}

} // verus!
