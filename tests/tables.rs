use titanium::gdt::{build_gdt, build_tss, fault_stack_top, DOUBLE_FAULT_IST_INDEX, KERNEL_CODE64, STACK_SIZE};
use titanium::{boot_sequence, BootStep, QemuExitCode};

#[test]
fn fault_stack_top_is_five_pages_up() {
    assert_eq!(STACK_SIZE, 20480);
    assert_eq!(fault_stack_top(0x1000), 0x1000 + 20480);
}

#[test]
fn tss_holds_the_fault_stack_top_in_its_slot() {
    let tss = build_tss(0x20_0000);
    let ist = tss.interrupt_stack_table;
    assert_eq!(ist[DOUBLE_FAULT_IST_INDEX as usize].as_u64(), 0x20_0000 + 20480);
    for (i, slot) in ist.iter().enumerate() {
        if i != DOUBLE_FAULT_IST_INDEX as usize {
            assert_eq!(slot.as_u64(), 0);
        }
    }
}

#[test]
fn tss_stack_top_is_made_canonical() {
    let tss = build_tss(0x0000_7fff_ffff_f000);
    let ist = tss.interrupt_stack_table;
    assert_eq!(ist[0].as_u64(), 0xffff_8000_0000_4000);
}

#[test]
fn selectors_name_their_entries() {
    let tss = Box::leak(Box::new(build_tss(0x10_0000)));
    let (gdt, selectors) = build_gdt(tss);
    assert_eq!(selectors.code_selector.0, 8);
    assert_eq!(selectors.tss_selector.0, 16);
    assert_eq!(selectors.code_selector.index(), 1);
    assert_eq!(selectors.tss_selector.index(), 2);
    let raw = gdt.as_raw_slice();
    assert_eq!(raw.len(), 4);
    assert_eq!(raw[0], 0);
    assert_eq!(raw[1], KERNEL_CODE64);
    assert_eq!((raw[2] >> 40) & 0xff, 0x89);
    assert_eq!(raw[2] & 0xffff, 0x67);
}

#[test]
fn interrupt_table_comes_up_first() {
    assert_eq!(
        boot_sequence(),
        vec![
            BootStep::LoadInterruptTable,
            BootStep::LoadDescriptorTable,
            BootStep::ReloadCodeSegment,
            BootStep::LoadTaskRegister,
        ]
    );
}

#[test]
fn exit_codes() {
    assert_eq!(QemuExitCode::Success.code(), 0x10);
    assert_eq!(QemuExitCode::Failure.code(), 0x11);
}
