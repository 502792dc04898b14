use rvkern::pci::{
    PCIError,
    pci_device_address, pci_function_address, PCICapabilitiesList,
    PCICapabilityControlRegister, PCICommandReg, PCICommonHeader, PCIDevice, PCIStatusReg,
    PciConfig,
};

fn simple_cfg(class_dword: u32, bar0: u32, mask0: u32) -> PciConfig {
    let mut regs = vec![0u32; 64];
    regs[0] = (0x1234u32 << 16) | 0x5678; // device id 0x1234, vendor id 0x5678
    regs[2] = class_dword;
    regs[3] = (0x80u32 << 16) | (0x20 << 8) | 0x10;
    regs[4] = bar0;
    regs[10] = 0xAABBCCDD;
    regs[11] = (0x9876u32 << 16) | 0x5432;
    regs[12] = 0x10203040;
    regs[13] = 0x40;
    regs[15] = (0x44u32 << 24) | (0x33 << 16) | (0x02 << 8) | 0x0B;
    let masks = vec![mask0, 0, 0xFFFF_F000, 0, 0, 0];
    let flags = vec![8, 0, 8, 0, 0, 0];
    PciConfig::new(regs, masks, flags)
}

#[test]
fn configuration_addresses() {
    assert_eq!(pci_device_address(0, 0), 0x3000_0000);
    assert_eq!(pci_device_address(0, 1), 0x3000_8000);
    assert_eq!(pci_device_address(1, 0), 0x3010_0000);
    assert_eq!(pci_function_address(1, 2, 3), 0x3000_0000 | (1 << 20) | (2 << 15) | (3 << 12));
}

#[test]
fn header_decoding() {
    let cfg = simple_cfg(0x0304_0506, 0x4000_0008, 0xFF00_0000);
    let h = PCICommonHeader::get(&cfg);
    assert_eq!(h.vendor_id, 0x5678);
    assert_eq!(h.device_id, 0x1234);
    assert_eq!(h.class_code, 0x03);
    assert_eq!(h.subclass, 0x04);
    assert_eq!(h.prog_if, 0x05);
    assert_eq!(h.revision_id, 0x06);
    assert_eq!(h.cache_line_size, 0x10);
    assert_eq!(h.latency_timer, 0x20);
    assert_eq!(h.header_type, 0x80);
    assert!(h.multi_function);
}

#[test]
fn device_decoding() {
    let cfg = simple_cfg(0x0300_0000, 0x4000_0008, 0xFF00_0000);
    let dev = PCIDevice::get(0, 1, cfg);
    assert_eq!(dev.base_address, 0x3000_8000);
    assert_eq!(dev.cardbus_cis_pointer, 0xAABBCCDD);
    assert_eq!(dev.subsystem_vendor_id, 0x5432);
    assert_eq!(dev.subsystem_id, 0x9876);
    assert_eq!(dev.expansion_rom_base_address, 0x10203040);
    assert_eq!(dev.capabilities_head, 0x40);
    assert_eq!(dev.interrupt_line, 0x0B);
    assert_eq!(dev.interrupt_pin, 0x02);
    assert_eq!(dev.min_grant, 0x33);
    assert_eq!(dev.max_latency, 0x44);
    assert_eq!(dev.address_range, 0x0100_0000);
}

#[test]
fn bar_sizing_is_stable_and_restores_the_register() {
    // A BAR whose natural size is 16 MiB.
    let cfg = simple_cfg(0x0300_0000, 0x4000_0008, 0xFF00_0000);
    let mut dev = PCIDevice::get(0, 1, cfg);
    let original = dev.bar_read(0);
    assert_eq!(original, 0x4000_0008);
    let size1 = dev.get_bar_size(0);
    assert_eq!(size1, 0x0100_0000);
    let size2 = dev.get_bar_size(0);
    assert_eq!(size2, size1);
    assert_eq!(dev.bar_read(0), original);
}

#[test]
fn bar_writes_keep_hardwired_bits() {
    let cfg = simple_cfg(0x0300_0000, 0x4000_0008, 0xFF00_0000);
    let mut dev = PCIDevice::get(0, 1, cfg);
    dev.bar_write(0, 0x4321_0777);
    // Only implemented address bits stick, and the type flags stay
    // visible.
    assert_eq!(dev.bar_read(0), 0x4300_0008);
}

#[test]
fn command_register_field_setters() {
    let mut cmd = PCICommandReg::from_bits(0);
    cmd.set_memory_space(true);
    assert!(cmd.memory_space());
    assert!(!cmd.io_space());
    assert_eq!(cmd.to_bits(), 0x0002);
    cmd.set_io_space(true);
    cmd.set_bus_master(true);
    cmd.set_interrupt_disable(true);
    assert_eq!(cmd.to_bits(), 0x0002 | 0x0001 | 0x0004 | 0x0400);
    cmd.set_memory_space(false);
    assert!(!cmd.memory_space());
    assert!(cmd.io_space());
    assert!(cmd.bus_master());
    assert!(cmd.interrupt_disable());
}

#[test]
fn device_command_update_touches_only_the_low_half() {
    let mut cfg_regs = vec![0u32; 64];
    cfg_regs[1] = (0x0010u32 << 16) | 0x0001; // status 0x0010, command io-space
    cfg_regs[2] = 0x0300_0000;
    let cfg = PciConfig::new(cfg_regs, vec![0; 6], vec![0; 6]);
    let mut dev = PCIDevice::get(0, 0, cfg);
    dev.set_command_memory_space(true);
    assert_eq!(dev.read(1), (0x0010u32 << 16) | 0x0003);
    assert!(dev.header.command.memory_space());
    assert!(dev.header.command.io_space());
}

#[test]
fn status_and_capability_registers() {
    let st = PCIStatusReg::from_bits(0x0018);
    assert!(st.interrupt_status());
    assert!(st.capabilities_list());
    assert_eq!(st.devsel_timing(), 0);
    let st2 = PCIStatusReg::from_bits(2 << 9);
    assert_eq!(st2.devsel_timing(), 2);

    let ctl = PCICapabilityControlRegister::from_bits(0x0001 | (3 << 1) | (5 << 4) | 0x0080);
    assert!(ctl.enable());
    assert_eq!(ctl.multiple_message_capable(), 3);
    assert_eq!(ctl.multiple_message_enable(), 5);
    assert!(ctl.address_64bit());

    let cap = PCICapabilitiesList::from_bits(
        (0xBEEFu128 << 96) | (0x1122_3344_5566_7788u128 << 32) | (0x0081u128 << 16) | (0x50u128
            << 8) | 0x05,
    );
    assert_eq!(cap.capability_id(), 0x05);
    assert_eq!(cap.next(), 0x50);
    assert!(cap.control().enable());
    assert!(cap.control().address_64bit());
    assert_eq!(cap.address(), 0x1122_3344_5566_7788);
    assert_eq!(cap.data(), 0xBEEF);
}

#[test]
fn checked_reads_reject_bad_offsets() {
    let cfg = simple_cfg(0x0300_0000, 0x4000_0008, 0xFF00_0000);
    let dev = PCIDevice::get(0, 1, cfg);
    assert_eq!(dev.try_read(2), Ok(0x0300_0000));
    assert_eq!(dev.try_read(64), Err(PCIError::InvalidRegister));
}

#[test]
fn bar_register_addresses() {
    let cfg = simple_cfg(0x0300_0000, 0, 0);
    let dev = PCIDevice::get(0, 1, cfg);
    assert_eq!(dev.get_bar_address(0), 0x3000_8000 + 0x10);
    assert_eq!(dev.get_bar_address(5), 0x3000_8000 + 0x24);
}
