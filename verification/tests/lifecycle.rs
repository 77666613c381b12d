use atmega32u4_usb::addr::{EndpointAddress, EndpointType, UsbDirection};
use atmega32u4_usb::bus::UsbBus;
use atmega32u4_usb::error::{PollResult, UsbError};
use atmega32u4_usb::size::bucket_bytes;

#[test]
fn enable_powers_the_interface_up_behind_a_locked_pll() {
    let mut bus = UsbBus::new();
    bus.enable();
    assert!(bus.usb.uvrege);
    assert!(bus.pll.plle);
    assert!(bus.pll.plock);
    assert!(bus.usb.usbe);
}

#[test]
fn default_allocation_configures_endpoint_one() {
    let mut bus = UsbBus::new();
    bus.enable();
    let addr = bus
        .alloc_ep(UsbDirection::Out, None, EndpointType::Bulk, 64)
        .unwrap();
    assert_eq!(addr, EndpointAddress::new(1, UsbDirection::Out));
    assert!(bus.usb.eps[1].cfgok);
    assert!(bus.usb.eps[1].epen);
    assert!(bus.usb.eps[1].alloc);
    assert_eq!(bucket_bytes(bus.usb.eps[1].epsize), 64);
}

#[test]
fn allocation_rejects_an_invalid_address_and_an_oversized_packet() {
    let mut bus = UsbBus::new();
    bus.enable();
    let bad = EndpointAddress::new(9, UsbDirection::Out);
    assert_eq!(
        bus.alloc_ep(UsbDirection::Out, Some(bad), EndpointType::Bulk, 64),
        Err(UsbError::InvalidEndpoint)
    );
    let ok = EndpointAddress::new(2, UsbDirection::In);
    assert_eq!(
        bus.alloc_ep(UsbDirection::In, Some(ok), EndpointType::Bulk, 513),
        Err(UsbError::EndpointMemoryOverflow)
    );
}

#[test]
fn stall_set_then_query_round_trips() {
    let mut bus = UsbBus::new();
    bus.enable();
    let addr = EndpointAddress::new(2, UsbDirection::Out);
    bus.alloc_ep(UsbDirection::Out, Some(addr), EndpointType::Interrupt, 16)
        .unwrap();
    bus.set_stalled(addr, true);
    assert!(bus.is_stalled(addr));
    bus.set_stalled(addr, false);
    assert!(!bus.is_stalled(addr));
}

#[test]
fn suspend_then_resume_leaves_the_interface_up_and_the_clock_running() {
    let mut bus = UsbBus::new();
    bus.enable();
    bus.suspend();
    assert!(!bus.usb.suspi);
    assert!(bus.usb.frzclk);
    assert!(!bus.pll.plle);
    assert!(bus.usb.wakeupe);
    bus.resume();
    assert!(bus.usb.usbe);
    assert!(!bus.usb.frzclk);
    assert!(bus.pll.plle);
    assert!(bus.pll.plock);
}

#[test]
fn set_device_address_latches_then_enables() {
    let mut bus = UsbBus::new();
    bus.enable();
    bus.set_device_address(0x35);
    assert_eq!(bus.usb.uadd, 0x35);
    assert!(bus.usb.adden);
    // Only the seven address bits are latched.
    bus.set_device_address(0xAA);
    assert_eq!(bus.usb.uadd, 0x2A);
}

#[test]
fn reset_drops_the_interface_off_the_bus() {
    let mut bus = UsbBus::new();
    bus.enable();
    bus.reset();
    assert!(!bus.usb.usbe);
    // The regulator and PLL state are left alone.
    assert!(bus.usb.uvrege);
    assert!(bus.pll.plle);
}

#[test]
fn poll_reports_no_event() {
    let bus = UsbBus::new();
    assert_eq!(bus.poll(), PollResult::NoEvent);
}
