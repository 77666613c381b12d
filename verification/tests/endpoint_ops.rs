use atmega32u4_usb::addr::{EndpointAddress, EndpointType, UsbDirection};
use atmega32u4_usb::bus::UsbBus;
use atmega32u4_usb::endpoint::Endpoint;
use atmega32u4_usb::error::UsbError;

#[test]
fn enable_disable_and_query_track_the_enable_bit() {
    let mut bus = UsbBus::new();
    let ep = Endpoint::new(EndpointAddress::new(4, UsbDirection::Out)).unwrap();
    let sel = ep.select(&mut bus.usb);
    assert!(!sel.is_enabled(&bus.usb));
    sel.enable(&mut bus.usb);
    assert!(sel.is_enabled(&bus.usb));
    sel.disable(&mut bus.usb);
    assert!(!sel.is_enabled(&bus.usb));
}

#[test]
fn allocate_and_dealloc_track_the_alloc_bit_and_the_validity_flag() {
    let mut bus = UsbBus::new();
    let ep = Endpoint::new(EndpointAddress::new(5, UsbDirection::In)).unwrap();
    let sel = ep.select(&mut bus.usb);
    sel.set_direction(&mut bus.usb, UsbDirection::In);
    sel.set_size(&mut bus.usb, 32).unwrap();
    assert!(sel.is_alloced(&bus.usb));
    assert!(sel.is_cfg_ok(&bus.usb));
    assert!(sel.can_write(&bus.usb));
    sel.dealloc(&mut bus.usb);
    assert!(!sel.is_alloced(&bus.usb));
    assert!(!sel.is_cfg_ok(&bus.usb));
    assert!(!sel.can_write(&bus.usb));
}

#[test]
fn set_size_writes_the_bucket_code_and_get_size_reads_it_back() {
    let mut bus = UsbBus::new();
    let ep = Endpoint::new(EndpointAddress::new(0, UsbDirection::Out)).unwrap();
    let sel = ep.select(&mut bus.usb);
    for (request, bucket) in [(1u16, 8u16), (8, 8), (13, 16), (100, 128), (512, 512)] {
        sel.set_size(&mut bus.usb, request).unwrap();
        assert_eq!(sel.get_size(&bus.usb), Ok(bucket));
    }
    assert_eq!(
        sel.set_size(&mut bus.usb, 513),
        Err(UsbError::EndpointMemoryOverflow)
    );
}

#[test]
fn get_size_rejects_a_corrupted_code() {
    let mut bus = UsbBus::new();
    let ep = Endpoint::new(EndpointAddress::new(0, UsbDirection::Out)).unwrap();
    let sel = ep.select(&mut bus.usb);
    bus.usb.eps[0].epsize = 7;
    assert_eq!(sel.get_size(&bus.usb), Err(UsbError::EndpointMemoryOverflow));
}

#[test]
fn set_typ_stores_the_two_bit_code() {
    let mut bus = UsbBus::new();
    let ep = Endpoint::new(EndpointAddress::new(3, UsbDirection::Out)).unwrap();
    let sel = ep.select(&mut bus.usb);
    for (typ, code) in [
        (EndpointType::Control, 0u8),
        (EndpointType::Isochronous, 1),
        (EndpointType::Bulk, 2),
        (EndpointType::Interrupt, 3),
    ] {
        sel.set_typ(&mut bus.usb, typ);
        assert_eq!(bus.usb.eps[3].eptype, code);
    }
}

#[test]
fn can_read_follows_the_received_flag() {
    let mut bus = UsbBus::new();
    let ep = Endpoint::new(EndpointAddress::new(2, UsbDirection::Out)).unwrap();
    let sel = ep.select(&mut bus.usb);
    assert!(!sel.can_read(&bus.usb));
    bus.usb.eps[2].rxouti = true;
    assert!(sel.can_read(&bus.usb));
}

#[test]
fn selection_writes_the_shared_selector() {
    let mut bus = UsbBus::new();
    let a = Endpoint::new(EndpointAddress::new(2, UsbDirection::Out)).unwrap();
    let sel_a = a.select(&mut bus.usb);
    assert_eq!(bus.usb.uenum, 2);
    assert_eq!(sel_a.index(), 2);
    let b = Endpoint::new(EndpointAddress::new(6, UsbDirection::In)).unwrap();
    let sel_b = b.select(&mut bus.usb);
    assert_eq!(bus.usb.uenum, 6);
    assert_eq!(sel_b.index(), 6);
}
