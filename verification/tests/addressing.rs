use atmega32u4_usb::addr::{EndpointAddress, UsbDirection};
use atmega32u4_usb::bus::UsbBus;
use atmega32u4_usb::endpoint::Endpoint;
use atmega32u4_usb::error::UsbError;

#[test]
fn address_construction_succeeds_for_indices_0_through_6() {
    for i in 0u8..=6 {
        let out = Endpoint::new(EndpointAddress::new(i, UsbDirection::Out));
        assert!(out.is_ok());
        assert_eq!(out.unwrap().as_byte(), i);
        let inn = Endpoint::new(EndpointAddress::new(i, UsbDirection::In));
        assert!(inn.is_ok());
        assert_eq!(inn.unwrap().as_byte(), i);
    }
}

#[test]
fn address_construction_fails_for_other_indices() {
    for i in [7u8, 8, 15, 100, 127, 128, 255] {
        let out = Endpoint::new(EndpointAddress::new(i, UsbDirection::Out));
        assert!(matches!(out, Err(UsbError::InvalidEndpoint)));
        let inn = Endpoint::new(EndpointAddress::new(i, UsbDirection::In));
        assert!(matches!(inn, Err(UsbError::InvalidEndpoint)));
    }
}

#[test]
fn get_ep_validates_like_endpoint_new() {
    let bus = UsbBus::new();
    assert!(bus.get_ep(EndpointAddress::new(6, UsbDirection::In)).is_ok());
    assert!(matches!(
        bus.get_ep(EndpointAddress::new(7, UsbDirection::In)),
        Err(UsbError::InvalidEndpoint)
    ));
}

#[test]
fn iter_endpoints_yields_the_seven_valid_handles() {
    let bus = UsbBus::new();
    let eps = bus.iter_endpoints();
    assert_eq!(eps.len(), 7);
    for (i, ep) in eps.iter().enumerate() {
        assert_eq!(ep.as_byte(), i as u8);
    }
}

#[test]
fn is_in_reflects_the_direction_bit() {
    assert!(EndpointAddress::new(2, UsbDirection::In).is_in());
    assert!(!EndpointAddress::new(2, UsbDirection::Out).is_in());
}
