use sphrosyne::error::Error;
use sphrosyne::target::Client;

#[test]
fn fresh_pad_has_stock_ids_and_no_notification() {
    let client = Client::new().unwrap();
    let pad = client.connect_x360_pad().unwrap();
    assert_eq!(pad.vendor_id(), 0x045E);
    assert_eq!(pad.product_id(), 0x028E);
    assert!(!pad.has_notification());
}

#[test]
fn user_index_is_readable_and_stable() {
    let client = Client::new().unwrap();
    let mut pad = client.connect_x360_pad().unwrap();
    let index = pad.user_index().unwrap();
    pad.set_vendor_id(0x1234);
    assert_eq!(pad.user_index(), Ok(index));
}

#[test]
fn vendor_and_product_ids_can_be_set() {
    let client = Client::new().unwrap();
    let mut pad = client.connect_x360_pad().unwrap();
    pad.set_vendor_id(0x1234);
    pad.set_product_id(0x5678);
    assert_eq!(pad.vendor_id(), 0x1234);
    assert_eq!(pad.product_id(), 0x5678);
}

#[test]
fn second_registration_fails_and_keeps_the_first() {
    let client = Client::new().unwrap();
    let mut pad = client.connect_x360_pad().unwrap();
    let handle = pad.register_notification().unwrap();
    // A second registration is rejected as a usage error and the
    // existing registration stays active.
    match pad.register_notification() {
        Err(Error::AlreadyHasCallback) => {},
        other => panic!("expected AlreadyHasCallback, got {:?}", other.map(|_| ())),
    }
    assert!(pad.has_notification());
    pad.unregister_notification(handle);
    assert!(!pad.has_notification());
}

#[test]
fn registration_is_possible_again_after_unregistration() {
    let client = Client::new().unwrap();
    let mut pad = client.connect_x360_pad().unwrap();
    let handle = pad.register_notification().unwrap();
    pad.unregister_notification(handle);
    let handle2 = pad.register_notification().unwrap();
    assert!(pad.has_notification());
    pad.unregister_notification(handle2);
}

#[test]
fn detach_with_active_registration_still_succeeds() {
    let client = Client::new().unwrap();
    let mut pad = client.connect_x360_pad().unwrap();
    let _handle = pad.register_notification().unwrap();
    // Removing a pad whose notification was never unregistered leaks
    // the callback allocation, by design; the removal itself succeeds
    // and the process stays healthy.
    assert_eq!(pad.remove(), Ok(()));
    let client2 = Client::new().unwrap();
    let pad2 = client2.connect_x360_pad().unwrap();
    assert_eq!(pad2.vendor_id(), 0x045E);
}
