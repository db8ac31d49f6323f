use mouse_jiggler::config::{
    DEVICE_CLASS, DEVICE_RELEASE, MAX_POWER_MA, POLL_INTERVAL_MS, PRODUCT_ID, VENDOR_ID,
};
use usbd_hid::descriptor::SerializedDescriptor;

#[test]
fn device_identity_matches_the_emulated_mouse() {
    assert_eq!(VENDOR_ID, 0x17ef);
    assert_eq!(PRODUCT_ID, 0x6019);
    assert_eq!(DEVICE_RELEASE, 0x6300);
    assert_eq!(MAX_POWER_MA, 100);
    assert_eq!(DEVICE_CLASS, 0);
    assert_eq!(POLL_INTERVAL_MS, 60);
}

#[test]
fn report_descriptor_is_a_generic_desktop_mouse() {
    let desc = usbd_hid::descriptor::MouseReport::desc();
    assert_eq!(&desc[0..4], &[0x05, 0x01, 0x09, 0x02]);
}
