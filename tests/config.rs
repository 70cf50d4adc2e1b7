use cornix::central::ble_addr;
use cornix::constants::{keyboard_usb_config, link_config, storage_config, LinkConfig, StorageConfig};

#[test]
fn address_is_little_endian_and_static_random() {
    assert_eq!(ble_addr(0x0403_0201, 0x0000_0605), [0x01, 0x02, 0x03, 0x04, 0x05, 0xC6]);
    assert_eq!(ble_addr(0, 0), [0, 0, 0, 0, 0, 0xC0]);
    assert_eq!(ble_addr(u32::MAX, u32::MAX), [0xFF; 6]);
    assert_eq!(ble_addr(0x1234_5678, 0xABCD_3F21), [0x78, 0x56, 0x34, 0x12, 0x21, 0xFF]);
}

#[test]
fn link_parameters() {
    assert_eq!(
        link_config(),
        LinkConfig { central_count: 1, peripheral_count: 1, tx_mtu: 251, rx_mtu: 251, tx_queue: 4, rx_queue: 4 }
    );
}

#[test]
fn storage_region() {
    assert_eq!(storage_config(), StorageConfig { start_addr: 0xA0000, num_sectors: 32, clear_storage: false });
}

#[test]
fn usb_identity() {
    let c = keyboard_usb_config();
    assert_eq!(c.vid, 0xe11b);
    assert_eq!(c.pid, 0x0001);
    assert_eq!(c.product_name, "Cornix");
    assert_eq!(c.manufacturer, "Jezail Funder Studio");
    assert_eq!(c.serial_number, "vial:f64c2b3c:000001");
}
