use vstd::prelude::*;

verus! {

pub const MANUFACTURE: &'static str = "Jezail Funder Studio";
pub const PRODUCT_NAME: &'static str = "Cornix";
pub const SERIAL_NUMBER: &'static str = "vial:f64c2b3c:000001";
pub const VID: u16 = 0xe11b;
pub const PID: u16 = 0x0001;

/// Input scan lines of the key matrix.
pub const INPUT_PIN_NUM: usize = 4;

/// Output scan lines of the key matrix.
pub const OUTPUT_PIN_NUM: usize = 7;

/// How many outgoing L2CAP buffers per link.
pub const L2CAP_TXQ: u8 = 4;

/// How many incoming L2CAP buffers per link.
pub const L2CAP_RXQ: u8 = 4;

/// Size of L2CAP packets.
pub const L2CAP_MTU: u16 = 251;

/// Links in the central role, and in the peripheral role.
pub const CENTRAL_COUNT: u8 = 1;
pub const PERIPHERAL_COUNT: u8 = 1;

/// Whether the storage region is wiped at boot.
pub const CLEAR_STORAGE: bool = false;

/// First byte of the storage region in flash.
pub const STORAGE_START_ADDR: u32 = 0xA0000;

/// Flash sectors of the storage region.
pub const STORAGE_NUM_SECTORS: u8 = 32;

/// Detents of the rotary encoder per step that it reports.
pub const ENCODER_RESOLUTION: u8 = 4;

/// Whether the rotary encoder's direction is inverted.
pub const ENCODER_REVERSE: bool = true;

/// Seconds between two battery readings.
pub const BATTERY_SAMPLE_SECS: u64 = 12;

/// Raw readings of an empty and of a full battery: the two calibration points
/// of the library's `BatteryProcessor`, which turns readings into levels.
pub const BATTERY_EMPTY: u16 = 2000;
pub const BATTERY_FULL: u16 = 2806;

/// Milliseconds between two updates of the status LED.
pub const LED_INTERVAL_MS: u64 = 100;

/// Depth of the shared event queue.
pub const EVENT_QUEUE_DEPTH: usize = 16;

/// How the keyboard presents itself over USB.
#[derive(Clone, Copy, Debug)]
pub struct KeyboardUsbConfig {
    pub vid: u16,
    pub pid: u16,
    pub manufacturer: &'static str,
    pub product_name: &'static str,
    pub serial_number: &'static str,
}

pub fn keyboard_usb_config() -> (r: KeyboardUsbConfig)
    ensures
        r.vid == VID,
        r.pid == PID,
        r.manufacturer == MANUFACTURE,
        r.product_name == PRODUCT_NAME,
        r.serial_number == SERIAL_NUMBER,
{
    KeyboardUsbConfig {
        vid: VID,
        pid: PID,
        manufacturer: MANUFACTURE,
        product_name: PRODUCT_NAME,
        serial_number: SERIAL_NUMBER,
    }
}

/// Where persistent state lives in flash.
#[derive(Clone, Copy, Debug, PartialEq, Eq, Structural)]
pub struct StorageConfig {
    pub start_addr: u32,
    pub num_sectors: u8,
    pub clear_storage: bool,
}

pub fn storage_config() -> (r: StorageConfig)
    ensures
        r == (StorageConfig {
            start_addr: STORAGE_START_ADDR,
            num_sectors: STORAGE_NUM_SECTORS,
            clear_storage: CLEAR_STORAGE,
        }),
{
    StorageConfig {
        start_addr: STORAGE_START_ADDR,
        num_sectors: STORAGE_NUM_SECTORS,
        clear_storage: CLEAR_STORAGE,
    }
}

/// What the link-layer controller is built to support: one link in each
/// role, with fixed L2CAP buffers.
#[derive(Clone, Copy, Debug, PartialEq, Eq, Structural)]
pub struct LinkConfig {
    pub central_count: u8,
    pub peripheral_count: u8,
    pub tx_mtu: u16,
    pub rx_mtu: u16,
    pub tx_queue: u8,
    pub rx_queue: u8,
}

pub fn link_config() -> (r: LinkConfig)
    ensures
        r == (LinkConfig {
            central_count: CENTRAL_COUNT,
            peripheral_count: PERIPHERAL_COUNT,
            tx_mtu: L2CAP_MTU,
            rx_mtu: L2CAP_MTU,
            tx_queue: L2CAP_TXQ,
            rx_queue: L2CAP_RXQ,
        }),
{
    LinkConfig {
        central_count: CENTRAL_COUNT,
        peripheral_count: PERIPHERAL_COUNT,
        tx_mtu: L2CAP_MTU,
        rx_mtu: L2CAP_MTU,
        tx_queue: L2CAP_TXQ,
        rx_queue: L2CAP_RXQ,
    }
}

} // verus!
