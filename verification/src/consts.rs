use vstd::prelude::*;

verus! {

pub const PROFILE_NUM: u32 = 2;
/// The interface value that addresses no profile in particular: every
/// profile receives an event that comes with it.
pub const ESP_GATT_IF_NONE: u32 = 0xff;

pub const PROFILE_A_APP_ID: u16 = 0;
pub const PROFILE_B_APP_ID: u16 = 1;

pub const ESP_UUID_LEN_16: u16 = 2;
pub const ESP_UUID_LEN_32: u16 = 4;
pub const ESP_UUID_LEN_128: u16 = 16;

pub const GATTS_SERVICE_UUID_TEST_A: u16 = 0x00FF;
pub const GATTS_CHAR_UUID_TEST_A: u16 = 0xFF01;
pub const GATTS_DESCR_UUID_TEST_A: u16 = 0x3333;
pub const GATTS_NUM_HANDLE_TEST_A: u16 = 4;

pub const GATTS_SERVICE_UUID_TEST_B: u16 = 0x00EE;
pub const GATTS_CHAR_UUID_TEST_B: u16 = 0xEE01;
pub const GATTS_DESCR_UUID_TEST_B: u16 = 0x2222;
pub const GATTS_NUM_HANDLE_TEST_B: u16 = 4;

pub const ADV_CONFIG_FLAG: u8 = 0x01;
pub const SCAN_RSP_CONFIG_FLAG: u8 = 0x02;

pub const ESP_GATT_CHAR_PROP_BIT_BROADCAST: u8 = 0x01;
pub const ESP_GATT_CHAR_PROP_BIT_READ: u8 = 0x02;
pub const ESP_GATT_CHAR_PROP_BIT_WRITE_NR: u8 = 0x04;
pub const ESP_GATT_CHAR_PROP_BIT_WRITE: u8 = 0x08;
pub const ESP_GATT_CHAR_PROP_BIT_NOTIFY: u8 = 0x10;
pub const ESP_GATT_CHAR_PROP_BIT_INDICATE: u8 = 0x20;
pub const ESP_GATT_CHAR_PROP_BIT_AUTH: u8 = 0x40;
pub const ESP_GATT_CHAR_PROP_BIT_EXT_PROP: u8 = 0x80;

pub const ESP_GATT_PERM_READ: u16 = 0x0001;
pub const ESP_GATT_PERM_READ_ENCRYPTED: u16 = 0x0002;
pub const ESP_GATT_PERM_READ_ENC_MITM: u16 = 0x0004;
pub const ESP_GATT_PERM_WRITE: u16 = 0x0010;
pub const ESP_GATT_PERM_WRITE_ENCRYPTED: u16 = 0x0020;
pub const ESP_GATT_PERM_WRITE_ENC_MITM: u16 = 0x0040;
pub const ESP_GATT_PERM_WRITE_SIGNED: u16 = 0x0080;
pub const ESP_GATT_PERM_WRITE_SIGNED_MITM: u16 = 0x0100;
pub const ESP_GATT_PERM_READ_AUTHORIZATION: u16 = 0x0200;
pub const ESP_GATT_PERM_WRITE_AUTHORIZATION: u16 = 0x0400;

pub const GATTS_DEMO_CHAR_VAL_LEN_MAX: u16 = 0x40;

/// Whether the server advertises with the raw advertising and scan
/// response payloads rather than with structured advertising data.
pub const CONFIG_SET_RAW_ADV_DATA: bool = false;

pub const ESP_BLE_ADV_FLAG_LIMIT_DISC: u8 = 0x01;
pub const ESP_BLE_ADV_FLAG_GEN_DISC: u8 = 0x02;
pub const ESP_BLE_ADV_FLAG_BREDR_NOT_SPT: u8 = 0x04;
pub const ESP_BLE_ADV_FLAG_DMT_CONTROLLER_SPT: u8 = 0x08;
pub const ESP_BLE_ADV_FLAG_DMT_HOST_SPT: u8 = 0x10;
pub const ESP_BLE_ADV_FLAG_NON_LIMIT_DISC: u8 = 0x00;

pub const ESP_GATT_UUID_CHAR_CLIENT_CONFIG: u16 = 0x2902;

pub const PREPARE_BUF_MAX_SIZE: u16 = 1024;

/// GATT status codes.
pub const ESP_GATT_OK: u32 = 0x00;
pub const ESP_GATT_INVALID_OFFSET: u32 = 0x07;
pub const ESP_GATT_INVALID_ATTR_LEN: u32 = 0x0d;
pub const ESP_GATT_NO_RESOURCES: u32 = 0x80;

/// Authentication requirement "none" in a GATT response.
pub const ESP_GATT_AUTH_REQ_NONE: u8 = 0;

/// The flag of an execute-write request that commits the queued writes
/// (any other value cancels them).
pub const ESP_GATT_PREP_WRITE_EXEC: u8 = 0x01;
pub const ESP_GATT_PREP_WRITE_CANCEL: u8 = 0x00;

/// Advertising parameters.
pub const ADV_TYPE_IND: u32 = 0x00;
pub const BLE_ADDR_TYPE_PUBLIC: u32 = 0x00;
pub const ADV_CHNL_ALL: u32 = 0x07;
pub const ADV_FILTER_ALLOW_SCAN_ANY_CON_ANY: u32 = 0x00;

/// The device name that profile A sets on registration.
pub open spec fn spec_test_device_name() -> Seq<u8> {
    seq![0x45u8, 0x53, 0x50, 0x5f, 0x47, 0x41, 0x54, 0x54, 0x53, 0x5f, 0x44, 0x45, 0x4d, 0x4f]
}

/// The initial value of profile A's characteristic.
pub open spec fn spec_char1_str() -> Seq<u8> {
    seq![0x11u8, 0x22, 0x33]
}

/// The raw advertising payload.
pub open spec fn spec_raw_adv_data() -> Seq<u8> {
    seq![0x02u8, 0x01, 0x06, 0x02, 0x0a, 0xeb, 0x03, 0x03, 0xab, 0xcd]
}

/// The raw scan response payload: the device name as a complete local name.
pub open spec fn spec_raw_scan_rsp_data() -> Seq<u8> {
    seq![
        0x0fu8, 0x09, 0x45, 0x53, 0x50, 0x5f, 0x47, 0x41, 0x54, 0x54, 0x53, 0x5f, 0x44, 0x45,
        0x4d, 0x4f,
    ]
}

/// The two 128-bit service UUIDs that the structured advertising data lists.
pub open spec fn spec_adv_service_uuid128() -> Seq<u8> {
    seq![
        0xfbu8, 0x34, 0x9b, 0x5f, 0x80, 0x00, 0x00, 0x80, 0x00, 0x10, 0x00, 0x00, 0xEE, 0x00,
        0x00, 0x00, 0xfb, 0x34, 0x9b, 0x5f, 0x80, 0x00, 0x00, 0x80, 0x00, 0x10, 0x00, 0x00,
        0xFF, 0x00, 0x00, 0x00,
    ]
}

/// The device name, "ESP_GATTS_DEMO", as bytes.
pub fn test_device_name() -> (name: Vec<u8>)
    ensures
        name@ == spec_test_device_name(),
{
    vec![0x45, 0x53, 0x50, 0x5f, 0x47, 0x41, 0x54, 0x54, 0x53, 0x5f, 0x44, 0x45, 0x4d, 0x4f]
}

pub fn char1_str() -> (v: Vec<u8>)
    ensures
        v@ == spec_char1_str(),
{
    vec![0x11, 0x22, 0x33]
}

pub fn raw_adv_data() -> (v: Vec<u8>)
    ensures
        v@ == spec_raw_adv_data(),
{
    vec![0x02, 0x01, 0x06, 0x02, 0x0a, 0xeb, 0x03, 0x03, 0xab, 0xcd]
}

pub fn raw_scan_rsp_data() -> (v: Vec<u8>)
    ensures
        v@ == spec_raw_scan_rsp_data(),
{
    vec![
        0x0f, 0x09, 0x45, 0x53, 0x50, 0x5f, 0x47, 0x41, 0x54, 0x54, 0x53, 0x5f, 0x44, 0x45,
        0x4d, 0x4f,
    ]
}

pub fn adv_service_uuid128() -> (v: Vec<u8>)
    ensures
        v@ == spec_adv_service_uuid128(),
{
    vec![
        0xfb, 0x34, 0x9b, 0x5f, 0x80, 0x00, 0x00, 0x80, 0x00, 0x10, 0x00, 0x00, 0xEE, 0x00,
        0x00, 0x00, 0xfb, 0x34, 0x9b, 0x5f, 0x80, 0x00, 0x00, 0x80, 0x00, 0x10, 0x00, 0x00,
        0xFF, 0x00, 0x00, 0x00,
    ]
}

} // verus!
