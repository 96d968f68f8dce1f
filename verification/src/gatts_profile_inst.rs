use vstd::prelude::*;

verus! {

/// The value of a Bluetooth UUID: 16, 32 or 128 bits wide.
#[derive(Clone, Copy)]
pub enum UuidValue {
    Uuid16(u16),
    Uuid32(u32),
    Uuid128([u8; 16]),
}

/// A Bluetooth UUID together with its length in bytes.
#[derive(Clone, Copy)]
pub struct BtUuid {
    pub len: u16,
    pub uuid: UuidValue,
}

/// A GATT attribute identifier: a UUID and an instance number.
#[derive(Clone, Copy)]
pub struct GattId {
    pub uuid: BtUuid,
    pub inst_id: u8,
}

/// A GATT service identifier.
#[derive(Clone, Copy)]
pub struct GattSrvcId {
    pub id: GattId,
    pub is_primary: bool,
}

/// The event handler of one profile, to which the server hands the events
/// meant for that profile.
#[derive(Clone, Copy)]
pub enum ProfileHandler {
    ProfileA,
    ProfileB,
}

/// What the server knows of one profile: its callback, the interface the
/// stack gave it, and the handles of its service, characteristic and
/// descriptor once they exist.
#[derive(Clone, Copy)]
pub struct GattsProfileInst {
    pub gatts_cb: Option<ProfileHandler>,
    pub gatts_if: u16,
    pub app_id: u16,
    pub conn_id: u16,
    pub service_handle: u16,
    pub service_id: GattSrvcId,
    pub char_handle: u16,
    pub char_uuid: BtUuid,
    pub perm: u16,
    pub property: u8,
    pub descr_handle: u16,
    pub descr_uuid: BtUuid,
}

/// The all-zero UUID.
pub open spec fn zero_uuid() -> BtUuid {
    BtUuid { len: 0, uuid: UuidValue::Uuid16(0) }
}

/// A 16-bit UUID.
pub open spec fn spec_uuid16(value: u16) -> BtUuid {
    BtUuid { len: 2, uuid: UuidValue::Uuid16(value) }
}

/// A profile entry with every field zero and no callback.
pub open spec fn empty_profile() -> GattsProfileInst {
    GattsProfileInst {
        gatts_cb: None,
        gatts_if: 0,
        app_id: 0,
        conn_id: 0,
        service_handle: 0,
        service_id: GattSrvcId {
            id: GattId { uuid: zero_uuid(), inst_id: 0 },
            is_primary: false,
        },
        char_handle: 0,
        char_uuid: zero_uuid(),
        perm: 0,
        property: 0,
        descr_handle: 0,
        descr_uuid: zero_uuid(),
    }
}

impl BtUuid {
    /// A 16-bit UUID.
    pub fn uuid16(value: u16) -> (u: BtUuid)
        ensures
            u == spec_uuid16(value),
    {
        BtUuid { len: 2, uuid: UuidValue::Uuid16(value) }
    }
}

impl Default for BtUuid {
    fn default() -> (u: Self)
        ensures
            u == zero_uuid(),
    {
        BtUuid { len: 0, uuid: UuidValue::Uuid16(0) }
    }
}

impl Default for GattsProfileInst {
    fn default() -> (p: Self)
        ensures
            p == empty_profile(),
    {
        GattsProfileInst {
            gatts_cb: None,
            gatts_if: 0,
            app_id: 0,
            conn_id: 0,
            service_handle: 0,
            service_id: GattSrvcId {
                id: GattId { uuid: BtUuid::default(), inst_id: 0 },
                is_primary: false,
            },
            char_handle: 0,
            char_uuid: BtUuid::default(),
            perm: 0,
            property: 0,
            descr_handle: 0,
            descr_uuid: BtUuid::default(),
        }
    }
}

} // verus!
