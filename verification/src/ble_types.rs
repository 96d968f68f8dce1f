use vstd::prelude::*;

verus! {

/// Structured advertising (or scan response) data.
pub struct AdvData {
    pub set_scan_rsp: bool,
    pub include_name: bool,
    pub include_txpower: bool,
    pub min_interval: i32,
    pub max_interval: i32,
    pub appearance: i32,
    pub manufacturer_data: Vec<u8>,
    pub service_data: Vec<u8>,
    pub service_uuid: Vec<u8>,
    pub flag: u8,
}

pub struct AdvDataView {
    pub set_scan_rsp: bool,
    pub include_name: bool,
    pub include_txpower: bool,
    pub min_interval: i32,
    pub max_interval: i32,
    pub appearance: i32,
    pub manufacturer_data: Seq<u8>,
    pub service_data: Seq<u8>,
    pub service_uuid: Seq<u8>,
    pub flag: u8,
}

impl View for AdvData {
    type V = AdvDataView;

    open spec fn view(&self) -> AdvDataView {
        AdvDataView {
            set_scan_rsp: self.set_scan_rsp,
            include_name: self.include_name,
            include_txpower: self.include_txpower,
            min_interval: self.min_interval,
            max_interval: self.max_interval,
            appearance: self.appearance,
            manufacturer_data: self.manufacturer_data@,
            service_data: self.service_data@,
            service_uuid: self.service_uuid@,
            flag: self.flag,
        }
    }
}

impl AdvData {
    /// A copy with the same contents.
    pub fn duplicate(&self) -> (d: AdvData)
        ensures
            d@ == self@,
    {
        let manufacturer_data = self.manufacturer_data.clone();
        let service_data = self.service_data.clone();
        let service_uuid = self.service_uuid.clone();
        assert(manufacturer_data@ =~= self.manufacturer_data@);
        assert(service_data@ =~= self.service_data@);
        assert(service_uuid@ =~= self.service_uuid@);
        AdvData {
            set_scan_rsp: self.set_scan_rsp,
            include_name: self.include_name,
            include_txpower: self.include_txpower,
            min_interval: self.min_interval,
            max_interval: self.max_interval,
            appearance: self.appearance,
            manufacturer_data,
            service_data,
            service_uuid,
            flag: self.flag,
        }
    }
}

/// The value of an attribute: its capacity, its length and its bytes.
pub struct AttrValue {
    pub attr_max_len: u16,
    pub attr_len: u16,
    pub attr_value: Vec<u8>,
}

pub struct AttrValueView {
    pub attr_max_len: u16,
    pub attr_len: u16,
    pub attr_value: Seq<u8>,
}

impl View for AttrValue {
    type V = AttrValueView;

    open spec fn view(&self) -> AttrValueView {
        AttrValueView {
            attr_max_len: self.attr_max_len,
            attr_len: self.attr_len,
            attr_value: self.attr_value@,
        }
    }
}

impl AttrValue {
    /// A copy with the same contents.
    pub fn duplicate(&self) -> (d: AttrValue)
        ensures
            d@ == self@,
    {
        let attr_value = self.attr_value.clone();
        assert(attr_value@ =~= self.attr_value@);
        AttrValue { attr_max_len: self.attr_max_len, attr_len: self.attr_len, attr_value }
    }
}

/// Advertising parameters.
#[derive(Clone, Copy)]
pub struct AdvParams {
    pub adv_int_min: u16,
    pub adv_int_max: u16,
    pub adv_type: u32,
    pub own_addr_type: u32,
    pub peer_addr: [u8; 6],
    pub peer_addr_type: u32,
    pub channel_map: u32,
    pub adv_filter_policy: u32,
}

/// The connection parameters that the server asks the peer for.
#[derive(Clone, Copy)]
pub struct ConnUpdateParams {
    pub bda: [u8; 6],
    pub min_int: u16,
    pub max_int: u16,
    pub latency: u16,
    pub timeout: u16,
}

/// The attribute value carried by a GATT response.
pub struct GattRsp {
    pub handle: u16,
    pub offset: u16,
    pub len: u16,
    pub auth_req: u8,
    pub value: Vec<u8>,
}

pub struct GattRspView {
    pub handle: u16,
    pub offset: u16,
    pub len: u16,
    pub auth_req: u8,
    pub value: Seq<u8>,
}

impl View for GattRsp {
    type V = GattRspView;

    open spec fn view(&self) -> GattRspView {
        GattRspView {
            handle: self.handle,
            offset: self.offset,
            len: self.len,
            auth_req: self.auth_req,
            value: self.value@,
        }
    }
}

} // verus!
