use vstd::prelude::*;
use crate::ble_types::{AdvData, AdvDataView, AdvParams, AttrValue, AttrValueView, ConnUpdateParams, GattRsp, GattRspView};
use crate::gatts_profile_inst::{BtUuid, GattSrvcId};

verus! {

/// A request that the server hands to the Bluetooth stack.
pub enum Action {
    /// Set the device name to the given bytes.
    SetDeviceName { name: Vec<u8> },
    /// Configure the raw advertising payload.
    ConfigAdvDataRaw { data: Vec<u8> },
    /// Configure the raw scan response payload.
    ConfigScanRspDataRaw { data: Vec<u8> },
    /// Configure structured advertising or scan response data.
    ConfigAdvData { adv_data: AdvData },
    CreateService { gatts_if: u8, service_id: GattSrvcId, num_handle: u16 },
    /// Answer a client request; `rsp` is the attribute value sent back, if any.
    SendResponse { gatts_if: u8, conn_id: u16, trans_id: u32, status: u32, rsp: Option<GattRsp> },
    /// Send a notification (`need_confirm` false) or an indication (true).
    SendIndicate { gatts_if: u8, conn_id: u16, attr_handle: u16, value: Vec<u8>, need_confirm: bool },
    StartService { service_handle: u16 },
    AddChar {
        service_handle: u16,
        char_uuid: BtUuid,
        perm: u16,
        property: u8,
        char_val: Option<AttrValue>,
    },
    /// Read back the value of an attribute.
    GetAttrValue { attr_handle: u16 },
    AddCharDescr { service_handle: u16, descr_uuid: BtUuid, perm: u16 },
    UpdateConnParams { conn_params: ConnUpdateParams },
    StartAdvertising { adv_params: AdvParams },
}

pub enum ActionView {
    SetDeviceName { name: Seq<u8> },
    ConfigAdvDataRaw { data: Seq<u8> },
    ConfigScanRspDataRaw { data: Seq<u8> },
    ConfigAdvData { adv_data: AdvDataView },
    CreateService { gatts_if: u8, service_id: GattSrvcId, num_handle: u16 },
    SendResponse { gatts_if: u8, conn_id: u16, trans_id: u32, status: u32, rsp: Option<GattRspView> },
    SendIndicate { gatts_if: u8, conn_id: u16, attr_handle: u16, value: Seq<u8>, need_confirm: bool },
    StartService { service_handle: u16 },
    AddChar {
        service_handle: u16,
        char_uuid: BtUuid,
        perm: u16,
        property: u8,
        char_val: Option<AttrValueView>,
    },
    GetAttrValue { attr_handle: u16 },
    AddCharDescr { service_handle: u16, descr_uuid: BtUuid, perm: u16 },
    UpdateConnParams { conn_params: ConnUpdateParams },
    StartAdvertising { adv_params: AdvParams },
}

impl View for Action {
    type V = ActionView;

    open spec fn view(&self) -> ActionView {
        match self {
            Action::SetDeviceName { name } => ActionView::SetDeviceName { name: name@ },
            Action::ConfigAdvDataRaw { data } => ActionView::ConfigAdvDataRaw { data: data@ },
            Action::ConfigScanRspDataRaw { data } => ActionView::ConfigScanRspDataRaw { data: data@ },
            Action::ConfigAdvData { adv_data } => ActionView::ConfigAdvData { adv_data: adv_data@ },
            Action::CreateService { gatts_if, service_id, num_handle } => ActionView::CreateService {
                gatts_if: *gatts_if,
                service_id: *service_id,
                num_handle: *num_handle,
            },
            Action::SendResponse { gatts_if, conn_id, trans_id, status, rsp } => ActionView::SendResponse {
                gatts_if: *gatts_if,
                conn_id: *conn_id,
                trans_id: *trans_id,
                status: *status,
                rsp: match rsp {
                    Some(r) => Some(r@),
                    None => None,
                },
            },
            Action::SendIndicate { gatts_if, conn_id, attr_handle, value, need_confirm } => ActionView::SendIndicate {
                gatts_if: *gatts_if,
                conn_id: *conn_id,
                attr_handle: *attr_handle,
                value: value@,
                need_confirm: *need_confirm,
            },
            Action::StartService { service_handle } => ActionView::StartService {
                service_handle: *service_handle,
            },
            Action::AddChar { service_handle, char_uuid, perm, property, char_val } => ActionView::AddChar {
                service_handle: *service_handle,
                char_uuid: *char_uuid,
                perm: *perm,
                property: *property,
                char_val: match char_val {
                    Some(v) => Some(v@),
                    None => None,
                },
            },
            Action::GetAttrValue { attr_handle } => ActionView::GetAttrValue { attr_handle: *attr_handle },
            Action::AddCharDescr { service_handle, descr_uuid, perm } => ActionView::AddCharDescr {
                service_handle: *service_handle,
                descr_uuid: *descr_uuid,
                perm: *perm,
            },
            Action::UpdateConnParams { conn_params } => ActionView::UpdateConnParams { conn_params: *conn_params },
            Action::StartAdvertising { adv_params } => ActionView::StartAdvertising { adv_params: *adv_params },
        }
    }
}

/// The views of a list of actions.
pub open spec fn actions_view(actions: Seq<Action>) -> Seq<ActionView> {
    actions.map_values(|a: Action| a@)
}

/// Appends an action; the list's view grows by that action's view.
pub fn push_action(actions: &mut Vec<Action>, a: Action)
    ensures
        actions_view(final(actions)@) == actions_view(old(actions)@).push(a@),
{
    let ghost before = actions@;
    actions.push(a);
    assert(actions_view(actions@) =~= actions_view(before).push(a@));
}

/// Appends a list of actions; the views concatenate.
pub fn append_actions(actions: &mut Vec<Action>, more: Vec<Action>)
    ensures
        actions_view(final(actions)@) == actions_view(old(actions)@) + actions_view(more@),
{
    let ghost before = actions@;
    let mut more = more;
    let ghost added = more@;
    actions.append(&mut more);
    assert(actions_view(actions@) =~= actions_view(before) + actions_view(added));
}

} // verus!
