//! The mathematical model of the server: its state, and what each handler
//! does to the state and asks of the Bluetooth stack for one event.

use vstd::prelude::*;
use crate::action::ActionView;
use crate::ble_types::{AdvDataView, AdvParams, AttrValueView, ConnUpdateParams, GattRspView};
use crate::consts::{
    spec_adv_service_uuid128, spec_char1_str, spec_raw_adv_data, spec_raw_scan_rsp_data, spec_test_device_name, ADV_CHNL_ALL, ADV_CONFIG_FLAG, ADV_FILTER_ALLOW_SCAN_ANY_CON_ANY, ADV_TYPE_IND, BLE_ADDR_TYPE_PUBLIC,
    ESP_BLE_ADV_FLAG_BREDR_NOT_SPT, ESP_BLE_ADV_FLAG_GEN_DISC, GATTS_DEMO_CHAR_VAL_LEN_MAX,
    ESP_GATT_AUTH_REQ_NONE, ESP_GATT_CHAR_PROP_BIT_INDICATE, ESP_GATT_CHAR_PROP_BIT_NOTIFY,
    ESP_GATT_CHAR_PROP_BIT_READ, ESP_GATT_CHAR_PROP_BIT_WRITE, ESP_GATT_IF_NONE,
    ESP_GATT_INVALID_ATTR_LEN, ESP_GATT_INVALID_OFFSET, ESP_GATT_OK, ESP_GATT_PERM_READ,
    ESP_GATT_PERM_WRITE, ESP_GATT_UUID_CHAR_CLIENT_CONFIG, GATTS_CHAR_UUID_TEST_A,
    GATTS_CHAR_UUID_TEST_B, GATTS_NUM_HANDLE_TEST_A, GATTS_NUM_HANDLE_TEST_B,
    GATTS_SERVICE_UUID_TEST_A, GATTS_SERVICE_UUID_TEST_B, PREPARE_BUF_MAX_SIZE, PROFILE_A_APP_ID,
    PROFILE_B_APP_ID, PROFILE_NUM, SCAN_RSP_CONFIG_FLAG,
};
use crate::event::{GapEvent, GattsEvent, WriteParam};
use crate::gatts_profile_inst::{
    empty_profile, spec_uuid16, GattId, GattSrvcId, GattsProfileInst, ProfileHandler,
};
use crate::prepare_type_env::{empty_prepare_env, PrepareEnvView};

verus! {

/// The mathematical value of the server state.
pub struct StatusView {
    pub gl_profile_tab: Seq<GattsProfileInst>,
    pub adv_config_done: u8,
    pub adv_data: AdvDataView,
    pub scan_rsp_data: AdvDataView,
    pub a_property: u8,
    pub b_property: u8,
    pub a_prepare_write_env: PrepareEnvView,
    pub b_prepare_write_env: PrepareEnvView,
    pub gatts_demo_char1_val: AttrValueView,
    pub adv_params: AdvParams,
    pub config_set_raw_adv_data: bool,
}

impl PrepareEnvView {
    /// A buffer, once there is one, holds `PREPARE_BUF_MAX_SIZE` bytes.
    pub open spec fn wf(self) -> bool {
        self.prepare_buf is Some ==> self.prepare_buf->0.len() == PREPARE_BUF_MAX_SIZE
    }
}

impl StatusView {
    /// The state's invariant: two profiles, each with its own handler; only
    /// the two configuration flags (bits 0 and 1) can be pending; the prepare buffers have
    /// their full size.
    pub open spec fn wf(self) -> bool {
        &&& self.gl_profile_tab.len() == PROFILE_NUM
        &&& self.gl_profile_tab[PROFILE_A_APP_ID as int].gatts_cb == Some(ProfileHandler::ProfileA)
        &&& self.gl_profile_tab[PROFILE_B_APP_ID as int].gatts_cb == Some(ProfileHandler::ProfileB)
        &&& self.adv_config_done <= 3
        &&& self.a_prepare_write_env.wf()
        &&& self.b_prepare_write_env.wf()
    }

    pub open spec fn profile(self, i: int) -> GattsProfileInst {
        self.gl_profile_tab[i]
    }

    pub open spec fn with_profile(self, i: int, p: GattsProfileInst) -> StatusView {
        StatusView { gl_profile_tab: self.gl_profile_tab.update(i, p), ..self }
    }
}

/// A profile entry before registration: no interface yet, and its handler.
pub open spec fn initial_profile(h: ProfileHandler) -> GattsProfileInst {
    GattsProfileInst { gatts_if: ESP_GATT_IF_NONE as u16, gatts_cb: Some(h), ..empty_profile() }
}

/// The structured advertising data (`set_scan_rsp` false) or scan response
/// data (true): the name, the two service UUIDs, general discoverability
/// without BR/EDR; the advertising data also asks for a connection
/// interval of 6 to 16 units and leaves out the transmit power.
pub open spec fn initial_adv_data(set_scan_rsp: bool) -> AdvDataView {
    AdvDataView {
        set_scan_rsp,
        include_name: true,
        include_txpower: set_scan_rsp,
        min_interval: if set_scan_rsp { 0 } else { 0x0006 },
        max_interval: if set_scan_rsp { 0 } else { 0x0010 },
        appearance: 0,
        manufacturer_data: seq![],
        service_data: seq![],
        service_uuid: spec_adv_service_uuid128(),
        flag: ESP_BLE_ADV_FLAG_GEN_DISC | ESP_BLE_ADV_FLAG_BREDR_NOT_SPT,
    }
}

/// The advertising parameters: connectable undirected advertising every
/// 0x20 to 0x40 units on all channels, from the public address.
pub open spec fn initial_adv_params() -> AdvParams {
    AdvParams {
        adv_int_min: 0x20,
        adv_int_max: 0x40,
        adv_type: ADV_TYPE_IND,
        own_addr_type: BLE_ADDR_TYPE_PUBLIC,
        peer_addr: [0u8, 0, 0, 0, 0, 0],
        peer_addr_type: 0,
        channel_map: ADV_CHNL_ALL,
        adv_filter_policy: ADV_FILTER_ALLOW_SCAN_ANY_CON_ANY,
    }
}

/// The server state before any event.
pub open spec fn initial_status(config_set_raw_adv_data: bool) -> StatusView {
    StatusView {
        gl_profile_tab: seq![
            initial_profile(ProfileHandler::ProfileA),
            initial_profile(ProfileHandler::ProfileB),
        ],
        adv_config_done: 0,
        adv_data: initial_adv_data(false),
        scan_rsp_data: initial_adv_data(true),
        a_property: 0,
        b_property: 0,
        a_prepare_write_env: empty_prepare_env(),
        b_prepare_write_env: empty_prepare_env(),
        gatts_demo_char1_val: AttrValueView {
            attr_max_len: GATTS_DEMO_CHAR_VAL_LEN_MAX,
            attr_len: 3,
            attr_value: spec_char1_str(),
        },
        adv_params: initial_adv_params(),
        config_set_raw_adv_data,
    }
}

/// The identifier of a primary service with a 16-bit UUID and instance 0.
pub open spec fn service_id_16(uuid: u16) -> GattSrvcId {
    GattSrvcId { id: GattId { uuid: spec_uuid16(uuid), inst_id: 0 }, is_primary: true }
}

/// The value that a notification or an indication carries: 0, 1, ..., 14.
pub open spec fn indicate_payload() -> Seq<u8> {
    Seq::new(15, |i: int| i as u8)
}

/// The value that every read request is answered with.
pub open spec fn read_rsp_value() -> Seq<u8> {
    seq![0xdeu8, 0xed, 0xbe, 0xef]
}

/// The successful answer to a read request of `handle`.
pub open spec fn read_response(gatts_if: u8, conn_id: u16, trans_id: u32, handle: u16) -> ActionView {
    ActionView::SendResponse {
        gatts_if,
        conn_id,
        trans_id,
        status: ESP_GATT_OK,
        rsp: Some(
            GattRspView {
                handle,
                offset: 0,
                len: 4,
                auth_req: ESP_GATT_AUTH_REQ_NONE,
                value: read_rsp_value(),
            },
        ),
    }
}

/// The 16-bit little-endian value of the first two bytes.
pub open spec fn descr_value(v: Seq<u8>) -> int {
    v[1] as int * 256 + v[0] as int
}

/// A notification (`need_confirm` false) or indication of the demo payload.
pub open spec fn indication(gatts_if: u8, conn_id: u16, attr_handle: u16, need_confirm: bool) -> ActionView {
    ActionView::SendIndicate { gatts_if, conn_id, attr_handle, value: indicate_payload(), need_confirm }
}

/// What a direct write to a profile's client configuration descriptor
/// asks for: the value 1 starts a notification, 2 an indication, each only
/// where the profile allows it; anything else asks for nothing.
pub open spec fn descriptor_write_actions(
    gatts_if: u8,
    w: WriteParam,
    p: GattsProfileInst,
    notify_on: bool,
    indicate_on: bool,
) -> Seq<ActionView> {
    if !w.is_prep && p.descr_handle == w.handle && w.len == 2 {
        let d = descr_value(w.value@);
        if d == 1 && notify_on {
            seq![indication(gatts_if, w.conn_id, p.char_handle, false)]
        } else if d == 2 && indicate_on {
            seq![indication(gatts_if, w.conn_id, p.char_handle, true)]
        } else {
            seq![]
        }
    } else {
        seq![]
    }
}

/// The status with which a prepared write is answered.
pub open spec fn prepare_write_status(env: PrepareEnvView, w: WriteParam) -> u32 {
    if env.prepare_buf is None {
        ESP_GATT_OK
    } else if w.offset > PREPARE_BUF_MAX_SIZE {
        ESP_GATT_INVALID_OFFSET
    } else if w.offset + w.len > PREPARE_BUF_MAX_SIZE {
        ESP_GATT_INVALID_ATTR_LEN
    } else {
        ESP_GATT_OK
    }
}

/// `buf` with `data` written from `offset` on.
pub open spec fn write_bytes_at(buf: Seq<u8>, offset: int, data: Seq<u8>) -> Seq<u8> {
    Seq::new(
        buf.len(),
        |i: int|
            if offset <= i < offset + data.len() {
                data[i - offset]
            } else {
                buf[i]
            },
    )
}

/// The buffer that a prepared write goes into: the one there is, or a new
/// zeroed one.
pub open spec fn prepare_buffer(env: PrepareEnvView) -> Seq<u8> {
    match env.prepare_buf {
        Some(b) => b,
        None => Seq::new(PREPARE_BUF_MAX_SIZE as nat, |i: int| 0u8),
    }
}

/// The number of bytes gathered before a prepared write: 0 for a new buffer.
pub open spec fn prepared_len(env: PrepareEnvView) -> int {
    if env.prepare_buf is None {
        0
    } else {
        env.prepare_len as int
    }
}

/// The write requests that the write handling can take: the first
/// prepared write fits the buffer that it allocates, the sum of offset and
/// length fits 16 bits where it is computed, and so does the number of
/// bytes gathered.
pub open spec fn write_admissible(env: PrepareEnvView, w: WriteParam) -> bool {
    w.need_rsp && w.is_prep ==> {
        &&& env.prepare_buf is None ==> w.offset + w.len <= PREPARE_BUF_MAX_SIZE
        &&& (env.prepare_buf is Some && w.offset <= PREPARE_BUF_MAX_SIZE) ==> w.offset + w.len
            <= u16::MAX
        &&& prepare_write_status(env, w) == ESP_GATT_OK ==> prepared_len(env) + w.len <= u16::MAX
    }
}

/// What the write handling does: a write that needs no answer changes
/// nothing; a plain write is answered with success; a prepared write is
/// answered with its status and an echo of its value and, when accepted,
/// lands in the buffer at its offset and adds its length.
pub open spec fn write_event_env_step(env: PrepareEnvView, gatts_if: u8, w: WriteParam) -> (
    PrepareEnvView,
    Seq<ActionView>,
) {
    if !w.need_rsp {
        (env, seq![])
    } else if !w.is_prep {
        (
            env,
            seq![
                ActionView::SendResponse {
                    gatts_if,
                    conn_id: w.conn_id,
                    trans_id: w.trans_id,
                    status: ESP_GATT_OK,
                    rsp: None,
                },
            ],
        )
    } else {
        let status = prepare_write_status(env, w);
        let rsp = ActionView::SendResponse {
            gatts_if,
            conn_id: w.conn_id,
            trans_id: w.trans_id,
            status,
            rsp: Some(
                GattRspView {
                    handle: w.handle,
                    offset: w.offset,
                    len: w.len,
                    auth_req: ESP_GATT_AUTH_REQ_NONE,
                    value: w.value@,
                },
            ),
        };
        if status != ESP_GATT_OK {
            (env, seq![rsp])
        } else {
            (
                PrepareEnvView {
                    prepare_buf: Some(write_bytes_at(prepare_buffer(env), w.offset as int, w.value@)),
                    prepare_len: (prepared_len(env) + w.len) as u16,
                },
                seq![rsp],
            )
        }
    }
}

/// The answer to an execute-write request.
pub open spec fn exec_write_response(gatts_if: u8, conn_id: u16, trans_id: u32) -> ActionView {
    ActionView::SendResponse { gatts_if, conn_id, trans_id, status: ESP_GATT_OK, rsp: None }
}

/// The connection parameters that profile A asks a newly connected peer for.
pub open spec fn requested_conn_params(bda: [u8; 6]) -> ConnUpdateParams {
    ConnUpdateParams { bda, min_int: 0x10, max_int: 0x20, latency: 0, timeout: 400 }
}

/// The properties of both profiles' characteristics.
pub open spec fn char_property() -> u8 {
    ESP_GATT_CHAR_PROP_BIT_READ | ESP_GATT_CHAR_PROP_BIT_WRITE | ESP_GATT_CHAR_PROP_BIT_NOTIFY
}

/// Read and write permission.
pub open spec fn read_write_perm() -> u16 {
    ESP_GATT_PERM_READ | ESP_GATT_PERM_WRITE
}

/// The advertising configuration that profile A requests on registration.
pub open spec fn adv_config_actions(s: StatusView) -> Seq<ActionView> {
    if s.config_set_raw_adv_data {
        seq![
            ActionView::ConfigAdvDataRaw { data: spec_raw_adv_data() },
            ActionView::ConfigScanRspDataRaw { data: spec_raw_scan_rsp_data() },
        ]
    } else {
        seq![
            ActionView::ConfigAdvData { adv_data: s.adv_data },
            ActionView::ConfigAdvData { adv_data: s.scan_rsp_data },
        ]
    }
}

/// What profile A does with one event.
pub open spec fn profile_a_step(s: StatusView, gatts_if: u8, e: GattsEvent) -> (StatusView, Seq<ActionView>) {
    let i = PROFILE_A_APP_ID as int;
    let p = s.profile(i);
    match e {
        GattsEvent::Reg { .. } => {
            let p2 = GattsProfileInst { service_id: service_id_16(GATTS_SERVICE_UUID_TEST_A), ..p };
            (
                StatusView {
                    adv_config_done: s.adv_config_done | ADV_CONFIG_FLAG | SCAN_RSP_CONFIG_FLAG,
                    ..s.with_profile(i, p2)
                },
                seq![ActionView::SetDeviceName { name: spec_test_device_name() }] + adv_config_actions(
                    s,
                ) + seq![
                    ActionView::CreateService {
                        gatts_if,
                        service_id: p2.service_id,
                        num_handle: GATTS_NUM_HANDLE_TEST_A,
                    },
                ],
            )
        },
        GattsEvent::Read { conn_id, trans_id, handle } => (
            s,
            seq![read_response(gatts_if, conn_id, trans_id, handle)],
        ),
        GattsEvent::Write(w) => {
            let before = descriptor_write_actions(
                gatts_if,
                w,
                p,
                (s.a_property & ESP_GATT_CHAR_PROP_BIT_NOTIFY) != 0,
                (s.a_property & ESP_GATT_CHAR_PROP_BIT_INDICATE) != 0,
            );
            let (env, after) = write_event_env_step(s.a_prepare_write_env, gatts_if, w);
            (StatusView { a_prepare_write_env: env, ..s }, before + after)
        },
        GattsEvent::ExecWrite(x) => (
            StatusView { a_prepare_write_env: empty_prepare_env(), ..s },
            seq![exec_write_response(gatts_if, x.conn_id, x.trans_id)],
        ),
        GattsEvent::Create { service_handle, .. } => {
            let char_uuid = spec_uuid16(GATTS_CHAR_UUID_TEST_A);
            let p2 = GattsProfileInst { service_handle, char_uuid, ..p };
            (
                StatusView { a_property: char_property(), ..s.with_profile(i, p2) },
                seq![
                    ActionView::StartService { service_handle },
                    ActionView::AddChar {
                        service_handle,
                        char_uuid,
                        perm: read_write_perm(),
                        property: char_property(),
                        char_val: Some(s.gatts_demo_char1_val),
                    },
                ],
            )
        },
        GattsEvent::AddChar { attr_handle, .. } => {
            let descr_uuid = spec_uuid16(ESP_GATT_UUID_CHAR_CLIENT_CONFIG);
            let p2 = GattsProfileInst { char_handle: attr_handle, descr_uuid, ..p };
            (
                s.with_profile(i, p2),
                seq![
                    ActionView::GetAttrValue { attr_handle },
                    ActionView::AddCharDescr {
                        service_handle: p.service_handle,
                        descr_uuid,
                        perm: read_write_perm(),
                    },
                ],
            )
        },
        GattsEvent::AddCharDescr { attr_handle, .. } => (
            s.with_profile(i, GattsProfileInst { descr_handle: attr_handle, ..p }),
            seq![],
        ),
        GattsEvent::Connect { conn_id, remote_bda } => (
            s.with_profile(i, GattsProfileInst { conn_id, ..p }),
            seq![ActionView::UpdateConnParams { conn_params: requested_conn_params(remote_bda) }],
        ),
        GattsEvent::Disconnect { .. } => (
            s,
            seq![ActionView::StartAdvertising { adv_params: s.adv_params }],
        ),
        GattsEvent::Other { .. } => (s, seq![]),
    }
}

/// What profile B does with one event. Its notifications and indications
/// go out whenever its property byte is not zero.
pub open spec fn profile_b_step(s: StatusView, gatts_if: u8, e: GattsEvent) -> (StatusView, Seq<ActionView>) {
    let i = PROFILE_B_APP_ID as int;
    let p = s.profile(i);
    match e {
        GattsEvent::Reg { .. } => {
            let p2 = GattsProfileInst { service_id: service_id_16(GATTS_SERVICE_UUID_TEST_B), ..p };
            (
                s.with_profile(i, p2),
                seq![
                    ActionView::CreateService {
                        gatts_if,
                        service_id: p2.service_id,
                        num_handle: GATTS_NUM_HANDLE_TEST_B,
                    },
                ],
            )
        },
        GattsEvent::Read { conn_id, trans_id, handle } => (
            s,
            seq![read_response(gatts_if, conn_id, trans_id, handle)],
        ),
        GattsEvent::Write(w) => {
            let before = descriptor_write_actions(
                gatts_if,
                w,
                p,
                s.b_property != 0,
                s.b_property != 0,
            );
            let (env, after) = write_event_env_step(s.b_prepare_write_env, gatts_if, w);
            (StatusView { b_prepare_write_env: env, ..s }, before + after)
        },
        GattsEvent::ExecWrite(x) => (
            StatusView { b_prepare_write_env: empty_prepare_env(), ..s },
            seq![exec_write_response(gatts_if, x.conn_id, x.trans_id)],
        ),
        GattsEvent::Create { service_handle, .. } => {
            let char_uuid = spec_uuid16(GATTS_CHAR_UUID_TEST_B);
            let p2 = GattsProfileInst { service_handle, char_uuid, ..p };
            (
                StatusView { b_property: char_property(), ..s.with_profile(i, p2) },
                seq![
                    ActionView::StartService { service_handle },
                    ActionView::AddChar {
                        service_handle,
                        char_uuid,
                        perm: read_write_perm(),
                        property: char_property(),
                        char_val: None,
                    },
                ],
            )
        },
        GattsEvent::AddChar { attr_handle, .. } => {
            let descr_uuid = spec_uuid16(ESP_GATT_UUID_CHAR_CLIENT_CONFIG);
            let p2 = GattsProfileInst { char_handle: attr_handle, descr_uuid, ..p };
            (
                s.with_profile(i, p2),
                seq![
                    ActionView::AddCharDescr {
                        service_handle: p.service_handle,
                        descr_uuid,
                        perm: read_write_perm(),
                    },
                ],
            )
        },
        GattsEvent::AddCharDescr { attr_handle, .. } => (
            s.with_profile(i, GattsProfileInst { descr_handle: attr_handle, ..p }),
            seq![],
        ),
        GattsEvent::Connect { conn_id, .. } => (
            s.with_profile(i, GattsProfileInst { conn_id, ..p }),
            seq![],
        ),
        GattsEvent::Disconnect { .. } => (s, seq![]),
        GattsEvent::Other { .. } => (s, seq![]),
    }
}

/// The write requests that a profile's handler can take.
pub open spec fn profile_admissible(h: ProfileHandler, s: StatusView, e: GattsEvent) -> bool {
    &&& e.wf()
    &&& match e {
        GattsEvent::Write(w) => match h {
            ProfileHandler::ProfileA => write_admissible(s.a_prepare_write_env, w),
            ProfileHandler::ProfileB => write_admissible(s.b_prepare_write_env, w),
        },
        _ => true,
    }
}

/// What the handler `h` does with one event.
pub open spec fn profile_step(h: ProfileHandler, s: StatusView, gatts_if: u8, e: GattsEvent) -> (
    StatusView,
    Seq<ActionView>,
) {
    match h {
        ProfileHandler::ProfileA => profile_a_step(s, gatts_if, e),
        ProfileHandler::ProfileB => profile_b_step(s, gatts_if, e),
    }
}

/// An event on `gatts_if` is meant for profile `idx`: it addresses every
/// profile, or that profile's own interface.
pub open spec fn event_targets(s: StatusView, idx: int, gatts_if: u8) -> bool {
    gatts_if as u32 == ESP_GATT_IF_NONE || gatts_if as u16 == s.profile(idx).gatts_if
}

/// Profile `idx` gets the event if it is meant for it and has a handler.
pub open spec fn dispatch_one_step(s: StatusView, idx: int, gatts_if: u8, e: GattsEvent) -> (
    StatusView,
    Seq<ActionView>,
) {
    if event_targets(s, idx, gatts_if) && s.profile(idx).gatts_cb is Some {
        profile_step(s.profile(idx).gatts_cb->0, s, gatts_if, e)
    } else {
        (s, seq![])
    }
}

/// The profiles from `idx` on get the event, one after the other.
pub open spec fn dispatch_from(s: StatusView, gatts_if: u8, e: GattsEvent, idx: nat) -> (
    StatusView,
    Seq<ActionView>,
)
    decreases PROFILE_NUM - idx,
{
    if idx >= PROFILE_NUM {
        (s, seq![])
    } else {
        let (s1, a1) = dispatch_one_step(s, idx as int, gatts_if, e);
        let (s2, a2) = dispatch_from(s1, gatts_if, e, idx + 1);
        (s2, a1 + a2)
    }
}

/// A successful registration stores the interface the stack assigned in
/// the entry of the registering profile.
pub open spec fn after_registration(s: StatusView, gatts_if: u8, e: GattsEvent) -> StatusView {
    match e {
        GattsEvent::Reg { status, app_id } => if status == ESP_GATT_OK {
            s.with_profile(app_id as int, GattsProfileInst { gatts_if: gatts_if as u16, ..s.profile(app_id as int) })
        } else {
            s
        },
        _ => s,
    }
}

/// A failed registration is dropped before any profile sees it.
pub open spec fn registration_failed(e: GattsEvent) -> bool {
    e matches GattsEvent::Reg { status, .. } && status != ESP_GATT_OK
}

/// What the server does with one GATT event: record a registration, then
/// hand the event to every profile it is meant for, in table order.
pub open spec fn gatts_event_step(s: StatusView, gatts_if: u8, e: GattsEvent) -> (
    StatusView,
    Seq<ActionView>,
) {
    if registration_failed(e) {
        (s, seq![])
    } else {
        dispatch_from(after_registration(s, gatts_if, e), gatts_if, e, 0)
    }
}

/// The events that the server can take: a registration names one of its
/// profiles, and a write request is one that each profile it reaches can take.
pub open spec fn gatts_event_admissible(s: StatusView, gatts_if: u8, e: GattsEvent) -> bool {
    &&& e.wf()
    &&& match e {
        GattsEvent::Reg { status, app_id } => status == ESP_GATT_OK ==> app_id < PROFILE_NUM,
        GattsEvent::Write(w) => {
            &&& event_targets(s, PROFILE_A_APP_ID as int, gatts_if) ==> write_admissible(
                s.a_prepare_write_env,
                w,
            )
            &&& event_targets(s, PROFILE_B_APP_ID as int, gatts_if) ==> write_admissible(
                s.b_prepare_write_env,
                w,
            )
        },
        _ => true,
    }
}

/// Clearing a configuration flag; advertising starts once none is pending.
pub open spec fn clear_config_flag(s: StatusView, flag: u8) -> (StatusView, Seq<ActionView>) {
    let done = s.adv_config_done & !flag;
    (
        StatusView { adv_config_done: done, ..s },
        if done == 0 {
            seq![ActionView::StartAdvertising { adv_params: s.adv_params }]
        } else {
            seq![]
        },
    )
}

/// What the server does with one GAP event: a completed configuration of
/// the kind in use clears its flag.
pub open spec fn gap_event_step(s: StatusView, e: GapEvent) -> (StatusView, Seq<ActionView>) {
    match e {
        GapEvent::AdvDataRawSetComplete => if s.config_set_raw_adv_data {
            clear_config_flag(s, ADV_CONFIG_FLAG)
        } else {
            (s, seq![])
        },
        GapEvent::ScanRspDataRawSetComplete => if s.config_set_raw_adv_data {
            clear_config_flag(s, SCAN_RSP_CONFIG_FLAG)
        } else {
            (s, seq![])
        },
        GapEvent::AdvDataSetComplete => if !s.config_set_raw_adv_data {
            clear_config_flag(s, ADV_CONFIG_FLAG)
        } else {
            (s, seq![])
        },
        GapEvent::ScanRspDataSetComplete => if !s.config_set_raw_adv_data {
            clear_config_flag(s, SCAN_RSP_CONFIG_FLAG)
        } else {
            (s, seq![])
        },
        GapEvent::Other { .. } => (s, seq![]),
    }
}

} // verus!
