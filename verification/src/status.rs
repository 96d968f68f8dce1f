//! The server state and its handlers.

use vstd::prelude::*;
use crate::action::{actions_view, append_actions, push_action, Action};
use crate::ble_types::{AdvData, AdvParams, AttrValue, ConnUpdateParams, GattRsp};
use crate::consts::{
    adv_service_uuid128, char1_str, raw_adv_data, raw_scan_rsp_data, test_device_name,
    ADV_CHNL_ALL, ADV_CONFIG_FLAG, ADV_FILTER_ALLOW_SCAN_ANY_CON_ANY, ADV_TYPE_IND,
    BLE_ADDR_TYPE_PUBLIC, CONFIG_SET_RAW_ADV_DATA, ESP_BLE_ADV_FLAG_BREDR_NOT_SPT,
    ESP_BLE_ADV_FLAG_GEN_DISC, ESP_GATT_AUTH_REQ_NONE, ESP_GATT_CHAR_PROP_BIT_INDICATE,
    ESP_GATT_CHAR_PROP_BIT_NOTIFY, ESP_GATT_CHAR_PROP_BIT_READ, ESP_GATT_CHAR_PROP_BIT_WRITE,
    ESP_GATT_IF_NONE, ESP_GATT_INVALID_ATTR_LEN, ESP_GATT_INVALID_OFFSET, ESP_GATT_OK,
    ESP_GATT_PERM_READ, ESP_GATT_PERM_WRITE, ESP_GATT_UUID_CHAR_CLIENT_CONFIG, ESP_UUID_LEN_16,
    GATTS_CHAR_UUID_TEST_A, GATTS_CHAR_UUID_TEST_B, GATTS_DEMO_CHAR_VAL_LEN_MAX,
    GATTS_NUM_HANDLE_TEST_A, GATTS_NUM_HANDLE_TEST_B, GATTS_SERVICE_UUID_TEST_A,
    GATTS_SERVICE_UUID_TEST_B, PREPARE_BUF_MAX_SIZE, PROFILE_A_APP_ID, PROFILE_B_APP_ID,
    PROFILE_NUM, SCAN_RSP_CONFIG_FLAG,
};
use crate::event::{ExecWriteParam, GapEvent, GattsEvent, WriteParam};
use crate::gatts_profile_inst::{GattsProfileInst, ProfileHandler, UuidValue};
use crate::laws::lemma_profile_a_leaves_profile_b_alone;
use crate::model::{
    after_registration, clear_config_flag, descriptor_write_actions, dispatch_from,
    dispatch_one_step, event_targets, gap_event_step, gatts_event_admissible, gatts_event_step,
    indicate_payload, initial_status, prepare_buffer, prepare_write_status, profile_a_step,
    profile_admissible, profile_b_step, read_rsp_value, write_admissible, write_bytes_at,
    write_event_env_step, StatusView,
};
use crate::prepare_type_env::{empty_prepare_env, PrepareTypeEnv};

verus! {

/// The state of the GATT server: the table of its two profiles, the
/// advertising configuration still pending, the advertising data and
/// parameters, the characteristic properties and the prepared-write
/// environments of both profiles.
pub struct Status {
    pub gl_profile_tab: [GattsProfileInst; 2],
    pub adv_config_done: u8,
    pub adv_data: AdvData,
    pub scan_rsp_data: AdvData,
    pub a_property: u8,
    pub b_property: u8,
    pub a_prepare_write_env: PrepareTypeEnv,
    pub b_prepare_write_env: PrepareTypeEnv,
    pub gatts_demo_char1_val: AttrValue,
    pub adv_params: AdvParams,
    pub config_set_raw_adv_data: bool,
}

impl View for Status {
    type V = StatusView;

    open spec fn view(&self) -> StatusView {
        StatusView {
            gl_profile_tab: self.gl_profile_tab@,
            adv_config_done: self.adv_config_done,
            adv_data: self.adv_data@,
            scan_rsp_data: self.scan_rsp_data@,
            a_property: self.a_property,
            b_property: self.b_property,
            a_prepare_write_env: self.a_prepare_write_env@,
            b_prepare_write_env: self.b_prepare_write_env@,
            gatts_demo_char1_val: self.gatts_demo_char1_val@,
            adv_params: self.adv_params,
            config_set_raw_adv_data: self.config_set_raw_adv_data,
        }
    }
}

/// The notification and indication payload 0, 1, ..., 14.
fn indicate_data() -> (v: Vec<u8>)
    ensures
        v@ == indicate_payload(),
{
    let mut v: Vec<u8> = Vec::new();
    let mut i: usize = 0;
    while i < 15
        invariant
            i <= 15,
            v@.len() == i,
            forall|j: int| 0 <= j < i ==> v@[j] == j as u8,
        decreases 15 - i,
    {
        let b: u8 = (i as u8) % 0xff;
        v.push(b);
        i = i + 1;
    }
    assert(v@ =~= indicate_payload());
    v
}

/// What a direct write to a client configuration descriptor asks for.
fn config_descriptor_write(
    gatts_if: u8,
    write: &WriteParam,
    p: &GattsProfileInst,
    notify_on: bool,
    indicate_on: bool,
) -> (actions: Vec<Action>)
    requires
        write.wf(),
    ensures
        actions_view(actions@) == descriptor_write_actions(gatts_if, *write, *p, notify_on, indicate_on),
{
    let mut actions: Vec<Action> = Vec::new();
    proof {
        assert(actions_view(actions@) =~= seq![]);
    }
    if !write.is_prep && p.descr_handle == write.handle && write.len == 2 {
        let b0 = write.value[0];
        let b1 = write.value[1];
        let descr_value: u16 = ((b1 as u16) << 8u16) | (b0 as u16);
        assert(((b1 as u16) << 8u16) | (b0 as u16) == (b1 as u16) * 256 + (b0 as u16))
            by (bit_vector);
        assert(descr_value == crate::model::descr_value(write.value@));
        if descr_value == 0x0001 {
            if notify_on {
                push_action(
                    &mut actions,
                    Action::SendIndicate {
                        gatts_if,
                        conn_id: write.conn_id,
                        attr_handle: p.char_handle,
                        value: indicate_data(),
                        need_confirm: false,
                    },
                );
            }
        } else if descr_value == 0x0002 {
            if indicate_on {
                push_action(
                    &mut actions,
                    Action::SendIndicate {
                        gatts_if,
                        conn_id: write.conn_id,
                        attr_handle: p.char_handle,
                        value: indicate_data(),
                        need_confirm: true,
                    },
                );
            }
        }
    }
    proof {
        assert(actions_view(actions@) =~= descriptor_write_actions(
            gatts_if,
            *write,
            *p,
            notify_on,
            indicate_on,
        ));
    }
    actions
}

/// The successful answer to a read request of `handle`.
fn read_response(gatts_if: u8, conn_id: u16, trans_id: u32, handle: u16) -> (a: Action)
    ensures
        a@ == crate::model::read_response(gatts_if, conn_id, trans_id, handle),
{
    let value: Vec<u8> = vec![0xde, 0xed, 0xbe, 0xef];
    assert(value@ =~= read_rsp_value());
    Action::SendResponse {
        gatts_if,
        conn_id,
        trans_id,
        status: ESP_GATT_OK,
        rsp: Some(GattRsp { handle, offset: 0, len: 4, auth_req: ESP_GATT_AUTH_REQ_NONE, value }),
    }
}

/// Whether the write handling can take this write: see `write_admissible`.
pub fn write_is_admissible(env: &PrepareTypeEnv, write: &WriteParam) -> (ok: bool)
    ensures
        ok == write_admissible(env@, *write),
{
    if !(write.need_rsp && write.is_prep) {
        return true;
    }
    let offset = write.offset as u32;
    let len = write.len as u32;
    let max = PREPARE_BUF_MAX_SIZE as u32;
    match &env.prepare_buf {
        None => offset + len <= max && len <= 0xffff,
        Some(_) => {
            if offset > max {
                true
            } else if offset + len > 0xffff {
                false
            } else if offset + len > max {
                true
            } else {
                env.prepare_len as u32 + len <= 0xffff
            }
        },
    }
}

impl Status {
    /// The server state before any event, advertising with raw payloads
    /// when `config_set_raw_adv_data` holds and with structured data else.
    pub fn new(config_set_raw_adv_data: bool) -> (s: Status)
        ensures
            s@ == initial_status(config_set_raw_adv_data),
            s@.wf(),
    {
        let mut a = GattsProfileInst::default();
        a.gatts_if = ESP_GATT_IF_NONE as u16;
        a.gatts_cb = Some(ProfileHandler::ProfileA);
        let mut b = GattsProfileInst::default();
        b.gatts_if = ESP_GATT_IF_NONE as u16;
        b.gatts_cb = Some(ProfileHandler::ProfileB);
        let s = Status {
            gl_profile_tab: [a, b],
            adv_config_done: 0,
            adv_data: AdvData {
                set_scan_rsp: false,
                include_name: true,
                include_txpower: false,
                min_interval: 0x0006,
                max_interval: 0x0010,
                appearance: 0x00,
                manufacturer_data: Vec::new(),
                service_data: Vec::new(),
                service_uuid: adv_service_uuid128(),
                flag: ESP_BLE_ADV_FLAG_GEN_DISC | ESP_BLE_ADV_FLAG_BREDR_NOT_SPT,
            },
            scan_rsp_data: AdvData {
                set_scan_rsp: true,
                include_name: true,
                include_txpower: true,
                min_interval: 0,
                max_interval: 0,
                appearance: 0x00,
                manufacturer_data: Vec::new(),
                service_data: Vec::new(),
                service_uuid: adv_service_uuid128(),
                flag: ESP_BLE_ADV_FLAG_GEN_DISC | ESP_BLE_ADV_FLAG_BREDR_NOT_SPT,
            },
            a_property: 0,
            b_property: 0,
            a_prepare_write_env: PrepareTypeEnv::default(),
            b_prepare_write_env: PrepareTypeEnv::default(),
            gatts_demo_char1_val: AttrValue {
                attr_max_len: GATTS_DEMO_CHAR_VAL_LEN_MAX,
                attr_len: 3,
                attr_value: char1_str(),
            },
            adv_params: AdvParams {
                adv_int_min: 0x20,
                adv_int_max: 0x40,
                adv_type: ADV_TYPE_IND,
                own_addr_type: BLE_ADDR_TYPE_PUBLIC,
                peer_addr: [0u8, 0, 0, 0, 0, 0],
                peer_addr_type: 0,
                channel_map: ADV_CHNL_ALL,
                adv_filter_policy: ADV_FILTER_ALLOW_SCAN_ANY_CON_ANY,
            },
            config_set_raw_adv_data,
        };
        assert(s.gl_profile_tab@ =~= initial_status(config_set_raw_adv_data).gl_profile_tab);
        assert(s.adv_data.manufacturer_data@ =~= seq![]);
        assert(s.adv_data.service_data@ =~= seq![]);
        assert(s.scan_rsp_data.manufacturer_data@ =~= seq![]);
        assert(s.scan_rsp_data.service_data@ =~= seq![]);
        assert(s.adv_params.peer_addr@ =~= initial_status(config_set_raw_adv_data).adv_params.peer_addr@);
        s
    }

    /// The server state before any event, in the configured advertising mode.
    pub fn init() -> (s: Status)
        ensures
            s@ == initial_status(CONFIG_SET_RAW_ADV_DATA),
            s@.wf(),
    {
        Self::new(CONFIG_SET_RAW_ADV_DATA)
    }

    /// Handles the buffering side of a write request: a write that needs no
    /// answer changes nothing; a plain write is answered with success; a
    /// prepared write gets a buffer on first use, is checked against the
    /// buffer's bounds once one exists, is answered with that status and an
    /// echo of its value, and on success lands in the buffer at its offset.
    pub fn example_write_event_env(
        gatts_if: u8,
        prepare_write_env: &mut PrepareTypeEnv,
        write: &WriteParam,
    ) -> (actions: Vec<Action>)
        requires
            old(prepare_write_env)@.wf(),
            write.wf(),
            write_admissible(old(prepare_write_env)@, *write),
        ensures
            final(prepare_write_env)@.wf(),
            (final(prepare_write_env)@, actions_view(actions@)) == write_event_env_step(
                old(prepare_write_env)@,
                gatts_if,
                *write,
            ),
    {
        let ghost env0 = prepare_write_env@;
        let mut actions: Vec<Action> = Vec::new();
        let mut status = ESP_GATT_OK;
        if write.need_rsp {
            if write.is_prep {
                if prepare_write_env.prepare_buf.is_none() {
                    let buf: Vec<u8> = vec![0u8; 1024];
                    assert(buf@ =~= prepare_buffer(env0));
                    prepare_write_env.prepare_buf = Some(buf);
                    prepare_write_env.prepare_len = 0;
                } else {
                    if write.offset > PREPARE_BUF_MAX_SIZE {
                        status = ESP_GATT_INVALID_OFFSET;
                    } else if write.offset + write.len > PREPARE_BUF_MAX_SIZE {
                        status = ESP_GATT_INVALID_ATTR_LEN;
                    }
                }
                assert(status == prepare_write_status(env0, *write));
                let value = write.value.clone();
                assert(value@ =~= write.value@);
                push_action(
                    &mut actions,
                    Action::SendResponse {
                        gatts_if,
                        conn_id: write.conn_id,
                        trans_id: write.trans_id,
                        status,
                        rsp: Some(
                            GattRsp {
                                handle: write.handle,
                                offset: write.offset,
                                len: write.len,
                                auth_req: ESP_GATT_AUTH_REQ_NONE,
                                value,
                            },
                        ),
                    },
                );
                if status != ESP_GATT_OK {
                    assert(actions_view(actions@) =~= write_event_env_step(env0, gatts_if, *write).1);
                    return actions;
                }
                let mut buf = prepare_write_env.prepare_buf.take().unwrap();
                let ghost buf0 = buf@;
                assert(buf0 == prepare_buffer(env0));
                let offset = write.offset as usize;
                let len = write.len as usize;
                let mut i: usize = 0;
                while i < len
                    invariant
                        i <= len,
                        len == write.value@.len(),
                        offset + len <= PREPARE_BUF_MAX_SIZE,
                        buf0.len() == PREPARE_BUF_MAX_SIZE,
                        buf@.len() == PREPARE_BUF_MAX_SIZE,
                        forall|j: int|
                            0 <= j < buf@.len() ==> buf@[j] == (if offset <= j < offset + i {
                                write.value@[j - offset]
                            } else {
                                buf0[j]
                            }),
                    decreases len - i,
                {
                    buf[offset + i] = write.value[i];
                    i = i + 1;
                }
                assert(buf@ =~= write_bytes_at(buf0, offset as int, write.value@));
                prepare_write_env.prepare_buf = Some(buf);
                prepare_write_env.prepare_len = prepare_write_env.prepare_len + write.len;
            } else {
                push_action(
                    &mut actions,
                    Action::SendResponse {
                        gatts_if,
                        conn_id: write.conn_id,
                        trans_id: write.trans_id,
                        status,
                        rsp: None,
                    },
                );
            }
        }
        assert(actions_view(actions@) =~= write_event_env_step(env0, gatts_if, *write).1);
        actions
    }

    /// Handles the buffering side of an execute-write request: whether the
    /// client commits or cancels, the gathered bytes are dropped and the
    /// environment is empty again.
    pub fn example_exec_write_event_env(
        prepare_write_env: &mut PrepareTypeEnv,
        exec_write: &ExecWriteParam,
    )
        ensures
            final(prepare_write_env)@ == empty_prepare_env(),
    {
        prepare_write_env.prepare_buf = None;
        prepare_write_env.prepare_len = 0;
    }

    /// Profile A's handler. On registration it names its service, sets the
    /// device name, configures advertising (raising both pending flags) and
    /// creates its service; it answers reads with a fixed value; it starts a
    /// notification or indication on a write of 1 or 2 to its descriptor,
    /// where its property allows it, and buffers writes; it drops its
    /// prepared writes on an execute-write; it records its service,
    /// characteristic and descriptor handles as they are created and adds
    /// the characteristic and descriptor; it asks a new peer for connection
    /// parameters, and advertises again after a disconnection.
    pub fn gatts_profile_a_event_handler(&mut self, gatts_if: u8, event: &GattsEvent) -> (actions: Vec<
        Action,
    >)
        requires
            old(self)@.wf(),
            profile_admissible(ProfileHandler::ProfileA, old(self)@, *event),
        ensures
            final(self)@.wf(),
            (final(self)@, actions_view(actions@)) == profile_a_step(old(self)@, gatts_if, *event),
    {
        let ghost s0 = self@;
        let i = PROFILE_A_APP_ID as usize;
        let mut actions: Vec<Action> = Vec::new();
        match event {
            GattsEvent::Reg { .. } => {
                let mut p = self.gl_profile_tab[i];
                p.service_id.is_primary = true;
                p.service_id.id.inst_id = 0x00;
                p.service_id.id.uuid.len = ESP_UUID_LEN_16;
                p.service_id.id.uuid.uuid = UuidValue::Uuid16(GATTS_SERVICE_UUID_TEST_A);
                self.gl_profile_tab[i] = p;
                push_action(&mut actions, Action::SetDeviceName { name: test_device_name() });
                if self.config_set_raw_adv_data {
                    push_action(&mut actions, Action::ConfigAdvDataRaw { data: raw_adv_data() });
                    self.adv_config_done = self.adv_config_done | ADV_CONFIG_FLAG;
                    push_action(
                        &mut actions,
                        Action::ConfigScanRspDataRaw { data: raw_scan_rsp_data() },
                    );
                    self.adv_config_done = self.adv_config_done | SCAN_RSP_CONFIG_FLAG;
                } else {
                    push_action(
                        &mut actions,
                        Action::ConfigAdvData { adv_data: self.adv_data.duplicate() },
                    );
                    self.adv_config_done = self.adv_config_done | ADV_CONFIG_FLAG;
                    push_action(
                        &mut actions,
                        Action::ConfigAdvData { adv_data: self.scan_rsp_data.duplicate() },
                    );
                    self.adv_config_done = self.adv_config_done | SCAN_RSP_CONFIG_FLAG;
                }
                push_action(
                    &mut actions,
                    Action::CreateService {
                        gatts_if,
                        service_id: p.service_id,
                        num_handle: GATTS_NUM_HANDLE_TEST_A,
                    },
                );
                let ghost d0 = s0.adv_config_done;
                assert(d0 <= 3u8 ==> ((d0 | 1u8) | 2u8) <= 3u8) by (bit_vector);
            },
            GattsEvent::Read { conn_id, trans_id, handle } => {
                push_action(&mut actions, read_response(gatts_if, *conn_id, *trans_id, *handle));
            },
            GattsEvent::Write(write) => {
                let p = self.gl_profile_tab[i];
                let before = config_descriptor_write(
                    gatts_if,
                    write,
                    &p,
                    (self.a_property & ESP_GATT_CHAR_PROP_BIT_NOTIFY) != 0,
                    (self.a_property & ESP_GATT_CHAR_PROP_BIT_INDICATE) != 0,
                );
                append_actions(&mut actions, before);
                let after = Self::example_write_event_env(
                    gatts_if,
                    &mut self.a_prepare_write_env,
                    write,
                );
                append_actions(&mut actions, after);
            },
            GattsEvent::ExecWrite(exec_write) => {
                push_action(
                    &mut actions,
                    Action::SendResponse {
                        gatts_if,
                        conn_id: exec_write.conn_id,
                        trans_id: exec_write.trans_id,
                        status: ESP_GATT_OK,
                        rsp: None,
                    },
                );
                Self::example_exec_write_event_env(&mut self.a_prepare_write_env, exec_write);
            },
            GattsEvent::Create { service_handle, .. } => {
                let mut p = self.gl_profile_tab[i];
                p.service_handle = *service_handle;
                p.char_uuid.len = ESP_UUID_LEN_16;
                p.char_uuid.uuid = UuidValue::Uuid16(GATTS_CHAR_UUID_TEST_A);
                self.gl_profile_tab[i] = p;
                push_action(&mut actions, Action::StartService { service_handle: p.service_handle });
                self.a_property = ESP_GATT_CHAR_PROP_BIT_READ | ESP_GATT_CHAR_PROP_BIT_WRITE
                    | ESP_GATT_CHAR_PROP_BIT_NOTIFY;
                push_action(
                    &mut actions,
                    Action::AddChar {
                        service_handle: p.service_handle,
                        char_uuid: p.char_uuid,
                        perm: ESP_GATT_PERM_READ | ESP_GATT_PERM_WRITE,
                        property: self.a_property,
                        char_val: Some(self.gatts_demo_char1_val.duplicate()),
                    },
                );
            },
            GattsEvent::AddChar { attr_handle, .. } => {
                let mut p = self.gl_profile_tab[i];
                p.char_handle = *attr_handle;
                p.descr_uuid.len = ESP_UUID_LEN_16;
                p.descr_uuid.uuid = UuidValue::Uuid16(ESP_GATT_UUID_CHAR_CLIENT_CONFIG);
                self.gl_profile_tab[i] = p;
                push_action(&mut actions, Action::GetAttrValue { attr_handle: *attr_handle });
                push_action(
                    &mut actions,
                    Action::AddCharDescr {
                        service_handle: p.service_handle,
                        descr_uuid: p.descr_uuid,
                        perm: ESP_GATT_PERM_READ | ESP_GATT_PERM_WRITE,
                    },
                );
            },
            GattsEvent::AddCharDescr { attr_handle, .. } => {
                let mut p = self.gl_profile_tab[i];
                p.descr_handle = *attr_handle;
                self.gl_profile_tab[i] = p;
            },
            GattsEvent::Connect { conn_id, remote_bda } => {
                let conn_params = ConnUpdateParams {
                    bda: *remote_bda,
                    latency: 0,
                    max_int: 0x20,
                    min_int: 0x10,
                    timeout: 400,
                };
                let mut p = self.gl_profile_tab[i];
                p.conn_id = *conn_id;
                self.gl_profile_tab[i] = p;
                push_action(&mut actions, Action::UpdateConnParams { conn_params });
            },
            GattsEvent::Disconnect { .. } => {
                push_action(&mut actions, Action::StartAdvertising { adv_params: self.adv_params });
            },
            GattsEvent::Other { .. } => {},
        }
        proof {
            assert(self@.gl_profile_tab =~= profile_a_step(s0, gatts_if, *event).0.gl_profile_tab);
            assert(actions_view(actions@) =~= profile_a_step(s0, gatts_if, *event).1);
        }
        actions
    }

    /// Profile B's handler. On registration it names its service and
    /// creates it; it answers reads with a fixed value; it starts a
    /// notification or indication on a write of 1 or 2 to its descriptor
    /// whenever its property byte is not zero, and buffers writes; it drops
    /// its prepared writes on an execute-write; it records its service,
    /// characteristic and descriptor handles as they are created and adds
    /// the characteristic (with no initial value) and descriptor; it records
    /// the connection of a peer.
    pub fn gatts_profile_b_event_handler(&mut self, gatts_if: u8, event: &GattsEvent) -> (actions: Vec<
        Action,
    >)
        requires
            old(self)@.wf(),
            profile_admissible(ProfileHandler::ProfileB, old(self)@, *event),
        ensures
            final(self)@.wf(),
            (final(self)@, actions_view(actions@)) == profile_b_step(old(self)@, gatts_if, *event),
    {
        let ghost s0 = self@;
        let i = PROFILE_B_APP_ID as usize;
        let mut actions: Vec<Action> = Vec::new();
        match event {
            GattsEvent::Reg { .. } => {
                let mut p = self.gl_profile_tab[i];
                p.service_id.is_primary = true;
                p.service_id.id.inst_id = 0x00;
                p.service_id.id.uuid.len = ESP_UUID_LEN_16;
                p.service_id.id.uuid.uuid = UuidValue::Uuid16(GATTS_SERVICE_UUID_TEST_B);
                self.gl_profile_tab[i] = p;
                push_action(
                    &mut actions,
                    Action::CreateService {
                        gatts_if,
                        service_id: p.service_id,
                        num_handle: GATTS_NUM_HANDLE_TEST_B,
                    },
                );
            },
            GattsEvent::Read { conn_id, trans_id, handle } => {
                push_action(&mut actions, read_response(gatts_if, *conn_id, *trans_id, *handle));
            },
            GattsEvent::Write(write) => {
                let p = self.gl_profile_tab[i];
                assert(0u8 & ESP_GATT_CHAR_PROP_BIT_NOTIFY == 0u8) by (bit_vector);
                assert(0u8 & ESP_GATT_CHAR_PROP_BIT_INDICATE == 0u8) by (bit_vector);
                let before = config_descriptor_write(
                    gatts_if,
                    write,
                    &p,
                    self.b_property != 0 & ESP_GATT_CHAR_PROP_BIT_NOTIFY,
                    self.b_property != 0 & ESP_GATT_CHAR_PROP_BIT_INDICATE,
                );
                append_actions(&mut actions, before);
                let after = Self::example_write_event_env(
                    gatts_if,
                    &mut self.b_prepare_write_env,
                    write,
                );
                append_actions(&mut actions, after);
            },
            GattsEvent::ExecWrite(exec_write) => {
                push_action(
                    &mut actions,
                    Action::SendResponse {
                        gatts_if,
                        conn_id: exec_write.conn_id,
                        trans_id: exec_write.trans_id,
                        status: ESP_GATT_OK,
                        rsp: None,
                    },
                );
                Self::example_exec_write_event_env(&mut self.b_prepare_write_env, exec_write);
            },
            GattsEvent::Create { service_handle, .. } => {
                let mut p = self.gl_profile_tab[i];
                p.service_handle = *service_handle;
                p.char_uuid.len = ESP_UUID_LEN_16;
                p.char_uuid.uuid = UuidValue::Uuid16(GATTS_CHAR_UUID_TEST_B);
                self.gl_profile_tab[i] = p;
                push_action(&mut actions, Action::StartService { service_handle: p.service_handle });
                self.b_property = ESP_GATT_CHAR_PROP_BIT_READ | ESP_GATT_CHAR_PROP_BIT_WRITE
                    | ESP_GATT_CHAR_PROP_BIT_NOTIFY;
                push_action(
                    &mut actions,
                    Action::AddChar {
                        service_handle: p.service_handle,
                        char_uuid: p.char_uuid,
                        perm: ESP_GATT_PERM_READ | ESP_GATT_PERM_WRITE,
                        property: self.b_property,
                        char_val: None,
                    },
                );
            },
            GattsEvent::AddChar { attr_handle, .. } => {
                let mut p = self.gl_profile_tab[i];
                p.char_handle = *attr_handle;
                p.descr_uuid.len = ESP_UUID_LEN_16;
                p.descr_uuid.uuid = UuidValue::Uuid16(ESP_GATT_UUID_CHAR_CLIENT_CONFIG);
                self.gl_profile_tab[i] = p;
                push_action(
                    &mut actions,
                    Action::AddCharDescr {
                        service_handle: p.service_handle,
                        descr_uuid: p.descr_uuid,
                        perm: ESP_GATT_PERM_READ | ESP_GATT_PERM_WRITE,
                    },
                );
            },
            GattsEvent::AddCharDescr { attr_handle, .. } => {
                let mut p = self.gl_profile_tab[i];
                p.descr_handle = *attr_handle;
                self.gl_profile_tab[i] = p;
            },
            GattsEvent::Connect { conn_id, .. } => {
                let mut p = self.gl_profile_tab[i];
                p.conn_id = *conn_id;
                self.gl_profile_tab[i] = p;
            },
            GattsEvent::Disconnect { .. } => {},
            GattsEvent::Other { .. } => {},
        }
        proof {
            assert(self@.gl_profile_tab =~= profile_b_step(s0, gatts_if, *event).0.gl_profile_tab);
            assert(actions_view(actions@) =~= profile_b_step(s0, gatts_if, *event).1);
        }
        actions
    }

    /// Hands an event to profile `idx` if the event is meant for it and the
    /// profile has a handler.
    fn dispatch_one(&mut self, idx: usize, gatts_if: u8, event: &GattsEvent) -> (actions: Vec<Action>)
        requires
            idx < PROFILE_NUM,
            old(self)@.wf(),
            event_targets(old(self)@, idx as int, gatts_if) ==> profile_admissible(
                old(self)@.profile(idx as int).gatts_cb->0,
                old(self)@,
                *event,
            ),
        ensures
            final(self)@.wf(),
            (final(self)@, actions_view(actions@)) == dispatch_one_step(
                old(self)@,
                idx as int,
                gatts_if,
                *event,
            ),
    {
        let p = self.gl_profile_tab[idx];
        if gatts_if as u32 == ESP_GATT_IF_NONE || gatts_if as u16 == p.gatts_if {
            match p.gatts_cb {
                Some(ProfileHandler::ProfileA) => {
                    return self.gatts_profile_a_event_handler(gatts_if, event);
                },
                Some(ProfileHandler::ProfileB) => {
                    return self.gatts_profile_b_event_handler(gatts_if, event);
                },
                None => {},
            }
        }
        let actions: Vec<Action> = Vec::new();
        assert(actions_view(actions@) =~= seq![]);
        actions
    }

    /// The server's GATT event handler. A registration that failed is
    /// dropped; one that succeeded stores the assigned interface in the
    /// registering profile's entry. Then each profile, in table order,
    /// handles the event if it comes on that profile's interface or on
    /// `ESP_GATT_IF_NONE`.
    pub fn gatts_event_handler(&mut self, gatts_if: u8, event: &GattsEvent) -> (actions: Vec<Action>)
        requires
            old(self)@.wf(),
            gatts_event_admissible(old(self)@, gatts_if, *event),
        ensures
            final(self)@.wf(),
            (final(self)@, actions_view(actions@)) == gatts_event_step(old(self)@, gatts_if, *event),
    {
        let ghost s0 = self@;
        if let GattsEvent::Reg { status, app_id } = event {
            if *status == ESP_GATT_OK {
                let idx = *app_id as usize;
                let mut p = self.gl_profile_tab[idx];
                p.gatts_if = gatts_if as u16;
                self.gl_profile_tab[idx] = p;
            } else {
                let actions: Vec<Action> = Vec::new();
                assert(actions_view(actions@) =~= seq![]);
                return actions;
            }
        }
        let ghost s1 = self@;
        assert(s1.gl_profile_tab =~= after_registration(s0, gatts_if, *event).gl_profile_tab);
        assert(s1 == after_registration(s0, gatts_if, *event));
        let mut actions: Vec<Action> = Vec::new();
        let mut idx: usize = 0;
        proof {
            assert(actions_view(actions@) + dispatch_from(s1, gatts_if, *event, 0).1 =~= dispatch_from(
                s1,
                gatts_if,
                *event,
                0,
            ).1);
        }
        while idx < PROFILE_NUM as usize
            invariant
                idx <= PROFILE_NUM,
                self@.wf(),
                s1.wf(),
                event.wf(),
                dispatch_from(s1, gatts_if, *event, 0) == (
                    dispatch_from(self@, gatts_if, *event, idx as nat).0,
                    actions_view(actions@) + dispatch_from(self@, gatts_if, *event, idx as nat).1,
                ),
                idx == 0 ==> self@ == s1,
                idx <= 1 ==> self@.profile(PROFILE_B_APP_ID as int) == s1.profile(
                    PROFILE_B_APP_ID as int,
                ),
                idx <= 1 ==> self@.b_prepare_write_env == s1.b_prepare_write_env,
                event_targets(s1, PROFILE_A_APP_ID as int, gatts_if) ==> profile_admissible(
                    ProfileHandler::ProfileA,
                    s1,
                    *event,
                ),
                event_targets(s1, PROFILE_B_APP_ID as int, gatts_if) ==> profile_admissible(
                    ProfileHandler::ProfileB,
                    s1,
                    *event,
                ),
            decreases PROFILE_NUM - idx,
        {
            let ghost before = self@;
            let ghost acts_before = actions_view(actions@);
            let more = self.dispatch_one(idx, gatts_if, event);
            let ghost more_view = actions_view(more@);
            append_actions(&mut actions, more);
            proof {
                if idx == 0 {
                    lemma_profile_a_leaves_profile_b_alone(before, gatts_if, *event);
                }
                let rest = dispatch_from(self@, gatts_if, *event, (idx + 1) as nat);
                assert(acts_before + (more_view + rest.1) =~= (acts_before + more_view) + rest.1);
            }
            idx = idx + 1;
        }
        proof {
            assert(actions_view(actions@) + seq![] =~= actions_view(actions@));
        }
        actions
    }

    /// Clears a pending configuration flag and starts advertising once no
    /// flag is pending.
    fn clear_config_flag(&mut self, flag: u8) -> (actions: Vec<Action>)
        requires
            old(self)@.wf(),
        ensures
            final(self)@.wf(),
            (final(self)@, actions_view(actions@)) == clear_config_flag(old(self)@, flag),
    {
        let ghost d0 = self.adv_config_done;
        self.adv_config_done = self.adv_config_done & !flag;
        assert(d0 <= 3u8 ==> d0 & !flag <= 3u8) by (bit_vector);
        let mut actions: Vec<Action> = Vec::new();
        if self.adv_config_done == 0 {
            push_action(&mut actions, Action::StartAdvertising { adv_params: self.adv_params });
        }
        assert(actions_view(actions@) =~= clear_config_flag(old(self)@, flag).1);
        actions
    }

    /// The server's GAP event handler: the completion of an advertising or
    /// scan response configuration of the kind in use clears its pending
    /// flag, and advertising starts once neither is pending.
    pub fn gap_event_handler(&mut self, event: GapEvent) -> (actions: Vec<Action>)
        requires
            old(self)@.wf(),
        ensures
            final(self)@.wf(),
            (final(self)@, actions_view(actions@)) == gap_event_step(old(self)@, event),
    {
        match event {
            GapEvent::AdvDataRawSetComplete => {
                if self.config_set_raw_adv_data {
                    return self.clear_config_flag(ADV_CONFIG_FLAG);
                }
            },
            GapEvent::ScanRspDataRawSetComplete => {
                if self.config_set_raw_adv_data {
                    return self.clear_config_flag(SCAN_RSP_CONFIG_FLAG);
                }
            },
            GapEvent::AdvDataSetComplete => {
                if !self.config_set_raw_adv_data {
                    return self.clear_config_flag(ADV_CONFIG_FLAG);
                }
            },
            GapEvent::ScanRspDataSetComplete => {
                if !self.config_set_raw_adv_data {
                    return self.clear_config_flag(SCAN_RSP_CONFIG_FLAG);
                }
            },
            GapEvent::Other { .. } => {},
        }
        let actions: Vec<Action> = Vec::new();
        assert(actions_view(actions@) =~= seq![]);
        actions
    }

    /// Whether the server can take this GATT event: see
    /// `gatts_event_admissible`. A caller that holds events from the stack
    /// tests this before handing one over.
    pub fn gatts_event_is_admissible(&self, gatts_if: u8, event: &GattsEvent) -> (ok: bool)
        ensures
            ok == gatts_event_admissible(self@, gatts_if, *event),
    {
        match event {
            GattsEvent::Reg { status, app_id } => *status != ESP_GATT_OK || (*app_id as u32)
                < PROFILE_NUM,
            GattsEvent::Write(write) => {
                if write.value.len() != write.len as usize {
                    return false;
                }
                let a = self.gl_profile_tab[PROFILE_A_APP_ID as usize];
                let b = self.gl_profile_tab[PROFILE_B_APP_ID as usize];
                let to_a = gatts_if as u32 == ESP_GATT_IF_NONE || gatts_if as u16 == a.gatts_if;
                let to_b = gatts_if as u32 == ESP_GATT_IF_NONE || gatts_if as u16 == b.gatts_if;
                (!to_a || write_is_admissible(&self.a_prepare_write_env, write)) && (!to_b
                    || write_is_admissible(&self.b_prepare_write_env, write))
            },
            _ => true,
        }
    }
}

} // verus!
