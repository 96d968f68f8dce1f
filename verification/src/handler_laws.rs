//! What each handler does with each kind of event, stated with the
//! protocol's values and the fields of the event.

use vstd::prelude::*;
use crate::action::ActionView;
use crate::ble_types::{ConnUpdateParams, GattRspView};
use crate::event::{ExecWriteParam, GapEvent, GattsEvent, WriteParam};
use crate::gatts_profile_inst::{BtUuid, GattId, GattSrvcId, GattsProfileInst, ProfileHandler, UuidValue};
use crate::ble_types::AdvParams;
use crate::laws::{lemma_dispatch_is_two_steps, lemma_profile_a_leaves_profile_b_alone};
use crate::model::{
    after_registration, gap_event_step, gatts_event_admissible, gatts_event_step, initial_status,
    profile_a_step, profile_b_step, write_admissible, write_event_env_step, StatusView,
};
use crate::prepare_type_env::PrepareEnvView;

verus! {

/// The answer to a read: success, and the four bytes de ed be ef of the
/// handle read, from offset 0.
pub open spec fn expected_read_answer(gatts_if: u8, conn_id: u16, trans_id: u32, handle: u16) -> ActionView {
    ActionView::SendResponse {
        gatts_if,
        conn_id,
        trans_id,
        status: 0,
        rsp: Some(
            GattRspView {
                handle,
                offset: 0,
                len: 4,
                auth_req: 0,
                value: seq![0xdeu8, 0xed, 0xbe, 0xef],
            },
        ),
    }
}

/// Every read request that reaches profile A is answered on the request's
/// interface, connection and transaction with the fixed value; nothing else
/// changes.
pub proof fn law_profile_a_read(s: StatusView, gatts_if: u8, conn_id: u16, trans_id: u32, handle: u16)
    ensures
        profile_a_step(s, gatts_if, GattsEvent::Read { conn_id, trans_id, handle }) == (
            s,
            seq![expected_read_answer(gatts_if, conn_id, trans_id, handle)],
        ),
{
}

/// Every read request that reaches profile B is answered on the request's
/// interface, connection and transaction with the fixed value; nothing else
/// changes.
pub proof fn law_profile_b_read(s: StatusView, gatts_if: u8, conn_id: u16, trans_id: u32, handle: u16)
    ensures
        profile_b_step(s, gatts_if, GattsEvent::Read { conn_id, trans_id, handle }) == (
            s,
            seq![expected_read_answer(gatts_if, conn_id, trans_id, handle)],
        ),
{
}

/// The answer to an execute-write request: success, with no value.
pub open spec fn expected_exec_write_answer(gatts_if: u8, x: ExecWriteParam) -> ActionView {
    ActionView::SendResponse {
        gatts_if,
        conn_id: x.conn_id,
        trans_id: x.trans_id,
        status: 0,
        rsp: None,
    }
}

/// An execute-write request that reaches profile A is answered on its
/// interface, connection and transaction with success, and profile A's
/// prepare environment is left with no buffer and no bytes; nothing else
/// changes.
pub proof fn law_profile_a_exec_write(s: StatusView, gatts_if: u8, x: ExecWriteParam)
    ensures
        profile_a_step(s, gatts_if, GattsEvent::ExecWrite(x)) == (
            StatusView {
                a_prepare_write_env: PrepareEnvView { prepare_buf: None, prepare_len: 0 },
                ..s
            },
            seq![expected_exec_write_answer(gatts_if, x)],
        ),
{
}

/// An execute-write request that reaches profile B is answered on its
/// interface, connection and transaction with success, and profile B's
/// prepare environment is left with no buffer and no bytes; nothing else
/// changes.
pub proof fn law_profile_b_exec_write(s: StatusView, gatts_if: u8, x: ExecWriteParam)
    ensures
        profile_b_step(s, gatts_if, GattsEvent::ExecWrite(x)) == (
            StatusView {
                b_prepare_write_env: PrepareEnvView { prepare_buf: None, prepare_len: 0 },
                ..s
            },
            seq![expected_exec_write_answer(gatts_if, x)],
        ),
{
}

/// The status a prepared write is answered with: any fragment is taken
/// while no buffer exists; once one exists, an offset past its 1024 bytes
/// is an invalid offset (0x07), a fragment running past its end an invalid
/// length (0x0d), and anything else success.
pub open spec fn expected_prepare_status(env: PrepareEnvView, w: WriteParam) -> u32 {
    if env.prepare_buf is None {
        0
    } else if w.offset > 1024 {
        0x07
    } else if w.offset + w.len > 1024 {
        0x0d
    } else {
        0
    }
}

/// The answer to a write: a write that needs no answer gets none and
/// changes nothing; otherwise exactly one response goes out, on the
/// request's interface, connection and transaction. A plain write is
/// answered with success and no value and changes nothing; a prepared write
/// is answered with its status and an echo of its handle, offset, length
/// and bytes.
pub proof fn law_write_answer(env: PrepareEnvView, gatts_if: u8, w: WriteParam)
    ensures
        !w.need_rsp ==> write_event_env_step(env, gatts_if, w) == (env, Seq::<ActionView>::empty()),
        w.need_rsp && !w.is_prep ==> write_event_env_step(env, gatts_if, w) == (
            env,
            seq![
                ActionView::SendResponse {
                    gatts_if,
                    conn_id: w.conn_id,
                    trans_id: w.trans_id,
                    status: 0,
                    rsp: None,
                },
            ],
        ),
        w.need_rsp && w.is_prep ==> write_event_env_step(env, gatts_if, w).1 == seq![
            ActionView::SendResponse {
                gatts_if,
                conn_id: w.conn_id,
                trans_id: w.trans_id,
                status: expected_prepare_status(env, w),
                rsp: Some(
                    GattRspView {
                        handle: w.handle,
                        offset: w.offset,
                        len: w.len,
                        auth_req: 0,
                        value: w.value@,
                    },
                ),
            },
        ],
{
}

/// Where a prepared write's bytes go. The first fragment gets a fresh
/// 1024-byte buffer, zero but for the fragment at its offset, and starts
/// the count at its length. A later fragment within the buffer overwrites
/// its range, keeps every other byte, and adds its length to the count. A
/// refused fragment changes nothing.
pub proof fn law_prepared_write_buffer(env: PrepareEnvView, gatts_if: u8, w: WriteParam)
    requires
        env.wf(),
        w.wf(),
        w.need_rsp,
        w.is_prep,
        write_admissible(env, w),
    ensures
        ({
            let env2 = write_event_env_step(env, gatts_if, w).0;
            &&& env.prepare_buf is None ==> {
                &&& env2.prepare_buf is Some
                &&& env2.prepare_buf->0.len() == 1024
                &&& forall|i: int|
                    0 <= i < 1024 ==> env2.prepare_buf->0[i] == (if w.offset <= i < w.offset + w.len {
                        w.value@[i - w.offset]
                    } else {
                        0u8
                    })
                &&& env2.prepare_len == w.len
            }
            &&& (env.prepare_buf is Some && w.offset + w.len <= 1024) ==> {
                &&& env2.prepare_buf is Some
                &&& env2.prepare_buf->0.len() == 1024
                &&& forall|i: int|
                    0 <= i < 1024 ==> env2.prepare_buf->0[i] == (if w.offset <= i < w.offset + w.len {
                        w.value@[i - w.offset]
                    } else {
                        env.prepare_buf->0[i]
                    })
                &&& env2.prepare_len == env.prepare_len + w.len
            }
            &&& (env.prepare_buf is Some && w.offset + w.len > 1024) ==> env2 == env
        }),
{
}

/// The value that a notification or an indication carries: 0, 1, ..., 14.
pub open spec fn expected_payload() -> Seq<u8> {
    seq![0u8, 1, 2, 3, 4, 5, 6, 7, 8, 9, 10, 11, 12, 13, 14]
}

/// A direct (not prepared) two-byte write of `value` to the descriptor
/// whose handle is `descr_handle`.
pub open spec fn config_write(w: WriteParam, descr_handle: u16, value: u8) -> bool {
    &&& !w.is_prep
    &&& w.handle == descr_handle
    &&& w.len == 2
    &&& w.value@[0] == value
    &&& w.value@[1] == 0
}

/// A write reaching profile A: a direct write of 0x0001 to its descriptor
/// sends a notification (of the 15-byte payload, on the characteristic's
/// handle, on the writer's connection) when the characteristic has the
/// notify property (0x10), and a write of 0x0002 an indication when it has
/// the indicate property (0x20) - whether or not the write wants an answer;
/// after that comes the answer to the write, and the write goes through
/// profile A's prepare environment; nothing else changes.
pub proof fn law_profile_a_write(s: StatusView, gatts_if: u8, w: WriteParam)
    requires
        w.wf(),
    ensures
        ({
            let p = s.gl_profile_tab[0];
            let notify = config_write(w, p.descr_handle, 1) && (s.a_property & 0x10u8) != 0;
            let indicate = config_write(w, p.descr_handle, 2) && (s.a_property & 0x20u8) != 0;
            let head = if notify {
                seq![ActionView::SendIndicate { gatts_if, conn_id: w.conn_id, attr_handle: p.char_handle, value: expected_payload(), need_confirm: false }]
            } else if indicate {
                seq![ActionView::SendIndicate { gatts_if, conn_id: w.conn_id, attr_handle: p.char_handle, value: expected_payload(), need_confirm: true }]
            } else {
                Seq::<ActionView>::empty()
            };
            let (env2, answer) = write_event_env_step(s.a_prepare_write_env, gatts_if, w);
            profile_a_step(s, gatts_if, GattsEvent::Write(w)) == (
                StatusView { a_prepare_write_env: env2, ..s },
                head + answer,
            )
        }),
{
    assert(crate::model::indicate_payload() =~= expected_payload());
}

/// A write reaching profile B: a direct write of 0x0001 to its descriptor
/// sends a notification, and one of 0x0002 an indication (of the 15-byte
/// payload, on the characteristic's handle, on the writer's connection),
/// whenever profile B's property byte is not zero - whether or not the
/// write wants an answer; after that comes the answer to the write, and the
/// write goes through profile B's prepare environment; nothing else changes.
pub proof fn law_profile_b_write(s: StatusView, gatts_if: u8, w: WriteParam)
    requires
        w.wf(),
    ensures
        ({
            let p = s.gl_profile_tab[1];
            let notify = config_write(w, p.descr_handle, 1) && s.b_property != 0;
            let indicate = config_write(w, p.descr_handle, 2) && s.b_property != 0;
            let head = if notify {
                seq![ActionView::SendIndicate { gatts_if, conn_id: w.conn_id, attr_handle: p.char_handle, value: expected_payload(), need_confirm: false }]
            } else if indicate {
                seq![ActionView::SendIndicate { gatts_if, conn_id: w.conn_id, attr_handle: p.char_handle, value: expected_payload(), need_confirm: true }]
            } else {
                Seq::<ActionView>::empty()
            };
            let (env2, answer) = write_event_env_step(s.b_prepare_write_env, gatts_if, w);
            profile_b_step(s, gatts_if, GattsEvent::Write(w)) == (
                StatusView { b_prepare_write_env: env2, ..s },
                head + answer,
            )
        }),
{
    assert(crate::model::indicate_payload() =~= expected_payload());
}

/// A 16-bit UUID.
pub open spec fn uuid16(value: u16) -> BtUuid {
    BtUuid { len: 2, uuid: UuidValue::Uuid16(value) }
}

/// A primary service with a 16-bit UUID, instance 0.
pub open spec fn primary_service(value: u16) -> GattSrvcId {
    GattSrvcId { id: GattId { uuid: uuid16(value), inst_id: 0 }, is_primary: true }
}

/// The state with profile `i`'s entry replaced by `p`.
pub open spec fn with_entry(s: StatusView, i: int, p: GattsProfileInst) -> StatusView {
    StatusView { gl_profile_tab: s.gl_profile_tab.update(i, p), ..s }
}

/// "ESP_GATTS_DEMO".
pub open spec fn expected_device_name() -> Seq<u8> {
    seq![0x45u8, 0x53, 0x50, 0x5f, 0x47, 0x41, 0x54, 0x54, 0x53, 0x5f, 0x44, 0x45, 0x4d, 0x4f]
}

/// Profile A's registration names its service (primary, UUID 0x00FF,
/// instance 0), sets the device name "ESP_GATTS_DEMO", asks for the raw
/// advertising and scan response payloads or for the server's structured
/// advertising and scan response data (by the server's mode), marks both
/// configurations pending (bits 0 and 1), and creates its service with 4
/// handles on the interface the event came on.
pub proof fn law_profile_a_registration(s: StatusView, gatts_if: u8, status: u32, app_id: u16)
    ensures
        ({
            let p = s.gl_profile_tab[0];
            let sid = primary_service(0x00FF);
            let config = if s.config_set_raw_adv_data {
                seq![
                    ActionView::ConfigAdvDataRaw { data: seq![0x02u8, 0x01, 0x06, 0x02, 0x0a, 0xeb, 0x03, 0x03, 0xab, 0xcd] },
                    ActionView::ConfigScanRspDataRaw { data: seq![0x0fu8, 0x09] + expected_device_name() },
                ]
            } else {
                seq![
                    ActionView::ConfigAdvData { adv_data: s.adv_data },
                    ActionView::ConfigAdvData { adv_data: s.scan_rsp_data },
                ]
            };
            profile_a_step(s, gatts_if, GattsEvent::Reg { status, app_id }) == (
                StatusView {
                    adv_config_done: s.adv_config_done | 3u8,
                    ..with_entry(s, 0, GattsProfileInst { service_id: sid, ..p })
                },
                seq![ActionView::SetDeviceName { name: expected_device_name() }] + config + seq![
                    ActionView::CreateService { gatts_if, service_id: sid, num_handle: 4 },
                ],
            )
        }),
{
    let d = s.adv_config_done;
    assert((d | 1u8) | 2u8 == d | 3u8) by (bit_vector);
    assert(crate::consts::spec_raw_scan_rsp_data() =~= seq![0x0fu8, 0x09] + expected_device_name());
}

/// Profile B's registration names its service (primary, UUID 0x00EE,
/// instance 0) and creates it with 4 handles on the interface the event
/// came on; nothing else changes.
pub proof fn law_profile_b_registration(s: StatusView, gatts_if: u8, status: u32, app_id: u16)
    ensures
        ({
            let p = s.gl_profile_tab[1];
            let sid = primary_service(0x00EE);
            profile_b_step(s, gatts_if, GattsEvent::Reg { status, app_id }) == (
                with_entry(s, 1, GattsProfileInst { service_id: sid, ..p }),
                seq![ActionView::CreateService { gatts_if, service_id: sid, num_handle: 4 }],
            )
        }),
{
}

/// When its service is created, profile A records the service handle,
/// starts the service, and adds its characteristic (UUID 0xFF01) to it with
/// read and write permission (0x11), the properties read, write and notify
/// (0x1a), which it also records, and the server's initial value.
pub proof fn law_profile_a_create(s: StatusView, gatts_if: u8, status: u32, service_handle: u16)
    ensures
        ({
            let p = s.gl_profile_tab[0];
            profile_a_step(s, gatts_if, GattsEvent::Create { status, service_handle }) == (
                StatusView {
                    a_property: 0x1a,
                    ..with_entry(s, 0, GattsProfileInst { service_handle, char_uuid: uuid16(0xFF01), ..p })
                },
                seq![
                    ActionView::StartService { service_handle },
                    ActionView::AddChar {
                        service_handle,
                        char_uuid: uuid16(0xFF01),
                        perm: 0x11,
                        property: 0x1a,
                        char_val: Some(s.gatts_demo_char1_val),
                    },
                ],
            )
        }),
{
    assert(0x02u8 | 0x08u8 | 0x10u8 == 0x1au8) by (bit_vector);
    assert(0x0001u16 | 0x0010u16 == 0x11u16) by (bit_vector);
}

/// When its service is created, profile B records the service handle,
/// starts the service, and adds its characteristic (UUID 0xEE01) to it with
/// read and write permission (0x11), the properties read, write and notify
/// (0x1a), which it also records, and no initial value.
pub proof fn law_profile_b_create(s: StatusView, gatts_if: u8, status: u32, service_handle: u16)
    ensures
        ({
            let p = s.gl_profile_tab[1];
            profile_b_step(s, gatts_if, GattsEvent::Create { status, service_handle }) == (
                StatusView {
                    b_property: 0x1a,
                    ..with_entry(s, 1, GattsProfileInst { service_handle, char_uuid: uuid16(0xEE01), ..p })
                },
                seq![
                    ActionView::StartService { service_handle },
                    ActionView::AddChar {
                        service_handle,
                        char_uuid: uuid16(0xEE01),
                        perm: 0x11,
                        property: 0x1a,
                        char_val: None,
                    },
                ],
            )
        }),
{
    assert(0x02u8 | 0x08u8 | 0x10u8 == 0x1au8) by (bit_vector);
    assert(0x0001u16 | 0x0010u16 == 0x11u16) by (bit_vector);
}

/// When its characteristic is added, profile A records its handle, reads
/// its value back, and adds a client configuration descriptor (UUID 0x2902)
/// with read and write permission to the service it recorded.
pub proof fn law_profile_a_add_char(s: StatusView, gatts_if: u8, status: u32, attr_handle: u16, service_handle: u16)
    ensures
        ({
            let p = s.gl_profile_tab[0];
            profile_a_step(s, gatts_if, GattsEvent::AddChar { status, attr_handle, service_handle }) == (
                with_entry(s, 0, GattsProfileInst { char_handle: attr_handle, descr_uuid: uuid16(0x2902), ..p }),
                seq![
                    ActionView::GetAttrValue { attr_handle },
                    ActionView::AddCharDescr { service_handle: p.service_handle, descr_uuid: uuid16(0x2902), perm: 0x11 },
                ],
            )
        }),
{
    assert(0x0001u16 | 0x0010u16 == 0x11u16) by (bit_vector);
}

/// When its characteristic is added, profile B records its handle and adds
/// a client configuration descriptor (UUID 0x2902) with read and write
/// permission to the service it recorded.
pub proof fn law_profile_b_add_char(s: StatusView, gatts_if: u8, status: u32, attr_handle: u16, service_handle: u16)
    ensures
        ({
            let p = s.gl_profile_tab[1];
            profile_b_step(s, gatts_if, GattsEvent::AddChar { status, attr_handle, service_handle }) == (
                with_entry(s, 1, GattsProfileInst { char_handle: attr_handle, descr_uuid: uuid16(0x2902), ..p }),
                seq![ActionView::AddCharDescr { service_handle: p.service_handle, descr_uuid: uuid16(0x2902), perm: 0x11 }],
            )
        }),
{
    assert(0x0001u16 | 0x0010u16 == 0x11u16) by (bit_vector);
}

/// When its descriptor is added, each profile records its handle and asks
/// for nothing.
pub proof fn law_add_char_descr(s: StatusView, gatts_if: u8, status: u32, attr_handle: u16, service_handle: u16)
    ensures
        profile_a_step(s, gatts_if, GattsEvent::AddCharDescr { status, attr_handle, service_handle }) == (
            with_entry(s, 0, GattsProfileInst { descr_handle: attr_handle, ..s.gl_profile_tab[0] }),
            Seq::<ActionView>::empty(),
        ),
        profile_b_step(s, gatts_if, GattsEvent::AddCharDescr { status, attr_handle, service_handle }) == (
            with_entry(s, 1, GattsProfileInst { descr_handle: attr_handle, ..s.gl_profile_tab[1] }),
            Seq::<ActionView>::empty(),
        ),
{
}

/// On a connection, each profile records the connection; profile A also
/// asks the peer, by its address, for a connection interval of 0x10 to 0x20
/// units, latency 0 and a timeout of 400 units.
pub proof fn law_connect(s: StatusView, gatts_if: u8, conn_id: u16, remote_bda: [u8; 6])
    ensures
        profile_a_step(s, gatts_if, GattsEvent::Connect { conn_id, remote_bda }) == (
            with_entry(s, 0, GattsProfileInst { conn_id, ..s.gl_profile_tab[0] }),
            seq![
                ActionView::UpdateConnParams {
                    conn_params: ConnUpdateParams { bda: remote_bda, min_int: 0x10, max_int: 0x20, latency: 0, timeout: 400 },
                },
            ],
        ),
        profile_b_step(s, gatts_if, GattsEvent::Connect { conn_id, remote_bda }) == (
            with_entry(s, 1, GattsProfileInst { conn_id, ..s.gl_profile_tab[1] }),
            Seq::<ActionView>::empty(),
        ),
{
}

/// On a disconnection profile A starts advertising again with the server's
/// parameters and profile B does nothing; other events change nothing and
/// ask for nothing.
pub proof fn law_disconnect_and_other(s: StatusView, gatts_if: u8, reason: u32, event: u32)
    ensures
        profile_a_step(s, gatts_if, GattsEvent::Disconnect { reason }) == (
            s,
            seq![ActionView::StartAdvertising { adv_params: s.adv_params }],
        ),
        profile_b_step(s, gatts_if, GattsEvent::Disconnect { reason }) == (s, Seq::<ActionView>::empty()),
        profile_a_step(s, gatts_if, GattsEvent::Other { event }) == (s, Seq::<ActionView>::empty()),
        profile_b_step(s, gatts_if, GattsEvent::Other { event }) == (s, Seq::<ActionView>::empty()),
{
}

/// Profile A handles an event on `gatts_if` when it comes on 0xff (no
/// profile in particular) or on A's interface; then profile B, as A left
/// the state, when it comes on 0xff or on B's interface.
pub open spec fn routed(s: StatusView, gatts_if: u8, e: GattsEvent) -> (StatusView, Seq<ActionView>) {
    let to_a = gatts_if == 0xff || gatts_if as u16 == s.gl_profile_tab[0].gatts_if;
    let (s1, a1) = if to_a {
        profile_a_step(s, gatts_if, e)
    } else {
        (s, Seq::<ActionView>::empty())
    };
    let to_b = gatts_if == 0xff || gatts_if as u16 == s1.gl_profile_tab[1].gatts_if;
    let (s2, a2) = if to_b {
        profile_b_step(s1, gatts_if, e)
    } else {
        (s1, Seq::<ActionView>::empty())
    };
    (s2, a1 + a2)
}

/// The server hands an event other than a registration to the profiles it
/// is meant for: A if it comes on 0xff or A's interface, then B if it comes
/// on 0xff or B's interface.
pub proof fn law_gatts_dispatch(s: StatusView, gatts_if: u8, e: GattsEvent)
    requires
        s.wf(),
        !(e is Reg),
    ensures
        gatts_event_step(s, gatts_if, e) == routed(s, gatts_if, e),
{
    lemma_dispatch_is_two_steps(s, gatts_if, e);
    lemma_profile_a_leaves_profile_b_alone(s, gatts_if, e);
}

/// A registration that failed (status not 0) changes nothing and asks for
/// nothing. One that succeeded stores the interface in the registering
/// profile's entry, and then goes to the profiles like any event.
pub proof fn law_gatts_registration(s: StatusView, gatts_if: u8, status: u32, app_id: u16)
    requires
        s.wf(),
        app_id < 2,
    ensures
        status != 0 ==> gatts_event_step(s, gatts_if, GattsEvent::Reg { status, app_id }) == (
            s,
            Seq::<ActionView>::empty(),
        ),
        status == 0 ==> gatts_event_step(s, gatts_if, GattsEvent::Reg { status, app_id }) == routed(
            with_entry(
                s,
                app_id as int,
                GattsProfileInst { gatts_if: gatts_if as u16, ..s.gl_profile_tab[app_id as int] },
            ),
            gatts_if,
            GattsEvent::Reg { status, app_id },
        ),
{
    let e = GattsEvent::Reg { status, app_id };
    if status == 0 {
        let r = after_registration(s, gatts_if, e);
        assert(r.wf());
        lemma_dispatch_is_two_steps(r, gatts_if, e);
        lemma_profile_a_leaves_profile_b_alone(r, gatts_if, e);
    }
}

/// A GAP event clears the configuration flag it completes - bit 0 for the
/// advertising data, bit 1 for the scan response data - when it is of the
/// kind (raw or structured) the server uses, and then starts advertising
/// with the server's parameters if no flag is left; any other event changes
/// nothing and asks for nothing.
pub proof fn law_gap_event(s: StatusView, e: GapEvent)
    ensures
        ({
            let raw = s.config_set_raw_adv_data;
            let flag: u8 = match e {
                GapEvent::AdvDataRawSetComplete => if raw { 1 } else { 0 },
                GapEvent::ScanRspDataRawSetComplete => if raw { 2 } else { 0 },
                GapEvent::AdvDataSetComplete => if !raw { 1 } else { 0 },
                GapEvent::ScanRspDataSetComplete => if !raw { 2 } else { 0 },
                GapEvent::Other { .. } => 0,
            };
            let done = s.adv_config_done & !flag;
            &&& flag == 0 ==> gap_event_step(s, e) == (s, Seq::<ActionView>::empty())
            &&& flag != 0 ==> gap_event_step(s, e) == (
                StatusView { adv_config_done: done, ..s },
                if done == 0 {
                    seq![ActionView::StartAdvertising { adv_params: s.adv_params }]
                } else {
                    Seq::<ActionView>::empty()
                },
            )
        }),
{
}

/// Before any event: both profiles are unregistered (interface 0xff) with
/// their own handlers and nothing else set, nothing is pending, both
/// properties are 0, no prepared write is held, profile A's characteristic
/// starts as 11 22 33 (3 of at most 64 bytes), the advertising and scan
/// response data list the name and the two service UUIDs with the flags
/// general-discoverable and no BR/EDR (0x06), the advertising data with a
/// connection interval of 6 to 16 units and the scan response with the
/// transmit power, and advertising is
/// connectable and undirected every 0x20 to 0x40 units on all channels
/// (0x07) from the public address.
pub proof fn law_initial_state(raw: bool)
    ensures
        ({
            let s = initial_status(raw);
            &&& s.wf()
            &&& s.gl_profile_tab.len() == 2
            &&& s.gl_profile_tab[0].gatts_if == 0xff
            &&& s.gl_profile_tab[1].gatts_if == 0xff
            &&& s.gl_profile_tab[0].gatts_cb == Some(ProfileHandler::ProfileA)
            &&& s.gl_profile_tab[1].gatts_cb == Some(ProfileHandler::ProfileB)
            &&& s.gl_profile_tab[0].service_handle == 0 && s.gl_profile_tab[0].char_handle == 0
                && s.gl_profile_tab[0].descr_handle == 0 && s.gl_profile_tab[0].conn_id == 0
            &&& s.gl_profile_tab[1].service_handle == 0 && s.gl_profile_tab[1].char_handle == 0
                && s.gl_profile_tab[1].descr_handle == 0 && s.gl_profile_tab[1].conn_id == 0
            &&& s.adv_config_done == 0
            &&& s.a_property == 0 && s.b_property == 0
            &&& s.a_prepare_write_env == PrepareEnvView { prepare_buf: None, prepare_len: 0 }
            &&& s.b_prepare_write_env == PrepareEnvView { prepare_buf: None, prepare_len: 0 }
            &&& s.gatts_demo_char1_val.attr_value == seq![0x11u8, 0x22, 0x33]
            &&& s.gatts_demo_char1_val.attr_len == 3
            &&& s.gatts_demo_char1_val.attr_max_len == 0x40
            &&& s.adv_params == AdvParams {
                adv_int_min: 0x20,
                adv_int_max: 0x40,
                adv_type: 0,
                own_addr_type: 0,
                peer_addr: s.adv_params.peer_addr,
                peer_addr_type: 0,
                channel_map: 0x07,
                adv_filter_policy: 0,
            }
            &&& s.adv_params.peer_addr@ == seq![0u8, 0, 0, 0, 0, 0]
            &&& !s.adv_data.set_scan_rsp && s.scan_rsp_data.set_scan_rsp
            &&& s.adv_data.include_name && s.scan_rsp_data.include_name
            &&& !s.adv_data.include_txpower && s.scan_rsp_data.include_txpower
            &&& s.adv_data.min_interval == 6 && s.adv_data.max_interval == 0x10
            &&& s.adv_data.flag == 0x06 && s.scan_rsp_data.flag == 0x06
            &&& s.scan_rsp_data.min_interval == 0 && s.scan_rsp_data.max_interval == 0
            &&& s.adv_data.appearance == 0 && s.scan_rsp_data.appearance == 0
            &&& s.adv_data.manufacturer_data.len() == 0 && s.adv_data.service_data.len() == 0
            &&& s.scan_rsp_data.manufacturer_data.len() == 0 && s.scan_rsp_data.service_data.len() == 0
            &&& s.adv_data.service_uuid == seq![
                0xfbu8, 0x34, 0x9b, 0x5f, 0x80, 0x00, 0x00, 0x80, 0x00, 0x10, 0x00, 0x00, 0xEE, 0x00,
                0x00, 0x00, 0xfb, 0x34, 0x9b, 0x5f, 0x80, 0x00, 0x00, 0x80, 0x00, 0x10, 0x00, 0x00,
                0xFF, 0x00, 0x00, 0x00,
            ]
            &&& s.scan_rsp_data.service_uuid == s.adv_data.service_uuid
            &&& s.config_set_raw_adv_data == raw
        }),
{
    assert(0x02u8 | 0x04u8 == 0x06u8) by (bit_vector);
    let s = initial_status(raw);
    assert(s.adv_params.peer_addr@ =~= seq![0u8, 0, 0, 0, 0, 0]);
}

/// The events the server can take: every event but a registration or a
/// write; a registration that failed, or that names profile 0 or 1; every
/// write that needs no answer or is not prepared; a prepared write while no
/// buffer exists if it fits in 1024 bytes; and, once a buffer exists, one
/// whose offset lies past the buffer, one whose end lies past the buffer
/// but within 16 bits, and one that fits if the count of gathered bytes
/// stays within 16 bits - provided the write carries the bytes it
/// announces.
pub proof fn law_admissible_events(s: StatusView, gatts_if: u8, e: GattsEvent, env: PrepareEnvView, w: WriteParam)
    ensures
        (!(e is Reg) && !(e is Write)) ==> gatts_event_admissible(s, gatts_if, e),
        (e matches GattsEvent::Reg { status, app_id } && (status != 0 || app_id < 2))
            ==> gatts_event_admissible(s, gatts_if, e),
        !(w.need_rsp && w.is_prep) ==> write_admissible(env, w),
        (env.prepare_buf is None && w.offset + w.len <= 1024) ==> write_admissible(env, w),
        (env.prepare_buf is Some && w.offset > 1024) ==> write_admissible(env, w),
        (env.prepare_buf is Some && w.offset + w.len > 1024 && w.offset + w.len <= 0xffff)
            ==> write_admissible(env, w),
        (env.prepare_buf is Some && w.offset + w.len <= 1024 && env.prepare_len + w.len <= 0xffff)
            ==> write_admissible(env, w),
        (w.wf() && write_admissible(s.a_prepare_write_env, w) && write_admissible(s.b_prepare_write_env, w))
            ==> gatts_event_admissible(s, gatts_if, GattsEvent::Write(w)),
{
}

} // verus!
