//! Properties of the server that span several handlers or several events.

use vstd::prelude::*;
use crate::action::ActionView;
use crate::consts::{
    ESP_GATT_CHAR_PROP_BIT_INDICATE, ESP_GATT_CHAR_PROP_BIT_NOTIFY, ESP_GATT_CHAR_PROP_BIT_READ,
    ESP_GATT_CHAR_PROP_BIT_WRITE, ESP_GATT_IF_NONE, ESP_GATT_OK,
    ESP_GATT_UUID_CHAR_CLIENT_CONFIG, GATTS_CHAR_UUID_TEST_A, PREPARE_BUF_MAX_SIZE, PROFILE_A_APP_ID,
    PROFILE_B_APP_ID, PROFILE_NUM,
};
use crate::event::{ExecWriteParam, GapEvent, GattsEvent, WriteParam};
use crate::handler_laws::{expected_payload, law_profile_a_write, law_profile_b_write, law_write_answer, uuid16};
use crate::model::{
    after_registration, char_property, descr_value, dispatch_from, dispatch_one_step,
    event_targets, gap_event_step, gatts_event_admissible, gatts_event_step, indication,
    prepare_buffer, prepare_write_status, prepared_len, profile_a_step, profile_admissible,
    profile_b_step, read_write_perm, registration_failed, write_admissible, write_event_env_step,
    StatusView,
};
use crate::prepare_type_env::{empty_prepare_env, PrepareEnvView};

verus! {

/// Profile A's handler never touches profile B: B's table entry, property
/// and prepared writes stay as they were, and the state stays well formed.
pub proof fn lemma_profile_a_leaves_profile_b_alone(s: StatusView, gatts_if: u8, e: GattsEvent)
    requires
        s.wf(),
    ensures
        profile_a_step(s, gatts_if, e).0.profile(PROFILE_B_APP_ID as int) == s.profile(PROFILE_B_APP_ID as int),
        profile_a_step(s, gatts_if, e).0.b_prepare_write_env == s.b_prepare_write_env,
        profile_a_step(s, gatts_if, e).0.b_property == s.b_property,
{
}

/// Profile B's handler never touches profile A: A's table entry, property
/// and prepared writes stay as they were.
pub proof fn lemma_profile_b_leaves_profile_a_alone(s: StatusView, gatts_if: u8, e: GattsEvent)
    requires
        s.wf(),
    ensures
        profile_b_step(s, gatts_if, e).0.profile(PROFILE_A_APP_ID as int) == s.profile(PROFILE_A_APP_ID as int),
        profile_b_step(s, gatts_if, e).0.a_prepare_write_env == s.a_prepare_write_env,
        profile_b_step(s, gatts_if, e).0.a_property == s.a_property,
{
}

/// Handing an event to the profiles is handing it to profile A's entry,
/// then to profile B's.
pub proof fn lemma_dispatch_is_two_steps(s: StatusView, gatts_if: u8, e: GattsEvent)
    ensures
        ({
            let (s1, a1) = dispatch_one_step(s, PROFILE_A_APP_ID as int, gatts_if, e);
            let (s2, a2) = dispatch_one_step(s1, PROFILE_B_APP_ID as int, gatts_if, e);
            dispatch_from(s, gatts_if, e, 0) == (s2, a1 + a2)
        }),
{
    reveal_with_fuel(dispatch_from, 3);
    let (s1, a1) = dispatch_one_step(s, 0, gatts_if, e);
    let (s2, a2) = dispatch_one_step(s1, 1, gatts_if, e);
    assert(a2 + Seq::<ActionView>::empty() =~= a2);
}

/// The two configurations that advertising waits for, in the server's mode.
pub open spec fn config_completions(raw: bool) -> (GapEvent, GapEvent) {
    if raw {
        (GapEvent::AdvDataRawSetComplete, GapEvent::ScanRspDataRawSetComplete)
    } else {
        (GapEvent::AdvDataSetComplete, GapEvent::ScanRspDataSetComplete)
    }
}

/// After profile A registers, advertising starts exactly when the second of
/// the two configurations of the mode in use completes, in either order:
/// the first completion asks for nothing, the second starts advertising
/// with the server's parameters, and nothing is left pending.
pub proof fn law_advertising_starts_when_both_configs_complete(
    s: StatusView,
    gatts_if: u8,
    adv_first: bool,
)
    requires
        s.wf(),
    ensures
        ({
            let reg = GattsEvent::Reg { status: ESP_GATT_OK, app_id: PROFILE_A_APP_ID };
            let s1 = gatts_event_step(s, gatts_if, reg).0;
            let (c_adv, c_scan) = config_completions(s.config_set_raw_adv_data);
            let first = if adv_first { c_adv } else { c_scan };
            let second = if adv_first { c_scan } else { c_adv };
            let (s2, a2) = gap_event_step(s1, first);
            let (s3, a3) = gap_event_step(s2, second);
            &&& a2 == Seq::<ActionView>::empty()
            &&& a3 == seq![ActionView::StartAdvertising { adv_params: s.adv_params }]
            &&& s3.adv_config_done == 0
        }),
{
    let reg = GattsEvent::Reg { status: ESP_GATT_OK, app_id: PROFILE_A_APP_ID };
    lemma_dispatch_is_two_steps(after_registration(s, gatts_if, reg), gatts_if, reg);
    let d = s.adv_config_done;
    assert(((d | 1u8) | 2u8) & !1u8 != 0u8) by (bit_vector);
    assert(((d | 1u8) | 2u8) & !2u8 != 0u8) by (bit_vector);
    assert(d <= 3u8 ==> (((d | 1u8) | 2u8) & !1u8) & !2u8 == 0u8) by (bit_vector);
    assert(d <= 3u8 ==> (((d | 1u8) | 2u8) & !2u8) & !1u8 == 0u8) by (bit_vector);
}

/// A successful registration stores the interface that the stack assigned
/// in the registering profile's entry; a failed one changes nothing and
/// asks for nothing.
pub proof fn law_registration_records_interface(s: StatusView, gatts_if: u8, status: u32, app_id: u16)
    requires
        s.wf(),
        app_id < PROFILE_NUM,
    ensures
        status == ESP_GATT_OK ==> gatts_event_step(
            s,
            gatts_if,
            GattsEvent::Reg { status, app_id },
        ).0.profile(app_id as int).gatts_if == gatts_if as u16,
        status != ESP_GATT_OK ==> gatts_event_step(s, gatts_if, GattsEvent::Reg { status, app_id })
            == (s, Seq::<ActionView>::empty()),
{
    let reg = GattsEvent::Reg { status, app_id };
    if status == ESP_GATT_OK {
        let r = after_registration(s, gatts_if, reg);
        lemma_dispatch_is_two_steps(r, gatts_if, reg);
        lemma_profile_a_leaves_profile_b_alone(r, gatts_if, reg);
        let s1 = dispatch_one_step(r, 0, gatts_if, reg).0;
        lemma_profile_step_keeps_wf(r, 0, gatts_if, reg);
        lemma_profile_b_leaves_profile_a_alone(s1, gatts_if, reg);
    }
}

/// An event other than a registration that comes on an interface that no
/// profile holds, and that is not `ESP_GATT_IF_NONE`, changes nothing and
/// asks for nothing.
pub proof fn law_foreign_interface_is_ignored(s: StatusView, gatts_if: u8, e: GattsEvent)
    requires
        s.wf(),
        !(e is Reg),
        gatts_if as u32 != ESP_GATT_IF_NONE,
        gatts_if as u16 != s.profile(PROFILE_A_APP_ID as int).gatts_if,
        gatts_if as u16 != s.profile(PROFILE_B_APP_ID as int).gatts_if,
    ensures
        gatts_event_step(s, gatts_if, e) == (s, Seq::<ActionView>::empty()),
{
    lemma_dispatch_is_two_steps(s, gatts_if, e);
    assert(Seq::<ActionView>::empty() + Seq::<ActionView>::empty() =~= Seq::<ActionView>::empty());
}

/// An event other than a registration that comes on `ESP_GATT_IF_NONE`
/// reaches profile A and then profile B.
pub proof fn law_unaddressed_event_reaches_both_profiles(s: StatusView, e: GattsEvent)
    requires
        s.wf(),
        !(e is Reg),
    ensures
        ({
            let g = ESP_GATT_IF_NONE as u8;
            let (s1, a1) = profile_a_step(s, g, e);
            let (s2, a2) = profile_b_step(s1, g, e);
            gatts_event_step(s, g, e) == (s2, a1 + a2)
        }),
{
    let g = ESP_GATT_IF_NONE as u8;
    lemma_dispatch_is_two_steps(s, g, e);
    lemma_profile_a_leaves_profile_b_alone(s, g, e);
}

/// Handing an event to one profile keeps the state well formed.
pub proof fn lemma_profile_step_keeps_wf(s: StatusView, idx: int, gatts_if: u8, e: GattsEvent)
    requires
        s.wf(),
        0 <= idx < PROFILE_NUM,
        event_targets(s, idx, gatts_if) ==> profile_admissible(s.profile(idx).gatts_cb->0, s, e),
    ensures
        dispatch_one_step(s, idx, gatts_if, e).0.wf(),
{
    let d = s.adv_config_done;
    assert(d <= 3u8 ==> ((d | 1u8) | 2u8) <= 3u8) by (bit_vector);
    lemma_write_step_keeps_wf(s, gatts_if, e);
}

/// The write handling keeps both prepare environments well formed.
proof fn lemma_write_step_keeps_wf(s: StatusView, gatts_if: u8, e: GattsEvent)
    requires
        s.wf(),
    ensures
        e matches GattsEvent::Write(w) ==> crate::model::write_event_env_step(
            s.a_prepare_write_env,
            gatts_if,
            w,
        ).0.wf() && crate::model::write_event_env_step(s.b_prepare_write_env, gatts_if, w).0.wf(),
{
}

/// Every GATT event that the server can take leaves its state well formed.
pub proof fn law_gatts_event_keeps_wf(s: StatusView, gatts_if: u8, e: GattsEvent)
    requires
        s.wf(),
        gatts_event_admissible(s, gatts_if, e),
    ensures
        gatts_event_step(s, gatts_if, e).0.wf(),
{
    if !registration_failed(e) {
        let r = after_registration(s, gatts_if, e);
        lemma_dispatch_is_two_steps(r, gatts_if, e);
        lemma_profile_step_keeps_wf(r, 0, gatts_if, e);
        lemma_profile_a_leaves_profile_b_alone(r, gatts_if, e);
        let s1 = dispatch_one_step(r, 0, gatts_if, e).0;
        lemma_profile_step_keeps_wf(s1, 1, gatts_if, e);
    }
}

/// Every GAP event leaves the state well formed.
pub proof fn law_gap_event_keeps_wf(s: StatusView, e: GapEvent)
    requires
        s.wf(),
    ensures
        gap_event_step(s, e).0.wf(),
{
    let d = s.adv_config_done;
    assert(d <= 3u8 ==> d & !1u8 <= 3u8) by (bit_vector);
    assert(d <= 3u8 ==> d & !2u8 <= 3u8) by (bit_vector);
}

/// A prepared write that is accepted puts its bytes into the buffer at its
/// offset, leaves every other byte of the buffer as it was, and adds its
/// length to the count of gathered bytes; the client is answered with
/// success.
pub proof fn law_accepted_prepared_write_lands_in_buffer(env: PrepareEnvView, gatts_if: u8, w: WriteParam)
    requires
        env.wf(),
        w.wf(),
        w.need_rsp,
        w.is_prep,
        write_admissible(env, w),
        prepare_write_status(env, w) == ESP_GATT_OK,
    ensures
        ({
            let (env2, acts) = write_event_env_step(env, gatts_if, w);
            &&& env2.wf()
            &&& env2.prepare_buf is Some
            &&& env2.prepare_buf->0.subrange(w.offset as int, w.offset + w.len) == w.value@
            &&& forall|i: int|
                0 <= i < PREPARE_BUF_MAX_SIZE && !(w.offset <= i < w.offset + w.len)
                    ==> env2.prepare_buf->0[i] == prepare_buffer(env)[i]
            &&& env2.prepare_len == prepared_len(env) + w.len
            &&& acts.len() == 1
            &&& acts[0] matches ActionView::SendResponse { status, .. } && status == ESP_GATT_OK
        }),
{
    let env2 = write_event_env_step(env, gatts_if, w).0;
    assert(env2.prepare_buf->0.subrange(w.offset as int, w.offset + w.len) =~= w.value@);
}

/// A prepared write that is rejected leaves the environment as it was; the
/// client is answered with the reason and an echo of the write.
pub proof fn law_rejected_prepared_write_changes_nothing(env: PrepareEnvView, gatts_if: u8, w: WriteParam)
    requires
        w.need_rsp,
        w.is_prep,
        prepare_write_status(env, w) != ESP_GATT_OK,
    ensures
        write_event_env_step(env, gatts_if, w).0 == env,
        write_event_env_step(env, gatts_if, w).1.len() == 1,
        write_event_env_step(env, gatts_if, w).1[0] matches ActionView::SendResponse { status, rsp, .. }
            && status == prepare_write_status(env, w) && rsp is Some && rsp->0.value == w.value@,
        env.prepare_buf is Some,
{
}

/// An execute-write request, whether it commits or cancels, empties the
/// prepare environment of the profile that handles it and is answered, on
/// the request's interface, connection and transaction, with success.
pub proof fn law_exec_write_empties_prepare_env(s: StatusView, gatts_if: u8, x: ExecWriteParam)
    ensures
        profile_a_step(s, gatts_if, GattsEvent::ExecWrite(x)).0.a_prepare_write_env == (PrepareEnvView {
            prepare_buf: None,
            prepare_len: 0,
        }),
        profile_b_step(s, gatts_if, GattsEvent::ExecWrite(x)).0.b_prepare_write_env == (PrepareEnvView {
            prepare_buf: None,
            prepare_len: 0,
        }),
        profile_a_step(s, gatts_if, GattsEvent::ExecWrite(x)).1 == (seq![
            ActionView::SendResponse { gatts_if, conn_id: x.conn_id, trans_id: x.trans_id, status: 0, rsp: None },
        ]),
        profile_b_step(s, gatts_if, GattsEvent::ExecWrite(x)).1 == (seq![
            ActionView::SendResponse { gatts_if, conn_id: x.conn_id, trans_id: x.trans_id, status: 0, rsp: None },
        ]),
{
}

/// Profile A records its service, characteristic and descriptor handles as
/// the stack reports their creation, adds the descriptor (UUID 0x2902, read
/// and write permission) to the service it created, and gives its
/// characteristic (UUID 0xFF01) the properties read, write and notify.
pub proof fn law_profile_a_records_handles(
    s: StatusView,
    gatts_if: u8,
    create_status: u32,
    svc: u16,
    char_status: u32,
    chr: u16,
    descr_status: u32,
    descr: u16,
)
    requires
        s.wf(),
    ensures
        ({
            let s1 = profile_a_step(s, gatts_if, GattsEvent::Create { status: create_status, service_handle: svc }).0;
            let (s2, a2) = profile_a_step(
                s1,
                gatts_if,
                GattsEvent::AddChar { status: char_status, attr_handle: chr, service_handle: svc },
            );
            let s3 = profile_a_step(
                s2,
                gatts_if,
                GattsEvent::AddCharDescr { status: descr_status, attr_handle: descr, service_handle: svc },
            ).0;
            &&& s3.gl_profile_tab[0].service_handle == svc
            &&& s3.gl_profile_tab[0].char_handle == chr
            &&& s3.gl_profile_tab[0].descr_handle == descr
            &&& s3.gl_profile_tab[0].char_uuid == uuid16(0xFF01)
            &&& s3.gl_profile_tab[0].descr_uuid == uuid16(0x2902)
            &&& s3.a_property == 0x1a
            &&& a2.len() == 2
            &&& a2[1] == ActionView::AddCharDescr { service_handle: svc, descr_uuid: uuid16(0x2902), perm: 0x11 }
        }),
{
    assert(0x02u8 | 0x08u8 | 0x10u8 == 0x1au8) by (bit_vector);
    assert(0x0001u16 | 0x0010u16 == 0x11u16) by (bit_vector);
}

/// Once profile A has created its characteristic (properties 0x1a), a
/// direct write of 0x0001 to its descriptor starts with a notification of
/// the characteristic to the writer, whether or not the write wants an
/// answer; a write of 0x0002 sends no notification or indication at all,
/// as the characteristic has no indicate property.
pub proof fn law_profile_a_subscription(s: StatusView, gatts_if: u8, w: WriteParam)
    requires
        w.wf(),
        s.a_property == 0x1a,
        !w.is_prep,
        w.len == 2,
        w.handle == s.gl_profile_tab[0].descr_handle,
    ensures
        ({
            let acts = profile_a_step(s, gatts_if, GattsEvent::Write(w)).1;
            &&& (w.value@[0] == 1 && w.value@[1] == 0) ==> acts.len() >= 1 && acts[0]
                == ActionView::SendIndicate {
                gatts_if,
                conn_id: w.conn_id,
                attr_handle: s.gl_profile_tab[0].char_handle,
                value: expected_payload(),
                need_confirm: false,
            }
            &&& (w.value@[0] == 2 && w.value@[1] == 0) ==> forall|i: int|
                0 <= i < acts.len() ==> !(#[trigger] acts[i] is SendIndicate)
        }),
{
    assert(0x1au8 & 0x10u8 != 0u8) by (bit_vector);
    assert(0x1au8 & 0x20u8 == 0u8) by (bit_vector);
    law_profile_a_write(s, gatts_if, w);
    law_write_answer(s.a_prepare_write_env, gatts_if, w);
}

/// Once profile B has created its characteristic, a direct write of 0x0001
/// to its descriptor starts with a notification of the characteristic to
/// the writer, and a write of 0x0002 with an indication, whether or not the
/// write wants an answer.
pub proof fn law_profile_b_subscription(s: StatusView, gatts_if: u8, w: WriteParam)
    requires
        w.wf(),
        s.b_property == 0x1a,
        !w.is_prep,
        w.len == 2,
        w.handle == s.gl_profile_tab[1].descr_handle,
    ensures
        ({
            let acts = profile_b_step(s, gatts_if, GattsEvent::Write(w)).1;
            &&& (w.value@[0] == 1 && w.value@[1] == 0) ==> acts.len() >= 1 && acts[0]
                == ActionView::SendIndicate {
                gatts_if,
                conn_id: w.conn_id,
                attr_handle: s.gl_profile_tab[1].char_handle,
                value: expected_payload(),
                need_confirm: false,
            }
            &&& (w.value@[0] == 2 && w.value@[1] == 0) ==> acts.len() >= 1 && acts[0]
                == ActionView::SendIndicate {
                gatts_if,
                conn_id: w.conn_id,
                attr_handle: s.gl_profile_tab[1].char_handle,
                value: expected_payload(),
                need_confirm: true,
            }
        }),
{
    law_profile_b_write(s, gatts_if, w);
}

} // verus!
