use gatts_demo::action::Action;
use gatts_demo::consts::{
    ESP_GATT_IF_NONE, ESP_GATT_INVALID_ATTR_LEN, ESP_GATT_INVALID_OFFSET, ESP_GATT_OK,
    ESP_GATT_PREP_WRITE_CANCEL, ESP_GATT_PREP_WRITE_EXEC, ESP_GATT_UUID_CHAR_CLIENT_CONFIG,
    GATTS_CHAR_UUID_TEST_A, GATTS_CHAR_UUID_TEST_B, GATTS_SERVICE_UUID_TEST_A,
    GATTS_SERVICE_UUID_TEST_B, PREPARE_BUF_MAX_SIZE,
};
use gatts_demo::event::{ExecWriteParam, GapEvent, GattsEvent, WriteParam};
use gatts_demo::gatts_profile_inst::{BtUuid, ProfileHandler, UuidValue};
use gatts_demo::prepare_type_env::PrepareTypeEnv;
use gatts_demo::status::{write_is_admissible, Status};

const IF_A: u8 = 3;
const IF_B: u8 = 4;

fn uuid16_of(u: &BtUuid) -> Option<u16> {
    match u.uuid {
        UuidValue::Uuid16(v) if u.len == 2 => Some(v),
        _ => None,
    }
}

fn registered() -> Status {
    let mut s = Status::new(false);
    s.gatts_event_handler(IF_A, &GattsEvent::Reg { status: ESP_GATT_OK, app_id: 0 });
    s.gatts_event_handler(IF_B, &GattsEvent::Reg { status: ESP_GATT_OK, app_id: 1 });
    s
}

fn write(conn_id: u16, handle: u16, offset: u16, need_rsp: bool, is_prep: bool, value: Vec<u8>) -> WriteParam {
    WriteParam { conn_id, trans_id: 77, handle, offset, need_rsp, is_prep, len: value.len() as u16, value }
}

#[test]
fn init_sets_up_both_profiles() {
    let s = Status::init();
    assert_eq!(s.gl_profile_tab[0].gatts_if, ESP_GATT_IF_NONE as u16);
    assert_eq!(s.gl_profile_tab[1].gatts_if, ESP_GATT_IF_NONE as u16);
    assert!(matches!(s.gl_profile_tab[0].gatts_cb, Some(ProfileHandler::ProfileA)));
    assert!(matches!(s.gl_profile_tab[1].gatts_cb, Some(ProfileHandler::ProfileB)));
    assert_eq!(s.adv_config_done, 0);
    assert!(!s.config_set_raw_adv_data);
    assert_eq!(s.gatts_demo_char1_val.attr_value, vec![0x11, 0x22, 0x33]);
    assert_eq!(s.gatts_demo_char1_val.attr_max_len, 0x40);
    assert_eq!(s.adv_data.service_uuid.len(), 32);
    assert_eq!(s.adv_data.flag, 0x06);
    assert!(!s.adv_data.set_scan_rsp);
    assert!(s.scan_rsp_data.set_scan_rsp && s.scan_rsp_data.include_txpower);
    assert_eq!(s.adv_params.adv_int_min, 0x20);
    assert_eq!(s.adv_params.adv_int_max, 0x40);
    assert_eq!(s.adv_params.channel_map, 0x07);
    assert!(s.a_prepare_write_env.prepare_buf.is_none());
}

#[test]
fn prepare_env_default_and_boxing() {
    let env = PrepareTypeEnv::default();
    assert!(env.prepare_buf.is_none());
    assert_eq!(env.prepare_len, 0);
    let boxed = PrepareTypeEnv { prepare_buf: Some(vec![1, 2]), prepare_len: 2 }.as_mut_ptr();
    assert_eq!(boxed.prepare_buf, Some(vec![1, 2]));
    assert_eq!(boxed.prepare_len, 2);
}

#[test]
fn registration_of_profile_a_configures_advertising() {
    let mut s = Status::new(false);
    let acts = s.gatts_event_handler(IF_A, &GattsEvent::Reg { status: ESP_GATT_OK, app_id: 0 });
    assert_eq!(s.gl_profile_tab[0].gatts_if, IF_A as u16);
    assert_eq!(s.gl_profile_tab[1].gatts_if, ESP_GATT_IF_NONE as u16);
    assert_eq!(s.adv_config_done, 3);
    assert_eq!(acts.len(), 4);
    match &acts[0] {
        Action::SetDeviceName { name } => assert_eq!(name, &b"ESP_GATTS_DEMO".to_vec()),
        _ => panic!("expected the device name"),
    }
    match &acts[1] {
        Action::ConfigAdvData { adv_data } => assert!(!adv_data.set_scan_rsp),
        _ => panic!("expected advertising data"),
    }
    match &acts[2] {
        Action::ConfigAdvData { adv_data } => assert!(adv_data.set_scan_rsp),
        _ => panic!("expected scan response data"),
    }
    match &acts[3] {
        Action::CreateService { gatts_if, service_id, num_handle } => {
            assert_eq!(*gatts_if, IF_A);
            assert_eq!(*num_handle, 4);
            assert!(service_id.is_primary);
            assert_eq!(service_id.id.inst_id, 0);
            assert_eq!(uuid16_of(&service_id.id.uuid), Some(GATTS_SERVICE_UUID_TEST_A));
        }
        _ => panic!("expected a service"),
    }
}

#[test]
fn registration_in_raw_mode_configures_raw_payloads() {
    let mut s = Status::new(true);
    let acts = s.gatts_event_handler(IF_A, &GattsEvent::Reg { status: ESP_GATT_OK, app_id: 0 });
    assert_eq!(s.adv_config_done, 3);
    assert!(matches!(&acts[1], Action::ConfigAdvDataRaw { data } if data == &vec![0x02, 0x01, 0x06, 0x02, 0x0a, 0xeb, 0x03, 0x03, 0xab, 0xcd]));
    match &acts[2] {
        Action::ConfigScanRspDataRaw { data } => {
            assert_eq!(data.len(), 16);
            assert_eq!(&data[2..], b"ESP_GATTS_DEMO");
        }
        _ => panic!("expected the raw scan response"),
    }
}

#[test]
fn registration_of_profile_b_creates_its_service_only() {
    let mut s = Status::new(false);
    let acts = s.gatts_event_handler(IF_B, &GattsEvent::Reg { status: ESP_GATT_OK, app_id: 1 });
    assert_eq!(s.gl_profile_tab[1].gatts_if, IF_B as u16);
    assert_eq!(s.adv_config_done, 0);
    assert_eq!(acts.len(), 1);
    match &acts[0] {
        Action::CreateService { service_id, gatts_if, .. } => {
            assert_eq!(*gatts_if, IF_B);
            assert_eq!(uuid16_of(&service_id.id.uuid), Some(GATTS_SERVICE_UUID_TEST_B));
        }
        _ => panic!("expected a service"),
    }
}

#[test]
fn failed_registration_is_dropped() {
    let mut s = Status::new(false);
    let acts = s.gatts_event_handler(IF_A, &GattsEvent::Reg { status: 0x85, app_id: 0 });
    assert!(acts.is_empty());
    assert_eq!(s.gl_profile_tab[0].gatts_if, ESP_GATT_IF_NONE as u16);
    assert_eq!(s.adv_config_done, 0);
}

#[test]
fn advertising_starts_after_both_configurations() {
    let mut s = registered();
    assert!(s.gap_event_handler(GapEvent::AdvDataRawSetComplete).is_empty());
    assert_eq!(s.adv_config_done, 3);
    assert!(s.gap_event_handler(GapEvent::ScanRspDataSetComplete).is_empty());
    assert_eq!(s.adv_config_done, 1);
    let acts = s.gap_event_handler(GapEvent::AdvDataSetComplete);
    assert_eq!(s.adv_config_done, 0);
    assert_eq!(acts.len(), 1);
    assert!(matches!(&acts[0], Action::StartAdvertising { adv_params } if adv_params.adv_int_min == 0x20));
    assert!(s.gap_event_handler(GapEvent::Other { event: 6 }).is_empty());
}

#[test]
fn advertising_starts_after_both_raw_configurations() {
    let mut s = Status::new(true);
    s.gatts_event_handler(IF_A, &GattsEvent::Reg { status: ESP_GATT_OK, app_id: 0 });
    assert!(s.gap_event_handler(GapEvent::AdvDataSetComplete).is_empty());
    assert!(s.gap_event_handler(GapEvent::AdvDataRawSetComplete).is_empty());
    let acts = s.gap_event_handler(GapEvent::ScanRspDataRawSetComplete);
    assert_eq!(acts.len(), 1);
    assert_eq!(s.adv_config_done, 0);
}

#[test]
fn reads_are_answered_with_a_fixed_value() {
    let mut s = registered();
    let acts = s.gatts_event_handler(IF_A, &GattsEvent::Read { conn_id: 5, trans_id: 9, handle: 42 });
    assert_eq!(acts.len(), 1);
    match &acts[0] {
        Action::SendResponse { gatts_if, conn_id, trans_id, status, rsp: Some(r) } => {
            assert_eq!((*gatts_if, *conn_id, *trans_id, *status), (IF_A, 5, 9, ESP_GATT_OK));
            assert_eq!((r.handle, r.len, r.offset, r.auth_req), (42, 4, 0, 0));
            assert_eq!(r.value, vec![0xde, 0xed, 0xbe, 0xef]);
        }
        _ => panic!("expected a response"),
    }
}

#[test]
fn profile_a_creates_characteristic_and_descriptor() {
    let mut s = registered();
    let acts = s.gatts_event_handler(IF_A, &GattsEvent::Create { status: 0, service_handle: 40 });
    assert_eq!(s.gl_profile_tab[0].service_handle, 40);
    assert_eq!(uuid16_of(&s.gl_profile_tab[0].char_uuid), Some(GATTS_CHAR_UUID_TEST_A));
    assert_eq!(s.a_property, 0x1a);
    assert!(matches!(&acts[0], Action::StartService { service_handle: 40 }));
    match &acts[1] {
        Action::AddChar { service_handle, char_uuid, perm, property, char_val: Some(v) } => {
            assert_eq!((*service_handle, *perm, *property), (40, 0x11, 0x1a));
            assert_eq!(uuid16_of(char_uuid), Some(GATTS_CHAR_UUID_TEST_A));
            assert_eq!(v.attr_value, vec![0x11, 0x22, 0x33]);
            assert_eq!(v.attr_len, 3);
        }
        _ => panic!("expected a characteristic"),
    }
    let acts = s.gatts_event_handler(IF_A, &GattsEvent::AddChar { status: 0, attr_handle: 42, service_handle: 40 });
    assert_eq!(s.gl_profile_tab[0].char_handle, 42);
    assert!(matches!(&acts[0], Action::GetAttrValue { attr_handle: 42 }));
    match &acts[1] {
        Action::AddCharDescr { service_handle, descr_uuid, perm } => {
            assert_eq!((*service_handle, *perm), (40, 0x11));
            assert_eq!(uuid16_of(descr_uuid), Some(ESP_GATT_UUID_CHAR_CLIENT_CONFIG));
        }
        _ => panic!("expected a descriptor"),
    }
    let acts = s.gatts_event_handler(IF_A, &GattsEvent::AddCharDescr { status: 0, attr_handle: 43, service_handle: 40 });
    assert!(acts.is_empty());
    assert_eq!(s.gl_profile_tab[0].descr_handle, 43);
    // Profile B's entry is untouched.
    assert_eq!(s.gl_profile_tab[1].service_handle, 0);
}

#[test]
fn profile_b_creates_characteristic_without_value() {
    let mut s = registered();
    let acts = s.gatts_event_handler(IF_B, &GattsEvent::Create { status: 0, service_handle: 50 });
    assert_eq!(s.b_property, 0x1a);
    assert_eq!(s.a_property, 0);
    match &acts[1] {
        Action::AddChar { char_uuid, char_val, .. } => {
            assert_eq!(uuid16_of(char_uuid), Some(GATTS_CHAR_UUID_TEST_B));
            assert!(char_val.is_none());
        }
        _ => panic!("expected a characteristic"),
    }
    let acts = s.gatts_event_handler(IF_B, &GattsEvent::AddChar { status: 0, attr_handle: 52, service_handle: 50 });
    assert_eq!(acts.len(), 1);
    assert!(matches!(&acts[0], Action::AddCharDescr { service_handle: 50, .. }));
}

fn created() -> Status {
    let mut s = registered();
    s.gatts_event_handler(IF_A, &GattsEvent::Create { status: 0, service_handle: 40 });
    s.gatts_event_handler(IF_A, &GattsEvent::AddChar { status: 0, attr_handle: 42, service_handle: 40 });
    s.gatts_event_handler(IF_A, &GattsEvent::AddCharDescr { status: 0, attr_handle: 43, service_handle: 40 });
    s.gatts_event_handler(IF_B, &GattsEvent::Create { status: 0, service_handle: 50 });
    s.gatts_event_handler(IF_B, &GattsEvent::AddChar { status: 0, attr_handle: 52, service_handle: 50 });
    s.gatts_event_handler(IF_B, &GattsEvent::AddCharDescr { status: 0, attr_handle: 53, service_handle: 50 });
    s
}

#[test]
fn writing_one_to_profile_a_descriptor_notifies() {
    let mut s = created();
    let acts = s.gatts_event_handler(IF_A, &GattsEvent::Write(write(7, 43, 0, false, false, vec![0x01, 0x00])));
    assert_eq!(acts.len(), 1);
    match &acts[0] {
        Action::SendIndicate { gatts_if, conn_id, attr_handle, value, need_confirm } => {
            assert_eq!((*gatts_if, *conn_id, *attr_handle, *need_confirm), (IF_A, 7, 42, false));
            assert_eq!(value, &(0u8..15).collect::<Vec<u8>>());
        }
        _ => panic!("expected a notification"),
    }
}

#[test]
fn writing_two_to_profile_a_descriptor_indicates_nothing() {
    let mut s = created();
    let acts = s.gatts_event_handler(IF_A, &GattsEvent::Write(write(7, 43, 0, false, false, vec![0x02, 0x00])));
    assert!(acts.is_empty());
    let acts = s.gatts_event_handler(IF_A, &GattsEvent::Write(write(7, 43, 0, false, false, vec![0x00, 0x00])));
    assert!(acts.is_empty());
    // A write elsewhere, or of another length, is not a subscription.
    let acts = s.gatts_event_handler(IF_A, &GattsEvent::Write(write(7, 42, 0, false, false, vec![0x01, 0x00])));
    assert!(acts.is_empty());
    let acts = s.gatts_event_handler(IF_A, &GattsEvent::Write(write(7, 43, 0, false, false, vec![0x01, 0x00, 0x00])));
    assert!(acts.is_empty());
}

#[test]
fn profile_b_notifies_and_indicates() {
    let mut s = created();
    let acts = s.gatts_event_handler(IF_B, &GattsEvent::Write(write(8, 53, 0, true, false, vec![0x02, 0x00])));
    assert_eq!(acts.len(), 2);
    assert!(matches!(&acts[0], Action::SendIndicate { attr_handle: 52, need_confirm: true, .. }));
    assert!(matches!(&acts[1], Action::SendResponse { status: 0, rsp: None, conn_id: 8, .. }));
    let acts = s.gatts_event_handler(IF_B, &GattsEvent::Write(write(8, 53, 0, false, false, vec![0x01, 0x00])));
    assert!(matches!(&acts[0], Action::SendIndicate { need_confirm: false, .. }));
}

#[test]
fn profile_b_does_not_notify_before_its_characteristic_exists() {
    let mut s = registered();
    let acts = s.gatts_event_handler(IF_B, &GattsEvent::Write(write(8, 0, 0, false, false, vec![0x01, 0x00])));
    assert!(acts.is_empty());
}

#[test]
fn prepared_writes_are_buffered_checked_and_executed() {
    let mut s = registered();
    // First prepared write: a buffer is allocated and the write lands.
    let acts = s.gatts_event_handler(IF_A, &GattsEvent::Write(write(1, 42, 10, true, true, vec![1, 2, 3])));
    assert_eq!(acts.len(), 1);
    match &acts[0] {
        Action::SendResponse { status, rsp: Some(r), .. } => {
            assert_eq!(*status, ESP_GATT_OK);
            assert_eq!((r.handle, r.offset, r.len), (42, 10, 3));
            assert_eq!(r.value, vec![1, 2, 3]);
        }
        _ => panic!("expected a response"),
    }
    let buf = s.a_prepare_write_env.prepare_buf.clone().unwrap();
    assert_eq!(buf.len(), PREPARE_BUF_MAX_SIZE as usize);
    assert_eq!(&buf[10..13], &[1, 2, 3]);
    assert_eq!(buf[9], 0);
    assert_eq!(s.a_prepare_write_env.prepare_len, 3);
    // Profile B's environment is untouched.
    assert!(s.b_prepare_write_env.prepare_buf.is_none());
    // A second write is added.
    s.gatts_event_handler(IF_A, &GattsEvent::Write(write(1, 42, 13, true, true, vec![4, 5])));
    let buf = s.a_prepare_write_env.prepare_buf.clone().unwrap();
    assert_eq!(&buf[10..15], &[1, 2, 3, 4, 5]);
    assert_eq!(s.a_prepare_write_env.prepare_len, 5);
    // An offset beyond the buffer is refused, and nothing changes.
    let acts = s.gatts_event_handler(IF_A, &GattsEvent::Write(write(1, 42, 1025, true, true, vec![9])));
    assert!(matches!(&acts[0], Action::SendResponse { status, .. } if *status == ESP_GATT_INVALID_OFFSET));
    assert_eq!(s.a_prepare_write_env.prepare_len, 5);
    // A write running past the end of the buffer is refused.
    let acts = s.gatts_event_handler(IF_A, &GattsEvent::Write(write(1, 42, 1023, true, true, vec![9, 9])));
    assert!(matches!(&acts[0], Action::SendResponse { status, .. } if *status == ESP_GATT_INVALID_ATTR_LEN));
    assert_eq!(s.a_prepare_write_env.prepare_buf.clone().unwrap()[1023], 0);
    // A write that ends exactly at the end of the buffer is taken.
    let acts = s.gatts_event_handler(IF_A, &GattsEvent::Write(write(1, 42, 1023, true, true, vec![7])));
    assert!(matches!(&acts[0], Action::SendResponse { status: 0, .. }));
    assert_eq!(s.a_prepare_write_env.prepare_buf.clone().unwrap()[1023], 7);
    // Executing answers with success and drops the gathered bytes.
    let acts = s.gatts_event_handler(
        IF_A,
        &GattsEvent::ExecWrite(ExecWriteParam { conn_id: 1, trans_id: 5, exec_write_flag: ESP_GATT_PREP_WRITE_EXEC }),
    );
    assert_eq!(acts.len(), 1);
    assert!(matches!(&acts[0], Action::SendResponse { conn_id: 1, trans_id: 5, status: 0, rsp: None, .. }));
    assert!(s.a_prepare_write_env.prepare_buf.is_none());
    assert_eq!(s.a_prepare_write_env.prepare_len, 0);
}

#[test]
fn cancelled_prepared_writes_are_dropped() {
    let mut s = registered();
    s.gatts_event_handler(IF_B, &GattsEvent::Write(write(1, 52, 0, true, true, vec![1])));
    assert!(s.b_prepare_write_env.prepare_buf.is_some());
    s.gatts_event_handler(
        IF_B,
        &GattsEvent::ExecWrite(ExecWriteParam { conn_id: 1, trans_id: 6, exec_write_flag: ESP_GATT_PREP_WRITE_CANCEL }),
    );
    assert!(s.b_prepare_write_env.prepare_buf.is_none());
}

#[test]
fn writes_without_answer_change_nothing() {
    let mut s = registered();
    let acts = s.gatts_event_handler(IF_A, &GattsEvent::Write(write(1, 42, 0, false, true, vec![1, 2])));
    assert!(acts.is_empty());
    assert!(s.a_prepare_write_env.prepare_buf.is_none());
    let acts = s.gatts_event_handler(IF_A, &GattsEvent::Write(write(1, 42, 0, true, false, vec![1, 2])));
    assert_eq!(acts.len(), 1);
    assert!(matches!(&acts[0], Action::SendResponse { status: 0, rsp: None, .. }));
    assert!(s.a_prepare_write_env.prepare_buf.is_none());
}

#[test]
fn first_prepared_write_past_the_buffer_is_not_admissible() {
    let env = PrepareTypeEnv::default();
    assert!(!write_is_admissible(&env, &write(1, 42, 1020, true, true, vec![0; 8])));
    assert!(write_is_admissible(&env, &write(1, 42, 1016, true, true, vec![0; 8])));
    let s = registered();
    assert!(!s.gatts_event_is_admissible(IF_A, &GattsEvent::Write(write(1, 42, 1020, true, true, vec![0; 8]))));
    assert!(s.gatts_event_is_admissible(7, &GattsEvent::Write(write(1, 42, 1020, true, true, vec![0; 8]))));
    assert!(!s.gatts_event_is_admissible(IF_A, &GattsEvent::Reg { status: 0, app_id: 2 }));
    assert!(s.gatts_event_is_admissible(IF_A, &GattsEvent::Reg { status: 1, app_id: 2 }));
    let bad = WriteParam { conn_id: 0, trans_id: 0, handle: 0, offset: 0, need_rsp: false, is_prep: false, len: 3, value: vec![1] };
    assert!(!s.gatts_event_is_admissible(IF_A, &GattsEvent::Write(bad)));
}

#[test]
fn events_on_other_interfaces_are_ignored() {
    let mut s = registered();
    let acts = s.gatts_event_handler(9, &GattsEvent::Read { conn_id: 1, trans_id: 1, handle: 1 });
    assert!(acts.is_empty());
    let acts = s.gatts_event_handler(9, &GattsEvent::Disconnect { reason: 0x13 });
    assert!(acts.is_empty());
}

#[test]
fn unaddressed_events_reach_both_profiles() {
    let mut s = registered();
    let acts = s.gatts_event_handler(ESP_GATT_IF_NONE as u8, &GattsEvent::Read { conn_id: 1, trans_id: 2, handle: 3 });
    assert_eq!(acts.len(), 2);
    let acts = s.gatts_event_handler(ESP_GATT_IF_NONE as u8, &GattsEvent::Connect { conn_id: 4, remote_bda: [1, 2, 3, 4, 5, 6] });
    assert_eq!(acts.len(), 1);
    assert_eq!(s.gl_profile_tab[0].conn_id, 4);
    assert_eq!(s.gl_profile_tab[1].conn_id, 4);
}

#[test]
fn connection_updates_parameters_on_profile_a() {
    let mut s = registered();
    let acts = s.gatts_event_handler(IF_A, &GattsEvent::Connect { conn_id: 11, remote_bda: [9, 8, 7, 6, 5, 4] });
    assert_eq!(s.gl_profile_tab[0].conn_id, 11);
    assert_eq!(s.gl_profile_tab[1].conn_id, 0);
    match &acts[0] {
        Action::UpdateConnParams { conn_params } => {
            assert_eq!(conn_params.bda, [9, 8, 7, 6, 5, 4]);
            assert_eq!((conn_params.min_int, conn_params.max_int, conn_params.latency, conn_params.timeout), (0x10, 0x20, 0, 400));
        }
        _ => panic!("expected connection parameters"),
    }
    let acts = s.gatts_event_handler(IF_B, &GattsEvent::Connect { conn_id: 12, remote_bda: [0; 6] });
    assert!(acts.is_empty());
    assert_eq!(s.gl_profile_tab[1].conn_id, 12);
}

#[test]
fn disconnection_restarts_advertising_on_profile_a_only() {
    let mut s = registered();
    let acts = s.gatts_event_handler(IF_A, &GattsEvent::Disconnect { reason: 0x13 });
    assert_eq!(acts.len(), 1);
    assert!(matches!(&acts[0], Action::StartAdvertising { adv_params } if adv_params.adv_int_max == 0x40));
    assert!(s.gatts_event_handler(IF_B, &GattsEvent::Disconnect { reason: 0x13 }).is_empty());
    assert!(s.gatts_event_handler(IF_A, &GattsEvent::Other { event: 4 }).is_empty());
}
