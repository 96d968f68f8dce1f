//! The decision logic of a Bluetooth LE GATT server with two profiles,
//! written as verified state transitions: each handler takes the server
//! state and one event of the Bluetooth stack, updates the state and
//! returns the requests that the stack is to carry out.

pub mod consts;
pub mod prepare_type_env;
pub mod gatts_profile_inst;
pub mod ble_types;
pub mod event;
pub mod action;
pub mod model;
pub mod status;
pub mod laws;
pub mod handler_laws;
