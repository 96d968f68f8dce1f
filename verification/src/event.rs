use vstd::prelude::*;

verus! {

/// The parameters of a write request from a client.
pub struct WriteParam {
    pub conn_id: u16,
    pub trans_id: u32,
    pub handle: u16,
    pub offset: u16,
    pub need_rsp: bool,
    pub is_prep: bool,
    pub len: u16,
    pub value: Vec<u8>,
}

impl WriteParam {
    /// The request carries exactly `len` bytes.
    pub open spec fn wf(&self) -> bool {
        self.value@.len() == self.len
    }
}

/// The parameters of an execute-write request.
#[derive(Clone, Copy)]
pub struct ExecWriteParam {
    pub conn_id: u16,
    pub trans_id: u32,
    pub exec_write_flag: u8,
}

/// An event of the GATT server, with the parameters that the server reads.
/// Every event that the handlers leave alone is `Other`, with its number.
pub enum GattsEvent {
    Reg { status: u32, app_id: u16 },
    Read { conn_id: u16, trans_id: u32, handle: u16 },
    Write(WriteParam),
    ExecWrite(ExecWriteParam),
    Create { status: u32, service_handle: u16 },
    AddChar { status: u32, attr_handle: u16, service_handle: u16 },
    AddCharDescr { status: u32, attr_handle: u16, service_handle: u16 },
    Connect { conn_id: u16, remote_bda: [u8; 6] },
    Disconnect { reason: u32 },
    Other { event: u32 },
}

impl GattsEvent {
    /// A write event carries exactly the bytes it announces.
    pub open spec fn wf(&self) -> bool {
        match self {
            GattsEvent::Write(w) => w.wf(),
            _ => true,
        }
    }
}

/// An event of the GAP layer that the server reacts to; every other one is
/// `Other`, with its number.
#[derive(Clone, Copy)]
pub enum GapEvent {
    AdvDataRawSetComplete,
    ScanRspDataRawSetComplete,
    AdvDataSetComplete,
    ScanRspDataSetComplete,
    Other { event: u32 },
}

} // verus!
