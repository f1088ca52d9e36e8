//! Payload shapes that carry no floating-point data. Shapes without fields
//! are serialised as an absent payload.

use vstd::prelude::*;

verus! {

/// Response to `START`: no data.
#[derive(Clone, Copy, Debug, Default, PartialEq, Eq)]
pub struct StartResponse;

/// Arguments of `STOP`: no data.
#[derive(Clone, Copy, Debug, Default, PartialEq, Eq)]
pub struct StopArguments;

/// Response to `STOP`: no data.
#[derive(Clone, Copy, Debug, Default, PartialEq, Eq)]
pub struct StopResponse;

/// Arguments of `STATICSTATUS`: no data.
#[derive(Clone, Copy, Debug, Default, PartialEq, Eq)]
pub struct StaticStatusArguments;

/// Arguments of `STATUS`: no data.
#[derive(Clone, Copy, Debug, Default, PartialEq, Eq)]
pub struct StatusArguments;

/// Arguments of `CONNECT`: no data.
#[derive(Clone, Copy, Debug, Default, PartialEq, Eq)]
pub struct BluetoothConnectRequest;

/// Response to `CONNECT`: no data.
#[derive(Clone, Copy, Debug, Default, PartialEq, Eq)]
pub struct BluetoothConnectResponse;

/// Arguments of `DISCONNECT`: no data.
#[derive(Clone, Copy, Debug, Default, PartialEq, Eq)]
pub struct BluetoothDisconnectRequest;

/// Response to `DISCONNECT`: no data.
#[derive(Clone, Copy, Debug, Default, PartialEq, Eq)]
pub struct BluetoothDisconnectResponse;

/// Arguments of `BLUETOOTHSTATUS`: no data.
#[derive(Clone, Copy, Debug, Default, PartialEq, Eq)]
pub struct BluetoothStatusRequest;

/// Response to `BLUETOOTHSTATUS`: whether the bridge holds a wireless
/// connection.
#[derive(Clone, Copy, Debug, PartialEq, Eq, Structural)]
pub struct BluetoothStatusResponse {
    pub connected: bool,
}

/// The payload text that the bridge writes for its connection status.
pub open spec fn bluetooth_status_text(connected: bool) -> Seq<char> {
    if connected {
        "{\"connected\": true}"@
    } else {
        "{\"connected\": false}"@
    }
}

impl BluetoothStatusResponse {
    /// The payload text of this response.
    pub fn wire_text(&self) -> (r: String)
        ensures
            r@ == bluetooth_status_text(self.connected),
    {
        if self.connected {
            String::from_str("{\"connected\": true}")
        } else {
            String::from_str("{\"connected\": false}")
        }
    }
}

/// The stage of a run that the vehicle reports in its status.
#[derive(Clone, Copy, Debug, PartialEq, Eq, Structural)]
pub enum StatusStage {
    Stopped,
    Finalized,
    VehementForward,
    StallOvershoot,
    CautiousBackward,
}

/// The numeric code of a stage.
pub open spec fn stage_code(stage: StatusStage) -> u8 {
    match stage {
        StatusStage::Stopped => 0,
        StatusStage::VehementForward => 1,
        StatusStage::StallOvershoot => 2,
        StatusStage::CautiousBackward => 3,
        StatusStage::Finalized => 4,
    }
}

/// The label of a stage. It ends in a line break.
pub open spec fn stage_label(stage: StatusStage) -> Seq<char> {
    match stage {
        StatusStage::Stopped => "Stopped\n"@,
        StatusStage::Finalized => "Finalized\n"@,
        StatusStage::VehementForward => "Forward\n"@,
        StatusStage::StallOvershoot => "Coast\n"@,
        StatusStage::CautiousBackward => "Backward\n"@,
    }
}

impl StatusStage {
    /// The numeric code of this stage.
    pub fn code(self) -> (r: u8)
        ensures
            r == stage_code(self),
            r <= 4,
    {
        match self {
            StatusStage::Stopped => 0,
            StatusStage::VehementForward => 1,
            StatusStage::StallOvershoot => 2,
            StatusStage::CautiousBackward => 3,
            StatusStage::Finalized => 4,
        }
    }

    /// Decodes a numeric code; codes above 4 are rejected.
    pub fn try_from(value: u8) -> (r: Result<StatusStage, ()>)
        ensures
            r.is_ok() <==> value <= 4,
            r matches Ok(stage) ==> stage_code(stage) == value,
    {
        match value {
            0 => Ok(StatusStage::Stopped),
            1 => Ok(StatusStage::VehementForward),
            2 => Ok(StatusStage::StallOvershoot),
            3 => Ok(StatusStage::CautiousBackward),
            4 => Ok(StatusStage::Finalized),
            _ => Err(()),
        }
    }

    /// The label of this stage.
    pub fn to_string(&self) -> (r: String)
        ensures
            r@ == stage_label(*self),
    {
        let text = match self {
            StatusStage::Stopped => "Stopped\n",
            StatusStage::Finalized => "Finalized\n",
            StatusStage::VehementForward => "Forward\n",
            StatusStage::StallOvershoot => "Coast\n",
            StatusStage::CautiousBackward => "Backward\n",
        };
        String::from_str(text)
    }
}

} // verus!
