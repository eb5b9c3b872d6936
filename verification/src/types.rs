//! The values exchanged with the frontend.
use vstd::prelude::*;

verus! {

/// A serial port the device may be attached to.
#[derive(Debug, Clone)]
pub struct PortInfo {
    pub name: String,
    pub description: Option<String>,
}

/// How to reach the controller.
#[derive(Debug, Clone)]
pub struct ConnectionConfig {
    pub port: String,
    pub slave_addr: u8,
    pub baudrate: u32,
}

/// What is known about the connected controller.
#[derive(Debug, Clone)]
pub struct DeviceInfo {
    pub connected: bool,
    /// Writes are allowed only when dPt was read and the model is supported.
    pub write_enabled: bool,
    pub model_code: Option<u16>,
    pub model_name: Option<String>,
    pub decimal_point: u8,
    pub scale_factor: u8,
}

/// The content of a `DeviceInfo`, its model name as characters.
pub struct DeviceInfoModel {
    pub connected: bool,
    pub write_enabled: bool,
    pub model_code: Option<u16>,
    pub model_name: Option<Seq<char>>,
    pub decimal_point: u8,
    pub scale_factor: u8,
}

impl View for DeviceInfo {
    type V = DeviceInfoModel;

    open spec fn view(&self) -> DeviceInfoModel {
        DeviceInfoModel {
            connected: self.connected,
            write_enabled: self.write_enabled,
            model_code: self.model_code,
            model_name: match self.model_name {
                Some(name) => Some(name@),
                None => None,
            },
            decimal_point: self.decimal_point,
            scale_factor: self.scale_factor,
        }
    }
}

/// A disconnected device with the fallback scale (one decimal place).
pub open spec fn disconnected_info() -> DeviceInfoModel {
    DeviceInfoModel {
        connected: false,
        write_enabled: false,
        model_code: None,
        model_name: None,
        decimal_point: 1,
        scale_factor: 1,
    }
}

impl Default for DeviceInfo {
    fn default() -> (info: Self)
        ensures
            info@ == disconnected_info(),
    {
        DeviceInfo {
            connected: false,
            write_enabled: false,
            model_code: None,
            model_name: None,
            decimal_point: 1,
            scale_factor: 1,
        }
    }
}

impl DeviceInfo {
    /// A copy with the same content.
    pub fn duplicate(&self) -> (info: DeviceInfo)
        ensures
            info@ == self@,
    {
        DeviceInfo {
            connected: self.connected,
            write_enabled: self.write_enabled,
            model_code: self.model_code,
            model_name: match &self.model_name {
                Some(name) => Some(name.clone()),
                None => None,
            },
            decimal_point: self.decimal_point,
            scale_factor: self.scale_factor,
        }
    }
}

/// The controller's program state (register Srun).
#[derive(Debug, Clone, Copy, PartialEq, Eq, Structural)]
pub enum RunStatus {
    Run,
    Hold,
    Stop,
}

impl RunStatus {
    /// The Srun register value: run=0, StoP=1, HoLd=2.
    pub fn register_value(&self) -> (v: u16)
        ensures
            v == (match *self {
                RunStatus::Run => 0u16,
                RunStatus::Stop => 1u16,
                RunStatus::Hold => 2u16,
            }),
    {
        match self {
            RunStatus::Run => 0,
            RunStatus::Stop => 1,
            RunStatus::Hold => 2,
        }
    }
}

/// The connection state pushed to the frontend.
#[derive(Debug, Clone)]
pub struct StatusEvent {
    pub connected: bool,
    pub model: Option<String>,
}

impl StatusEvent {
    /// The status event announcing `info`.
    pub fn from_info(info: &DeviceInfo) -> (event: StatusEvent)
        ensures
            event.connected == info.connected,
            match (event.model, info.model_name) {
                (Some(a), Some(b)) => a@ == b@,
                (None, None) => true,
                _ => false,
            },
    {
        StatusEvent {
            connected: info.connected,
            model: match &info.model_name {
                Some(name) => Some(name.clone()),
                None => None,
            },
        }
    }
}

/// An error report pushed to the frontend.
#[derive(Debug, Clone)]
pub struct ErrorEvent {
    pub scope: String,
    pub message: String,
}

/// The connection state the device actor publishes, with the reason when
/// the link was reset.
#[derive(Debug, Clone)]
pub struct StatusUpdate {
    pub info: DeviceInfo,
    pub reason: Option<String>,
}

} // verus!
