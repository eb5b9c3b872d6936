//! What the device actor knows about the connected controller, and the
//! decisions it takes from that knowledge: the connection probe, the
//! read-only gate, decoding of readings, and the run-command safety checks.
use vstd::prelude::*;
use crate::device::bus::{BusOp, BusReply, BusReplyModel, Step, StepModel, answers};
use crate::error::{AppError, ErrorModel, ReadOnlyReason, RunBlocker};
use crate::modbus::convert::{
    INVALID_READ_MIN, ScaleConfig, dpt_scale, is_invalid_marker, parameter_from_raw, parse_dpt,
    pow10, signed_of, temperature_in_range, temperature_valid,
};
use crate::modbus::registers::{self, is_supported_model, model_name, model_text, supported_model};
use crate::types::{DeviceInfo, DeviceInfoModel, RunStatus, disconnected_info};

verus! {

/// The first register of a reply as an unsigned parameter: present, valid
/// and not negative.
pub open spec fn unsigned_parameter(values: Seq<u16>) -> Option<u16> {
    if values.len() > 0 && values[0] < INVALID_READ_MIN {
        Some(values[0])
    } else {
        None
    }
}

/// The register at position `k` of a reply as a parameter, if valid.
pub open spec fn parameter_at(values: Seq<u16>, k: int) -> Option<i16> {
    if 0 <= k < values.len() && !is_invalid_marker(values[k]) {
        Some(signed_of(values[k]) as i16)
    } else {
        None
    }
}

/// The dPt value a probe reply holds (a failed read holds none).
pub open spec fn probe_dpt(dpt_values: Option<Seq<u16>>) -> Option<u16> {
    match dpt_values {
        Some(values) => unsigned_parameter(values),
        None => None,
    }
}

/// What a connection probe learns: the model from the MODEL register and
/// the scale from dPt; writes are enabled only for a readable dPt and a
/// supported model.
pub open spec fn probe_info(model_values: Seq<u16>, dpt_values: Option<Seq<u16>>) -> DeviceInfoModel {
    let dpt = probe_dpt(dpt_values);
    let scale = dpt_scale(dpt);
    let model = unsigned_parameter(model_values);
    DeviceInfoModel {
        connected: true,
        write_enabled: dpt is Some && match model {
            Some(code) => supported_model(code),
            None => false,
        },
        model_code: model,
        model_name: match model {
            Some(code) => Some(model_text(code)),
            None => None,
        },
        decimal_point: scale.decimal_point,
        scale_factor: scale.scale_factor,
    }
}

pub struct SessionModel {
    pub info: DeviceInfoModel,
    pub dpt_valid: bool,
    pub curve_verified: bool,
    pub link_suspect: bool,
}

/// The actor's knowledge of the controller.
pub struct DeviceSession {
    info: DeviceInfo,
    dpt_valid: bool,
    curve_verified: bool,
    link_suspect: bool,
}

impl View for DeviceSession {
    type V = SessionModel;

    closed spec fn view(&self) -> SessionModel {
        SessionModel {
            info: self.info@,
            dpt_valid: self.dpt_valid,
            curve_verified: self.curve_verified,
            link_suspect: self.link_suspect,
        }
    }
}

/// The scale readings are interpreted with.
pub open spec fn session_scale(m: SessionModel) -> ScaleConfig {
    ScaleConfig { decimal_point: m.info.decimal_point, scale_factor: m.info.scale_factor }
}

/// Writes are refused unless enabled; the reason names what is missing.
pub open spec fn writable_check(m: SessionModel) -> Result<(), ErrorModel> {
    if !m.info.write_enabled {
        Err(
            ErrorModel::ReadOnly {
                reason: if !m.dpt_valid {
                    ReadOnlyReason::DptUnavailable
                } else {
                    ReadOnlyReason::UnsupportedModel
                },
            },
        )
    } else {
        Ok(())
    }
}

pub open spec fn fresh_session() -> SessionModel {
    SessionModel {
        info: disconnected_info(),
        dpt_valid: false,
        curve_verified: false,
        link_suspect: false,
    }
}

fn unsigned_first(values: &Vec<u16>) -> (r: Option<u16>)
    ensures
        r == unsigned_parameter(values@),
{
    if values.len() > 0 && values[0] < INVALID_READ_MIN {
        Some(values[0])
    } else {
        None
    }
}

fn parameter_in(values: &Vec<u16>, k: usize) -> (r: Option<i16>)
    ensures
        r == parameter_at(values@, k as int),
{
    if k < values.len() {
        parameter_from_raw(values[k])
    } else {
        None
    }
}

impl DeviceSession {
    /// No device connected.
    pub fn new() -> (s: DeviceSession)
        ensures
            s@ == fresh_session(),
    {
        DeviceSession {
            info: DeviceInfo::default(),
            dpt_valid: false,
            curve_verified: false,
            link_suspect: false,
        }
    }

    pub fn info(&self) -> (info: DeviceInfo)
        ensures
            info@ == self@.info,
    {
        self.info.duplicate()
    }

    pub fn scale(&self) -> (s: ScaleConfig)
        ensures
            s == session_scale(self@),
    {
        ScaleConfig { decimal_point: self.info.decimal_point, scale_factor: self.info.scale_factor }
    }

    /// Refuses writes to a device that is read-only.
    pub fn ensure_writable(&self) -> (r: Result<(), AppError>)
        ensures
            match (r, writable_check(self@)) {
                (Ok(()), Ok(())) => true,
                (Err(e), Err(m)) => e@ == m,
                _ => false,
            },
    {
        if !self.info.write_enabled {
            let reason = if !self.dpt_valid {
                ReadOnlyReason::DptUnavailable
            } else {
                ReadOnlyReason::UnsupportedModel
            };
            return Err(AppError::ReadOnly { reason });
        }
        Ok(())
    }

    /// Records a new connection from the probe replies: the MODEL register
    /// (read) and the dPt register (`None` when its read failed).
    pub fn apply_probe(&mut self, model_values: &Vec<u16>, dpt_values: Option<&Vec<u16>>) -> (info:
        DeviceInfo)
        ensures
            final(self)@ == (SessionModel {
                info: probe_info(
                    model_values@,
                    match dpt_values {
                        Some(v) => Some(v@),
                        None => None,
                    },
                ),
                dpt_valid: probe_dpt(
                    match dpt_values {
                        Some(v) => Some(v@),
                        None => None,
                    },
                ) is Some,
                curve_verified: false,
                link_suspect: old(self)@.link_suspect,
            }),
            info@ == final(self)@.info,
    {
        let dpt = match dpt_values {
            Some(values) => unsigned_first(values),
            None => None,
        };
        let dpt_valid = dpt.is_some();
        let scale = parse_dpt(dpt);
        let model_code = unsigned_first(model_values);
        let name = match model_code {
            Some(code) => Some(model_name(code)),
            None => None,
        };
        let write_enabled = dpt_valid && match model_code {
            Some(code) => is_supported_model(code),
            None => false,
        };
        self.info = DeviceInfo {
            connected: true,
            write_enabled,
            model_code,
            model_name: name,
            decimal_point: scale.decimal_point,
            scale_factor: scale.scale_factor,
        };
        self.dpt_valid = dpt_valid;
        self.curve_verified = false;
        self.info.duplicate()
    }

    /// Forgets the device after a disconnect.
    pub fn clear(&mut self)
        ensures
            final(self)@ == (SessionModel { link_suspect: old(self)@.link_suspect, ..fresh_session() }),
    {
        self.info = DeviceInfo::default();
        self.dpt_valid = false;
        self.curve_verified = false;
    }

    /// Forgets the device after the link was reset.
    pub fn reset_link(&mut self)
        ensures
            final(self)@ == fresh_session(),
    {
        self.clear();
        self.link_suspect = false;
    }

    /// A download is starting: the curve on the device is no longer known
    /// to be verified.
    pub fn begin_curve_download(&mut self)
        ensures
            final(self)@ == (SessionModel { curve_verified: false, ..old(self)@ }),
    {
        self.curve_verified = false;
    }

    /// A write transaction ended; `timed_out` is whether one of its bus
    /// calls hung, which leaves the link suspect.
    pub fn record_transaction(&mut self, timed_out: bool)
        ensures
            final(self)@ == (SessionModel {
                link_suspect: old(self)@.link_suspect || timed_out,
                ..old(self)@
            }),
    {
        self.link_suspect = self.link_suspect || timed_out;
    }

    /// A curve download ended; the curve counts as verified only if the
    /// download succeeded.
    pub fn finish_curve_download(&mut self, succeeded: bool)
        ensures
            final(self)@ == (SessionModel { curve_verified: succeeded, ..old(self)@ }),
    {
        self.curve_verified = succeeded;
    }

    /// Whether a hung call asks for a link reset; the flag is cleared.
    pub fn take_link_suspect(&mut self) -> (suspect: bool)
        ensures
            suspect == old(self)@.link_suspect,
            final(self)@ == (SessionModel { link_suspect: false, ..old(self)@ }),
    {
        let suspect = self.link_suspect;
        self.link_suspect = false;
        suspect
    }
}

// ---------------------------------------------------------------------------
// Decoding replies
// ---------------------------------------------------------------------------

/// PV, SV (signed registers, `None` for no data) and the raw MV register.
#[derive(Debug, Clone, Copy, PartialEq, Eq, Structural)]
pub struct ReadingRegisters {
    pub pv: Option<i16>,
    pub sv: Option<i16>,
    pub mv: Option<u16>,
}

/// Decodes the reply to the PV/SV/MV read.
pub fn decode_reading(values: &Vec<u16>) -> (r: ReadingRegisters)
    ensures
        r.pv == parameter_at(values@, 0),
        r.sv == parameter_at(values@, 1),
        r.mv == (if values@.len() > 2 {
            Some(values@[2])
        } else {
            None
        }),
{
    ReadingRegisters {
        pv: parameter_in(values, 0),
        sv: parameter_in(values, 1),
        mv: if values.len() > 2 {
            Some(values[2])
        } else {
            None
        },
    }
}

/// P (signed, device scale), I (seconds) and D (tenths of a second).
#[derive(Debug, Clone, Copy, PartialEq, Eq, Structural)]
pub struct PidRegisters {
    pub p: i16,
    pub i: u32,
    pub d: i16,
}

/// The result of decoding the P/I/D read.
pub open spec fn pid_decoding(values: Seq<u16>) -> Result<PidRegisters, ErrorModel> {
    match parameter_at(values, 0) {
        None => Err(ErrorModel::InvalidData("PID P has no valid data"@)),
        Some(p) => match parameter_at(values, 1) {
            None => Err(ErrorModel::InvalidData("PID I has no valid data"@)),
            Some(i) => if i < 0 {
                Err(ErrorModel::InvalidData("PID I is negative"@))
            } else {
                match parameter_at(values, 2) {
                    None => Err(ErrorModel::InvalidData("PID D has no valid data"@)),
                    Some(d) => Ok(PidRegisters { p, i: i as u32, d }),
                }
            },
        },
    }
}

pub fn decode_pid(values: &Vec<u16>) -> (r: Result<PidRegisters, AppError>)
    ensures
        match (r, pid_decoding(values@)) {
            (Ok(a), Ok(b)) => a == b,
            (Err(e), Err(m)) => e@ == m,
            _ => false,
        },
{
    let p = match parameter_in(values, 0) {
        Some(p) => p,
        None => return Err(AppError::InvalidData(String::from_str("PID P has no valid data"))),
    };
    let i = match parameter_in(values, 1) {
        Some(i) => i,
        None => return Err(AppError::InvalidData(String::from_str("PID I has no valid data"))),
    };
    if i < 0 {
        return Err(AppError::InvalidData(String::from_str("PID I is negative")));
    }
    let d = match parameter_in(values, 2) {
        Some(d) => d,
        None => return Err(AppError::InvalidData(String::from_str("PID D has no valid data"))),
    };
    Ok(PidRegisters { p, i: i as u32, d })
}

/// The result of decoding the SP1 read with `scale`.
pub open spec fn setpoint_decoding(values: Seq<u16>, scale: ScaleConfig) -> Result<i16, ErrorModel> {
    match parameter_at(values, 0) {
        None => Err(ErrorModel::InvalidData("SP1 has no valid data"@)),
        Some(v) => if temperature_valid(v as int, scale) {
            Ok(v)
        } else {
            Err(ErrorModel::InvalidData("SP1 is out of range"@))
        },
    }
}

pub fn decode_setpoint(values: &Vec<u16>, scale: ScaleConfig) -> (r: Result<i16, AppError>)
    ensures
        match (r, setpoint_decoding(values@, scale)) {
            (Ok(a), Ok(b)) => a == b,
            (Err(e), Err(m)) => e@ == m,
            _ => false,
        },
{
    let v = match parameter_in(values, 0) {
        Some(v) => v,
        None => return Err(AppError::InvalidData(String::from_str("SP1 has no valid data"))),
    };
    if !temperature_in_range(v, scale) {
        return Err(AppError::InvalidData(String::from_str("SP1 is out of range")));
    }
    Ok(v)
}

// ---------------------------------------------------------------------------
// Changing the run status
// ---------------------------------------------------------------------------

/// The checks made before any bus operation of a run-status command.
pub open spec fn run_precheck(m: SessionModel, connected: bool, status: RunStatus) -> Result<
    (),
    ErrorModel,
> {
    if writable_check(m) is Err {
        writable_check(m)
    } else if !connected {
        Err(ErrorModel::NotConnected)
    } else if status == RunStatus::Run && !match m.info.model_code {
        Some(code) => supported_model(code),
        None => false,
    } {
        Err(ErrorModel::RunBlocked { reason: RunBlocker::UnsupportedModel })
    } else if status == RunStatus::Run && !m.curve_verified {
        Err(ErrorModel::RunBlocked { reason: RunBlocker::CurveNotVerified })
    } else {
        Ok(())
    }
}

/// The write that sets `status`.
pub open spec fn srun_write(status: RunStatus) -> BusOp {
    BusOp::Write {
        addr: registers::SRUN,
        value: match status {
            RunStatus::Run => 0u16,
            RunStatus::Stop => 1u16,
            RunStatus::Hold => 2u16,
        },
    }
}

/// Whether a PV or SV register allows a run: valid data within the
/// temperature range.
pub open spec fn run_value_ok(value: Option<i16>, scale: ScaleConfig) -> bool {
    match value {
        Some(v) => temperature_valid(v as int, scale),
        None => false,
    }
}

#[derive(Debug, Clone, Copy, PartialEq, Eq, Structural)]
pub enum RunPhase {
    Reading,
    Writing,
    Done,
}

pub struct RunModel {
    pub phase: RunPhase,
    pub status: RunStatus,
    pub scale: ScaleConfig,
}

/// The protocol of a run-status command after its checks: read PV and SV
/// (for `Run` only), then write Srun.
pub open spec fn run_next(m: RunModel, reply: BusReplyModel) -> (RunModel, StepModel<()>) {
    let done = RunModel { phase: RunPhase::Done, ..m };
    match m.phase {
        RunPhase::Reading => match reply {
            BusReplyModel::Read(Err(e)) => (done, StepModel::Finish(Err(e))),
            BusReplyModel::Read(Ok(values)) => if !run_value_ok(parameter_at(values, 0), m.scale) {
                (
                    done,
                    StepModel::Finish(
                        Err(ErrorModel::RunBlocked { reason: RunBlocker::InvalidPv }),
                    ),
                )
            } else if !run_value_ok(parameter_at(values, 1), m.scale) {
                (
                    done,
                    StepModel::Finish(
                        Err(ErrorModel::RunBlocked { reason: RunBlocker::InvalidSv }),
                    ),
                )
            } else {
                (RunModel { phase: RunPhase::Writing, ..m }, StepModel::Issue(srun_write(m.status)))
            },
            _ => (done, StepModel::Finish(Err(ErrorModel::Timeout))),
        },
        RunPhase::Writing => match reply {
            BusReplyModel::Write(r) => (done, StepModel::Finish(r)),
            _ => (done, StepModel::Finish(Err(ErrorModel::Timeout))),
        },
        RunPhase::Done => (done, StepModel::Finish(Err(ErrorModel::Timeout))),
    }
}

pub open spec fn run_pending(m: RunModel) -> BusOp {
    match m.phase {
        RunPhase::Reading => BusOp::Read { addr: registers::PV, count: 3 },
        RunPhase::Writing => srun_write(m.status),
        RunPhase::Done => BusOp::Pause,
    }
}

/// A run-status command in progress.
pub struct RunCommand {
    status: RunStatus,
    scale: ScaleConfig,
    phase: RunPhase,
}

impl View for RunCommand {
    type V = RunModel;

    closed spec fn view(&self) -> RunModel {
        RunModel { phase: self.phase, status: self.status, scale: self.scale }
    }
}

impl RunCommand {
    pub open spec fn active(&self) -> bool {
        !(self@.phase is Done)
    }

    /// Starts the command: a write to a read-only or disconnected device is
    /// refused; `Run` also needs a supported model and a verified curve, and
    /// then reads PV and SV before writing.
    pub fn start(session: &DeviceSession, connected: bool, status: RunStatus) -> (res: (
        RunCommand,
        Step<()>,
    ))
        ensures
            res.0@.status == status,
            res.0@.scale == session_scale(session@),
            match run_precheck(session@, connected, status) {
                Err(e) => res.0@.phase is Done && res.1@ == StepModel::<()>::Finish(Err(e)),
                Ok(()) => if status == RunStatus::Run {
                    res.0@.phase is Reading && res.1@ == StepModel::<()>::Issue(
                        BusOp::Read { addr: registers::PV, count: 3 },
                    )
                } else {
                    res.0@.phase is Writing && res.1@ == StepModel::<()>::Issue(srun_write(status))
                },
            },
    {
        let scale = session.scale();
        let finished = RunCommand { status, scale, phase: RunPhase::Done };
        if let Err(e) = session.ensure_writable() {
            return (finished, Step::Finish(Err(e)));
        }
        if !connected {
            return (finished, Step::Finish(Err(AppError::NotConnected)));
        }
        if status == RunStatus::Run {
            let supported = match session.info.model_code {
                Some(code) => is_supported_model(code),
                None => false,
            };
            if !supported {
                return (
                    finished,
                    Step::Finish(Err(AppError::RunBlocked { reason: RunBlocker::UnsupportedModel })),
                );
            }
            if !session.curve_verified {
                return (
                    finished,
                    Step::Finish(Err(AppError::RunBlocked { reason: RunBlocker::CurveNotVerified })),
                );
            }
            (
                RunCommand { status, scale, phase: RunPhase::Reading },
                Step::Issue(BusOp::Read { addr: registers::PV, count: 3 }),
            )
        } else {
            (
                RunCommand { status, scale, phase: RunPhase::Writing },
                Step::Issue(BusOp::Write { addr: registers::SRUN, value: status.register_value() }),
            )
        }
    }

    pub fn resume(&mut self, reply: BusReply) -> (step: Step<()>)
        requires
            old(self).active(),
            answers(run_pending(old(self)@), reply@),
        ensures
            (final(self)@, step@) == run_next(old(self)@, reply@),
    {
        let phase = self.phase;
        self.phase = RunPhase::Done;
        match phase {
            RunPhase::Reading => match reply {
                BusReply::Read(Err(e)) => Step::Finish(Err(e)),
                BusReply::Read(Ok(values)) => {
                    let reading = decode_reading(&values);
                    let pv_ok = match reading.pv {
                        Some(v) => temperature_in_range(v, self.scale),
                        None => false,
                    };
                    if !pv_ok {
                        return Step::Finish(
                            Err(AppError::RunBlocked { reason: RunBlocker::InvalidPv }),
                        );
                    }
                    let sv_ok = match reading.sv {
                        Some(v) => temperature_in_range(v, self.scale),
                        None => false,
                    };
                    if !sv_ok {
                        return Step::Finish(
                            Err(AppError::RunBlocked { reason: RunBlocker::InvalidSv }),
                        );
                    }
                    self.phase = RunPhase::Writing;
                    Step::Issue(
                        BusOp::Write { addr: registers::SRUN, value: self.status.register_value() },
                    )
                },
                _ => Step::Finish(Err(AppError::Timeout)),
            },
            RunPhase::Writing => match reply {
                BusReply::Write(r) => Step::Finish(r),
                _ => Step::Finish(Err(AppError::Timeout)),
            },
            RunPhase::Done => Step::Finish(Err(AppError::Timeout)),
        }
    }
}

} // verus!

verus! {

/// A program is started only on a writable, connected, supported device
/// whose curve download was verified, and only after PV and SV read back as
/// valid temperatures.
pub proof fn law_run_requires_safe_state(
    session: SessionModel,
    connected: bool,
    m: RunModel,
    reply: BusReplyModel,
)
    requires
        m.status == RunStatus::Run,
        m.phase is Reading,
        run_precheck(session, connected, RunStatus::Run) is Ok,
        run_next(m, reply).1 == StepModel::<()>::Issue(srun_write(RunStatus::Run)),
    ensures
        session.info.write_enabled,
        connected,
        session.curve_verified,
        session.info.model_code matches Some(code) && supported_model(code),
        reply matches BusReplyModel::Read(Ok(values)) && run_value_ok(parameter_at(values, 0), m.scale)
            && run_value_ok(parameter_at(values, 1), m.scale),
{
}

/// The connection probe enables writes exactly when dPt was read and the
/// model is one of the supported controllers.
pub proof fn law_probe_write_gate(model_values: Seq<u16>, dpt_values: Option<Seq<u16>>)
    ensures
        probe_info(model_values, dpt_values).write_enabled <==> (probe_dpt(dpt_values) is Some
            && match unsigned_parameter(model_values) {
            Some(code) => supported_model(code),
            None => false,
        }),
        probe_dpt(dpt_values) is None ==> probe_info(model_values, dpt_values).decimal_point == 1
            && probe_info(model_values, dpt_values).scale_factor == 1,
{
}

/// Every register outside the invalid band 32512..=32767 decodes to its
/// 16-bit two's complement value, negative and zero values included; a
/// register in the band, or past the end of the reply, holds no data.
pub proof fn law_registers_decode_as_twos_complement(values: Seq<u16>, k: int)
    ensures
        0 <= k < values.len() && (values[k] < 32512 || values[k] > 32767) ==> parameter_at(
            values,
            k,
        ) == Some(
            (if values[k] < 32768 {
                values[k] as int
            } else {
                values[k] as int - 65536
            }) as i16,
        ),
        0 <= k < values.len() && 32512 <= values[k] <= 32767 ==> parameter_at(values, k) is None,
        !(0 <= k < values.len()) ==> parameter_at(values, k) is None,
{
}

/// The connection probe takes every MODEL and dPt value below the invalid
/// band, 0 included, as read: the model code is the MODEL value; writes are
/// enabled exactly for the AI-516, AI-516P, AI-518 and AI-518P (codes 5160,
/// 5167, 5180, 5187); a dPt below 128 gives that many decimal places and no
/// extra factor, one of 128 or more gives `dPt - 128` places (modulo 256)
/// and a factor of ten.
pub proof fn law_probe_reads_registers_below_the_band(
    model: u16,
    dpt: u16,
    model_rest: Seq<u16>,
    dpt_rest: Seq<u16>,
)
    requires
        model < 32512,
        dpt < 32512,
    ensures
        ({
            let info = probe_info(seq![model] + model_rest, Some(seq![dpt] + dpt_rest));
            &&& info.connected
            &&& info.model_code == Some(model)
            &&& info.model_name is Some
            &&& model == 5160 ==> info.model_name == Some("AI-516"@)
            &&& model == 5167 ==> info.model_name == Some("AI-516P"@)
            &&& model == 5180 ==> info.model_name == Some("AI-518"@)
            &&& model == 5187 ==> info.model_name == Some("AI-518P"@)
            &&& info.write_enabled == (model == 5160 || model == 5167 || model == 5180 || model
                == 5187)
            &&& dpt < 128 ==> info.decimal_point == dpt && info.scale_factor == 1
            &&& dpt >= 128 ==> info.decimal_point as int == (dpt - 128) % 256 && info.scale_factor
                == 10
        }),
{
    let mv = seq![model] + model_rest;
    let dv = seq![dpt] + dpt_rest;
    assert(mv[0] == model);
    assert(dv[0] == dpt);
}

/// A run command in its reading step goes on to write Srun = 0 (run)
/// whenever PV and SV both hold data and lie within the temperature range
/// -200..=1800 at the device scale; how PV and SV compare does not matter.
pub proof fn law_run_proceeds_on_valid_pv_and_sv(m: RunModel, values: Seq<u16>)
    requires
        m.status == RunStatus::Run,
        m.phase is Reading,
        values.len() >= 2,
        m.scale.scale_factor > 0,
        forall|k: int|
            0 <= k < 2 ==> {
                let raw = #[trigger] values[k];
                let v = if raw < 32768 {
                    raw as int
                } else {
                    raw as int - 65536
                };
                let unit = m.scale.scale_factor as int * pow10(m.scale.decimal_point as nat) as int;
                &&& !(32512 <= raw <= 32767)
                &&& -200 * unit <= v <= 1800 * unit
            },
    ensures
        run_next(m, BusReplyModel::Read(Ok(values))) == (
            RunModel { phase: RunPhase::Writing, ..m },
            StepModel::<()>::Issue(BusOp::Write { addr: registers::SRUN, value: 0 }),
        ),
{
    let r0 = values[0];
    let r1 = values[1];
    assert(parameter_at(values, 0) == Some(signed_of(r0) as i16));
    assert(parameter_at(values, 1) == Some(signed_of(r1) as i16));
}

/// The P/I/D read decodes whenever its three registers hold data and I is
/// not negative (0 included): P, I and D are the registers' two's
/// complement values; a negative I is refused.
pub proof fn law_pid_decodes_valid_registers(values: Seq<u16>)
    requires
        values.len() >= 3,
        forall|k: int| 0 <= k < 3 ==> !(32512 <= #[trigger] values[k] <= 32767),
    ensures
        ({
            let p = if values[0] < 32768 { values[0] as int } else { values[0] as int - 65536 };
            let i = if values[1] < 32768 { values[1] as int } else { values[1] as int - 65536 };
            let d = if values[2] < 32768 { values[2] as int } else { values[2] as int - 65536 };
            &&& i >= 0 ==> pid_decoding(values) == Ok::<PidRegisters, ErrorModel>(
                PidRegisters { p: p as i16, i: i as u32, d: d as i16 },
            )
            &&& i < 0 ==> pid_decoding(values) == Err::<PidRegisters, ErrorModel>(
                ErrorModel::InvalidData("PID I is negative"@),
            )
        }),
{
    let r0 = values[0];
    let r1 = values[1];
    let r2 = values[2];
}

/// The SP1 read gives the register's two's complement value whenever it
/// holds data within the temperature range -200..=1800 at the device
/// scale; a register without data, or one out of range, is refused.
pub proof fn law_setpoint_decodes_in_range_values(values: Seq<u16>, scale: ScaleConfig)
    requires
        values.len() >= 1,
    ensures
        ({
            let raw = values[0];
            let v = if raw < 32768 {
                raw as int
            } else {
                raw as int - 65536
            };
            let unit = scale.scale_factor as int * pow10(scale.decimal_point as nat) as int;
            let in_range = scale.scale_factor > 0 && -200 * unit <= v <= 1800 * unit;
            &&& !(32512 <= raw <= 32767) && in_range ==> setpoint_decoding(values, scale) == Ok::<
                i16,
                ErrorModel,
            >(v as i16)
            &&& 32512 <= raw <= 32767 ==> setpoint_decoding(values, scale) == Err::<i16, ErrorModel>(
                ErrorModel::InvalidData("SP1 has no valid data"@),
            )
            &&& !(32512 <= raw <= 32767) && !in_range ==> setpoint_decoding(values, scale) == Err::<
                i16,
                ErrorModel,
            >(ErrorModel::InvalidData("SP1 is out of range"@))
        }),
{
    let raw = values[0];
}

} // verus!
