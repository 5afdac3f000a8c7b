//! Taking a frame from a video device.
//!
//! The device itself is behind [`CaptureDevice`]: what it answers is its
//! own affair. What is asked of it, in which order, and what is made of its
//! answers, is decided here.
use crate::capture::{
    auto_control_value, ensure_capabilities, ensure_format_supported,
    ensure_framesize_supported, find_control, CaptureConfig, CaptureControlReport,
    CaptureOutcome, CaptureSummary, ControlDescription, ControlValue, DeviceSummary,
    FrameSizeOffer, NegotiatedFormat,
};
use crate::errors::{AppError, AppResult};
use crate::frame::{
    convert_frame_to_image, fourcc_to_string, parse_fourcc, FourCC, FrameFormat, GrayFrame,
};
use crate::text::{decimal, decimal_signed};
use vstd::prelude::*;
use vstd::string::StringExecFns;

verus! {

/// What a device says of itself.
#[derive(Debug, Clone, PartialEq, Eq)]
pub struct DeviceCaps {
    pub driver: String,
    pub card: String,
    pub bus: String,
    /// Whether it captures video.
    pub video_capture: bool,
    /// Whether frames can be read from it.
    pub read_write: bool,
    /// Whether frames can be streamed from it.
    pub streaming: bool,
}

/// Why the controls of a device could not be listed.
#[derive(Debug, Clone, PartialEq, Eq)]
pub enum ControlQueryError {
    /// The query failed; the text says how.
    Failed(String),
    /// The driver reported a control of a type that is not understood.
    UnsupportedType,
}

/// A video device that is open.
pub trait CaptureDevice {
    fn query_caps(&self) -> AppResult<DeviceCaps>;

    fn enum_formats(&self) -> AppResult<Vec<FourCC>>;

    fn enum_framesizes(&self, fourcc: FourCC) -> AppResult<Vec<FrameSizeOffer>>;

    fn format(&self) -> AppResult<FrameFormat>;

    fn set_format(&mut self, format: &FrameFormat) -> AppResult<FrameFormat>;

    fn query_controls(&self) -> Result<Vec<ControlDescription>, ControlQueryError>;

    /// Sets a control; the error is the text of what went wrong.
    fn set_control(&mut self, id: u32, value: ControlValue) -> Result<(), String>;

    fn start_stream(&mut self, buffer_count: u32) -> AppResult<()>;

    /// Reads the next frame; the error is the text of what went wrong.
    fn next_frame(&mut self) -> Result<Vec<u8>, String>;
}

/// Something that keeps captured frames and says where it put them.
pub trait CaptureSink {
    fn store(&self, image: &GrayFrame, requested: Option<&str>) -> AppResult<String>;
}

/// A frame that was captured and is held in memory, with what was logged
/// on the way.
#[derive(Debug, Clone, PartialEq, Eq)]
pub struct InMemoryCapture {
    pub image: GrayFrame,
    pub device: DeviceSummary,
    pub format: NegotiatedFormat,
    pub control: CaptureControlReport,
    pub logs: Vec<String>,
}

/// The identifier of the control that selects the exposure mode.
pub const CID_EXPOSURE_AUTO: u32 = 0x009a0901;

/// The identifier of the control that sets the exposure time.
pub const CID_EXPOSURE_ABSOLUTE: u32 = 0x009a0902;

/// The identifier of the control that sets the gain.
pub const CID_GAIN: u32 = 0x00980913;

/// The exposure mode in which the device picks the exposure time.
pub const V4L2_EXPOSURE_APERTURE_PRIORITY: i64 = 3;

/// Whether a report says what became of a request: `applied`, `failed` or
/// `unsupported` where something was requested, nothing where nothing was.
pub open spec fn answers(report: Option<String>, requested: bool) -> bool {
    match report {
        Some(state) => requested && (state@ == "applied"@ || state@ == "failed"@ || state@
            == "unsupported"@),
        None => !requested,
    }
}

fn line2(a: &str, b: &str) -> (out: String)
    ensures
        out@ == a@ + b@,
{
    let mut out = a.to_owned();
    out.append(b);
    out
}

fn line3(a: &str, b: &str, c: &str) -> (out: String)
    ensures
        out@ == a@ + b@ + c@,
{
    let mut out = a.to_owned();
    out.append(b);
    out.append(c);
    out
}

/// The texts of a list of names.
pub open spec fn name_texts(names: Seq<&'static str>) -> Seq<Seq<char>> {
    Seq::new(names.len(), |i: int| names[i]@)
}

/// The names under which drivers offer the control of the exposure time.
pub open spec fn exposure_control_names() -> Seq<Seq<char>> {
    seq!["Exposure (Absolute)"@, "Exposure"@, "Exposure Time Absolute"@]
}

/// The names under which drivers offer the switch for automatic exposure.
pub open spec fn auto_exposure_control_names() -> Seq<Seq<char>> {
    seq!["Exposure, Auto"@, "Exposure Auto"@, "Auto Exposure"@, "Auto_Exposure"@]
}

/// The names under which drivers offer the switch for automatic gain.
pub open spec fn auto_gain_control_names() -> Seq<Seq<char>> {
    seq!["Gain, Auto"@, "Auto Gain"@, "Gain Auto"@, "Gain Automatic"@]
}

/// The names under which drivers offer the control of the gain.
pub open spec fn gain_control_names() -> Seq<Seq<char>> {
    seq!["Gain"@]
}

fn exposure_names() -> (names: Vec<&'static str>)
    ensures
        name_texts(names@) == exposure_control_names(),
{
    let mut names: Vec<&'static str> = Vec::new();
    names.push("Exposure (Absolute)");
    names.push("Exposure");
    names.push("Exposure Time Absolute");
    assert(name_texts(names@) =~= exposure_control_names());
    names
}

fn auto_exposure_names() -> (names: Vec<&'static str>)
    ensures
        name_texts(names@) == auto_exposure_control_names(),
{
    let mut names: Vec<&'static str> = Vec::new();
    names.push("Exposure, Auto");
    names.push("Exposure Auto");
    names.push("Auto Exposure");
    names.push("Auto_Exposure");
    assert(name_texts(names@) =~= auto_exposure_control_names());
    names
}

fn auto_gain_names() -> (names: Vec<&'static str>)
    ensures
        name_texts(names@) == auto_gain_control_names(),
{
    let mut names: Vec<&'static str> = Vec::new();
    names.push("Gain, Auto");
    names.push("Auto Gain");
    names.push("Gain Auto");
    names.push("Gain Automatic");
    assert(name_texts(names@) =~= auto_gain_control_names());
    names
}

fn gain_names() -> (names: Vec<&'static str>)
    ensures
        name_texts(names@) == gain_control_names(),
{
    let mut names: Vec<&'static str> = Vec::new();
    names.push("Gain");
    assert(name_texts(names@) =~= gain_control_names());
    names
}

/// Sets exposure and gain by the identifiers every driver knows, for a
/// device whose controls could not be listed. Automatic gain has no such
/// identifier and is reported as unsupported.
pub fn apply_fallback_controls<D: CaptureDevice>(
    device: &mut D,
    config: &CaptureConfig,
    logs: &mut Vec<String>,
) -> (report: CaptureControlReport)
    ensures
        answers(report.auto_exposure, config.auto_exposure),
        answers(report.auto_gain, config.auto_gain),
        config.auto_gain ==> (report.auto_gain matches Some(state) && state@ == "unsupported"@),
        final(logs)@.len() > old(logs)@.len(),
{
    let mut report = CaptureControlReport { auto_exposure: None, auto_gain: None };
    logs.push("Falling back to legacy control IDs due to query failure".to_owned());
    if config.auto_exposure {
        match device.set_control(
            CID_EXPOSURE_AUTO,
            ControlValue::Integer(V4L2_EXPOSURE_APERTURE_PRIORITY),
        ) {
            Ok(_) => {
                logs.push(
                    "Enabled auto exposure via fallback control (aperture priority)".to_owned(),
                );
                report.auto_exposure = Some("applied".to_owned());
            },
            Err(err) => {
                logs.push(
                    line2("Failed to enable auto exposure via fallback control: ", err.as_str()),
                );
                report.auto_exposure = Some("failed".to_owned());
            },
        }
    } else if config.exposure.is_some() {
        logs.push(
            "Skipping fallback auto exposure because manual exposure requested".to_owned(),
        );
    }
    if let Some(exposure) = config.exposure {
        let shown = decimal_signed(exposure as i64);
        match device.set_control(CID_EXPOSURE_ABSOLUTE, ControlValue::Integer(exposure as i64)) {
            Ok(_) => logs.push(line3("Set exposure to ", shown.as_str(), " via fallback control")),
            Err(err) => logs.push(
                line2("Failed to set exposure via fallback control: ", err.as_str()),
            ),
        }
    }
    if config.auto_gain {
        logs.push("Auto gain control fallback not available in legacy path".to_owned());
        report.auto_gain = Some("unsupported".to_owned());
    }
    if let Some(gain) = config.gain {
        let shown = decimal_signed(gain as i64);
        match device.set_control(CID_GAIN, ControlValue::Integer(gain as i64)) {
            Ok(_) => logs.push(line3("Set gain to ", shown.as_str(), " via fallback control")),
            Err(err) => logs.push(line2("Failed to set gain via fallback control: ", err.as_str())),
        }
    }
    report
}

/// Whether a capture asks for any control to be set.
pub open spec fn wants_controls(config: CaptureConfig) -> bool {
    config.exposure is Some || config.gain is Some || config.auto_exposure || config.auto_gain
}

/// Sets the controls a capture asks for: automatic exposure and gain first,
/// then the manual values, each of which is skipped where its automatic
/// counterpart was switched on. A control that fails or is missing is
/// logged and reported; it never fails the capture. Where the controls of
/// the device cannot be listed, the identifiers every driver knows are used.
pub fn apply_controls<D: CaptureDevice>(
    device: &mut D,
    config: &CaptureConfig,
    logs: &mut Vec<String>,
) -> (applied: AppResult<CaptureControlReport>)
    ensures
        applied matches Ok(report) && answers(report.auto_exposure, config.auto_exposure)
            && answers(report.auto_gain, config.auto_gain),
        !wants_controls(*config) ==> final(logs)@ == old(logs)@,
        wants_controls(*config) ==> final(logs)@.len() > old(logs)@.len(),
{
    if config.exposure.is_none() && config.gain.is_none() && !config.auto_exposure
        && !config.auto_gain {
        return Ok(CaptureControlReport { auto_exposure: None, auto_gain: None });
    }
    let controls = match device.query_controls() {
        Ok(list) => list,
        Err(ControlQueryError::Failed(err)) => {
            logs.push(line2("Unable to query controls: ", err.as_str()));
            return Ok(apply_fallback_controls(device, config, logs));
        },
        Err(ControlQueryError::UnsupportedType) => {
            logs.push(
                "Unable to query controls: driver reported an unsupported control type".to_owned(),
            );
            return Ok(apply_fallback_controls(device, config, logs));
        },
    };
    let mut report = CaptureControlReport { auto_exposure: None, auto_gain: None };
    let mut auto_exposure_active = false;
    let mut auto_gain_active = false;

    if config.auto_exposure {
        let names = auto_exposure_names();
        match find_control(&controls, &names) {
            Some(at) => {
                let ctrl = &controls[at];
                let value = auto_control_value(ctrl);
                match device.set_control(ctrl.id, value) {
                    Ok(_) => {
                        logs.push(line3("Enabled auto exposure via '", ctrl.name.as_str(), "'"));
                        report.auto_exposure = Some("applied".to_owned());
                        auto_exposure_active = true;
                    },
                    Err(err) => {
                        logs.push(line2("Failed to enable auto exposure: ", err.as_str()));
                        report.auto_exposure = Some("failed".to_owned());
                    },
                }
            },
            None => {
                logs.push("Auto exposure control not supported".to_owned());
                report.auto_exposure = Some("unsupported".to_owned());
            },
        }
    }
    if config.auto_gain {
        let names = auto_gain_names();
        match find_control(&controls, &names) {
            Some(at) => {
                let ctrl = &controls[at];
                let value = auto_control_value(ctrl);
                match device.set_control(ctrl.id, value) {
                    Ok(_) => {
                        logs.push(line3("Enabled auto gain via '", ctrl.name.as_str(), "'"));
                        report.auto_gain = Some("applied".to_owned());
                        auto_gain_active = true;
                    },
                    Err(err) => {
                        logs.push(line2("Failed to enable auto gain: ", err.as_str()));
                        report.auto_gain = Some("failed".to_owned());
                    },
                }
            },
            None => {
                logs.push("Auto gain control not supported".to_owned());
                report.auto_gain = Some("unsupported".to_owned());
            },
        }
    }
    if let Some(exposure) = config.exposure {
        if auto_exposure_active {
            logs.push("Skipping manual exposure because auto exposure is active".to_owned());
        } else {
            let names = exposure_names();
            match find_control(&controls, &names) {
                Some(at) => {
                    let shown = decimal_signed(exposure as i64);
                    match device.set_control(
                        controls[at].id,
                        ControlValue::Integer(exposure as i64),
                    ) {
                        Ok(_) => logs.push(line2("Set exposure to ", shown.as_str())),
                        Err(err) => logs.push(line2("Failed to set exposure: ", err.as_str())),
                    }
                },
                None => logs.push("Exposure control not supported".to_owned()),
            }
        }
    }
    if let Some(gain) = config.gain {
        if auto_gain_active {
            logs.push("Skipping manual gain because auto gain is active".to_owned());
        } else {
            let names = gain_names();
            match find_control(&controls, &names) {
                Some(at) => {
                    let shown = decimal_signed(gain as i64);
                    match device.set_control(controls[at].id, ControlValue::Integer(gain as i64)) {
                        Ok(_) => logs.push(line2("Set gain to ", shown.as_str())),
                        Err(err) => logs.push(line2("Failed to set gain: ", err.as_str())),
                    }
                },
                None => logs.push("Gain control not supported".to_owned()),
            }
        }
    }
    Ok(report)
}

/// Captures one frame from an open device: checks what the device can do,
/// negotiates the format, sets the controls, discards the warm-up frames,
/// and converts the frame that follows.
///
/// What the device answers is its own affair. Whatever it answers, a
/// capture that succeeds yields a frame of the negotiated size with one
/// gray value per pixel, names the path the device was opened under, and
/// reports on automatic exposure and gain exactly where they were asked
/// for.
pub fn capture_frame_in_memory<D: CaptureDevice>(device: &mut D, config: &CaptureConfig) -> (
captured: AppResult<InMemoryCapture>)
    ensures
        captured matches Ok(capture) ==> {
            &&& capture.image.well_formed()
            &&& capture.image.width == capture.format.width
            &&& capture.image.height == capture.format.height
            &&& capture.device.path@ == crate::capture::device_path(config.device@)
            &&& answers(capture.control.auto_exposure, config.auto_exposure)
            &&& answers(capture.control.auto_gain, config.auto_gain)
        },
{
    let mut logs: Vec<String> = Vec::new();
    let shown = config.device.display();
    logs.push(line2("Opened device ", shown.as_str()));

    let caps = device.query_caps()?;
    ensure_capabilities(caps.video_capture, caps.read_write, caps.streaming)?;
    let mut line = line2("Device: driver=", caps.driver.as_str());
    line.append(" card=");
    line.append(caps.card.as_str());
    line.append(" bus=");
    line.append(caps.bus.as_str());
    logs.push(line);
    let device_summary = DeviceSummary {
        driver: caps.driver,
        card: caps.card,
        bus_info: caps.bus,
        path: shown,
    };

    let requested = match parse_fourcc(config.pixel_format.as_str()) {
        Ok(fourcc) => fourcc,
        Err(_) => {
            return Err(AppError::UnsupportedFormat(config.pixel_format.clone()));
        },
    };
    let formats = device.enum_formats()?;
    ensure_format_supported(&formats, requested)?;
    logs.push(line3("Pixel format ", config.pixel_format.as_str(), " supported"));

    if let Some(width) = config.width {
        if let Some(height) = config.height {
            let offers = device.enum_framesizes(requested)?;
            ensure_framesize_supported(&offers, requested, width, height, &mut logs)?;
        }
    }
    let current = device.format()?;
    let wanted = FrameFormat {
        width: match config.width {
            Some(width) => width,
            None => current.width,
        },
        height: match config.height {
            Some(height) => height,
            None => current.height,
        },
        fourcc: requested,
    };
    let format = device.set_format(&wanted)?;
    let negotiated = NegotiatedFormat {
        pixel_format: fourcc_to_string(format.fourcc),
        width: format.width,
        height: format.height,
    };
    let mut line = line2("Negotiated format: ", negotiated.pixel_format.as_str());
    line.append(" ");
    let w = decimal(negotiated.width as u64);
    line.append(w.as_str());
    line.append("x");
    let h = decimal(negotiated.height as u64);
    line.append(h.as_str());
    logs.push(line);

    let control = apply_controls(device, config, &mut logs)?;

    device.start_stream(4)?;
    if config.warmup_frames > 0 {
        let n = decimal(config.warmup_frames as u64);
        logs.push(line3("Discarding ", n.as_str(), " warm-up frame(s) before capture"));
        let mut idx: u32 = 0;
        while idx < config.warmup_frames
            invariant
                idx <= config.warmup_frames,
            decreases config.warmup_frames - idx,
        {
            match device.next_frame() {
                Ok(_) => {},
                Err(err) => {
                    let at = decimal(idx as u64 + 1);
                    let mut m = line3("failed to read warm-up frame ", at.as_str(), ": ");
                    m.append(err.as_str());
                    return Err(AppError::FrameProcessing(m));
                },
            }
            idx += 1;
        }
    }
    let data = match device.next_frame() {
        Ok(data) => data,
        Err(err) => {
            return Err(AppError::Io(err));
        },
    };
    let image = convert_frame_to_image(data.as_slice(), &format)?;
    Ok(InMemoryCapture { image, device: device_summary, format: negotiated, control, logs })
}

/// Captures one frame and hands it to the sink. The record of the capture
/// names the place the sink put it.
pub fn run_capture<D: CaptureDevice, S: CaptureSink>(
    device: &mut D,
    sink: &S,
    config: &CaptureConfig,
) -> (outcome: AppResult<CaptureOutcome>)
    ensures
        outcome matches Ok(done) ==> {
            &&& done.summary.success
            &&& done.summary.exposure == config.exposure
            &&& done.summary.gain == config.gain
            &&& answers(done.summary.auto_exposure, config.auto_exposure)
            &&& answers(done.summary.auto_gain, config.auto_gain)
            &&& done.logs@.len() > 0
        },
{
    let capture = capture_frame_in_memory(device, config)?;
    let output_path = match &config.output {
        Some(path) => sink.store(&capture.image, Some(path.as_str()))?,
        None => sink.store(&capture.image, None)?,
    };
    let mut logs = capture.logs;
    logs.push(line2("Saved frame to ", output_path.as_str()));
    let summary = CaptureSummary {
        success: true,
        output_path,
        device: capture.device,
        format: capture.format,
        exposure: config.exposure,
        gain: config.gain,
        auto_exposure: capture.control.auto_exposure,
        auto_gain: capture.control.auto_gain,
    };
    Ok(CaptureOutcome { summary, logs })
}

} // verus!
