//! Capturing one frame from a video device: what is asked of the device,
//! and what is made of the bytes it delivers.
use crate::cli::{CaptureArgs, DEFAULT_PIXEL_FORMAT, DEFAULT_WARMUP_FRAMES};
use crate::config::CaptureDefaults;
use crate::errors::{AppError, AppResult};
use crate::frame::{fourcc_name, fourcc_to_string, FourCC};
use crate::logind::{copy_of, opt_text};
use crate::text::{
    char_lowercase, chars_of, decimal, decimal_digits, lowercase_of, parse_u32, parsed_u32,
    string_of,
};
use vstd::prelude::*;
use vstd::string::StringExecFns;

verus! {

/// A video device, by number or by path.
#[derive(Debug, Clone, PartialEq, Eq)]
pub enum DeviceLocator {
    Index(u32),
    Path(String),
}

/// [`DeviceLocator`] over mathematical text.
pub enum Locator {
    Index(u32),
    Path(Seq<char>),
}

impl View for DeviceLocator {
    type V = Locator;

    open spec fn view(&self) -> Locator {
        match self {
            DeviceLocator::Index(i) => Locator::Index(*i),
            DeviceLocator::Path(p) => Locator::Path(p@),
        }
    }
}

/// The device that `device` names: device 0 where nothing is given, the
/// device of that number where a number is given, the path otherwise.
pub open spec fn located(device: Option<Seq<char>>) -> Locator {
    match device {
        Some(text) => match parsed_u32(text) {
            Some(index) => Locator::Index(index),
            None => Locator::Path(text),
        },
        None => Locator::Index(0),
    }
}

/// The path under which a device is opened and shown.
pub open spec fn device_path(locator: Locator) -> Seq<char> {
    match locator {
        Locator::Index(i) => "/dev/video"@ + decimal_digits(i as nat),
        Locator::Path(p) => p,
    }
}

impl DeviceLocator {
    /// The device that `device` names: device 0 where nothing is given.
    pub fn from_option(device: Option<String>) -> (locator: DeviceLocator)
        ensures
            locator@ == located(opt_text(device)),
    {
        match device {
            Some(text) => match parse_u32(text.as_str()) {
                Some(index) => DeviceLocator::Index(index),
                None => DeviceLocator::Path(text),
            },
            None => DeviceLocator::Index(0),
        }
    }

    /// The path under which the device is opened and shown.
    pub fn display(&self) -> (path: String)
        ensures
            path@ == device_path(self@),
    {
        match self {
            DeviceLocator::Index(i) => {
                let mut path = "/dev/video".to_owned();
                let n = decimal(*i as u64);
                path.append(n.as_str());
                path
            },
            DeviceLocator::Path(p) => p.clone(),
        }
    }
}

/// The path under which a device is shown.
pub fn display_device(device: &DeviceLocator) -> (path: String)
    ensures
        path@ == device_path(device@),
{
    device.display()
}

/// What one capture is run with.
#[derive(Debug, Clone, PartialEq, Eq)]
pub struct CaptureConfig {
    pub device: DeviceLocator,
    pub pixel_format: String,
    pub width: Option<u32>,
    pub height: Option<u32>,
    pub exposure: Option<i32>,
    pub gain: Option<i32>,
    pub auto_exposure: bool,
    pub auto_gain: bool,
    pub warmup_frames: u32,
    pub output: Option<String>,
}

/// The device a capture was taken from.
#[derive(Debug, Clone, PartialEq, Eq)]
pub struct DeviceSummary {
    pub driver: String,
    pub card: String,
    pub bus_info: String,
    pub path: String,
}

/// The format the device agreed to.
#[derive(Debug, Clone, PartialEq, Eq)]
pub struct NegotiatedFormat {
    pub pixel_format: String,
    pub width: u32,
    pub height: u32,
}

/// What became of the requests for automatic exposure and gain: `applied`,
/// `failed` or `unsupported`, or nothing where none was requested.
#[derive(Debug, Clone, PartialEq, Eq)]
pub struct CaptureControlReport {
    pub auto_exposure: Option<String>,
    pub auto_gain: Option<String>,
}

impl Default for CaptureControlReport {
    fn default() -> (report: CaptureControlReport)
        ensures
            report.auto_exposure is None,
            report.auto_gain is None,
    {
        CaptureControlReport { auto_exposure: None, auto_gain: None }
    }
}

/// The record of a capture that was written to a file.
#[derive(Debug, Clone, PartialEq, Eq)]
pub struct CaptureSummary {
    pub success: bool,
    pub output_path: String,
    pub device: DeviceSummary,
    pub format: NegotiatedFormat,
    pub exposure: Option<i32>,
    pub gain: Option<i32>,
    pub auto_exposure: Option<String>,
    pub auto_gain: Option<String>,
}

/// A capture that was written to a file, with what was logged on the way.
#[derive(Debug, Clone, PartialEq, Eq)]
pub struct CaptureOutcome {
    pub summary: CaptureSummary,
    pub logs: Vec<String>,
}

/// The sink that writes captured frames to files.
#[derive(Debug, Clone, Copy, Default)]
pub struct FileCaptureSink;

/// The first of two optional texts that is there.
pub open spec fn first_text(first: Option<String>, second: Option<String>) -> Option<Seq<char>> {
    match first {
        Some(s) => Some(s@),
        None => opt_text(second),
    }
}

/// The first of two optional numbers that is there.
pub open spec fn first_number(first: Option<u32>, second: Option<u32>) -> Option<u32> {
    match first {
        Some(n) => Some(n),
        None => second,
    }
}

/// The capture configuration that command line and configuration file add up
/// to. A flag overrides the file, and the file overrides what is built in:
/// device 0, pixel format `Y16`, four warm-up frames. Everything else is as
/// the flags say.
pub fn build_capture_config(args: &CaptureArgs, defaults: &CaptureDefaults) -> (config:
    CaptureConfig)
    ensures
        config.device@ == located(first_text(args.device, defaults.device)),
        config.pixel_format@ == match first_text(args.pixel_format, defaults.pixel_format) {
            Some(format) => format,
            None => DEFAULT_PIXEL_FORMAT@,
        },
        config.warmup_frames == match first_number(args.warmup_frames, defaults.warmup_frames) {
            Some(frames) => frames,
            None => DEFAULT_WARMUP_FRAMES,
        },
        config.width == args.width,
        config.height == args.height,
        config.exposure == args.exposure,
        config.gain == args.gain,
        config.auto_exposure == args.auto_exposure,
        config.auto_gain == args.auto_gain,
        opt_text(config.output) == opt_text(args.output),
{
    let device = match &args.device {
        Some(d) => Some(d.clone()),
        None => copy_of(&defaults.device),
    };
    let pixel_format = match &args.pixel_format {
        Some(f) => f.clone(),
        None => match &defaults.pixel_format {
            Some(f) => f.clone(),
            None => DEFAULT_PIXEL_FORMAT.to_owned(),
        },
    };
    let warmup_frames = match args.warmup_frames {
        Some(n) => n,
        None => match defaults.warmup_frames {
            Some(n) => n,
            None => DEFAULT_WARMUP_FRAMES,
        },
    };
    CaptureConfig {
        device: DeviceLocator::from_option(device),
        pixel_format,
        width: args.width,
        height: args.height,
        exposure: args.exposure,
        gain: args.gain,
        auto_exposure: args.auto_exposure,
        auto_gain: args.auto_gain,
        warmup_frames,
        output: copy_of(&args.output),
    }
}

/// What is wrong with the capabilities of a device, if anything: it must
/// capture video, and it must support reading or streaming.
pub open spec fn capability_fault(video_capture: bool, read_write: bool, streaming: bool) -> Option<
    Seq<char>,
> {
    if video_capture {
        if read_write || streaming {
            None
        } else {
            Some("missing READ_WRITE or STREAMING"@)
        }
    } else if read_write || streaming {
        Some("missing VIDEO_CAPTURE"@)
    } else {
        Some("missing VIDEO_CAPTURE, missing READ_WRITE or STREAMING"@)
    }
}

/// Checks the capabilities a device reports.
pub fn ensure_capabilities(video_capture: bool, read_write: bool, streaming: bool) -> (checked:
    AppResult<()>)
    ensures
        match capability_fault(video_capture, read_write, streaming) {
            None => checked is Ok,
            Some(fault) => checked matches Err(AppError::Capability(message)) && message@ == fault,
        },
{
    let transfers = read_write || streaming;
    if video_capture && transfers {
        Ok(())
    } else if video_capture {
        Err(AppError::Capability("missing READ_WRITE or STREAMING".to_owned()))
    } else if transfers {
        Err(AppError::Capability("missing VIDEO_CAPTURE".to_owned()))
    } else {
        Err(
            AppError::Capability(
                "missing VIDEO_CAPTURE, missing READ_WRITE or STREAMING".to_owned(),
            ),
        )
    }
}

/// Whether the device lists the pixel format asked for.
pub open spec fn lists_format(formats: Seq<FourCC>, requested: FourCC) -> bool {
    exists|i: int| 0 <= i < formats.len() && (#[trigger] formats[i]).repr@ == requested.repr@
}

fn same_code(a: &FourCC, b: &FourCC) -> (same: bool)
    ensures
        same == (a.repr@ == b.repr@),
{
    let same = a.repr[0] == b.repr[0] && a.repr[1] == b.repr[1] && a.repr[2] == b.repr[2]
        && a.repr[3] == b.repr[3];
    if same {
        assert(a.repr@ =~= b.repr@);
    }
    same
}

/// Checks that the device lists the pixel format asked for.
pub fn ensure_format_supported(formats: &Vec<FourCC>, requested: FourCC) -> (checked: AppResult<
    (),
>)
    ensures
        lists_format(formats@, requested) ==> checked is Ok,
        !lists_format(formats@, requested) ==> (checked matches Err(
            AppError::UnsupportedFormat(name),
        ) && name@ == fourcc_name(requested.repr@)),
{
    let mut i: usize = 0;
    while i < formats.len()
        invariant
            i <= formats.len(),
            forall|k: int| 0 <= k < i ==> (#[trigger] formats@[k]).repr@ != requested.repr@,
        decreases formats.len() - i,
    {
        if same_code(&formats[i], &requested) {
            return Ok(());
        }
        i += 1;
    }
    Err(AppError::UnsupportedFormat(fourcc_to_string(requested)))
}

/// A frame size a device offers.
#[derive(Debug, Clone, Copy, PartialEq, Eq, Structural)]
pub enum FrameSizeOffer {
    /// Exactly this size.
    Discrete { width: u32, height: u32 },
    /// Every size within these bounds.
    Stepwise { min_width: u32, max_width: u32, min_height: u32, max_height: u32 },
}

/// Whether the offer covers the size.
pub open spec fn covers(offer: FrameSizeOffer, width: u32, height: u32) -> bool {
    match offer {
        FrameSizeOffer::Discrete { width: w, height: h } => w == width && h == height,
        FrameSizeOffer::Stepwise { min_width, max_width, min_height, max_height } => min_width
            <= width <= max_width && min_height <= height <= max_height,
    }
}

/// The first offer, from index `from` on, that covers the size.
pub open spec fn first_cover(offers: Seq<FrameSizeOffer>, width: u32, height: u32, from: int) -> Option<
    FrameSizeOffer,
>
    decreases offers.len() - from,
{
    if from < 0 || from >= offers.len() {
        None
    } else if covers(offers[from], width, height) {
        Some(offers[from])
    } else {
        first_cover(offers, width, height, from + 1)
    }
}

/// The line logged for a size that is supported.
pub open spec fn size_supported_line(offer: FrameSizeOffer, width: u32, height: u32) -> Seq<char> {
    "Frame size "@ + decimal_digits(width as nat) + "x"@ + decimal_digits(height as nat) + (
    match offer {
        FrameSizeOffer::Discrete { .. } => " supported (discrete)"@,
        FrameSizeOffer::Stepwise { .. } => " supported (stepwise)"@,
    })
}

/// Checks that the device offers the frame size asked for in the pixel
/// format asked for, and logs the offer that covers it.
pub fn ensure_framesize_supported(
    offers: &Vec<FrameSizeOffer>,
    fourcc: FourCC,
    width: u32,
    height: u32,
    logs: &mut Vec<String>,
) -> (checked: AppResult<()>)
    ensures
        match first_cover(offers@, width, height, 0) {
            Some(offer) => {
                &&& checked is Ok
                &&& final(logs)@.len() == old(logs)@.len() + 1
                &&& final(logs)@.take(old(logs)@.len() as int) == old(logs)@
                &&& final(logs)@.last()@ == size_supported_line(offer, width, height)
            },
            None => final(logs)@ == old(logs)@ && (checked matches Err(
                AppError::UnsupportedFrameSize { width: w, height: h, pixel_format },
            ) && w == width && h == height && pixel_format@ == fourcc_name(fourcc.repr@)),
        },
{
    let mut i: usize = 0;
    while i < offers.len()
        invariant
            i <= offers.len(),
            logs@ == old(logs)@,
            first_cover(offers@, width, height, 0) == first_cover(
                offers@,
                width,
                height,
                i as int,
            ),
        decreases offers.len() - i,
    {
        let offer = offers[i];
        let hit = match offer {
            FrameSizeOffer::Discrete { width: w, height: h } => w == width && h == height,
            FrameSizeOffer::Stepwise { min_width, max_width, min_height, max_height } => width
                >= min_width && width <= max_width && height >= min_height && height
                <= max_height,
        };
        if hit {
            let mut line = "Frame size ".to_owned();
            let w = decimal(width as u64);
            line.append(w.as_str());
            line.append("x");
            let h = decimal(height as u64);
            line.append(h.as_str());
            match offer {
                FrameSizeOffer::Discrete { .. } => line.append(" supported (discrete)"),
                FrameSizeOffer::Stepwise { .. } => line.append(" supported (stepwise)"),
            }
            logs.push(line);
            assert(logs@.take(old(logs)@.len() as int) == old(logs)@);
            return Ok(());
        }
        i += 1;
    }
    Err(
        AppError::UnsupportedFrameSize {
            width,
            height,
            pixel_format: fourcc_to_string(fourcc),
        },
    )
}

/// Whether a character separates the words of a control's name.
pub open spec fn is_name_separator(c: char) -> bool {
    c == ' ' || c == '-' || c == '_' || c == ','
}

/// The name of a control from index `from` on, reduced to what counts when
/// names are compared: separators dropped, the rest in lowercase.
pub open spec fn normalized_name(name: Seq<char>, from: int) -> Seq<char>
    decreases name.len() - from,
{
    if from < 0 || from >= name.len() {
        seq![]
    } else if is_name_separator(name[from]) {
        normalized_name(name, from + 1)
    } else {
        lowercase_of(name[from]) + normalized_name(name, from + 1)
    }
}

fn normalized_chars(name: &str) -> (out: Vec<char>)
    ensures
        out@ == normalized_name(name@, 0),
{
    let chars = chars_of(name);
    let mut out: Vec<char> = Vec::new();
    let mut i: usize = 0;
    while i < chars.len()
        invariant
            i <= chars.len(),
            chars@ == name@,
            out@ + normalized_name(name@, i as int) == normalized_name(name@, 0),
        decreases chars.len() - i,
    {
        let c = chars[i];
        if !(c == ' ' || c == '-' || c == '_' || c == ',') {
            let mut lower = char_lowercase(c);
            let ghost before = out@;
            let ghost added = lower@;
            out.append(&mut lower);
            assert(out@ == before + added);
            assert(before + (added + normalized_name(name@, i + 1)) == before + added
                + normalized_name(name@, i + 1));
        }
        i += 1;
    }
    assert(out@ + Seq::<char>::empty() == out@);
    out
}

/// Reduces the name of a control to what counts when names are compared.
pub fn normalize_control_name(name: &str) -> (normalized: String)
    ensures
        normalized@ == normalized_name(name@, 0),
{
    let chars = normalized_chars(name);
    string_of(chars.as_slice())
}

/// The kind of value a control takes.
#[derive(Debug, Clone, Copy, PartialEq, Eq, Structural)]
pub enum ControlKind {
    Integer,
    Boolean,
    Menu,
    IntegerMenu,
    Other,
}

/// A control as a device describes it.
#[derive(Debug, Clone, PartialEq, Eq)]
pub struct ControlDescription {
    pub id: u32,
    pub name: String,
    pub kind: ControlKind,
    pub minimum: i64,
    pub maximum: i64,
    pub default: i64,
}

/// A value to set a control to.
#[derive(Debug, Clone, Copy, PartialEq, Eq, Structural)]
pub enum ControlValue {
    Boolean(bool),
    Integer(i64),
}

/// The value that switches an automatic control on: `true` for a switch;
/// for a menu or a number the default if it is not the minimum, else the
/// maximum if it is not the minimum, else the minimum; the default for
/// everything else.
pub open spec fn automatic_value(
    kind: ControlKind,
    minimum: i64,
    maximum: i64,
    default: i64,
) -> ControlValue {
    match kind {
        ControlKind::Boolean => ControlValue::Boolean(true),
        ControlKind::Other => ControlValue::Integer(default),
        _ => ControlValue::Integer(
            if default != minimum {
                default
            } else if maximum != minimum {
                maximum
            } else {
                minimum
            },
        ),
    }
}

/// The value that switches an automatic control on.
pub fn auto_control_value(ctrl: &ControlDescription) -> (value: ControlValue)
    ensures
        value == automatic_value(ctrl.kind, ctrl.minimum, ctrl.maximum, ctrl.default),
{
    match ctrl.kind {
        ControlKind::Boolean => ControlValue::Boolean(true),
        ControlKind::Menu | ControlKind::Integer | ControlKind::IntegerMenu => {
            let candidate = if ctrl.default != ctrl.minimum {
                ctrl.default
            } else if ctrl.maximum != ctrl.minimum {
                ctrl.maximum
            } else {
                ctrl.minimum
            };
            ControlValue::Integer(candidate)
        },
        ControlKind::Other => ControlValue::Integer(ctrl.default),
    }
}

/// Whether the control goes by one of the names, separators and case
/// aside.
pub open spec fn goes_by(ctrl: ControlDescription, names: Seq<&str>) -> bool {
    exists|k: int|
        0 <= k < names.len() && normalized_name(ctrl.name@, 0) == normalized_name(
            (#[trigger] names[k])@,
            0,
        )
}

/// The index of the first control, from index `from` on, that goes by one
/// of the names.
pub open spec fn first_named(controls: Seq<ControlDescription>, names: Seq<&str>, from: int) -> Option<
    int,
>
    decreases controls.len() - from,
{
    if from < 0 || from >= controls.len() {
        None
    } else if goes_by(controls[from], names) {
        Some(from)
    } else {
        first_named(controls, names, from + 1)
    }
}

fn same_chars(a: &Vec<char>, b: &Vec<char>) -> (same: bool)
    ensures
        same == (a@ == b@),
{
    if a.len() != b.len() {
        return false;
    }
    let mut i: usize = 0;
    while i < a.len()
        invariant
            i <= a.len(),
            a.len() == b.len(),
            a@.take(i as int) == b@.take(i as int),
        decreases a.len() - i,
    {
        if a[i] != b[i] {
            assert(a@[i as int] != b@[i as int]);
            return false;
        }
        assert(a@.take(i + 1) == a@.take(i as int).push(a@[i as int]));
        assert(b@.take(i + 1) == b@.take(i as int).push(b@[i as int]));
        i += 1;
    }
    assert(a@.take(a@.len() as int) == a@);
    assert(b@.take(b@.len() as int) == b@);
    true
}

/// Finds the first control that goes by one of the names.
pub fn find_control(controls: &Vec<ControlDescription>, names: &Vec<&str>) -> (found: Option<
    usize,
>)
    ensures
        match found {
            Some(i) => i < controls@.len() && first_named(controls@, names@, 0) == Some(i as int),
            None => first_named(controls@, names@, 0) is None,
        },
{
    let mut i: usize = 0;
    while i < controls.len()
        invariant
            i <= controls.len(),
            first_named(controls@, names@, 0) == first_named(controls@, names@, i as int),
        decreases controls.len() - i,
    {
        let own = normalized_chars(controls[i].name.as_str());
        let mut k: usize = 0;
        let mut hit = false;
        while k < names.len() && !hit
            invariant
                k <= names.len(),
                own@ == normalized_name(controls@[i as int].name@, 0),
                hit ==> goes_by(controls@[i as int], names@),
                !hit ==> forall|j: int|
                    0 <= j < k ==> normalized_name(controls@[i as int].name@, 0)
                        != normalized_name((#[trigger] names@[j])@, 0),
            decreases names.len() - k + if hit { 0int } else { 1int },
        {
            let other = normalized_chars(names[k]);
            if same_chars(&own, &other) {
                hit = true;
            } else {
                k += 1;
            }
        }
        if hit {
            return Some(i);
        }
        i += 1;
    }
    None
}

} // verus!
