use chissu_pam::capture::{
    auto_control_value, ensure_capabilities, ensure_format_supported,
    ensure_framesize_supported, find_control, normalize_control_name, CaptureConfig,
    ControlDescription, ControlKind, ControlValue, DeviceLocator, FrameSizeOffer,
};
use chissu_pam::device::{
    apply_controls, apply_fallback_controls, capture_frame_in_memory, run_capture,
    CaptureDevice, CaptureSink, ControlQueryError, DeviceCaps,
};
use chissu_pam::errors::{AppError, AppResult};
use chissu_pam::frame::{
    convert_frame_to_image, fourcc_to_string, gray_to_rgb, parse_fourcc, FourCC, FrameFormat,
    GrayFrame,
};
use std::collections::VecDeque;

fn build_format(fourcc: &str, width: u32, height: u32) -> FrameFormat {
    let fourcc = parse_fourcc(fourcc).expect("fourcc");
    FrameFormat { width, height, fourcc }
}

#[test]
fn convert_y16_to_png_buffer() {
    let format = build_format("Y16", 2, 2);
    let data: Vec<u8> = vec![0, 0, 0, 0, 255, 255, 255, 255];
    let image = convert_frame_to_image(&data, &format).expect("convert y16");
    assert_eq!(image.width, 2);
    assert_eq!(image.height, 2);
    assert_eq!(&image.pixels, &vec![0, 0, 255, 255]);
}

#[test]
fn convert_grey_to_png_buffer() {
    let format = build_format("GREY", 2, 2);
    let data: Vec<u8> = vec![10, 20, 30, 40];
    let image = convert_frame_to_image(&data, &format).expect("convert grey");
    assert_eq!(&image.pixels, &data);
}

#[test]
fn convert_yuyv_to_png_buffer() {
    let format = build_format("YUYV", 2, 2);
    let data: Vec<u8> = vec![10, 128, 20, 128, 30, 64, 40, 64];
    let image = convert_frame_to_image(&data, &format).expect("convert yuyv");
    assert_eq!(image.width, 2);
    assert_eq!(image.height, 2);
    assert_eq!(&image.pixels, &vec![10, 20, 30, 40]);
}

#[test]
fn y16_keeps_the_high_byte_of_each_pixel() {
    let format = build_format("Y16", 3, 1);
    let data: Vec<u8> = vec![0x34, 0x12, 0xFF, 0x00, 0x00, 0xAB, 9, 9];
    assert_eq!(convert_frame_to_image(&data, &format).unwrap().pixels, vec![0x12, 0x00, 0xAB]);
}

#[test]
fn y08_is_read_like_grey_and_extra_bytes_are_ignored() {
    let format = build_format("Y08", 1, 3);
    let image = convert_frame_to_image(&[1, 2, 3, 4, 5], &format).unwrap();
    assert_eq!(image, GrayFrame { width: 1, height: 3, pixels: vec![1, 2, 3] });
    let empty = convert_frame_to_image(&[], &build_format("GREY", 0, 5)).unwrap();
    assert!(empty.pixels.is_empty());
}

#[test]
fn short_frames_are_refused() {
    assert_eq!(
        convert_frame_to_image(&[0; 7], &build_format("Y16", 2, 2)),
        Err(AppError::FrameProcessing("expected 8 bytes for Y16 frame, got 7".into()))
    );
    assert_eq!(
        convert_frame_to_image(&[0; 3], &build_format("GREY", 2, 2)),
        Err(AppError::FrameProcessing("expected 4 bytes for GREY frame, got 3".into()))
    );
    assert_eq!(
        convert_frame_to_image(&[0; 3], &build_format("Y08", 2, 2)),
        Err(AppError::FrameProcessing("expected 4 bytes for Y08 frame, got 3".into()))
    );
    assert_eq!(
        convert_frame_to_image(&[0; 0], &build_format("YUYV", 2, 2)),
        Err(AppError::FrameProcessing("expected 8 bytes for YUYV frame, got 0".into()))
    );
    assert_eq!(
        convert_frame_to_image(&[0; 16], &build_format("Y16", u32::MAX, u32::MAX)),
        Err(AppError::FrameProcessing(
            "expected 36893488130239234050 bytes for Y16 frame, got 16".into()
        ))
    );
}

#[test]
fn half_a_macro_pixel_is_refused() {
    assert_eq!(
        convert_frame_to_image(&[1, 2, 3, 4, 5, 6], &build_format("YUYV", 3, 1)),
        Err(AppError::FrameProcessing("incomplete YUYV macro-pixel encountered".into()))
    );
}

#[test]
fn other_formats_are_refused() {
    assert_eq!(
        convert_frame_to_image(&[0; 64], &build_format("MJPG", 2, 2)),
        Err(AppError::FrameProcessing("unsupported conversion from pixel format MJPG".into()))
    );
    assert_eq!(
        convert_frame_to_image(&[0; 64], &build_format("y16", 2, 2)),
        Err(AppError::FrameProcessing("unsupported conversion from pixel format y16".into()))
    );
}

#[test]
fn four_character_codes_are_padded_with_spaces() {
    assert_eq!(parse_fourcc("Y16"), Ok(FourCC { repr: *b"Y16 " }));
    assert_eq!(parse_fourcc("YUYV"), Ok(FourCC { repr: *b"YUYV" }));
    assert_eq!(parse_fourcc("G"), Ok(FourCC { repr: *b"G   " }));
    assert_eq!(parse_fourcc(""), Err(()));
    assert_eq!(parse_fourcc("GREY8"), Err(()));
    assert_eq!(parse_fourcc("äb"), Ok(FourCC { repr: [0xC3, 0xA4, b'b', b' '] }));
    assert_eq!(parse_fourcc("äöü"), Err(()));
}

#[test]
fn the_name_of_a_code_loses_its_padding() {
    assert_eq!(fourcc_to_string(FourCC { repr: *b"Y16 " }), "Y16");
    assert_eq!(fourcc_to_string(FourCC { repr: *b"Y16\0" }), "Y16");
    assert_eq!(fourcc_to_string(FourCC { repr: *b" Y8 " }), "Y8");
    assert_eq!(fourcc_to_string(FourCC { repr: *b"A B\0" }), "A B");
    assert_eq!(fourcc_to_string(FourCC { repr: *b"    " }), "");
    assert_eq!(fourcc_to_string(FourCC { repr: [0xFF, b'a', b' ', 0] }), "\u{fffd}a");
}

#[test]
fn gray_becomes_colour_by_repeating_each_value() {
    let gray = GrayFrame { width: 2, height: 1, pixels: vec![7, 200] };
    let rgb = gray_to_rgb(&gray);
    assert_eq!(rgb.width, 2);
    assert_eq!(rgb.height, 1);
    assert_eq!(rgb.pixels, vec![7, 7, 7, 200, 200, 200]);
}

#[test]
fn a_device_must_capture_and_transfer() {
    assert!(ensure_capabilities(true, true, false).is_ok());
    assert!(ensure_capabilities(true, false, true).is_ok());
    assert_eq!(
        ensure_capabilities(false, true, true),
        Err(AppError::Capability("missing VIDEO_CAPTURE".into()))
    );
    assert_eq!(
        ensure_capabilities(true, false, false),
        Err(AppError::Capability("missing READ_WRITE or STREAMING".into()))
    );
    assert_eq!(
        ensure_capabilities(false, false, false),
        Err(AppError::Capability(
            "missing VIDEO_CAPTURE, missing READ_WRITE or STREAMING".into()
        ))
    );
}

#[test]
fn the_format_must_be_listed() {
    let formats = vec![FourCC { repr: *b"YUYV" }, FourCC { repr: *b"Y16 " }];
    assert!(ensure_format_supported(&formats, FourCC { repr: *b"Y16 " }).is_ok());
    assert_eq!(
        ensure_format_supported(&formats, FourCC { repr: *b"GREY" }),
        Err(AppError::UnsupportedFormat("GREY".into()))
    );
    assert_eq!(
        ensure_format_supported(&Vec::new(), FourCC { repr: *b"Y16 " }),
        Err(AppError::UnsupportedFormat("Y16".into()))
    );
}

#[test]
fn the_frame_size_must_be_offered() {
    let offers = vec![
        FrameSizeOffer::Discrete { width: 640, height: 480 },
        FrameSizeOffer::Stepwise { min_width: 16, max_width: 320, min_height: 16, max_height: 240 },
    ];
    let y16 = FourCC { repr: *b"Y16 " };
    let mut logs = Vec::new();
    assert!(ensure_framesize_supported(&offers, y16, 640, 480, &mut logs).is_ok());
    assert!(ensure_framesize_supported(&offers, y16, 320, 16, &mut logs).is_ok());
    assert_eq!(
        logs,
        vec![
            "Frame size 640x480 supported (discrete)".to_string(),
            "Frame size 320x16 supported (stepwise)".to_string(),
        ]
    );
    assert_eq!(
        ensure_framesize_supported(&offers, y16, 641, 480, &mut logs),
        Err(AppError::UnsupportedFrameSize { width: 641, height: 480, pixel_format: "Y16".into() })
    );
    assert_eq!(logs.len(), 2);
}

#[test]
fn control_names_are_compared_without_separators_and_case() {
    assert_eq!(normalize_control_name("Exposure, Auto"), "exposureauto");
    assert_eq!(normalize_control_name("Auto_Exposure"), "autoexposure");
    assert_eq!(normalize_control_name("Exposure (Absolute)"), "exposure(absolute)");
    assert_eq!(normalize_control_name(" - _ , "), "");
    assert_eq!(normalize_control_name("Größe"), "größe");
    assert_eq!(normalize_control_name("İ"), "i\u{307}");
}

fn control(id: u32, name: &str, kind: ControlKind, min: i64, max: i64, default: i64) -> ControlDescription {
    ControlDescription { id, name: name.into(), kind, minimum: min, maximum: max, default }
}

#[test]
fn controls_are_found_by_any_of_their_names() {
    let controls = vec![
        control(1, "Brightness", ControlKind::Integer, 0, 255, 128),
        control(2, "exposure_auto", ControlKind::Menu, 0, 3, 3),
        control(3, "Exposure, Auto", ControlKind::Menu, 0, 3, 3),
    ];
    assert_eq!(find_control(&controls, &vec!["Exposure, Auto", "Auto Exposure"]), Some(1));
    assert_eq!(find_control(&controls, &vec!["Gain"]), None);
    assert_eq!(find_control(&controls, &vec!["gain", "BRIGHTNESS"]), Some(0));
    assert_eq!(find_control(&controls, &Vec::new()), None);
    assert_eq!(find_control(&Vec::new(), &vec!["Gain"]), None);
}

#[test]
fn an_automatic_control_is_switched_on_by_a_value_that_is_not_its_minimum() {
    assert_eq!(
        auto_control_value(&control(1, "a", ControlKind::Boolean, 0, 1, 0)),
        ControlValue::Boolean(true)
    );
    assert_eq!(
        auto_control_value(&control(1, "a", ControlKind::Menu, 0, 3, 2)),
        ControlValue::Integer(2)
    );
    assert_eq!(
        auto_control_value(&control(1, "a", ControlKind::Integer, 1, 3, 1)),
        ControlValue::Integer(3)
    );
    assert_eq!(
        auto_control_value(&control(1, "a", ControlKind::IntegerMenu, 5, 5, 5)),
        ControlValue::Integer(5)
    );
    assert_eq!(
        auto_control_value(&control(1, "a", ControlKind::Other, 0, 9, 0)),
        ControlValue::Integer(0)
    );
}

struct FakeCaptureDevice {
    caps: DeviceCaps,
    formats: Vec<FourCC>,
    framesizes: Vec<FrameSizeOffer>,
    format: FrameFormat,
    controls: Result<Vec<ControlDescription>, ControlQueryError>,
    failing_controls: Vec<u32>,
    set_control_calls: Vec<(u32, ControlValue)>,
    frames: VecDeque<Vec<u8>>,
}

impl FakeCaptureDevice {
    fn new(format: FrameFormat) -> Self {
        Self {
            caps: DeviceCaps {
                driver: "fake".into(),
                card: "Fake Cam".into(),
                bus: "usb-0".into(),
                video_capture: true,
                read_write: false,
                streaming: true,
            },
            formats: vec![format.fourcc],
            framesizes: vec![FrameSizeOffer::Discrete { width: format.width, height: format.height }],
            format,
            controls: Ok(Vec::new()),
            failing_controls: Vec::new(),
            set_control_calls: Vec::new(),
            frames: VecDeque::new(),
        }
    }
}

impl CaptureDevice for FakeCaptureDevice {
    fn query_caps(&self) -> AppResult<DeviceCaps> {
        Ok(self.caps.clone())
    }

    fn enum_formats(&self) -> AppResult<Vec<FourCC>> {
        Ok(self.formats.clone())
    }

    fn enum_framesizes(&self, _fourcc: FourCC) -> AppResult<Vec<FrameSizeOffer>> {
        Ok(self.framesizes.clone())
    }

    fn format(&self) -> AppResult<FrameFormat> {
        Ok(self.format)
    }

    fn set_format(&mut self, format: &FrameFormat) -> AppResult<FrameFormat> {
        self.format = *format;
        Ok(self.format)
    }

    fn query_controls(&self) -> Result<Vec<ControlDescription>, ControlQueryError> {
        self.controls.clone()
    }

    fn set_control(&mut self, id: u32, value: ControlValue) -> Result<(), String> {
        self.set_control_calls.push((id, value));
        if self.failing_controls.contains(&id) {
            Err("EINVAL".into())
        } else {
            Ok(())
        }
    }

    fn start_stream(&mut self, _buffer_count: u32) -> AppResult<()> {
        Ok(())
    }

    fn next_frame(&mut self) -> Result<Vec<u8>, String> {
        self.frames.pop_front().ok_or_else(|| "no more frames".to_string())
    }
}

fn capture_config(pixel_format: &str) -> CaptureConfig {
    CaptureConfig {
        device: DeviceLocator::Index(2),
        pixel_format: pixel_format.into(),
        width: None,
        height: None,
        exposure: None,
        gain: None,
        auto_exposure: false,
        auto_gain: false,
        warmup_frames: 0,
        output: None,
    }
}

#[test]
fn a_capture_converts_the_frame_after_the_warm_up() {
    let mut device = FakeCaptureDevice::new(build_format("GREY", 2, 1));
    device.frames = VecDeque::from(vec![vec![0, 0], vec![1, 1], vec![8, 9]]);
    let mut config = capture_config("GREY");
    config.warmup_frames = 2;
    let capture = capture_frame_in_memory(&mut device, &config).unwrap();
    assert_eq!(capture.image, GrayFrame { width: 2, height: 1, pixels: vec![8, 9] });
    assert_eq!(capture.device.path, "/dev/video2");
    assert_eq!(capture.device.driver, "fake");
    assert_eq!(capture.format.pixel_format, "GREY");
    assert_eq!(
        capture.logs,
        vec![
            "Opened device /dev/video2".to_string(),
            "Device: driver=fake card=Fake Cam bus=usb-0".to_string(),
            "Pixel format GREY supported".to_string(),
            "Negotiated format: GREY 2x1".to_string(),
            "Discarding 2 warm-up frame(s) before capture".to_string(),
        ]
    );
    assert_eq!(capture.control.auto_exposure, None);
    assert_eq!(capture.control.auto_gain, None);
}

#[test]
fn a_capture_fails_where_the_device_falls_short() {
    let mut device = FakeCaptureDevice::new(build_format("GREY", 2, 1));
    device.caps.video_capture = false;
    assert_eq!(
        capture_frame_in_memory(&mut device, &capture_config("GREY")),
        Err(AppError::Capability("missing VIDEO_CAPTURE".into()))
    );
    let mut device = FakeCaptureDevice::new(build_format("GREY", 2, 1));
    assert_eq!(
        capture_frame_in_memory(&mut device, &capture_config("TOOLONG")),
        Err(AppError::UnsupportedFormat("TOOLONG".into()))
    );
    assert_eq!(
        capture_frame_in_memory(&mut device, &capture_config("Y16")),
        Err(AppError::UnsupportedFormat("Y16".into()))
    );
    let mut config = capture_config("GREY");
    config.width = Some(4);
    config.height = Some(4);
    assert_eq!(
        capture_frame_in_memory(&mut device, &config),
        Err(AppError::UnsupportedFrameSize { width: 4, height: 4, pixel_format: "GREY".into() })
    );
    let mut config = capture_config("GREY");
    config.warmup_frames = 1;
    assert_eq!(
        capture_frame_in_memory(&mut device, &config),
        Err(AppError::FrameProcessing(
            "failed to read warm-up frame 1: no more frames".into()
        ))
    );
    assert_eq!(
        capture_frame_in_memory(&mut device, &capture_config("GREY")),
        Err(AppError::Io("no more frames".into()))
    );
}

#[test]
fn controls_are_set_automatic_first() {
    let mut device = FakeCaptureDevice::new(build_format("GREY", 1, 1));
    device.controls = Ok(vec![
        control(10, "Exposure, Auto", ControlKind::Menu, 0, 3, 3),
        control(11, "Exposure (Absolute)", ControlKind::Integer, 1, 5000, 100),
        control(12, "Gain", ControlKind::Integer, 0, 100, 10),
    ]);
    let mut config = capture_config("GREY");
    config.auto_exposure = true;
    config.exposure = Some(120);
    config.gain = Some(-4);
    config.auto_gain = true;
    let mut logs = Vec::new();
    let report = apply_controls(&mut device, &config, &mut logs).unwrap();
    assert_eq!(report.auto_exposure.as_deref(), Some("applied"));
    assert_eq!(report.auto_gain.as_deref(), Some("unsupported"));
    assert_eq!(
        device.set_control_calls,
        vec![(10, ControlValue::Integer(3)), (12, ControlValue::Integer(-4))]
    );
    assert_eq!(
        logs,
        vec![
            "Enabled auto exposure via 'Exposure, Auto'".to_string(),
            "Auto gain control not supported".to_string(),
            "Skipping manual exposure because auto exposure is active".to_string(),
            "Set gain to -4".to_string(),
        ]
    );
}

#[test]
fn a_control_that_fails_is_logged_and_reported() {
    let mut device = FakeCaptureDevice::new(build_format("GREY", 1, 1));
    device.controls = Ok(vec![
        control(10, "Auto Exposure", ControlKind::Boolean, 0, 1, 0),
        control(11, "Exposure", ControlKind::Integer, 1, 5000, 100),
    ]);
    device.failing_controls = vec![10, 11];
    let mut config = capture_config("GREY");
    config.auto_exposure = true;
    config.exposure = Some(7);
    config.gain = Some(1);
    let mut logs = Vec::new();
    let report = apply_controls(&mut device, &config, &mut logs).unwrap();
    assert_eq!(report.auto_exposure.as_deref(), Some("failed"));
    assert_eq!(report.auto_gain, None);
    assert_eq!(
        device.set_control_calls,
        vec![(10, ControlValue::Boolean(true)), (11, ControlValue::Integer(7))]
    );
    assert_eq!(
        logs,
        vec![
            "Failed to enable auto exposure: EINVAL".to_string(),
            "Failed to set exposure: EINVAL".to_string(),
            "Gain control not supported".to_string(),
        ]
    );
}

#[test]
fn nothing_is_asked_of_the_device_where_no_control_is_wanted() {
    let mut device = FakeCaptureDevice::new(build_format("GREY", 1, 1));
    device.controls = Err(ControlQueryError::UnsupportedType);
    let mut logs = Vec::new();
    let report = apply_controls(&mut device, &capture_config("GREY"), &mut logs).unwrap();
    assert_eq!(report.auto_exposure, None);
    assert_eq!(report.auto_gain, None);
    assert!(logs.is_empty());
    assert!(device.set_control_calls.is_empty());
}

#[test]
fn controls_fall_back_to_well_known_identifiers() {
    let mut device = FakeCaptureDevice::new(build_format("GREY", 1, 1));
    device.controls = Err(ControlQueryError::Failed("ENOTTY".into()));
    let mut config = capture_config("GREY");
    config.auto_exposure = true;
    config.exposure = Some(50);
    config.auto_gain = true;
    config.gain = Some(3);
    let mut logs = Vec::new();
    let report = apply_controls(&mut device, &config, &mut logs).unwrap();
    assert_eq!(report.auto_exposure.as_deref(), Some("applied"));
    assert_eq!(report.auto_gain.as_deref(), Some("unsupported"));
    assert_eq!(
        device.set_control_calls,
        vec![
            (0x009a0901, ControlValue::Integer(3)),
            (0x009a0902, ControlValue::Integer(50)),
            (0x00980913, ControlValue::Integer(3)),
        ]
    );
    assert_eq!(
        logs,
        vec![
            "Unable to query controls: ENOTTY".to_string(),
            "Falling back to legacy control IDs due to query failure".to_string(),
            "Enabled auto exposure via fallback control (aperture priority)".to_string(),
            "Set exposure to 50 via fallback control".to_string(),
            "Auto gain control fallback not available in legacy path".to_string(),
            "Set gain to 3 via fallback control".to_string(),
        ]
    );

    let mut device = FakeCaptureDevice::new(build_format("GREY", 1, 1));
    device.failing_controls = vec![0x009a0902];
    let mut config = capture_config("GREY");
    config.exposure = Some(50);
    let mut logs = Vec::new();
    let report = apply_fallback_controls(&mut device, &config, &mut logs);
    assert_eq!(report.auto_exposure, None);
    assert_eq!(
        logs,
        vec![
            "Falling back to legacy control IDs due to query failure".to_string(),
            "Skipping fallback auto exposure because manual exposure requested".to_string(),
            "Failed to set exposure via fallback control: EINVAL".to_string(),
        ]
    );
}

struct MemorySink;

impl CaptureSink for MemorySink {
    fn store(&self, image: &GrayFrame, requested: Option<&str>) -> AppResult<String> {
        assert_eq!(image.pixels.len(), 2);
        Ok(requested.unwrap_or("captures/ir-frame.png").to_string())
    }
}

#[test]
fn a_capture_is_handed_to_the_sink() {
    let mut device = FakeCaptureDevice::new(build_format("GREY", 2, 1));
    device.frames = VecDeque::from(vec![vec![8, 9], vec![8, 9]]);
    let mut config = capture_config("GREY");
    config.output = Some("/tmp/frame.png".into());
    config.exposure = Some(9);
    let outcome = run_capture(&mut device, &MemorySink, &config).unwrap();
    assert!(outcome.summary.success);
    assert_eq!(outcome.summary.output_path, "/tmp/frame.png");
    assert_eq!(outcome.summary.exposure, Some(9));
    assert_eq!(outcome.summary.format.width, 2);
    assert_eq!(outcome.logs.last().unwrap(), "Saved frame to /tmp/frame.png");
    config.output = None;
    let outcome = run_capture(&mut device, &MemorySink, &config).unwrap();
    assert_eq!(outcome.summary.output_path, "captures/ir-frame.png");
}
