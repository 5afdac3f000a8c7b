//! Frames as the camera delivers them and as the face extractor wants them.
use crate::errors::{AppError, AppResult};
use crate::text::{
    all_ascii, ascii_text, chars_between, chars_of, decimal, decimal_digits, decimal_wide,
    lossy_text, str_eq, string_of, utf8_lossy_text,
};
use vstd::prelude::*;
use vstd::string::StringExecFns;
use vstd::string::StringSliceAdditionalSpecFns;

verus! {

/// The four-character code of a pixel format.
#[derive(Debug, Clone, Copy, PartialEq, Eq)]
pub struct FourCC {
    pub repr: [u8; 4],
}

/// The format frames are delivered in.
#[derive(Debug, Clone, Copy, PartialEq, Eq)]
pub struct FrameFormat {
    pub width: u32,
    pub height: u32,
    pub fourcc: FourCC,
}

/// A frame of gray values, one byte per pixel, row by row.
#[derive(Debug, Clone, PartialEq, Eq)]
pub struct GrayFrame {
    pub width: u32,
    pub height: u32,
    pub pixels: Vec<u8>,
}

/// A frame of colour values, three bytes per pixel, row by row.
#[derive(Debug, Clone, PartialEq, Eq)]
pub struct RgbFrame {
    pub width: u32,
    pub height: u32,
    pub pixels: Vec<u8>,
}

impl GrayFrame {
    /// Whether the frame holds exactly one byte for each of its pixels.
    pub open spec fn well_formed(&self) -> bool {
        self.pixels@.len() == self.width * self.height
    }
}

impl RgbFrame {
    /// Whether the frame holds exactly three bytes for each of its pixels.
    pub open spec fn well_formed(&self) -> bool {
        self.pixels@.len() == 3 * (self.width * self.height)
    }
}

/// The code that `bytes` spell: at most four bytes, padded with spaces;
/// none where there are no bytes or more than four.
pub open spec fn fourcc_of(bytes: Seq<u8>) -> Option<Seq<u8>> {
    if bytes.len() == 0 || bytes.len() > 4 {
        None
    } else {
        Some(Seq::new(4, |i: int| if i < bytes.len() { bytes[i] } else { 32u8 }))
    }
}

/// Reads a four-character code.
pub fn parse_fourcc(code: &str) -> (parsed: Result<FourCC, ()>)
    ensures
        match fourcc_of(code.spec_bytes()) {
            Some(repr) => parsed matches Ok(fourcc) && fourcc.repr@ == repr,
            None => parsed is Err,
        },
{
    let bytes = code.as_bytes();
    let n = bytes.len();
    if n == 0 || n > 4 {
        return Err(());
    }
    let b0 = bytes[0];
    let b1 = if n > 1 {
        bytes[1]
    } else {
        32u8
    };
    let b2 = if n > 2 {
        bytes[2]
    } else {
        32u8
    };
    let b3 = if n > 3 {
        bytes[3]
    } else {
        32u8
    };
    let repr: [u8; 4] = [b0, b1, b2, b3];
    assert(repr@ =~= fourcc_of(code.spec_bytes())->0);
    Ok(FourCC { repr })
}

/// Whether `c` pads a four-character code: a space or a NUL.
pub open spec fn is_padding(c: char) -> bool {
    c == ' ' || c == '\0'
}

/// The first index at or after `from` whose character is no padding.
pub open spec fn skip_padding(s: Seq<char>, from: int) -> int
    decreases s.len() - from,
{
    if 0 <= from < s.len() && is_padding(s[from]) {
        skip_padding(s, from + 1)
    } else {
        from
    }
}

/// The end of the text once the padding at its end is dropped, never below
/// `floor`.
pub open spec fn skip_padding_back(s: Seq<char>, floor: int, end: int) -> int
    decreases end,
{
    if 0 <= floor < end <= s.len() && is_padding(s[end - 1]) {
        skip_padding_back(s, floor, end - 1)
    } else {
        end
    }
}

/// `s` without the padding at its ends.
pub open spec fn without_padding(s: Seq<char>) -> Seq<char> {
    let start = skip_padding(s, 0);
    let end = skip_padding_back(s, start, s.len() as int);
    s.subrange(start, end)
}

/// The name of a four-character code: its bytes read as text, without the
/// padding at the ends.
pub open spec fn fourcc_name(repr: Seq<u8>) -> Seq<char> {
    without_padding(utf8_lossy_text(repr))
}

/// The name of a four-character code.
pub fn fourcc_to_string(fourcc: FourCC) -> (name: String)
    ensures
        name@ == fourcc_name(fourcc.repr@),
        all_ascii(fourcc.repr@) ==> name@ == without_padding(ascii_text(fourcc.repr@)),
{
    let text = lossy_text(fourcc.repr.as_slice());
    let chars = chars_of(text.as_str());
    let n = chars.len();
    let mut start: usize = 0;
    while start < n && (chars[start] == ' ' || chars[start] == '\0')
        invariant
            n == chars.len(),
            start <= n,
            skip_padding(chars@, 0) == skip_padding(chars@, start as int),
        decreases n - start,
    {
        start += 1;
    }
    let mut end: usize = n;
    while start < end && (chars[end - 1] == ' ' || chars[end - 1] == '\0')
        invariant
            n == chars.len(),
            start <= end <= n,
            skip_padding_back(chars@, start as int, n as int) == skip_padding_back(
                chars@,
                start as int,
                end as int,
            ),
        decreases end,
    {
        end -= 1;
    }
    let kept = chars_between(&chars, start, end);
    string_of(kept.as_slice())
}

/// How the bytes of a frame are laid out.
#[derive(Debug, Clone, Copy, PartialEq, Eq, Structural)]
pub enum PixelLayout {
    /// Sixteen bits per pixel, low byte first.
    Y16,
    /// Eight bits per pixel.
    Grey,
    /// Two pixels in four bytes: luminance, chroma, luminance, chroma.
    Yuyv,
}

/// The layout of the format of this name, if frames of it can be converted.
pub open spec fn layout_named(name: Seq<char>) -> Option<PixelLayout> {
    if name == "Y16"@ {
        Some(PixelLayout::Y16)
    } else if name == "GREY"@ || name == "Y08"@ {
        Some(PixelLayout::Grey)
    } else if name == "YUYV"@ {
        Some(PixelLayout::Yuyv)
    } else {
        None
    }
}

/// The bytes a frame of `pixels` pixels takes in this layout.
pub open spec fn frame_bytes(layout: PixelLayout, pixels: int) -> int {
    match layout {
        PixelLayout::Grey => pixels,
        _ => pixels * 2,
    }
}

/// The gray values of the first `count` pixels of `data`: of sixteen bits
/// the high byte, of eight bits the byte, of a macro-pixel the luminance.
pub open spec fn gray_values(data: Seq<u8>, layout: PixelLayout, count: int) -> Seq<u8> {
    match layout {
        PixelLayout::Y16 => Seq::new(count as nat, |i: int| data[2 * i + 1]),
        PixelLayout::Grey => Seq::new(count as nat, |i: int| data[i]),
        PixelLayout::Yuyv => Seq::new(count as nat, |i: int| data[2 * i]),
    }
}

/// Why a frame is not converted.
pub enum FrameFault {
    /// Frames of this format cannot be converted.
    Unsupported,
    /// The frame is shorter than its format requires.
    Short,
    /// The frame ends in half a macro-pixel.
    Incomplete,
}

/// What is wrong with a frame of `len` bytes in the format `name` for
/// `pixels` pixels, if anything.
pub open spec fn frame_fault(name: Seq<char>, pixels: int, len: int) -> Option<FrameFault> {
    match layout_named(name) {
        None => Some(FrameFault::Unsupported),
        Some(layout) => if len < frame_bytes(layout, pixels) {
            Some(FrameFault::Short)
        } else if layout == PixelLayout::Yuyv && pixels % 2 != 0 {
            Some(FrameFault::Incomplete)
        } else {
            None
        },
    }
}

/// The message for a fault.
pub open spec fn frame_fault_text(fault: FrameFault, name: Seq<char>, pixels: int, len: int) -> Seq<
    char,
> {
    match fault {
        FrameFault::Unsupported => "unsupported conversion from pixel format "@ + name,
        FrameFault::Short => "expected "@ + decimal_digits(
            frame_bytes(layout_named(name)->0, pixels) as nat,
        ) + " bytes for "@ + name + " frame, got "@ + decimal_digits(len as nat),
        FrameFault::Incomplete => "incomplete YUYV macro-pixel encountered"@,
    }
}

fn short_frame(expected: u128, name: &str, len: usize) -> (err: AppError)
    ensures
        err matches AppError::FrameProcessing(message) && message@ == "expected "@
            + decimal_digits(expected as nat) + " bytes for "@ + name@ + " frame, got "@
            + decimal_digits(len as nat),
{
    let mut m = "expected ".to_owned();
    let e = decimal_wide(expected);
    m.append(e.as_str());
    m.append(" bytes for ");
    m.append(name);
    m.append(" frame, got ");
    let l = decimal(len as u64);
    m.append(l.as_str());
    AppError::FrameProcessing(m)
}

fn take_every_other(data: &[u8], offset: usize, count: usize) -> (out: Vec<u8>)
    requires
        offset < 2,
        2 * count <= data@.len(),
    ensures
        out@ == Seq::new(count as nat, |i: int| data@[2 * i + offset]),
{
    let mut out: Vec<u8> = Vec::new();
    let n = data.len();
    let mut i: usize = 0;
    while i < count
        invariant
            i <= count,
            offset < 2,
            n == data@.len(),
            2 * count <= data@.len(),
            out@ == Seq::new(i as nat, |k: int| data@[2 * k + offset]),
        decreases count - i,
    {
        out.push(data[2 * i + offset]);
        assert(out@ =~= Seq::new((i + 1) as nat, |k: int| data@[2 * k + offset]));
        i += 1;
    }
    out
}

fn take_first(data: &[u8], count: usize) -> (out: Vec<u8>)
    requires
        count <= data@.len(),
    ensures
        out@ == Seq::new(count as nat, |i: int| data@[i]),
{
    let mut out: Vec<u8> = Vec::new();
    let mut i: usize = 0;
    while i < count
        invariant
            i <= count,
            count <= data@.len(),
            out@ == Seq::new(i as nat, |k: int| data@[k]),
        decreases count - i,
    {
        out.push(data[i]);
        assert(out@ =~= Seq::new((i + 1) as nat, |k: int| data@[k]));
        i += 1;
    }
    out
}

/// Converts the bytes of a frame into gray values, one per pixel. The frame
/// must be in one of the formats `Y16`, `GREY`, `Y08` and `YUYV` and hold at
/// least the bytes its format requires; what exceeds them is ignored.
pub fn convert_frame_to_image(data: &[u8], format: &FrameFormat) -> (converted: AppResult<
    GrayFrame,
>)
    ensures
        match frame_fault(
            fourcc_name(format.fourcc.repr@),
            format.width * format.height,
            data@.len() as int,
        ) {
            Some(fault) => converted matches Err(AppError::FrameProcessing(message)) && message@
                == frame_fault_text(
                fault,
                fourcc_name(format.fourcc.repr@),
                format.width * format.height,
                data@.len() as int,
            ),
            None => converted matches Ok(frame) && frame.width == format.width && frame.height
                == format.height && frame.well_formed() && frame.pixels@ == gray_values(
                data@,
                layout_named(fourcc_name(format.fourcc.repr@))->0,
                format.width * format.height,
            ),
        },
{
    let name = fourcc_to_string(format.fourcc);
    assert(format.width * format.height <= 0xFFFF_FFFF * 0xFFFF_FFFF) by (nonlinear_arith)
        requires
            format.width <= 0xFFFF_FFFF,
            format.height <= 0xFFFF_FFFF,
    ;
    let pixels: u128 = format.width as u128 * format.height as u128;
    let len = data.len();
    if str_eq(name.as_str(), "Y16") {
        if (len as u128) < pixels * 2 {
            return Err(short_frame(pixels * 2, name.as_str(), len));
        }
        let out = take_every_other(data, 1, pixels as usize);
        Ok(GrayFrame { width: format.width, height: format.height, pixels: out })
    } else if str_eq(name.as_str(), "GREY") || str_eq(name.as_str(), "Y08") {
        if (len as u128) < pixels {
            return Err(short_frame(pixels, name.as_str(), len));
        }
        let out = take_first(data, pixels as usize);
        Ok(GrayFrame { width: format.width, height: format.height, pixels: out })
    } else if str_eq(name.as_str(), "YUYV") {
        if (len as u128) < pixels * 2 {
            return Err(short_frame(pixels * 2, name.as_str(), len));
        }
        if pixels % 2 != 0 {
            return Err(
                AppError::FrameProcessing("incomplete YUYV macro-pixel encountered".to_owned()),
            );
        }
        let out = take_every_other(data, 0, pixels as usize);
        Ok(GrayFrame { width: format.width, height: format.height, pixels: out })
    } else {
        let mut m = "unsupported conversion from pixel format ".to_owned();
        m.append(name.as_str());
        Err(AppError::FrameProcessing(m))
    }
}

/// The colour values of gray values: each gray value three times over.
pub open spec fn rgb_values(gray: Seq<u8>) -> Seq<u8> {
    Seq::new(3 * gray.len(), |i: int| gray[i / 3])
}

/// Turns a gray frame into a colour frame of the same size in which red,
/// green and blue of each pixel are its gray value.
pub fn gray_to_rgb(image: &GrayFrame) -> (rgb: RgbFrame)
    ensures
        rgb.width == image.width,
        rgb.height == image.height,
        image.well_formed() ==> rgb.well_formed(),
        rgb.pixels@ == rgb_values(image.pixels@),
{
    let mut pixels: Vec<u8> = Vec::new();
    let mut i: usize = 0;
    while i < image.pixels.len()
        invariant
            i <= image.pixels.len(),
            pixels@ == rgb_values(image.pixels@.take(i as int)),
        decreases image.pixels.len() - i,
    {
        let v = image.pixels[i];
        pixels.push(v);
        pixels.push(v);
        pixels.push(v);
        assert(pixels@ =~= rgb_values(image.pixels@.take(i + 1))) by {
            assert forall|k: int| 0 <= k < 3 * (i + 1) implies pixels@[k] == image.pixels@.take(
                i + 1,
            )[k / 3] by {
                if k < 3 * i {
                    assert(pixels@[k] == rgb_values(image.pixels@.take(i as int))[k]);
                }
            }
        }
        i += 1;
    }
    assert(image.pixels@.take(image.pixels@.len() as int) == image.pixels@);
    RgbFrame { width: image.width, height: image.height, pixels }
}

} // verus!
