//! The textual arguments the per-stream filter graphs are built with:
//! pixel-format names and the buffer-source parameter strings, rendered
//! exactly.

use vstd::prelude::*;
use vstd::string::StringExecFns;
use crate::args::{AudioArgs, PixelFormat, VideoArgs};

verus! {

/// Relies on String::push: appends exactly one character.
#[verifier::external_body]
fn push_char(s: &mut String, c: char)
    ensures
        final(s)@ == old(s)@.push(c),
{
    s.push(c);
}

pub open spec fn spec_digit_char(d: int) -> char {
    if d == 0 {
        '0'
    } else if d == 1 {
        '1'
    } else if d == 2 {
        '2'
    } else if d == 3 {
        '3'
    } else if d == 4 {
        '4'
    } else if d == 5 {
        '5'
    } else if d == 6 {
        '6'
    } else if d == 7 {
        '7'
    } else if d == 8 {
        '8'
    } else {
        '9'
    }
}

fn digit_char(d: u8) -> (c: char)
    requires
        d < 10,
    ensures
        c == spec_digit_char(d as int),
{
    match d {
        0 => '0',
        1 => '1',
        2 => '2',
        3 => '3',
        4 => '4',
        5 => '5',
        6 => '6',
        7 => '7',
        8 => '8',
        _ => '9',
    }
}

/// The decimal digits of `n`, most significant first, no sign and no
/// leading zero except for zero itself.
pub open spec fn spec_decimal(n: int) -> Seq<char>
    recommends
        n >= 0,
    decreases n,
{
    if n < 10 {
        seq![spec_digit_char(n)]
    } else {
        spec_decimal(n / 10).push(spec_digit_char(n % 10))
    }
}

/// Renders a number in decimal.
pub fn u32_to_decimal(n: u32) -> (s: String)
    ensures
        s@ == spec_decimal(n as int),
    decreases n,
{
    if n < 10 {
        let mut s: String = String::new();
        push_char(&mut s, digit_char(n as u8));
        s
    } else {
        let mut s: String = u32_to_decimal(n / 10);
        push_char(&mut s, digit_char((n % 10) as u8));
        s
    }
}

/// The backend's name for each pixel layout; the packed 16-bit layouts
/// are named for the byte order of the machine the buffers come from.
pub open spec fn spec_pixel_format_name(fmt: PixelFormat, big_endian: bool) -> Seq<char> {
    match fmt {
        PixelFormat::Bgra => "bgra"@,
        PixelFormat::Rgb555 => if big_endian {
            "rgb555be"@
        } else {
            "rgb555le"@
        },
        PixelFormat::Rgb32 => "argb"@,
        PixelFormat::Rgb565 => if big_endian {
            "rgb565be"@
        } else {
            "rgb565le"@
        },
    }
}

/// The backend's name for each pixel layout.
pub fn pixel_format_name(fmt: PixelFormat, big_endian: bool) -> (r: &'static str)
    ensures
        r@ == spec_pixel_format_name(fmt, big_endian),
{
    match fmt {
        PixelFormat::Bgra => "bgra",
        PixelFormat::Rgb555 => if big_endian {
            "rgb555be"
        } else {
            "rgb555le"
        },
        PixelFormat::Rgb32 => "argb",
        PixelFormat::Rgb565 => if big_endian {
            "rgb565be"
        } else {
            "rgb565le"
        },
    }
}

/// The parameter string of the video buffer source: geometry, pixel
/// format, frame rate, square pixels, and a time base of one tick per
/// frame.
pub open spec fn spec_video_filter_args(args: VideoArgs, big_endian: bool) -> Seq<char> {
    "width="@ + spec_decimal(args.width as int) + ":height="@ + spec_decimal(args.height as int)
        + ":pix_fmt="@ + spec_pixel_format_name(args.pixel_format, big_endian) + ":frame_rate="@
        + spec_decimal(args.fps as int) + ":pixel_aspect=1:time_base=1/"@ + spec_decimal(
        args.fps as int,
    )
}

/// Renders the video buffer-source parameters.
pub fn video_filter_args(args: &VideoArgs, big_endian: bool) -> (s: String)
    ensures
        s@ == spec_video_filter_args(*args, big_endian),
{
    let mut s: String = String::from_str("width=");
    s.append(u32_to_decimal(args.width).as_str());
    s.append(":height=");
    s.append(u32_to_decimal(args.height).as_str());
    s.append(":pix_fmt=");
    s.append(pixel_format_name(args.pixel_format, big_endian));
    s.append(":frame_rate=");
    s.append(u32_to_decimal(args.fps).as_str());
    s.append(":pixel_aspect=1:time_base=1/");
    s.append(u32_to_decimal(args.fps).as_str());
    s
}

/// The parameter string of the audio buffer source: a time base of one
/// tick per sample, the sample rate, and the fixed packed-stereo sample
/// layout.
pub open spec fn spec_audio_filter_args(args: AudioArgs) -> Seq<char> {
    "time_base=1/"@ + spec_decimal(args.sample_rate as int) + ":sample_rate="@ + spec_decimal(
        args.sample_rate as int,
    ) + ":sample_fmt=s16:channel_layout=stereo"@
}

/// Renders the audio buffer-source parameters.
pub fn audio_filter_args(args: &AudioArgs) -> (s: String)
    ensures
        s@ == spec_audio_filter_args(*args),
{
    let mut s: String = String::from_str("time_base=1/");
    s.append(u32_to_decimal(args.sample_rate).as_str());
    s.append(":sample_rate=");
    s.append(u32_to_decimal(args.sample_rate).as_str());
    s.append(":sample_fmt=s16:channel_layout=stereo");
    s
}

} // verus!
