use retro_av::args::{AudioArgs, PixelFormat, VideoArgs};
use retro_av::filter_args::{audio_filter_args, pixel_format_name, u32_to_decimal, video_filter_args};
use retro_av::logger::{event_row, header_cell, html_epilogue, html_prologue, LogSources};

#[test]
fn decimal_rendering() {
    assert_eq!(u32_to_decimal(0), "0");
    assert_eq!(u32_to_decimal(7), "7");
    assert_eq!(u32_to_decimal(60), "60");
    assert_eq!(u32_to_decimal(44100), "44100");
    assert_eq!(u32_to_decimal(u32::MAX), "4294967295");
}

#[test]
fn pixel_format_names_follow_endianness() {
    assert_eq!(pixel_format_name(PixelFormat::Bgra, false), "bgra");
    assert_eq!(pixel_format_name(PixelFormat::Bgra, true), "bgra");
    assert_eq!(pixel_format_name(PixelFormat::Rgb555, false), "rgb555le");
    assert_eq!(pixel_format_name(PixelFormat::Rgb555, true), "rgb555be");
    assert_eq!(pixel_format_name(PixelFormat::Rgb32, false), "argb");
    assert_eq!(pixel_format_name(PixelFormat::Rgb565, false), "rgb565le");
    assert_eq!(pixel_format_name(PixelFormat::Rgb565, true), "rgb565be");
}

#[test]
fn video_filter_argument_string() {
    let args = VideoArgs { pixel_format: PixelFormat::Bgra, fps: 60, width: 640, height: 480 };
    assert_eq!(
        video_filter_args(&args, false),
        "width=640:height=480:pix_fmt=bgra:frame_rate=60:pixel_aspect=1:time_base=1/60"
    );
}

#[test]
fn audio_filter_argument_string() {
    let args = AudioArgs { sample_rate: 44100 };
    assert_eq!(
        audio_filter_args(&args),
        "time_base=1/44100:sample_rate=44100:sample_fmt=s16:channel_layout=stereo"
    );
}

#[test]
fn log_sources_have_stable_columns() {
    let all = LogSources::all();
    assert_eq!(all, vec![LogSources::Sink, LogSources::Filter, LogSources::Encoder]);
    assert_eq!(LogSources::Sink.column(), 0);
    assert_eq!(LogSources::Filter.column(), 1);
    assert_eq!(LogSources::Encoder.column(), 2);
    assert_eq!(LogSources::Sink.label(), "Sink");
    assert_eq!(LogSources::Filter.label(), "Filter");
    assert_eq!(LogSources::Encoder.label(), "Encoder");
}

#[test]
fn html_pieces() {
    assert_eq!(html_prologue(), "<!DOCTYPE html>\n<html>\n<body>\n<table border=\"1\">\n<tr>");
    assert_eq!(html_epilogue(), "</table></body></html>");
    assert_eq!(header_cell("Sink"), "<th>Sink</th>\n");
}

#[test]
fn event_rows_place_the_description_in_its_column() {
    assert_eq!(
        event_row(3, 0, "Video frame 0, pts 0"),
        "<tr>\n<td>Video frame 0, pts 0</td><td></td><td></td></tr>\n"
    );
    assert_eq!(event_row(3, 1, "x"), "<tr>\n<td></td><td>x</td><td></td></tr>\n");
    assert_eq!(event_row(3, 2, "y"), "<tr>\n<td></td><td></td><td>y</td></tr>\n");
}
