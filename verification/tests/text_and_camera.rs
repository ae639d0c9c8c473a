use traffic_light_control::camera::{
    camera_position, capture_framerates, get_image_dimensions, load_image_for_display,
    parse_avfoundation_devices, parse_device_line,
    selected_camera_id, split_lines, with_fallback_camera,
};
use traffic_light_control::text::{
    chars_of, parse_count_input, parse_count_or_zero, parse_i32, parse_usize, trim_chars,
};

fn chars(s: &str) -> Vec<char> {
    s.chars().collect()
}

const SAMPLES: [&str; 22] = [
    "", "0", "42", "+42", "-42", "-", "+", "--1", "+-1", "007", "2147483647", "2147483648",
    "-2147483648", "-2147483649", "99999999999999999999", "18446744073709551615",
    "18446744073709551616", "1 2", " 5", "12a", "٣", "+0",
];

#[test]
fn integer_parsing_agrees_with_str_parse() {
    for s in SAMPLES {
        assert_eq!(parse_i32(&chars(s)), s.parse::<i32>().ok(), "i32 {:?}", s);
        assert_eq!(parse_usize(&chars(s)), s.parse::<usize>().ok(), "usize {:?}", s);
    }
}

#[test]
fn trimming_agrees_with_str_trim() {
    for s in ["", "   ", " a ", "\t\nab c\r\n", "\u{3000}x\u{2009}", "\u{85}y\u{A0}", "no-space"] {
        let t: String = trim_chars(&chars(s)).into_iter().collect();
        assert_eq!(t, s.trim(), "{:?}", s);
    }
    assert_eq!(chars_of("héllo"), chars("héllo"));
}

#[test]
fn operator_count_inputs() {
    assert_eq!(parse_count_input(" 42 "), Some(42));
    assert_eq!(parse_count_input("+7"), Some(7));
    assert_eq!(parse_count_input("0"), Some(0));
    assert_eq!(parse_count_input("-3"), None);
    assert_eq!(parse_count_input("abc"), None);
    assert_eq!(parse_count_input(""), None);
    assert_eq!(parse_count_input("\u{3000}12\t"), Some(12));
    assert_eq!(parse_count_input("2147483648"), None);
    assert_eq!(parse_count_or_zero("8"), 8);
    assert_eq!(parse_count_or_zero("-5"), 0);
    assert_eq!(parse_count_or_zero("x"), 0);
    for s in SAMPLES {
        assert_eq!(parse_count_input(s), s.trim().parse::<i32>().ok().filter(|v| *v >= 0));
        assert_eq!(parse_count_or_zero(s), s.trim().parse::<i32>().unwrap_or(0).max(0));
    }
}

#[test]
fn lines_agree_with_str_lines() {
    for s in ["", "a", "a\n", "a\nb", "a\r\nb\r\n", "\n\n", "x\r", "\r\n", "one\ntwo\r\nthree"] {
        let got: Vec<String> = split_lines(&chars(s)).into_iter().map(|l| l.into_iter().collect()).collect();
        let want: Vec<String> = s.lines().map(|l| l.to_string()).collect();
        assert_eq!(got, want, "{:?}", s);
    }
}

const LISTING: &str = "ffmpeg version 6.0 Copyright (c) 2000-2023 the FFmpeg developers\n\
[AVFoundation indev @ 0x7f9b1c004a80] AVFoundation video devices:\n\
[AVFoundation indev @ 0x7f9b1c004a80] [0] FaceTime HD Camera\n\
[AVFoundation indev @ 0x7f9b1c004a80] [1] OBS Virtual Camera\r\n\
[AVFoundation indev @ 0x7f9b1c004a80] [x] Broken Entry\n\
[AVFoundation indev @ 0x7f9b1c004a80] [3] Loopback audio\n\
[AVFoundation indev @ 0x7f9b1c004a80] [2] Capture screen 0\n\
[AVFoundation indev @ 0x7f9b1c004a80] AVFoundation audio devices:\n\
[AVFoundation indev @ 0x7f9b1c004a80] [0] MacBook Pro Microphone\n\
: Input/output error\n";

#[test]
fn avfoundation_listing() {
    let devices = parse_avfoundation_devices(LISTING);
    assert_eq!(
        devices,
        vec![
            (0, "FaceTime HD Camera".to_string()),
            (1, "OBS Virtual Camera".to_string()),
            (2, "Capture screen 0".to_string()),
        ]
    );
    assert!(parse_avfoundation_devices("").is_empty());
    assert!(parse_avfoundation_devices("[AVFoundation indev @ 0x1] [0] Cam\n").is_empty());
}

#[test]
fn device_lines() {
    assert_eq!(parse_device_line(&chars("[AVFoundation indev @ 0x1] [ 4 ]  Desk Cam ")), Some((4, chars("Desk Cam"))));
    assert_eq!(parse_device_line(&chars("[AVFoundation indev @ 0x1] [4]")), None);
    assert_eq!(parse_device_line(&chars("[AVFoundation indev @ 0x1] [4]   ")), None);
    assert_eq!(parse_device_line(&chars("no brackets")), None);
    assert_eq!(parse_device_line(&chars("[AVFoundation indev @ 0x1] [5")), None);
}

#[test]
fn fallback_and_selection() {
    assert_eq!(with_fallback_camera(vec![]), vec![(0, "Camera 0".to_string())]);
    let devices = vec![(3, "A".to_string()), (7, "B".to_string()), (7, "C".to_string())];
    assert_eq!(with_fallback_camera(devices.clone()), devices);
    assert_eq!(selected_camera_id(&devices, 1), 7);
    assert_eq!(selected_camera_id(&devices, 9), 0);
    assert_eq!(camera_position(&devices, 7), 1);
    assert_eq!(camera_position(&devices, 5), 0);
}

#[test]
fn capture_settings_order() {
    assert_eq!(capture_framerates(), vec![Some("60"), Some("30"), Some("24"), Some("15"), None]);
}

fn png_bytes(w: u32, h: u32) -> Vec<u8> {
    let img = image::RgbImage::from_fn(w, h, |x, y| image::Rgb([x as u8, y as u8, 7]));
    let mut out = std::io::Cursor::new(Vec::new());
    img.write_to(&mut out, image::ImageFormat::Png).unwrap();
    out.into_inner()
}

#[test]
fn image_decoding_by_extension() {
    let bytes = png_bytes(3, 2);
    assert_eq!(get_image_dimensions(&bytes, "png"), Some((3, 2)));
    let pixels = load_image_for_display(&bytes, "png").unwrap();
    assert_eq!(pixels.len(), 3 * 2 * 3);
    assert_eq!(&pixels[0..3], &[0, 0, 7]);
    assert_eq!(&pixels[3..6], &[1, 0, 7]);
    // the extension decides the format, as image::open does
    assert_eq!(get_image_dimensions(&bytes, "txt"), None);
    assert_eq!(get_image_dimensions(&bytes, ""), None);
    assert_eq!(get_image_dimensions(&bytes, "jpg"), None);
    assert_eq!(load_image_for_display(&[1, 2, 3], "png"), None);
}
