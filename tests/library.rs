use simple_convert::crop::{aggregate_crops, crop_windows, parse_seconds, read_crop, CropWindow, VideoCrop};
use simple_convert::encode::{auto_crf, auto_preset, is_crf_valid, select_profile, Preset};
use simple_convert::error::ConvertError;
use simple_convert::pipeline::{classify, convert, extract_rpu, Route, Stage};
use simple_convert::text::{numerator, render_decimal};
use simple_convert::video::{Video, VideoMetadata};

fn crop(w: u64, h: u64, x: u64, y: u64) -> VideoCrop {
    VideoCrop { w, h, x, y }
}

fn side(pairs: &[(&str, &str)]) -> Vec<(String, String)> {
    pairs.iter().map(|(k, v)| (k.to_string(), v.to_string())).collect()
}

fn mastering() -> Vec<(String, String)> {
    side(&[
        ("red_x", "35400/50000"),
        ("red_y", "14600/50000"),
        ("green_x", "8500/50000"),
        ("green_y", "39850/50000"),
        ("blue_x", "6550/50000"),
        ("blue_y", "2300/50000"),
        ("white_point_x", "15635/50000"),
        ("white_point_y", "16450/50000"),
        ("max_luminance", "10000000/10000"),
        ("min_luminance", "50/10000"),
    ])
}

fn meta(width: u64, height: u64, pix_fmt: &str, hdr: bool) -> VideoMetadata {
    VideoMetadata {
        width: Some(width),
        height: Some(height),
        pix_fmt: Some(pix_fmt.to_string()),
        color_primaries: Some(if hdr { "bt2020" } else { "bt709" }.to_string()),
        color_space: Some(if hdr { "bt2020nc" } else { "bt709" }.to_string()),
        color_transfer: Some(if hdr { "smpte2084" } else { "bt709" }.to_string()),
        side_data: if hdr { mastering() } else { Vec::new() },
        duration: Some("5400.120000".to_string()),
    }
}

fn args(inv: &simple_convert::pipeline::Invocation) -> Vec<&str> {
    inv.args.iter().map(|s| s.as_str()).collect()
}

#[test]
fn numerator_keeps_text_before_slash() {
    assert_eq!(numerator("120/255"), "120");
    assert_eq!(numerator("45"), "45");
    assert_eq!(numerator(""), "");
    assert_eq!(numerator("/7"), "");
    assert_eq!(numerator("1/2/3"), "1");
}

#[test]
fn decimal_rendering() {
    assert_eq!(render_decimal(0), "0");
    assert_eq!(render_decimal(7), "7");
    assert_eq!(render_decimal(12345), "12345");
    assert_eq!(render_decimal(u64::MAX), "18446744073709551615");
}

#[test]
fn crf_table_boundaries() {
    assert_eq!(auto_crf(2_073_600), 18);
    assert_eq!(auto_crf(6_144_000), 13);
    assert_eq!(auto_crf(100_000_000), 13);
    assert_eq!(auto_crf(2_073_599), 19);
    assert_eq!(auto_crf(1_536_000), 19);
    assert_eq!(auto_crf(1_535_999), 20);
    assert_eq!(auto_crf(0), 20);
    assert_eq!(auto_crf(2_211_840), 18);
    assert_eq!(auto_crf(2_211_841), 18);
    assert_eq!(auto_crf(2_211_842), 17);
    assert_eq!(auto_crf(3_194_881), 17);
    assert_eq!(auto_crf(3_194_882), 16);
    assert_eq!(auto_crf(4_177_921), 16);
    assert_eq!(auto_crf(4_177_922), 15);
    assert_eq!(auto_crf(5_160_961), 15);
    assert_eq!(auto_crf(5_160_962), 14);
    assert_eq!(auto_crf(6_143_998), 14);
    assert_eq!(auto_crf(6_143_999), 14);
}

#[test]
fn crf_and_speed_are_monotonic() {
    fn speed(p: Preset) -> u8 {
        match p {
            Preset::Medium => 0,
            Preset::Fast => 1,
            Preset::Faster => 2,
            Preset::Superfast => 3,
        }
    }
    let mut last_crf = u64::MAX;
    let mut last_speed = 0;
    let mut p: u128 = 0;
    while p < 10_000_000 {
        let c = auto_crf(p);
        let s = speed(auto_preset(p));
        assert!(c <= last_crf);
        assert!(s >= last_speed);
        last_crf = c;
        last_speed = s;
        p += 997;
    }
}

#[test]
fn preset_table() {
    assert_eq!(auto_preset(8_294_400), Preset::Superfast);
    assert_eq!(auto_preset(8_294_399), Preset::Faster);
    assert_eq!(auto_preset(2_073_600), Preset::Faster);
    assert_eq!(auto_preset(2_073_599), Preset::Fast);
    assert_eq!(auto_preset(1_536_000), Preset::Fast);
    assert_eq!(auto_preset(1_535_999), Preset::Medium);
    assert_eq!(Preset::Superfast.name(), "superfast");
    assert_eq!(Preset::Medium.name(), "medium");
}

#[test]
fn overrides_are_used_verbatim() {
    let p = select_profile(8_294_400, Some("51"), Some("placebo")).unwrap();
    assert_eq!(p.crf, "51");
    assert_eq!(p.preset, "placebo");
    let p = select_profile(0, Some("0"), None).unwrap();
    assert_eq!(p.crf, "0");
    assert_eq!(p.preset, "medium");
    let p = select_profile(0, None, Some("")).unwrap();
    assert_eq!(p.crf, "20");
    assert_eq!(p.preset, "");
}

#[test]
fn invalid_crf_override_is_refused() {
    assert!(matches!(select_profile(0, Some("abc"), None), Err(ConvertError::InvalidCrf)));
    assert!(matches!(select_profile(0, Some("-5"), None), Err(ConvertError::InvalidCrf)));
    assert!(matches!(select_profile(0, Some(""), None), Err(ConvertError::InvalidCrf)));
    assert!(is_crf_valid("18"));
    assert!(!is_crf_valid("1.5"));
}

#[test]
fn crop_token_parsing() {
    assert_eq!(VideoCrop::new("1920:800:0:140"), Some(crop(1920, 800, 0, 140)));
    assert_eq!(VideoCrop::new("1:2:3:4:rest"), Some(crop(1, 2, 3, 4)));
    assert_eq!(VideoCrop::new("1920:800:0"), None);
    assert_eq!(VideoCrop::new("1920:800:0:140 "), None);
    assert_eq!(VideoCrop::new("a:b:c:d"), None);
    assert_eq!(VideoCrop::new("+1:2:+3:4"), Some(crop(1, 2, 3, 4)));
    assert_eq!(VideoCrop::new("+:2:3:4"), None);
    assert_eq!(VideoCrop::new("1:2:3:4\r"), None);
    assert_eq!(VideoCrop::new("18446744073709551616:1:1:1"), None);
    assert_eq!(
        VideoCrop::new("18446744073709551615:1:1:1"),
        Some(crop(u64::MAX, 1, 1, 1))
    );
    assert_eq!(VideoCrop::new_clean(), crop(0, 0, 0, 0));
}

#[test]
fn later_tokens_supersede_within_a_window() {
    let text = b"frame 1\n[cropdetect] x1:0 crop=1920:1080:0:0\n[cropdetect] t:2 crop=1920:800:0:140\nnoise crop=bad\n";
    assert_eq!(read_crop(text), crop(1920, 800, 0, 140));
    assert_eq!(read_crop(b"no tokens here"), crop(0, 0, 0, 0));
    assert_eq!(read_crop(b"crop=10:20:30:40"), crop(10, 20, 30, 40));
    assert_eq!(read_crop(b"x crop=1920:800:0:140\r\ny crop=1920:816:0:132\r\n"), crop(1920, 816, 0, 132));
}

#[test]
fn tightening_rule() {
    let best = crop(1920, 1080, 0, 0);
    assert!(best.is_smaller_than(&crop(1920, 800, 0, 140)));
    assert!(!best.is_smaller_than(&best));
    assert!(!crop(1920, 800, 0, 140).is_smaller_than(&crop(1920, 1080, 0, 0)));
    assert!(!best.is_smaller_than(&crop(0, 0, 0, 0)));
    assert!(crop(0, 0, 0, 0).is_smaller_than(&best));
}

#[test]
fn aggregate_keeps_the_tightest() {
    let windows = vec![
        crop(1920, 1080, 0, 0),
        crop(0, 0, 0, 0),
        crop(1920, 816, 0, 132),
        crop(1920, 800, 0, 140),
        crop(1920, 1080, 0, 0),
    ];
    let r = aggregate_crops(&windows);
    assert_eq!(r, crop(1920, 800, 0, 140));
    for w in &windows {
        if *w != crop(0, 0, 0, 0) {
            assert!(r.w <= w.w && r.h <= w.h && r.x >= w.x && r.y >= w.y);
        }
    }
    assert_eq!(aggregate_crops(&vec![crop(0, 0, 0, 0); 10]), crop(0, 0, 0, 0));
    assert_eq!(aggregate_crops(&vec![]), crop(0, 0, 0, 0));
    assert_eq!(aggregate_crops(&vec![crop(5, 5, 1, 1)]), crop(5, 5, 1, 1));
}

#[test]
fn incomparable_candidates_keep_the_first() {
    let windows = vec![crop(1920, 800, 0, 140), crop(1800, 1080, 60, 0)];
    assert_eq!(aggregate_crops(&windows), crop(1920, 800, 0, 140));
}

#[test]
fn windows_cover_the_duration_after_warm_up() {
    let w = crop_windows(3660);
    assert_eq!(w.len(), 10);
    for (k, win) in w.iter().enumerate() {
        assert_eq!(*win, CropWindow { start: 60 + 360 * k as u64, length: 360 });
    }
    let short = crop_windows(30);
    assert_eq!(short.len(), 10);
    assert!(short.iter().all(|x| *x == CropWindow { start: 60, length: 0 }));
}

#[test]
fn duration_seconds() {
    assert_eq!(parse_seconds("5400.120000"), Some(5400));
    assert_eq!(parse_seconds("42"), Some(42));
    assert_eq!(parse_seconds("N/A"), None);
    assert_eq!(parse_seconds(""), None);
    assert_eq!(parse_seconds("+7.5"), Some(7));
}

#[test]
fn video_from_probe_answer() {
    let v = Video::new("in.mkv", meta(3840, 2160, "yuv420p10le", true)).unwrap();
    assert_eq!((v.width, v.height), (3840, 2160));
    assert!(!v.is_croped_video());
    assert_eq!(v.get_ffmpeg_crop_str(), "crop=3840:2160:0:0");
    assert_eq!(v.get_path_str(), Some("in.mkv"));
    assert_eq!(v.get_pix_fmt(), Some("yuv420p10le"));
    assert_eq!(v.get_color_space(), Some("bt2020nc"));
    assert_eq!(v.get_side_data_list_param("red_x"), Some("35400"));
    assert_eq!(v.get_side_data_list_param("nothing"), None);
    assert_eq!(
        v.get_master_display().unwrap(),
        "G(8500,39850)B(6550,2300)R(35400,14600)WP(15635,16450)L(10000000,50)"
    );
    assert_eq!(v.crop_windows().unwrap()[1], CropWindow { start: 594, length: 534 });
    assert!(v.is_hdr_video());
}

#[test]
fn probe_failures() {
    let mut m = meta(10, 20, "yuv420p", false);
    m.width = None;
    assert!(Video::new("in.mkv", m).is_none());
    let mut m = meta(10, 20, "yuv420p", false);
    m.height = None;
    assert!(Video::new("in.mkv", m).is_none());
    let mut m = meta(10, 20, "yuv420p", false);
    m.pix_fmt = None;
    m.duration = None;
    let v = Video::new("in.mkv", m).unwrap();
    assert_eq!(v.get_pix_fmt(), None);
    assert!(v.get_master_display().is_none());
    assert!(v.crop_windows().is_none());
}

#[test]
fn uhd_hdr10_scenario() {
    let v = Video::new("in.mkv", meta(3840, 2160, "yuv420p10le", true)).unwrap();
    assert_eq!(v.get_auto_crf(), "13");
    assert_eq!(v.get_auto_preset(), "superfast");
    assert_eq!(classify(&v, false), Route::Hdr10);
    let stages = convert(&v, "out.mkv", false, None, None, false).unwrap();
    assert_eq!(stages.len(), 1);
    match &stages[0] {
        Stage::Run(inv) => {
            assert_eq!(inv.program, "ffmpeg");
            let a = args(inv);
            assert_eq!(&a[..16], &["-i", "in.mkv", "-map", "0:v", "-map", "0:a?", "-map", "0:s?",
                "-c:a", "copy", "-c:s", "copy", "-c:v", "libx265", "-pix_fmt", "yuv420p10le"]);
            assert_eq!(&a[16..], &["-preset", "superfast", "-crf", "13", "-x265-params",
                "hdr-opt=1:repeat-headers=1:colorprim=bt2020:transfer=smpte2084:colormatrix=bt2020nc:master-display=G(8500,39850)B(6550,2300)R(35400,14600)WP(15635,16450)L(10000000,50):max-cll=0,0",
                "out.mkv"]);
        }
        _ => panic!("expected one encoder run"),
    }
}

#[test]
fn fhd_sdr_scenario() {
    let v = Video::new("in.mp4", meta(1920, 800, "yuv420p", false)).unwrap();
    assert_eq!(v.pixel_count(), 1_536_000);
    assert_eq!(v.get_auto_crf(), "19");
    assert_eq!(v.get_auto_preset(), "fast");
    assert_eq!(classify(&v, false), Route::Sdr);
    let stages = convert(&v, "out.mp4", false, None, None, false).unwrap();
    match &stages[0] {
        Stage::Run(inv) => {
            let a = args(inv);
            assert!(!a.contains(&"-x265-params"));
            assert_eq!(&a[16..], &["-preset", "fast", "-crf", "19", "out.mp4"]);
        }
        _ => panic!("expected one encoder run"),
    }
}

#[test]
fn cropped_video_gets_crop_filter() {
    let mut v = Video::new("in.mkv", meta(1920, 1080, "yuv420p", false)).unwrap();
    v.crop_video(&vec![crop(0, 0, 0, 0), crop(1920, 800, 0, 140)]);
    assert!(v.is_croped_video());
    assert_eq!(v.get_ffmpeg_crop_str(), "crop=1920:800:0:140");
    assert_eq!(v.get_auto_crf(), "19");
    let stages = convert(&v, "o.mkv", false, Some("22"), None, false).unwrap();
    match &stages[0] {
        Stage::Run(inv) => {
            let a = args(inv);
            assert_eq!(&a[16..], &["-vf", "crop=1920:800:0:140", "-preset", "fast", "-crf", "22", "o.mkv"]);
        }
        _ => panic!("expected one encoder run"),
    }
}

#[test]
fn no_detected_crop_keeps_full_frame() {
    let mut v = Video::new("in.mkv", meta(1920, 1080, "yuv420p", false)).unwrap();
    v.crop_video(&vec![crop(0, 0, 0, 0); 10]);
    assert!(!v.is_croped_video());
    assert_eq!((v.width, v.height), (1920, 1080));
}

#[test]
fn dolby_vision_route_regardless_of_pix_fmt() {
    let v = Video::new("in.mkv", meta(3840, 2160, "yuv420p", true)).unwrap();
    assert_eq!(classify(&v, true), Route::DolbyVision);
    let stages = convert(&v, "out", true, None, Some("slow"), false).unwrap();
    assert_eq!(stages.len(), 2);
    match &stages[0] {
        Stage::Pipe(p, c) => {
            assert_eq!(p.program, "ffmpeg");
            assert_eq!(args(p), vec!["-i", "in.mkv", "-c:v", "copy", "-vbsf", "hevc_mp4toannexb", "-f", "hevc", "-"]);
            assert_eq!(c.program, "dovi_tool");
            assert_eq!(args(c), vec!["-m", "2", "extract-rpu", "--rpu-out", "in.mkv.rpu", "-"]);
        }
        _ => panic!("expected a piped extraction"),
    }
    match &stages[1] {
        Stage::Pipe(p, c) => {
            assert_eq!(args(p), vec!["-i", "in.mkv", "-f", "yuv4mpegpipe", "-strict", "-1", "-pix_fmt", "yuv420p", "-"]);
            assert_eq!(c.program, "x265");
            let a = args(c);
            assert_eq!(a[7], "slow");
            assert_eq!(a[9], "13");
            assert_eq!(a[21], "in.mkv.rpu");
            assert_eq!(a[23], "8.1");
            assert_eq!(a[28], "out.hevc");
        }
        _ => panic!("expected a piped encode"),
    }
}

#[test]
fn existing_rpu_is_reused() {
    assert!(extract_rpu("in.mkv", true).is_none());
    assert!(extract_rpu("in.mkv", false).is_some());
    let v = Video::new("in.mkv", meta(3840, 2160, "yuv420p10le", true)).unwrap();
    let stages = convert(&v, "out", true, None, None, true).unwrap();
    assert_eq!(stages.len(), 1);
    match &stages[0] {
        Stage::Pipe(_, c) => assert_eq!(c.program, "x265"),
        _ => panic!("expected the piped encode"),
    }
}

#[test]
fn missing_metadata_is_reported() {
    let mut m = meta(3840, 2160, "yuv420p10le", true);
    m.side_data = Vec::new();
    let v = Video::new("in.mkv", m).unwrap();
    assert!(matches!(convert(&v, "o", false, None, None, false), Err(ConvertError::MissingMetadata)));
    assert!(matches!(convert(&v, "o", true, None, None, false), Err(ConvertError::MissingMetadata)));
    assert!(matches!(convert(&v, "o", false, Some("x"), None, false), Err(ConvertError::InvalidCrf)));
    let mut m = meta(1920, 1080, "yuv420p", false);
    m.pix_fmt = None;
    let v = Video::new("in.mkv", m).unwrap();
    assert!(matches!(convert(&v, "o", false, None, None, false), Err(ConvertError::MissingMetadata)));
}
