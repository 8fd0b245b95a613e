use continuum::cli::client::{api_url, server_url};
use continuum::cli::commands::{
    candidate_disks, default_disk_type_index, default_label, file_name_of, find_root, match_roots, pick,
    text_contains, text_starts_with, Pick,
};
use continuum::cli::display::{disk_line, disk_lines, root_lines};
use continuum::cli::model::{DiskInfo, RootInfo};
use continuum::cli::probe::{probe_metadata, probe_summary, ProbeOutput, ProbeStream};
use continuum::cli::relpath::relative_to;
use continuum::cli::replies::{camera_reply_id, event_reply, reply_message};
use continuum::cli::scanner::{extension_of, is_known_extension, is_video_extension, media_type_of, ScanEventsResult};
use std::path::Path;

fn s(x: &str) -> String {
    x.to_string()
}

fn disk(id: &str, label: &str, path: &str, kind: &str, ok: bool) -> DiskInfo {
    DiskInfo { disk_id: s(id), label: s(label), mount_path: s(path), disk_type: s(kind), is_available: ok }
}

fn root(id: &str, path: &str) -> RootInfo {
    RootInfo { id: s(id), disk_id: s("d"), relative_path: s(path) }
}

#[test]
fn disk_table_matches_the_column_layout() {
    let disks = vec![disk("d1", "Archive", "/data", "fixed", true), disk("d2", "USB", "/mnt/usb", "removable", false)];
    let lines = disk_lines(&disks, Some("d2"));
    let expect = vec![
        format!("{:<1} {:<36} {:<20} {:<30} {:<10} {:<10}", "", "ID", "LABEL", "PATH", "TYPE", "AVAILABLE"),
        "-".repeat(108),
        format!("{:<1} {:<36} {:<20} {:<30} {:<10} {:<10}", " ", "d1", "Archive", "/data", "fixed", "[OK]"),
        format!("{:<1} {:<36} {:<20} {:<30} {:<10} {:<10}", "*", "d2", "USB", "/mnt/usb", "removable", "[--]"),
    ];
    assert_eq!(lines, expect);
    assert_eq!(lines[0].chars().count(), 112);
    assert_eq!(lines[2].chars().count(), 112);
}

#[test]
fn empty_disk_table() {
    assert_eq!(disk_lines(&vec![], None), vec![s("Нет зарегистрированных дисков")]);
}

#[test]
fn wide_fields_are_not_cut() {
    let long = "x".repeat(50);
    let line = disk_line(&disk(&long, "Метка", "/p", "fixed", true), None);
    assert_eq!(line, format!("{:<1} {:<36} {:<20} {:<30} {:<10} {:<10}", " ", long, "Метка", "/p", "fixed", "[OK]"));
}

#[test]
fn root_table_matches_the_column_layout() {
    let roots = vec![root("r1", "Video/2024"), root("r2", "Photo")];
    let lines = root_lines(&roots, Some("r1"));
    assert_eq!(
        lines,
        vec![
            format!("{:<1} {:<36} {:<30}", " ", "ID", "PATH"),
            "-".repeat(68),
            format!("{:<1} {:<36} {:<30}", "*", "r1", "Video/2024"),
            format!("{:<1} {:<36} {:<30}", " ", "r2", "Photo"),
        ]
    );
    assert_eq!(root_lines(&vec![], None), vec![s("Нет медиа-папок для диска")]);
}

#[test]
fn picking_among_matches() {
    assert!(matches!(pick(0), Pick::NoMatch));
    assert!(matches!(pick(1), Pick::One));
    assert!(matches!(pick(7), Pick::Many));
}

#[test]
fn substring_and_prefix() {
    assert!(text_contains("Video/2024", "20"));
    assert!(text_contains("abc", ""));
    assert!(!text_contains("ab", "abc"));
    assert!(text_contains("Свадьба 2024", "дьба"));
    assert!(text_starts_with("/data/video", "/data"));
    assert!(!text_starts_with("/dat", "/data"));
}

#[test]
fn roots_are_matched_by_path_substring() {
    let roots = vec![root("a", "Video/2023"), root("b", "Photo"), root("c", "Video/2024")];
    assert_eq!(match_roots(&roots, "Video"), vec![0, 2]);
    assert_eq!(match_roots(&roots, "2024"), vec![2]);
    assert_eq!(match_roots(&roots, "zzz"), Vec::<usize>::new());
    assert_eq!(find_root(&roots, "b"), Some(1));
    assert_eq!(find_root(&roots, "q"), None);
}

#[test]
fn candidates_are_available_fixed_disks_that_start_the_path() {
    let disks = vec![
        disk("a", "A", "/data", "fixed", true),
        disk("b", "B", "/data", "removable", true),
        disk("c", "C", "/data/video", "fixed", false),
        disk("d", "D", "/other", "fixed", true),
        disk("e", "E", "/dat", "fixed", true),
    ];
    assert_eq!(candidate_disks(&disks, "/data/video/2024"), vec![0, 4]);
}

#[test]
fn wizard_defaults() {
    assert_eq!(default_disk_type_index("E:"), 1);
    assert_eq!(default_disk_type_index("/mnt/usb"), 1);
    assert_eq!(default_disk_type_index("/mnt"), 0);
    assert_eq!(default_disk_type_index("/home/me"), 0);
    assert_eq!(default_label("/home/me/Videos", false), "Videos");
    assert_eq!(default_label("/home/me/Videos/", false), "Videos");
    assert_eq!(default_label("/", false), "Disk");
    assert_eq!(default_label("/a/..", false), "Disk");
    assert_eq!(default_label("D:\\Video", true), "Video");
    assert_eq!(default_label("D:\\Video", false), "D:\\Video");
    assert_eq!(default_label("D:\\", true), "Disk");
    assert_eq!(default_label("E:", true), "Disk");
}

#[test]
fn windows_file_names() {
    let cases = [
        ("D:\\Video", Some("Video")),
        ("D:Video", Some("Video")),
        ("D:\\", None),
        ("D:", None),
        ("C:/Users/me/", Some("me")),
        ("a\\b\\.", Some("b")),
        ("a/..", None),
        ("\\dir\\x", Some("x")),
        ("1:x", Some("1:x")),
    ];
    for (p, expect) in cases {
        assert_eq!(file_name_of(p, true), expect.map(s), "path {:?}", p);
    }
}

#[test]
fn file_name_agrees_with_std_path() {
    for p in ["/a/b", "/a/b/", "a", "/", "", ".", "./", "a/.", "a/./", "a/..", "..", "/a//b", "x/./y/."] {
        let expect = std::path::Path::new(p).file_name().map(|n| n.to_string_lossy().to_string());
        assert_eq!(file_name_of(p, false), expect, "path {:?}", p);
    }
}

#[test]
fn video_extensions_are_recognised_in_any_case() {
    assert!(is_video_extension("mp4"));
    assert!(is_video_extension("MOV"));
    assert!(is_video_extension("M2Ts"));
    assert!(is_video_extension("360"));
    assert!(!is_video_extension("jpg"));
    assert!(!is_video_extension(""));
    assert_eq!(media_type_of("lrv"), "video");
}

#[test]
fn found_event_folders_are_listed_with_their_paths() {
    let mut r = ScanEventsResult::new();
    r.record(s("20250301 Концерт"), s("/data/Video/20250301 Концерт"));
    r.record(s("misc"), s("/data/Video/misc"));
    assert_eq!((r.total, r.new, r.events.len()), (2, 0, 2));
    assert_eq!(r.events[0].event_date.as_deref(), Some("2025-03-01"));
    assert_eq!(r.events[0].description.as_deref(), Some("Концерт"));
    assert_eq!(r.events[1].full_path, "/data/Video/misc");
    assert_eq!(r.events[1].event_date, None);
}

#[test]
fn cli_server_address() {
    assert_eq!(server_url(), "http://127.0.0.1:9090");
    assert_eq!(api_url("/health"), "http://127.0.0.1:9090/health");
}


#[test]
fn known_extensions_are_compared_as_given() {
    assert!(is_known_extension("mp4"));
    assert!(is_known_extension("360"));
    assert!(!is_known_extension("MP4"));
    assert!(!is_known_extension("jpg"));
    assert!(is_video_extension("MP4"));
}

#[test]
fn event_reply_reads_is_new_and_id() {
    assert_eq!(event_reply(r#"{"id":"e1","is_new":true}"#), (true, Some(s("e1"))));
    assert_eq!(event_reply(r#"{"id":"e1","is_new":false}"#), (false, Some(s("e1"))));
    // The flag is a text search: spaces after the colon do not match.
    assert_eq!(event_reply(r#"{"id":"e1","is_new": true}"#), (false, Some(s("e1"))));
    assert_eq!(event_reply("not json"), (false, None));
    assert_eq!(event_reply(r#"{"id":7}"#), (false, None));
}

#[test]
fn camera_reply_id_defaults_to_empty() {
    assert_eq!(camera_reply_id(r#"{"id":"c9","name":"GoPro"}"#), "c9");
    assert_eq!(camera_reply_id(r#"{"name":"GoPro"}"#), "");
    assert_eq!(camera_reply_id("oops"), "");
}

#[test]
fn reply_message_falls_back_to_the_text() {
    assert_eq!(reply_message(r#"{"message":"done"}"#), "done");
    assert_eq!(reply_message("plain words"), "plain words");
    assert_eq!(reply_message(r#"{"message":3}"#), r#"{"message":3}"#);
}

fn stream(kind: &str, w: Option<i64>, h: Option<i64>, codec: Option<&str>, rate: Option<&str>) -> ProbeStream {
    ProbeStream {
        codec_type: Some(s(kind)),
        width: w,
        height: h,
        codec_name: codec.map(s),
        r_frame_rate: rate.map(s),
    }
}

#[test]
fn probe_summary_keeps_the_last_video_stream() {
    let p = ProbeOutput {
        streams: Some(vec![
            stream("video", Some(1920), Some(1080), Some("h264"), Some("30000/1001")),
            stream("audio", None, None, Some("aac"), None),
            stream("video", Some(4294967296 + 640), Some(480), None, Some("25")),
            stream("data", None, None, None, None),
        ]),
        duration: Some(s("12.5")),
        bit_rate: Some(s("+8000")),
    };
    let m = probe_summary(&p);
    assert!(m.has_audio);
    assert_eq!((m.width, m.height, m.codec.clone()), (Some(640), Some(480), None));
    assert_eq!(m.frame_rates, vec![(s("30000"), s("1001"))]);
    assert_eq!(m.duration, Some(s("12.5")));
    assert_eq!(m.bitrate, Some(8000));
}

#[test]
fn probe_metadata_reads_ffprobe_json() {
    let out = br#"{"streams":[{"codec_type":"video","width":1280,"height":720,"codec_name":"hevc","r_frame_rate":"60/1"}],
        "format":{"duration":"3.000000","bit_rate":"x12"}}"#;
    let m = probe_metadata(out);
    assert!(!m.has_audio);
    assert_eq!((m.width, m.height, m.codec.clone()), (Some(1280), Some(720), Some(s("hevc"))));
    assert_eq!(m.frame_rates, vec![(s("60"), s("1"))]);
    assert_eq!(m.duration, Some(s("3.000000")));
    assert_eq!(m.bitrate, None);
    let e = probe_metadata(b"not json");
    assert!(!e.has_audio && e.width.is_none() && e.frame_rates.is_empty() && e.duration.is_none());
    let r = probe_metadata(br#"{"streams":[{"codec_type":"video","r_frame_rate":"1/2/3"}],"format":{"bit_rate":"-5"}}"#);
    assert!(r.frame_rates.is_empty());
    assert_eq!((r.width, r.bitrate), (None, Some(-5)));
}

fn std_relative(path: &str, base: &str) -> String {
    Path::new(path).strip_prefix(base).map(|p| p.to_string_lossy().to_string()).unwrap_or(s(path))
}

#[test]
fn relative_to_agrees_with_strip_prefix() {
    let cases = [
        ("/mnt/usb/Video/2024", "/mnt/usb"),
        ("/mnt/usb/Video/2024/", "/mnt/usb/"),
        ("/mnt/usb", "/mnt/usb"),
        ("/mnt/usbx/a", "/mnt/usb"),
        ("/mnt//usb/./a//b/.", "/mnt/usb"),
        ("/home/u/x", "/other"),
        ("rel/a/b", "rel"),
        ("./a/b", "."),
        ("./a/b", ""),
        ("/a", ""),
        ("a", "/a"),
        ("", ""),
        ("/x/../y", "/x"),
    ];
    for (p, b) in cases {
        assert_eq!(relative_to(p, b, false), std_relative(p, b), "{} against {}", p, b);
    }
    assert_eq!(relative_to("/mnt/usb/Video", "/mnt/usb", false), "Video");
}

#[test]
fn relative_to_on_windows() {
    assert_eq!(relative_to("D:\\Video\\2024", "D:\\", true), "Video\\2024");
    assert_eq!(relative_to("d:\\Video\\2024", "D:/Video", true), "2024");
    assert_eq!(relative_to("D:\\Video", "D:\\Video\\", true), "");
    assert_eq!(relative_to("D:\\Video", "E:\\", true), "D:\\Video");
    assert_eq!(relative_to("D:\\Video", "D:", true), "\\Video");
    assert_eq!(relative_to("C:a\\b", "C:a", true), "b");
    assert_eq!(relative_to("D:\\Video\\2024", "D:\\", false), "D:\\Video\\2024");
}

#[test]
fn extension_agrees_with_path_extension() {
    for name in ["clip.MP4", "a.b.mov", ".hidden", ".hidden.mkv", "noext", "..", ".", "trail.", "", "x..y", "видео.mts"] {
        let expected = Path::new(name).extension().map(|e| e.to_string_lossy().to_string());
        assert_eq!(extension_of(name), expected, "{}", name);
    }
}
