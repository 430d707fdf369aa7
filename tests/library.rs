use mediaremote_rs::bridge::trim_text;
use mediaremote_rs::codec::base64_decode;
use mediaremote_rs::mime::{sniff_image_kind, ImageKind};
use mediaremote_rs::watch::has_changed;
use mediaremote_rs::{
    access_granted, adapter_output_line, adapter_test_status, assemble_snapshot, base64_encode,
    detect_image_mime_type, frame_adapter_output, is_playing, needs_extract, test_access,
    ChangeDetector, Command, F64Bits, InfoKey, NowPlayingFields, NowPlayingInfo, ValueKind,
};

const ONE: u64 = 0x3FF0_0000_0000_0000;
const NEG_ONE: u64 = 0xBFF0_0000_0000_0000;
const NAN: u64 = 0x7FF8_0000_0000_0000;
const INF: u64 = 0x7FF0_0000_0000_0000;

fn fields(title: Option<&str>) -> NowPlayingFields {
    NowPlayingFields {
        title: title.map(|t| t.to_string()),
        artist: None,
        album: None,
        duration: None,
        elapsed_time: None,
        playback_rate: None,
        artwork: None,
    }
}

fn snapshot(title: &str, artist: Option<&str>, rate: u64) -> NowPlayingInfo {
    let mut f = fields(Some(title));
    f.artist = artist.map(|a| a.to_string());
    f.playback_rate = Some(F64Bits { bits: rate });
    assemble_snapshot(f, None).unwrap()
}

fn b64(data: &[u8]) -> String {
    base64_encode(data)
}

#[test]
fn base64_empty() {
    assert_eq!(b64(b""), "");
}

#[test]
fn base64_padding_by_length() {
    assert_eq!(b64(b"f"), "Zg==");
    assert_eq!(b64(b"fo"), "Zm8=");
    assert_eq!(b64(b"foo"), "Zm9v");
    assert_eq!(b64(b"foob"), "Zm9vYg==");
    assert_eq!(b64(b"fooba"), "Zm9vYmE=");
    assert_eq!(b64(b"foobar"), "Zm9vYmFy");
}

#[test]
fn base64_high_bytes_and_both_symbols() {
    assert_eq!(b64(&[0xFF, 0xFF, 0xFF]), "////");
    assert_eq!(b64(&[0xFB, 0xEF, 0xBE]), "++++");
    assert_eq!(b64(&[0x00, 0x00, 0x00]), "AAAA");
    assert_eq!(b64(&[0xFF, 0xD8, 0xFF, 0xE0]), "/9j/4A==");
}

fn decode_reference(s: &str) -> Vec<u8> {
    let alphabet = "ABCDEFGHIJKLMNOPQRSTUVWXYZabcdefghijklmnopqrstuvwxyz0123456789+/";
    let mut bits: u32 = 0;
    let mut count = 0;
    let mut out = Vec::new();
    for c in s.chars() {
        if c == '=' {
            break;
        }
        bits = (bits << 6) | alphabet.find(c).unwrap() as u32;
        count += 6;
        if count >= 8 {
            count -= 8;
            out.push(((bits >> count) & 0xFF) as u8);
        }
    }
    out
}

#[test]
fn base64_round_trip_every_length_up_to_forty() {
    for len in 0..40usize {
        let data: Vec<u8> = (0..len).map(|i| (i * 37 + 11) as u8).collect();
        let text = b64(&data);
        assert_eq!(text.len(), (len + 2) / 3 * 4);
        assert_eq!(decode_reference(&text), data);
        assert_eq!(base64_decode(&text), Some(data));
    }
}

#[test]
fn mime_recognised_prefixes() {
    let jpeg = [0xFF, 0xD8, 0xFF, 0xE0, 0x00];
    let png = [0x89, 0x50, 0x4E, 0x47, 0x0D, 0x0A, 0x1A, 0x0A, 0x00];
    let gif = *b"GIF89a";
    let webp = *b"RIFF\x10\x00\x00\x00WEBPVP8 ";
    let bmp = *b"BM\x00\x00\x00";
    assert_eq!(detect_image_mime_type(&jpeg).as_deref(), Some("image/jpeg"));
    assert_eq!(detect_image_mime_type(&png).as_deref(), Some("image/png"));
    assert_eq!(detect_image_mime_type(&gif).as_deref(), Some("image/gif"));
    assert_eq!(detect_image_mime_type(&webp).as_deref(), Some("image/webp"));
    assert_eq!(detect_image_mime_type(&bmp).as_deref(), Some("image/bmp"));
    assert_eq!(sniff_image_kind(&bmp), Some(ImageKind::Bmp));
}

#[test]
fn mime_short_or_unknown_is_absent() {
    assert_eq!(detect_image_mime_type(&[0xFF, 0xD8, 0xFF]), None);
    assert_eq!(detect_image_mime_type(b"BM!"), None);
    assert_eq!(detect_image_mime_type(b""), None);
    assert_eq!(detect_image_mime_type(b"hello"), None);
    assert_eq!(detect_image_mime_type(b"RIFF\x00\x00\x00\x00WAVE"), None);
    assert_eq!(detect_image_mime_type(b"RIFF\x00\x00\x00\x00WEB"), None);
    assert_eq!(detect_image_mime_type(&[0x89, 0x50, 0x4E, 0x47, 0x0D]), None);
}

#[test]
fn snapshot_requires_a_title() {
    let mut f = fields(None);
    f.artist = Some("Artist".to_string());
    f.playback_rate = Some(F64Bits { bits: ONE });
    assert!(assemble_snapshot(f, Some("com.example".to_string())).is_none());
    let mut f = fields(Some(""));
    f.album = Some("Album".to_string());
    assert!(assemble_snapshot(f, Some("com.example".to_string())).is_none());
}

#[test]
fn snapshot_keeps_reported_fields() {
    let mut f = fields(Some("Song"));
    f.artist = Some("Artist".to_string());
    f.album = Some("Album".to_string());
    f.duration = Some(F64Bits { bits: 0x406E_0000_0000_0000 });
    f.elapsed_time = Some(F64Bits { bits: 0x4024_0000_0000_0000 });
    f.playback_rate = Some(F64Bits { bits: ONE });
    let s = assemble_snapshot(f, Some("com.example.music".to_string())).unwrap();
    assert_eq!(s.title, "Song");
    assert_eq!(s.artist.as_deref(), Some("Artist"));
    assert_eq!(s.album.as_deref(), Some("Album"));
    assert_eq!(s.duration, Some(F64Bits { bits: 0x406E_0000_0000_0000 }));
    assert_eq!(s.elapsed_time, Some(F64Bits { bits: 0x4024_0000_0000_0000 }));
    assert_eq!(s.bundle_identifier, "com.example.music");
    assert!(s.playing);
    assert_eq!(s.artwork_data, None);
    assert_eq!(s.artwork_mime_type, None);
}

#[test]
fn snapshot_unknown_bundle_is_empty() {
    let s = assemble_snapshot(fields(Some("Song")), None).unwrap();
    assert_eq!(s.bundle_identifier, "");
    assert!(!s.playing);
}

#[test]
fn playing_follows_rate() {
    for (bits, playing) in [
        (ONE, true),
        (INF, true),
        (1u64, true),
        (0u64, false),
        (0x8000_0000_0000_0000, false),
        (NEG_ONE, false),
        (NAN, false),
    ] {
        let s = snapshot("Song", None, bits);
        assert_eq!(s.playing, playing, "rate bits {:x}", bits);
        assert_eq!(f64::from_bits(bits) > 0.0, playing);
    }
}

#[test]
fn snapshot_artwork_encoded_and_sniffed() {
    let png = vec![0x89, 0x50, 0x4E, 0x47, 0x0D, 0x0A, 0x1A, 0x0A];
    let mut f = fields(Some("Song"));
    f.artwork = Some(png);
    let s = assemble_snapshot(f, None).unwrap();
    assert_eq!(s.artwork_data.as_deref(), Some("iVBORw0KGgo="));
    assert_eq!(s.artwork_mime_type.as_deref(), Some("image/png"));

    let mut f = fields(Some("Song"));
    f.artwork = Some(vec![1, 2, 3, 4, 5]);
    let s = assemble_snapshot(f, None).unwrap();
    assert_eq!(s.artwork_data.as_deref(), Some("AQIDBAU="));
    assert_eq!(s.artwork_mime_type, None);

    let mut f = fields(Some("Song"));
    f.artwork = Some(Vec::new());
    let s = assemble_snapshot(f, None).unwrap();
    assert_eq!(s.artwork_data, None);
    assert_eq!(s.artwork_mime_type, None);
}

#[test]
fn default_record_is_empty() {
    let d = NowPlayingInfo::default();
    assert_eq!(d.title, "");
    assert_eq!(d.bundle_identifier, "");
    assert!(!d.playing);
    assert!(d.artist.is_none() && d.playback_rate.is_none() && d.artwork_data.is_none());
}

#[test]
fn duplicate_keeps_every_field() {
    let mut f = fields(Some("Song"));
    f.artist = Some("A".to_string());
    f.artwork = Some(vec![0x42, 0x4D, 0, 0]);
    let s = assemble_snapshot(f, Some("b".to_string())).unwrap();
    let d = s.duplicate();
    assert_eq!(d.title, s.title);
    assert_eq!(d.artist, s.artist);
    assert_eq!(d.artwork_data, s.artwork_data);
    assert_eq!(d.artwork_mime_type.as_deref(), Some("image/bmp"));
    assert_eq!(d.bundle_identifier, "b");
}

#[test]
fn key_table() {
    let keys = InfoKey::all();
    assert_eq!(keys.len(), 7);
    assert_eq!(InfoKey::Title.name(), "kMRMediaRemoteNowPlayingInfoTitle");
    assert_eq!(InfoKey::ArtworkData.name(), "kMRMediaRemoteNowPlayingInfoArtworkData");
    assert_eq!(InfoKey::PlaybackRate.kind(), ValueKind::Number);
    assert_eq!(InfoKey::Album.kind(), ValueKind::Text);
    assert_eq!(InfoKey::ArtworkData.kind(), ValueKind::Bytes);
}

#[test]
fn query_projections() {
    assert!(is_playing(&Some(snapshot("Song", None, ONE))));
    assert!(!is_playing(&Some(snapshot("Song", None, 0))));
    assert!(!is_playing(&None));
    assert!(test_access(&Some(snapshot("Song", None, 0))));
    assert!(!test_access(&None));
}

#[test]
fn missing_artifact_gives_nothing() {
    let framed = frame_adapter_output(false, "");
    assert_eq!(framed, None);
    let snapshot: Option<NowPlayingInfo> = None;
    assert!(!is_playing(&snapshot));
    assert!(!access_granted(Some(1)));
    assert!(!access_granted(None));
}

#[test]
fn test_command_succeeds_on_probe_alone() {
    assert_eq!(adapter_test_status(false, true), 0);
    assert_eq!(adapter_test_status(true, false), 0);
    assert_eq!(adapter_test_status(false, false), 1);
    assert!(access_granted(Some(adapter_test_status(false, true))));
    assert_eq!(Command::Test.word(), "test");
    assert_eq!(Command::Test.symbol(), "adapter_test");
    assert_eq!(Command::Get.word(), "get");
    assert_eq!(Command::Get.symbol(), "adapter_get_env");
}

#[test]
fn framing_adapter_output() {
    assert_eq!(frame_adapter_output(true, "null\n"), None);
    assert_eq!(frame_adapter_output(true, "  \n"), None);
    assert_eq!(frame_adapter_output(true, ""), None);
    assert_eq!(frame_adapter_output(false, "{\"title\":\"x\"}"), None);
    let json = "{\"bundleIdentifier\":\"com.example.music\",\"playing\":true,\"title\":\"Song\"}";
    let out = format!(" \t{}\r\n", json);
    assert_eq!(frame_adapter_output(true, &out).as_deref(), Some(json));
    assert_eq!(frame_adapter_output(true, "nul").as_deref(), Some("nul"));
    assert_eq!(trim_text("\u{3000} a b \u{2028}"), "a b");
}

#[test]
fn output_line_of_get() {
    assert_eq!(adapter_output_line(None), "null");
    assert_eq!(adapter_output_line(Some("{}".to_string())), "{}");
}

#[test]
fn extraction_needed() {
    assert!(needs_extract(None, 10));
    assert!(needs_extract(Some(9), 10));
    assert!(!needs_extract(Some(10), 10));
}

#[test]
fn change_detection_sequence() {
    let mut d = ChangeDetector::new();
    let a = || snapshot("Song", Some("Artist"), ONE);
    let first = d.tick(Some(a()));
    assert_eq!(first.map(|s| s.title), Some("Song".to_string()));
    assert!(d.tick(Some(a())).is_none());
    // elapsed time and artwork are not compared
    let mut moved = a();
    moved.elapsed_time = Some(F64Bits { bits: ONE });
    assert!(d.tick(Some(moved)).is_none());
    // the session disappears: nothing emitted
    assert!(d.tick(None).is_none());
    assert!(d.last.is_none());
    // it reappears unchanged: emitted again
    assert!(d.tick(Some(a())).is_some());
    // pause: playing changes
    let paused = d.tick(Some(snapshot("Song", Some("Artist"), 0)));
    assert_eq!(paused.map(|s| s.playing), Some(false));
    // another artist
    assert!(d.tick(Some(snapshot("Song", None, 0))).is_some());
    assert!(d.tick(Some(snapshot("Song", None, 0))).is_none());
}

#[test]
fn change_predicate() {
    let a = snapshot("Song", Some("Artist"), ONE);
    assert!(!has_changed(&a, &snapshot("Song", Some("Artist"), INF)));
    assert!(has_changed(&a, &snapshot("Other", Some("Artist"), ONE)));
    assert!(has_changed(&a, &snapshot("Song", Some("Artist"), NEG_ONE)));
}

#[test]
fn base64_decode_known_text() {
    assert_eq!(base64_decode("Zm9vYmFy"), Some(b"foobar".to_vec()));
    assert_eq!(base64_decode("Zm8="), Some(b"fo".to_vec()));
    assert_eq!(base64_decode("Zg=="), Some(b"f".to_vec()));
    assert_eq!(base64_decode(""), Some(Vec::new()));
    assert_eq!(base64_decode("Zm9v\u{e9}"), None);
}
