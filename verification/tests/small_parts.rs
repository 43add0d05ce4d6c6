//! Texts, times, toasts and images.
use tcode_ui::keyed::{KeyedMap, KeyedSet};
use tcode_ui::store::images::{
    icon_pixels, icon_requests, identified, image_mime, image_query, HostImages, ImageFailure,
    ImageRequest, Query,
};
use tcode_ui::store::providers::parse_accent;
use tcode_ui::text::{characters, hex_digit, is_blank, is_white_space, push_decimal, trimmed};
use tcode_ui::thread_export::format_size;
use tcode_ui::time::{format_duration, humanize_age, humanize_ago, DurationLabel};
use tcode_ui::toast::{notification, DetailToggle, NotificationType, ToastKind};

#[test]
fn white_space_is_what_unicode_says() {
    for code in 0..0x11_0000u32 {
        if let Some(c) = char::from_u32(code) {
            assert_eq!(is_white_space(c), c.is_whitespace(), "{code:x}");
        }
    }
    assert!(is_blank("\u{2003}\t") && is_blank("") && !is_blank(" x "));
    let chars = characters("  é x ");
    assert_eq!(trimmed(&chars), (2, 5));
    assert_eq!(hex_digit('F'), Some(15));
    assert_eq!(hex_digit('g'), None);
    let mut text = String::from("n=");
    push_decimal(&mut text, u64::MAX);
    assert_eq!(text, format!("n={}", u64::MAX));
}

#[test]
fn sizes_read_as_their_formatting_would() {
    for bytes in [0u64, 1, 1023, 1024, 1075, 1536, 10_239, 1_048_575, 1_048_576, 3_145_728] {
        let expected = if bytes < 1024 {
            format!("{bytes} B")
        } else if bytes < 1024 * 1024 {
            format!("{:.1} KB", bytes as f64 / 1024.)
        } else {
            format!("{:.1} MB", bytes as f64 / (1024. * 1024.))
        };
        assert_eq!(format_size(bytes as usize), expected);
    }
}

#[test]
fn times_are_told_in_the_unit_that_fits() {
    assert_eq!(humanize_ago(59).key, "time.just_now");
    assert_eq!((humanize_ago(60).key, humanize_ago(60).count), ("time.minutes_ago", Some(1)));
    assert_eq!((humanize_ago(7_200).key, humanize_ago(7_200).count), ("time.hours_ago", Some(2)));
    assert_eq!(humanize_ago(86_400).key, "time.days_ago");
    assert_eq!((humanize_age(3_599).key, humanize_age(3_599).count), ("time.minutes", Some(59)));
    assert_eq!(humanize_age(90_000).count, Some(1));
    assert_eq!(format_duration(59), DurationLabel::Seconds { seconds: 59 });
    assert_eq!(
        format_duration(605),
        DurationLabel::Minutes { minutes: 10, tens: 0, units: 5 }
    );
}

#[test]
fn toasts_show_details_when_unfolded() {
    let plan = notification(ToastKind::Error, true, false);
    assert_eq!(plan.severity, Some(NotificationType::Error));
    assert_eq!(plan.toggle, Some(DetailToggle::Show));
    assert!(plan.copy_button && !plan.detail && plan.title_as_message);
    let plan = notification(ToastKind::Loading, false, false);
    assert!(plan.title_with_spinner && plan.has_content && plan.severity.is_none());
    assert_eq!(notification(ToastKind::Info, true, true).toggle, Some(DetailToggle::Hide));
}

#[test]
fn images_are_known_by_how_they_start() {
    let png = vec![0x89, b'P', b'N', b'G', 0x0d, 0x0a, 0x1a, 0x0a, 0, 0, 0, 13];
    assert_eq!(image_mime(&png), Ok("image/png".to_string()));
    assert_eq!(image_mime(&vec![0xff, 0xd8, 0xff, 0xe0]), Ok("image/jpeg".to_string()));
    assert_eq!(image_mime(&b"hello world".to_vec()), Err(ImageFailure::UnknownFormat));
    assert_eq!(identified(None), Err(ImageFailure::UnknownFormat));
    assert_eq!(identified(Some("x".to_string())), Ok("x".to_string()));
}

#[test]
fn project_icons_are_asked_for_and_forgotten_at_every_size() {
    let images = HostImages { attached: true, namespace: 4 };
    let request = || ImageRequest::Project {
        id: "p".to_string(),
        override_path: None,
        pixels: icon_pixels(400),
    };
    assert!(matches!(
        image_query(images, 4, request()),
        Ok(Query::ReadProjectIcon { project_id, pixels: 128 }) if project_id == "p"
    ));
    assert!(matches!(image_query(images, 5, request()), Err(ImageFailure::Detached)));
    assert_eq!(icon_pixels(-3), 1);
    assert_eq!(icon_pixels(16), 16);
    let requests = icon_requests(&"p".to_string(), &None);
    assert_eq!(requests.len(), 128);
    assert!(requests
        .iter()
        .any(|request| matches!(request, ImageRequest::Project { pixels: 16, .. })));
}

#[test]
fn accents_are_six_digits() {
    assert_eq!(parse_accent(" #FF8000 "), Some(0xff8000));
    assert_eq!(parse_accent("ff8000"), Some(0xff8000));
    assert_eq!(parse_accent("#ff800"), None);
    assert_eq!(parse_accent("#gg8000"), None);
}

#[test]
fn keyed_collections_hold_one_entry_per_key() {
    let mut map: KeyedMap<String, u8> = KeyedMap::new();
    map.insert("a".to_string(), 1);
    map.insert("b".to_string(), 2);
    map.insert("a".to_string(), 3);
    assert_eq!(map.len(), 2);
    assert_eq!(map.get(&"a".to_string()), Some(&3));
    assert_eq!(map.get_text("b"), Some(&2));
    assert_eq!(map.remove(&"a".to_string()), Some(3));
    assert!(!map.contains_key(&"a".to_string()));
    let mut set: KeyedSet<u64> = KeyedSet::new();
    set.insert(1);
    set.insert(1);
    assert_eq!(set.len(), 1);
    set.clear();
    assert!(!set.contains(&1));
}
