use traytools::actions::{
    dispatch, generate, generate_mac, generate_random_32_string, generate_uuid, get_time_iso,
    get_time_unix, rfc3339_string, uuid_string, Action, Command,
};
use traytools::menu::{tray_menu, MenuEntry};
use traytools::sources::{LocalStamp, MAX_STAMP_SECONDS};
use traytools::text::{decimal_string, hex_string, mac_string};

const ALL: [Action; 6] = [
    Action::GetTimeUnix,
    Action::GetTimeIso,
    Action::GenerateUuid,
    Action::GenerateMac,
    Action::GenerateRandom32String,
    Action::Quit,
];

fn is_lower_hex(c: char) -> bool {
    c.is_ascii_digit() || ('a'..='f').contains(&c)
}

fn is_hex32(s: &str) -> bool {
    s.len() == 32 && s.chars().all(is_lower_hex)
}

fn is_mac_shape(s: &str) -> bool {
    let cs: Vec<char> = s.chars().collect();
    cs.len() == 17
        && cs
            .iter()
            .enumerate()
            .all(|(i, c)| if i % 3 == 2 { *c == ':' } else { is_lower_hex(*c) })
}

fn is_uuid_v4_shape(s: &str) -> bool {
    let cs: Vec<char> = s.chars().collect();
    cs.len() == 36
        && cs.iter().enumerate().all(|(i, c)| {
            if i == 8 || i == 13 || i == 18 || i == 23 {
                *c == '-'
            } else {
                is_lower_hex(*c)
            }
        })
        && cs[14] == '4'
        && "89ab".contains(cs[19])
}

/// A stand-in for the clipboard: records every value written to it.
struct FakeClipboard {
    writes: Vec<String>,
    exited: Option<i32>,
}

impl FakeClipboard {
    fn new() -> FakeClipboard {
        FakeClipboard { writes: vec!["before".to_string()], exited: None }
    }

    fn apply(&mut self, c: Command) {
        match c {
            Command::Copy(v) => self.writes.push(v),
            Command::Quit => self.exited = Some(0),
            Command::Ignore => {}
            Command::Failed => panic!("a generator failed"),
        }
    }
}

#[test]
fn hex_string_renders_each_byte_as_two_lower_digits() {
    assert_eq!(hex_string(&[0x00, 0xab, 0x0f, 0xff]), "00ab0fff");
    assert_eq!(hex_string(&[]), "");
    let draw: [u8; 16] = [
        0x01, 0x23, 0x45, 0x67, 0x89, 0xab, 0xcd, 0xef, 0xfe, 0xdc, 0xba, 0x98, 0x76, 0x54, 0x32,
        0x10,
    ];
    let s = hex_string(&draw);
    assert_eq!(s, "0123456789abcdeffedcba9876543210");
    assert!(is_hex32(&s));
}

#[test]
fn hex_string_of_all_zero_and_all_ones_draws() {
    assert_eq!(hex_string(&[0u8; 16]), "0".repeat(32));
    assert_eq!(hex_string(&[0xffu8; 16]), "f".repeat(32));
}

#[test]
fn mac_string_joins_six_pairs_with_colons() {
    assert_eq!(mac_string(&[0xde, 0xad, 0xbe, 0xef, 0x00, 0x01]), "de:ad:be:ef:00:01");
    assert_eq!(mac_string(&[0xff; 6]), "ff:ff:ff:ff:ff:ff");
    // the multicast and locally administered bits are left as drawn
    assert_eq!(mac_string(&[0x03, 0, 0, 0, 0, 0]), "03:00:00:00:00:00");
}

#[test]
fn decimal_string_has_no_leading_zero() {
    assert_eq!(decimal_string(0), "0");
    assert_eq!(decimal_string(7), "7");
    assert_eq!(decimal_string(10), "10");
    assert_eq!(decimal_string(1_700_000_000), "1700000000");
    assert_eq!(decimal_string(u64::MAX), "18446744073709551615");
    assert_eq!(decimal_string(123_456).parse::<u64>().unwrap(), 123_456);
}

#[test]
fn uuid_string_is_hyphenated_lower_hex() {
    let b: [u8; 16] = [0, 1, 2, 3, 4, 5, 6, 7, 8, 9, 10, 11, 12, 13, 14, 15];
    assert_eq!(uuid_string(b), "00010203-0405-0607-0809-0a0b0c0d0e0f");
    let v: [u8; 16] = [
        0x67, 0xe5, 0x50, 0x44, 0x10, 0xb1, 0x42, 0x6f, 0x92, 0x47, 0xbb, 0x68, 0x0e, 0x5f, 0xe0,
        0xc8,
    ];
    let s = uuid_string(v);
    assert_eq!(s, "67e55044-10b1-426f-9247-bb680e5fe0c8");
    assert!(is_uuid_v4_shape(&s));
}

#[test]
fn random_32_string_is_hex_and_differs_between_calls() {
    let a = generate_random_32_string();
    let b = generate_random_32_string();
    assert!(is_hex32(&a), "{a}");
    assert!(is_hex32(&b), "{b}");
    assert_ne!(a, b);
}

#[test]
fn generated_mac_has_mac_shape() {
    for _ in 0..50 {
        let m = generate_mac();
        assert!(is_mac_shape(&m), "{m}");
    }
}

#[test]
fn generated_uuid_has_v4_shape() {
    for _ in 0..50 {
        let u = generate_uuid();
        assert!(is_uuid_v4_shape(&u), "{u}");
    }
    assert_ne!(generate_uuid(), generate_uuid());
}

#[test]
fn time_unix_is_a_non_negative_integer_near_the_clock() {
    let s = get_time_unix().unwrap();
    let n: u64 = s.parse().unwrap();
    let sys = std::time::SystemTime::now()
        .duration_since(std::time::UNIX_EPOCH)
        .unwrap()
        .as_secs();
    assert!(n <= sys && sys - n <= 1);
    assert_eq!(decimal_string(n), s);
    let later: u64 = get_time_unix().unwrap().parse().unwrap();
    assert!(later >= n);
}

#[test]
fn time_iso_is_rfc3339_with_the_local_offset() {
    let s = get_time_iso().unwrap();
    let parsed = chrono::DateTime::parse_from_rfc3339(&s).unwrap();
    let local = chrono::Local::now().fixed_offset();
    assert_eq!(parsed.offset().local_minus_utc(), local.offset().local_minus_utc());
    assert!((local.timestamp() - parsed.timestamp()).abs() <= 1);
}

#[test]
fn ids_round_trip_through_the_catalog() {
    for a in ALL {
        assert_eq!(Action::from_id(a.id()), Some(a));
    }
    assert_eq!(Action::GenerateRandom32String.id(), "generate_random_32_string");
    assert_eq!(Action::from_id("get_time_unix"), Some(Action::GetTimeUnix));
}

#[test]
fn unknown_identifiers_are_ignored() {
    for id in ["", "QUIT", "quit ", "generate", "get_time_unix2", "généré", "\u{0}"] {
        assert_eq!(Action::from_id(id), None);
        let mut clip = FakeClipboard::new();
        clip.apply(dispatch(id));
        assert_eq!(clip.writes, vec!["before".to_string()]);
        assert_eq!(clip.exited, None);
    }
}

#[test]
fn quit_exits_with_zero_and_writes_nothing() {
    let mut clip = FakeClipboard::new();
    clip.apply(dispatch("quit"));
    assert_eq!(clip.exited, Some(0));
    assert_eq!(clip.writes, vec!["before".to_string()]);
    assert!(generate(Action::Quit).is_none());
}

#[test]
fn each_generator_dispatch_writes_once() {
    for a in ALL {
        if a == Action::Quit {
            continue;
        }
        let mut clip = FakeClipboard::new();
        clip.apply(dispatch(a.id()));
        assert_eq!(clip.writes.len(), 2, "{a:?}");
        assert_eq!(clip.exited, None);
        let v = clip.writes[1].clone();
        match a {
            Action::GetTimeUnix => assert!(v.parse::<u64>().is_ok()),
            Action::GetTimeIso => assert!(chrono::DateTime::parse_from_rfc3339(&v).is_ok()),
            Action::GenerateUuid => assert!(is_uuid_v4_shape(&v)),
            Action::GenerateMac => assert!(is_mac_shape(&v)),
            Action::GenerateRandom32String => assert!(is_hex32(&v)),
            Action::Quit => unreachable!(),
        }
    }
}

#[test]
fn rfc3339_string_shows_the_instant_at_its_offset() {
    let pacific = LocalStamp { seconds: 851_042_397, nanos: 0, offset_seconds: -28_800 };
    assert_eq!(rfc3339_string(&pacific).unwrap(), "1996-12-19T16:39:57-08:00");
    let utc = LocalStamp { seconds: 1_700_000_000, nanos: 0, offset_seconds: 0 };
    assert_eq!(rfc3339_string(&utc).unwrap(), "2023-11-14T22:13:20+00:00");
    let india = LocalStamp { seconds: 1_700_000_000, nanos: 123_456_789, offset_seconds: 19_800 };
    assert_eq!(rfc3339_string(&india).unwrap(), "2023-11-15T03:43:20.123456789+05:30");
}

#[test]
fn rfc3339_string_refuses_an_offset_of_a_day() {
    let t = LocalStamp { seconds: 0, nanos: 0, offset_seconds: 86_400 };
    assert_eq!(rfc3339_string(&t), None);
    let t = LocalStamp { seconds: 0, nanos: 0, offset_seconds: -86_400 };
    assert_eq!(rfc3339_string(&t), None);
}

#[test]
fn tray_menu_lists_each_action_once_in_order() {
    let m = tray_menu();
    let items: Vec<Action> = m
        .iter()
        .filter_map(|e| if let MenuEntry::Item(a) = e { Some(*a) } else { None })
        .collect();
    assert_eq!(items, ALL.to_vec());
    assert_eq!(m[0], MenuEntry::Open("Get"));
    assert_eq!(m[1], MenuEntry::Open("Time"));
    assert_eq!(m[6], MenuEntry::Open("Generate"));
    assert_eq!(m[11], MenuEntry::Separator);
    let opens = m.iter().filter(|e| matches!(e, MenuEntry::Open(_))).count();
    let closes = m.iter().filter(|e| matches!(e, MenuEntry::Close)).count();
    assert_eq!(opens, closes);
}

#[test]
fn labels_match_the_menu_text() {
    let labels: Vec<&str> = ALL.iter().map(|a| a.label()).collect();
    assert_eq!(labels, ["UNIX", "ISO", "UUID v4", "Mac Address", "Random 32 String", "Quit"]);
}

#[test]
fn rfc3339_string_shows_every_stamp_in_range() {
    let last = LocalStamp {
        seconds: MAX_STAMP_SECONDS,
        nanos: 999_999_999,
        offset_seconds: 86_399,
    };
    let s = rfc3339_string(&last).unwrap();
    // the offset is shown to the minute
    assert_eq!(s, "+255479-11-29T14:13:19.999999999+24:00");
    let first = LocalStamp { seconds: 0, nanos: 0, offset_seconds: -86_399 };
    assert!(rfc3339_string(&first).is_some());
}
