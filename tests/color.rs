use message_info::color::PlayerColorParam as ColorTable;
use message_info::player_color::PlayerColorParam;
use message_info::{EntryKey, RGB};

#[test]
fn from_hex_str() {
    let col = RGB::from_hex_str("0099FF").unwrap();
    assert_eq!(col, RGB { red: 0x00, green: 0x99, blue: 0xFF });
}

#[test]
fn from_hex_str_with_hashtag() {
    let col = RGB::from_hex_str("#FF0099").unwrap();
    assert_eq!(col, RGB { red: 0xFF, green: 0x00, blue: 0x99 });
}

#[test]
fn to_hex_str() {
    let rgb = RGB { red: 0x00, green: 0x99, blue: 0xFF };
    assert_eq!(rgb.to_hex_str(false), "0099FF");
}

#[test]
fn to_hex_str_with_hashtag() {
    let rgb = RGB { red: 0xFF, green: 0x00, blue: 0x99 };
    assert_eq!(rgb.to_hex_str(true), "#FF0099");
}

#[test]
fn hex_round_trip_without_hashtag() {
    let c = RGB { red: 0x00, green: 0x99, blue: 0xFF };
    assert_eq!(RGB::from_hex_str(&c.to_hex_str(false)), Some(c));
    let d = RGB { red: 0x0A, green: 0xB0, blue: 0x07 };
    assert_eq!(RGB::from_hex_str(&d.to_hex_str(true)), Some(d));
}

#[test]
fn from_hex_str_rejects_wrong_length() {
    assert_eq!(RGB::from_hex_str("12345"), None);
    assert_eq!(RGB::from_hex_str("#12345"), None);
    assert_eq!(RGB::from_hex_str("1234567"), None);
    assert_eq!(RGB::from_hex_str(""), None);
    assert_eq!(RGB::from_hex_str("##123456"), None);
}

#[test]
fn from_hex_str_rejects_non_hex() {
    assert_eq!(RGB::from_hex_str("GGHHII"), None);
    assert_eq!(RGB::from_hex_str("00990G"), None);
    assert_eq!(RGB::from_hex_str("+F+F+F"), None);
    assert_eq!(RGB::from_hex_str("aé1234"), None);
}

#[test]
fn from_hex_str_lower_case() {
    assert_eq!(RGB::from_hex_str("#ff0a9b"), Some(RGB { red: 0xFF, green: 0x0A, blue: 0x9B }));
}

#[test]
fn to_hex_str_is_upper_case() {
    let rgb = RGB { red: 0xAB, green: 0xCD, blue: 0xEF };
    assert_eq!(rgb.to_hex_str(false), "ABCDEF");
    assert_eq!(RGB::default().to_hex_str(true), "#000000");
}

#[test]
fn player_color_key() {
    let p = PlayerColorParam {
        character_id: "1jnt01".to_string(),
        costume_index: 2,
        alt_index: 10,
        red: 1,
        green: 2,
        blue: 3,
    };
    assert_eq!(p.key(), "1jnt01_2_10");
    let q = PlayerColorParam {
        character_id: String::new(),
        costume_index: 0,
        alt_index: 255,
        red: 0,
        green: 0,
        blue: 0,
    };
    assert_eq!(q.key(), "_0_255");
}

#[test]
fn entry_key_order() {
    let a = EntryKey { character_id: "a".to_string(), costume_index: 5, alt_index: 5 };
    let b = EntryKey { character_id: "b".to_string(), costume_index: 0, alt_index: 0 };
    let c = EntryKey { character_id: "a".to_string(), costume_index: 5, alt_index: 6 };
    assert!(a < b);
    assert!(a < c);
    assert!(c < b);
    let mut table = ColorTable { entries: indexmap::IndexMap::new() };
    table.entries.insert(b.clone(), RGB::default());
    table.entries.insert(a.clone(), RGB { red: 1, green: 2, blue: 3 });
    assert_eq!(table.entries.get_index(0).unwrap().0, &b);
}
