use message_info::{get_asbr_adx2_file_index, get_asbr_adx2_filename};
use message_info::{Entry, Language, MessageInfo, Reference};

fn text(s: &str) -> Entry {
    Entry {
        string_id: None,
        message: Some(s.to_string()),
        reference_id: None,
        adx2_file: None,
        adx2_cue_index: None,
    }
}

fn pairs(m: &MessageInfo) -> Vec<(u32, String)> {
    m.entries.iter().map(|(k, e)| (*k, e.message.clone().unwrap())).collect()
}

#[test]
fn merge_scenario() {
    let mut a = MessageInfo::new(Language::English);
    a.insert(1, text("a"));
    a.insert(2, text("b"));
    let mut b = MessageInfo::new(Language::Spanish);
    b.insert(2, text("B2"));
    b.insert(3, text("c"));
    a.merge(&b);
    assert_eq!(a.language, Language::Spanish);
    assert_eq!(
        pairs(&a),
        vec![(1, "a".to_string()), (2, "B2".to_string()), (3, "c".to_string())]
    );
    assert_eq!(pairs(&b), vec![(2, "B2".to_string()), (3, "c".to_string())]);
}

#[test]
fn merge_is_not_commutative() {
    let mut a = MessageInfo::new(Language::English);
    a.insert(1, text("a"));
    a.insert(2, text("b"));
    let mut b = MessageInfo::new(Language::Other("fat".to_string()));
    b.insert(2, text("B2"));
    b.insert(3, text("c"));
    let mut b2 = MessageInfo::new(Language::Other("fat".to_string()));
    b2.insert(2, text("B2"));
    b2.insert(3, text("c"));
    b2.merge(&a);
    assert_eq!(b2.language, Language::English);
    assert_eq!(
        pairs(&b2),
        vec![(2, "b".to_string()), (3, "c".to_string()), (1, "a".to_string())]
    );
    a.merge(&b);
    assert_eq!(a.language, Language::Other("fat".to_string()));
}

#[test]
fn merge_with_empty_store() {
    let mut a = MessageInfo::new(Language::German);
    a.insert(7, text("x"));
    let empty = MessageInfo::new(Language::Korean);
    a.merge(&empty);
    assert_eq!(a.language, Language::Korean);
    assert_eq!(pairs(&a), vec![(7, "x".to_string())]);
}

#[test]
fn insert_replaces_in_place() {
    let mut m = MessageInfo::new(Language::French);
    assert_eq!(m.insert(5, text("one")), None);
    assert_eq!(m.insert(9, text("two")), None);
    let old = m.insert(5, text("three"));
    assert_eq!(old, Some(text("one")));
    assert_eq!(pairs(&m), vec![(5, "three".to_string()), (9, "two".to_string())]);
}

#[test]
fn merge_copies_whole_entries() {
    let full = Entry {
        string_id: Some("msg_0001".to_string()),
        message: Some("hello".to_string()),
        reference_id: Some(Reference::HashId(0x1234)),
        adx2_file: Some("v_mob".to_string()),
        adx2_cue_index: Some(3),
    };
    let other_ref = Entry {
        string_id: None,
        message: None,
        reference_id: Some(Reference::StringId("msg_0002".to_string())),
        adx2_file: None,
        adx2_cue_index: None,
    };
    let mut a = MessageInfo::new(Language::Japanese);
    let mut b = MessageInfo::new(Language::ChineseSimplified);
    b.insert(10, full.clone());
    b.insert(11, other_ref.clone());
    a.merge(&b);
    assert_eq!(a.entries.get(&10), Some(&full));
    assert_eq!(a.entries.get(&11), Some(&other_ref));
    assert_eq!(a.entries.len(), 2);
}

#[test]
fn adx2_file_index_known_and_unknown() {
    assert_eq!(get_asbr_adx2_file_index("v_sys_etc"), 1);
    assert_eq!(get_asbr_adx2_file_index("v_mob"), 2);
    assert_eq!(get_asbr_adx2_file_index("v_btl_8jsk01"), 53);
    assert_eq!(get_asbr_adx2_file_index("v_card"), 56);
    assert_eq!(get_asbr_adx2_file_index("v_sys_8wou01"), 75);
    assert_eq!(get_asbr_adx2_file_index("v_unknown"), 0);
    assert_eq!(get_asbr_adx2_file_index(""), 0);
    assert_eq!(get_asbr_adx2_file_index("V_MOB"), 0);
}

#[test]
fn adx2_filename_known_and_unknown() {
    assert_eq!(get_asbr_adx2_filename(1), "v_sys_etc");
    assert_eq!(get_asbr_adx2_filename(48), "v_btl_6pci02");
    assert_eq!(get_asbr_adx2_filename(75), "v_sys_8wou01");
    assert_eq!(get_asbr_adx2_filename(0), "0");
    assert_eq!(get_asbr_adx2_filename(54), "54");
    assert_eq!(get_asbr_adx2_filename(55), "55");
    assert_eq!(get_asbr_adx2_filename(76), "76");
    assert_eq!(get_asbr_adx2_filename(65535), "65535");
}

#[test]
fn adx2_tables_are_inverse() {
    for i in 0u16..100 {
        let name = get_asbr_adx2_filename(i);
        let back = get_asbr_adx2_file_index(&name);
        if back != 0 {
            assert_eq!(back, i);
        }
    }
}
