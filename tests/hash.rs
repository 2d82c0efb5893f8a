use message_info::hash::hash_bytes;
use message_info::hash;

#[test]
fn hash_of_empty_string() {
    assert_eq!(hash(""), 0x0000_0000);
}

#[test]
fn hash_check_value() {
    assert_eq!(hash("123456789"), 0x1819_89FC);
    assert_eq!(hash("a"), 0x6B9B_9319);
    assert_eq!(hash("abc"), 0x73BB_8C64);
    assert_eq!(hash("v_sys_etc"), 0x3D62_5CBF);
}

#[test]
fn hash_uses_utf8_bytes() {
    assert_eq!(hash("é"), 0x84D6_8F9D);
    assert_eq!(hash("é"), hash_bytes(&[0xC3, 0xA9]));
}

#[test]
fn hash_is_deterministic() {
    for s in ["", "English", "v_btl_8wou01", "a longer message string"] {
        assert_eq!(hash(s), hash(s));
        assert_eq!(hash(s), hash_bytes(s.as_bytes()));
    }
}

#[test]
fn hash_has_no_collision_on_corpus() {
    let mut corpus: Vec<String> = Vec::new();
    for i in 1u16..76 {
        corpus.push(message_info::get_asbr_adx2_filename(i));
    }
    for w in ["", "a", "b", "ab", "ba", "English", "Spanish", "123456789", "msg_0001", "msg_0002"] {
        corpus.push(w.to_string());
    }
    let mut hashes: Vec<u32> = corpus.iter().map(|s| hash(s)).collect();
    hashes.sort();
    let before = hashes.len();
    hashes.dedup();
    let mut names = corpus.clone();
    names.sort();
    names.dedup();
    assert_eq!(hashes.len(), before - (corpus.len() - names.len()));
}
