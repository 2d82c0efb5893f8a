//! Localised message entries keyed by identifier, their language, and the audio-cue file table.

use vstd::prelude::*;
use vstd::string::StrSliceExecFns;
use vstd::string::StringExecFns;
use indexmap::IndexMap;
use crate::index_map::{
    message_entries, insert_entry, key_index, lookup, entry_map_new, entry_map_len, entry_map_get_index,
    entry_map_insert,
};
use crate::digits::{decimal, decimal_string};

verus! {

/// One language's entries, keyed by identifier, in file order.
#[derive(Debug)]
pub struct MessageInfo {
    pub language: Language,
    pub entries: IndexMap<u32, Entry>,
}

/// One localised record.
#[derive(Debug, PartialEq, Eq)]
pub struct Entry {
    pub string_id: Option<String>,
    pub message: Option<String>,
    pub reference_id: Option<Reference>,
    pub adx2_file: Option<String>,
    pub adx2_cue_index: Option<u16>,
}

/// A reference to another entry, by name or by identifier.
#[derive(Debug, PartialEq, Eq)]
pub enum Reference {
    StringId(String),
    HashId(u32),
}

/// The language of a set of entries: the officially supported ones, or another by its code.
#[derive(Debug, PartialEq, Eq)]
pub enum Language {
    English,
    Spanish,
    German,
    Italian,
    French,
    Japanese,
    Korean,
    ChineseSimplified,
    ChineseTraditional,
    /// Any other language, by its ISO 639-3 code or name.
    Other(String),
}

fn clone_opt_string(s: &Option<String>) -> (r: Option<String>)
    ensures
        r == *s,
{
    match s {
        Some(t) => Some(t.clone()),
        None => None,
    }
}

impl Clone for Reference {
    fn clone(&self) -> (r: Self)
        ensures
            r == *self,
    {
        match self {
            Reference::StringId(s) => Reference::StringId(s.clone()),
            Reference::HashId(h) => Reference::HashId(*h),
        }
    }
}

impl Clone for Entry {
    fn clone(&self) -> (r: Self)
        ensures
            r == *self,
    {
        let reference_id = match &self.reference_id {
            Some(x) => Some(x.clone()),
            None => None,
        };
        Entry {
            string_id: clone_opt_string(&self.string_id),
            message: clone_opt_string(&self.message),
            reference_id,
            adx2_file: clone_opt_string(&self.adx2_file),
            adx2_cue_index: self.adx2_cue_index,
        }
    }
}

impl Clone for Language {
    fn clone(&self) -> (r: Self)
        ensures
            r == *self,
    {
        match self {
            Language::English => Language::English,
            Language::Spanish => Language::Spanish,
            Language::German => Language::German,
            Language::Italian => Language::Italian,
            Language::French => Language::French,
            Language::Japanese => Language::Japanese,
            Language::Korean => Language::Korean,
            Language::ChineseSimplified => Language::ChineseSimplified,
            Language::ChineseTraditional => Language::ChineseTraditional,
            Language::Other(s) => Language::Other(s.clone()),
        }
    }
}

/// `a` with every pair of `b` inserted in `b`'s order.
pub open spec fn merged(a: Seq<(u32, Entry)>, b: Seq<(u32, Entry)>) -> Seq<(u32, Entry)>
    decreases b.len(),
{
    if b.len() == 0 {
        a
    } else {
        insert_entry(merged(a, b.drop_last()), b.last().0, b.last().1)
    }
}

impl MessageInfo {
    /// The key-entry pairs in order.
    pub open spec fn entry_seq(&self) -> Seq<(u32, Entry)> {
        message_entries(self.entries)
    }

    /// An empty set of entries in `language`.
    pub fn new(language: Language) -> (r: MessageInfo)
        ensures
            r.language == language,
            r.entry_seq() == Seq::<(u32, Entry)>::empty(),
    {
        MessageInfo { language, entries: entry_map_new() }
    }

    /// Inserts or replaces the entry of `key`; a replaced key keeps its place, a new one goes
    /// last. Returns the entry that was replaced.
    pub fn insert(&mut self, key: u32, entry: Entry) -> (r: Option<Entry>)
        ensures
            final(self).language == old(self).language,
            final(self).entry_seq() == insert_entry(old(self).entry_seq(), key, entry),
            key_index(old(self).entry_seq(), key) >= 0 ==> r == Some(
                old(self).entry_seq()[key_index(old(self).entry_seq(), key)].1,
            ),
            key_index(old(self).entry_seq(), key) < 0 ==> r is None,
    {
        entry_map_insert(&mut self.entries, key, entry)
    }

    /// Takes the language of `other` and inserts each of its entries in its order: on a key
    /// present in both, `other`'s entry wins and the key keeps its place here.
    pub fn merge(&mut self, other: &Self)
        ensures
            final(self).language == other.language,
            final(self).entry_seq() == merged(old(self).entry_seq(), other.entry_seq()),
    {
        self.language = other.language.clone();
        let n = entry_map_len(&other.entries);
        let mut i: usize = 0;
        while i < n
            invariant
                n == other.entry_seq().len(),
                i <= n,
                self.language == other.language,
                self.entry_seq() == merged(old(self).entry_seq(), other.entry_seq().take(i as int)),
            decreases n - i,
        {
            let ghost before = self.entry_seq();
            match entry_map_get_index(&other.entries, i) {
                Some((k, e)) => {
                    entry_map_insert(&mut self.entries, *k, e.clone());
                },
                None => {},
            }
            assert(other.entry_seq().take(i + 1).drop_last() =~= other.entry_seq().take(i as int));
            i = i + 1;
        }
        assert(other.entry_seq().take(n as int) =~= other.entry_seq());
    }
}

proof fn lemma_key_index_bounds(s: Seq<(u32, Entry)>, k: u32)
    ensures
        -1 <= key_index(s, k) < s.len(),
        key_index(s, k) >= 0 ==> s[key_index(s, k)].0 == k,
    decreases s.len(),
{
    if s.len() > 0 && s.last().0 != k {
        lemma_key_index_bounds(s.drop_last(), k);
    }
}

proof fn lemma_key_index_same_keys(s: Seq<(u32, Entry)>, t: Seq<(u32, Entry)>, k: u32)
    requires
        s.len() == t.len(),
        forall|i: int| 0 <= i < s.len() ==> #[trigger] s[i].0 == t[i].0,
    ensures
        key_index(s, k) == key_index(t, k),
    decreases s.len(),
{
    if s.len() > 0 {
        lemma_key_index_same_keys(s.drop_last(), t.drop_last(), k);
    }
}

proof fn lemma_lookup_insert(s: Seq<(u32, Entry)>, k0: u32, e0: Entry, k: u32)
    ensures
        lookup(insert_entry(s, k0, e0), k) == if k == k0 { Some(e0) } else { lookup(s, k) },
{
    let r = insert_entry(s, k0, e0);
    let i = key_index(s, k0);
    lemma_key_index_bounds(s, k0);
    lemma_key_index_bounds(s, k);
    if i >= 0 {
        lemma_key_index_same_keys(s, r, k);
    } else {
        assert(r.drop_last() =~= s);
    }
}

/// Merging is right-biased and drops nothing: looked up by key, the merged pairs give the
/// incoming store's entry for each of its keys, and the receiver's entry for every other key.
pub proof fn lemma_merge_lookup(a: Seq<(u32, Entry)>, b: Seq<(u32, Entry)>, k: u32)
    ensures
        lookup(merged(a, b), k) == if key_index(b, k) >= 0 {
            lookup(b, k)
        } else {
            lookup(a, k)
        },
    decreases b.len(),
{
    if b.len() > 0 {
        let rest = b.drop_last();
        lemma_merge_lookup(a, rest, k);
        lemma_lookup_insert(merged(a, rest), b.last().0, b.last().1, k);
        lemma_key_index_bounds(rest, k);
    }
}

/// Merging keeps the receiver's keys where they were: the merged pairs start with the
/// receiver's keys in the receiver's order.
pub proof fn lemma_merge_keeps_order(a: Seq<(u32, Entry)>, b: Seq<(u32, Entry)>)
    ensures
        merged(a, b).len() >= a.len(),
        forall|i: int| 0 <= i < a.len() ==> #[trigger] merged(a, b)[i].0 == a[i].0,
    decreases b.len(),
{
    if b.len() > 0 {
        let rest = b.drop_last();
        lemma_merge_keeps_order(a, rest);
        lemma_key_index_bounds(merged(a, rest), b.last().0);
        let m = merged(a, rest);
        assert(forall|i: int| 0 <= i < m.len() ==> #[trigger] merged(a, b)[i].0 == m[i].0);
    }
}

/// The display name of a language; a language outside the fixed set shows its own text.
pub open spec fn language_name(l: Language) -> Seq<char> {
    match l {
        Language::English => "English"@,
        Language::Spanish => "Spanish"@,
        Language::German => "German"@,
        Language::Italian => "Italian"@,
        Language::French => "French"@,
        Language::Japanese => "Japanese"@,
        Language::Korean => "Korean"@,
        Language::ChineseSimplified => "ChineseSimplified"@,
        Language::ChineseTraditional => "ChineseTraditional"@,
        Language::Other(s) => s@,
    }
}

/// The language of the fixed set whose display name is `s`, if there is one.
pub open spec fn fixed_language(s: Seq<char>) -> Option<Language> {
    if s == "English"@ {
        Some(Language::English)
    } else if s == "Spanish"@ {
        Some(Language::Spanish)
    } else if s == "German"@ {
        Some(Language::German)
    } else if s == "Italian"@ {
        Some(Language::Italian)
    } else if s == "French"@ {
        Some(Language::French)
    } else if s == "Japanese"@ {
        Some(Language::Japanese)
    } else if s == "Korean"@ {
        Some(Language::Korean)
    } else if s == "ChineseSimplified"@ {
        Some(Language::ChineseSimplified)
    } else if s == "ChineseTraditional"@ {
        Some(Language::ChineseTraditional)
    } else {
        None
    }
}

/// `l` is what the name `s` reads as: the fixed language of that name, else `Other` holding `s`.
pub open spec fn parses_as(s: Seq<char>, l: Language) -> bool {
    match fixed_language(s) {
        Some(f) => l == f,
        None => l is Other && language_name(l) == s,
    }
}

/// Whether two strings hold the same characters.
fn str_eq(a: &str, b: &str) -> (r: bool)
    ensures
        r == (a@ == b@),
{
    let n = a.unicode_len();
    if n != b.unicode_len() {
        return false;
    }
    let mut i: usize = 0;
    while i < n
        invariant
            n == a@.len(),
            n == b@.len(),
            i <= n,
            forall|j: int| 0 <= j < i ==> a@[j] == b@[j],
        decreases n - i,
    {
        if a.get_char(i) != b.get_char(i) {
            return false;
        }
        i = i + 1;
    }
    assert(a@ =~= b@);
    true
}

impl Language {
    /// The display name: the fixed name of a supported language, or the text of `Other`.
    pub fn to_string(&self) -> (r: String)
        ensures
            r@ == language_name(*self),
    {
        match self {
            Language::English => String::from_str("English"),
            Language::Spanish => String::from_str("Spanish"),
            Language::German => String::from_str("German"),
            Language::Italian => String::from_str("Italian"),
            Language::French => String::from_str("French"),
            Language::Japanese => String::from_str("Japanese"),
            Language::Korean => String::from_str("Korean"),
            Language::ChineseSimplified => String::from_str("ChineseSimplified"),
            Language::ChineseTraditional => String::from_str("ChineseTraditional"),
            Language::Other(s) => s.clone(),
        }
    }

    /// Reads a display name; a name outside the fixed set becomes `Other`. Never fails.
    pub fn from_str(s: &str) -> (r: Result<Language, std::convert::Infallible>)
        ensures
            r is Ok && parses_as(s@, r.unwrap()),
    {
        let l = if str_eq(s, "English") {
            Language::English
        } else if str_eq(s, "Spanish") {
            Language::Spanish
        } else if str_eq(s, "German") {
            Language::German
        } else if str_eq(s, "Italian") {
            Language::Italian
        } else if str_eq(s, "French") {
            Language::French
        } else if str_eq(s, "Japanese") {
            Language::Japanese
        } else if str_eq(s, "Korean") {
            Language::Korean
        } else if str_eq(s, "ChineseSimplified") {
            Language::ChineseSimplified
        } else if str_eq(s, "ChineseTraditional") {
            Language::ChineseTraditional
        } else {
            Language::Other(String::from_str(s))
        };
        Ok(l)
    }
}

/// Reading back the display name of a language gives that language, unless it is an `Other`
/// whose text is the name of a fixed language.
pub proof fn lemma_language_name_round_trip(l: Language)
    requires
        !(l is Other && fixed_language(language_name(l)) is Some),
    ensures
        parses_as(language_name(l), l),
{
    reveal_strlit("English");
    assert("English"@.len() == 7 && "English"@[0] == 'E');
    reveal_strlit("Spanish");
    assert("Spanish"@.len() == 7 && "Spanish"@[0] == 'S');
    reveal_strlit("German");
    assert("German"@.len() == 6 && "German"@[0] == 'G');
    reveal_strlit("Italian");
    assert("Italian"@.len() == 7 && "Italian"@[0] == 'I');
    reveal_strlit("French");
    assert("French"@.len() == 6 && "French"@[0] == 'F');
    reveal_strlit("Japanese");
    assert("Japanese"@.len() == 8 && "Japanese"@[0] == 'J');
    reveal_strlit("Korean");
    assert("Korean"@.len() == 6 && "Korean"@[0] == 'K');
    reveal_strlit("ChineseSimplified");
    assert("ChineseSimplified"@.len() == 17 && "ChineseSimplified"@[0] == 'C');
    reveal_strlit("ChineseTraditional");
    assert("ChineseTraditional"@.len() == 18 && "ChineseTraditional"@[0] == 'C');
}

/// Any text read as a language displays as that same text.
pub proof fn lemma_parse_name_round_trip(s: Seq<char>, l: Language)
    requires
        parses_as(s, l),
    ensures
        language_name(l) == s,
{
}

/// The audio-cue file that a cue index stands for, if it is one of the known files.
pub open spec fn adx2_filename_of(index: u16) -> Option<Seq<char>> {
    match index {
        1 => Some("v_sys_etc"@),
        2 => Some("v_mob"@),
        3 => Some("v_btl_0bao01"@),
        4 => Some("v_btl_1dio01"@),
        5 => Some("v_btl_1jnt01"@),
        6 => Some("v_btl_1sdw01"@),
        7 => Some("v_btl_1zpl01"@),
        8 => Some("v_btl_2csr01"@),
        9 => Some("v_btl_2esd01"@),
        10 => Some("v_btl_2jsp01"@),
        11 => Some("v_btl_2krs01"@),
        12 => Some("v_btl_2lsa01"@),
        13 => Some("v_btl_2wmu01"@),
        14 => Some("v_btl_3abd01"@),
        15 => Some("v_btl_3dio01"@),
        16 => Some("v_btl_3hhs01"@),
        17 => Some("v_btl_3igy01"@),
        18 => Some("v_btl_3jsp01"@),
        19 => Some("v_btl_3jtr01"@),
        20 => Some("v_btl_3kki01"@),
        21 => Some("v_btl_3mra01"@),
        22 => Some("v_btl_3pln01"@),
        23 => Some("v_btl_3psp01"@),
        24 => Some("v_btl_3vni01"@),
        25 => Some("v_btl_4jsk01"@),
        26 => Some("v_btl_4jtr01"@),
        27 => Some("v_btl_4kir01"@),
        28 => Some("v_btl_4koi01"@),
        29 => Some("v_btl_4kwk01"@),
        30 => Some("v_btl_4oky01"@),
        31 => Some("v_btl_4oti01"@),
        32 => Some("v_btl_4rhn01"@),
        33 => Some("v_btl_4sgc01"@),
        34 => Some("v_btl_4ykk01"@),
        35 => Some("v_btl_5bct01"@),
        36 => Some("v_btl_5dvl01"@),
        37 => Some("v_btl_5fgo01"@),
        38 => Some("v_btl_5gac01"@),
        39 => Some("v_btl_5grn01"@),
        40 => Some("v_btl_5mst01"@),
        41 => Some("v_btl_5nrc01"@),
        42 => Some("v_btl_5prs01"@),
        43 => Some("v_btl_5trs01"@),
        44 => Some("v_btl_6ans01"@),
        45 => Some("v_btl_6elm01"@),
        46 => Some("v_btl_6fit01"@),
        47 => Some("v_btl_6jln01"@),
        48 => Some("v_btl_6pci02"@),
        49 => Some("v_btl_7dio01"@),
        50 => Some("v_btl_7jir01"@),
        51 => Some("v_btl_7jny01"@),
        52 => Some("v_btl_7vtn01"@),
        53 => Some("v_btl_8jsk01"@),
        56 => Some("v_card"@),
        57 => Some("v_gallery"@),
        58 => Some("v_btl_6wet01"@),
        59 => Some("v_sys_6wet01"@),
        60 => Some("v_btl_5ris01"@),
        61 => Some("v_sys_5ris01"@),
        62 => Some("v_btl_6pci01"@),
        63 => Some("v_sys_6pci01"@),
        64 => Some("v_btl_2shm01"@),
        65 => Some("v_sys_2shm01"@),
        66 => Some("v_btl_4kch01"@),
        67 => Some("v_sys_4kch01"@),
        68 => Some("v_btl_7dio02"@),
        69 => Some("v_sys_7dio02"@),
        70 => Some("v_btl_5abc01"@),
        71 => Some("v_sys_5abc01"@),
        72 => Some("v_btl_4fgm01"@),
        73 => Some("v_sys_4fgm01"@),
        74 => Some("v_btl_8wou01"@),
        75 => Some("v_sys_8wou01"@),
        _ => None,
    }
}

fn adx2_name(index: u16) -> (r: Option<&'static str>)
    ensures
        match r {
            Some(n) => adx2_filename_of(index) == Some(n@),
            None => adx2_filename_of(index) is None,
        },
{
    match index {
        1 => Some("v_sys_etc"),
        2 => Some("v_mob"),
        3 => Some("v_btl_0bao01"),
        4 => Some("v_btl_1dio01"),
        5 => Some("v_btl_1jnt01"),
        6 => Some("v_btl_1sdw01"),
        7 => Some("v_btl_1zpl01"),
        8 => Some("v_btl_2csr01"),
        9 => Some("v_btl_2esd01"),
        10 => Some("v_btl_2jsp01"),
        11 => Some("v_btl_2krs01"),
        12 => Some("v_btl_2lsa01"),
        13 => Some("v_btl_2wmu01"),
        14 => Some("v_btl_3abd01"),
        15 => Some("v_btl_3dio01"),
        16 => Some("v_btl_3hhs01"),
        17 => Some("v_btl_3igy01"),
        18 => Some("v_btl_3jsp01"),
        19 => Some("v_btl_3jtr01"),
        20 => Some("v_btl_3kki01"),
        21 => Some("v_btl_3mra01"),
        22 => Some("v_btl_3pln01"),
        23 => Some("v_btl_3psp01"),
        24 => Some("v_btl_3vni01"),
        25 => Some("v_btl_4jsk01"),
        26 => Some("v_btl_4jtr01"),
        27 => Some("v_btl_4kir01"),
        28 => Some("v_btl_4koi01"),
        29 => Some("v_btl_4kwk01"),
        30 => Some("v_btl_4oky01"),
        31 => Some("v_btl_4oti01"),
        32 => Some("v_btl_4rhn01"),
        33 => Some("v_btl_4sgc01"),
        34 => Some("v_btl_4ykk01"),
        35 => Some("v_btl_5bct01"),
        36 => Some("v_btl_5dvl01"),
        37 => Some("v_btl_5fgo01"),
        38 => Some("v_btl_5gac01"),
        39 => Some("v_btl_5grn01"),
        40 => Some("v_btl_5mst01"),
        41 => Some("v_btl_5nrc01"),
        42 => Some("v_btl_5prs01"),
        43 => Some("v_btl_5trs01"),
        44 => Some("v_btl_6ans01"),
        45 => Some("v_btl_6elm01"),
        46 => Some("v_btl_6fit01"),
        47 => Some("v_btl_6jln01"),
        48 => Some("v_btl_6pci02"),
        49 => Some("v_btl_7dio01"),
        50 => Some("v_btl_7jir01"),
        51 => Some("v_btl_7jny01"),
        52 => Some("v_btl_7vtn01"),
        53 => Some("v_btl_8jsk01"),
        56 => Some("v_card"),
        57 => Some("v_gallery"),
        58 => Some("v_btl_6wet01"),
        59 => Some("v_sys_6wet01"),
        60 => Some("v_btl_5ris01"),
        61 => Some("v_sys_5ris01"),
        62 => Some("v_btl_6pci01"),
        63 => Some("v_sys_6pci01"),
        64 => Some("v_btl_2shm01"),
        65 => Some("v_sys_2shm01"),
        66 => Some("v_btl_4kch01"),
        67 => Some("v_sys_4kch01"),
        68 => Some("v_btl_7dio02"),
        69 => Some("v_sys_7dio02"),
        70 => Some("v_btl_5abc01"),
        71 => Some("v_sys_5abc01"),
        72 => Some("v_btl_4fgm01"),
        73 => Some("v_sys_4fgm01"),
        74 => Some("v_btl_8wou01"),
        75 => Some("v_sys_8wou01"),
        _ => None,
    }
}

/// Index of a known audio-cue file; 0 when the name is not one of them.
pub fn get_asbr_adx2_file_index(filename: &str) -> (r: u16)
    ensures
        r != 0 ==> adx2_filename_of(r) == Some(filename@),
        r == 0 ==> forall|i: u16| adx2_filename_of(i) != Some(filename@),
{
    let mut i: u16 = 1;
    while i < 76
        invariant
            1 <= i <= 76,
            forall|j: u16| j < i ==> adx2_filename_of(j) != Some(filename@),
        decreases 76 - i,
    {
        match adx2_name(i) {
            Some(n) => {
                if str_eq(filename, n) {
                    return i;
                }
            },
            None => {},
        }
        i = i + 1;
    }
    0
}

/// Name of the audio-cue file of an index; the index in decimal when it is not a known one.
pub fn get_asbr_adx2_filename(index: u16) -> (r: String)
    ensures
        match adx2_filename_of(index) {
            Some(n) => r@ == n,
            None => r@ == decimal(index as nat),
        },
{
    match adx2_name(index) {
        Some(n) => String::from_str(n),
        None => decimal_string(index),
    }
}

} // verus!
