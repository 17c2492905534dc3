use win32_version_info::field::{
    field_path, strip_trailing_nuls, translation_path, FieldName, FIELD_COUNT,
};
use win32_version_info::query::VersionQuery;
use win32_version_info::record::{VersionInfo, VersionInfoOs};
use win32_version_info::translation::{
    candidate_ids, read_le_u32, resolve_translation, swap_halves, LANG_US_ENGLISH_CP_UNICODE,
    LANG_US_ENGLISH_CP_UNKNOWN, LANG_US_ENGLISH_CP_USASCII,
};

/// A resource block reduced to what its structured lookups find.
struct Block {
    translation: Option<Vec<u8>>,
    entries: Vec<(Vec<u16>, Vec<u16>)>,
}

impl Block {
    fn new(translation: Option<Vec<u8>>) -> Block {
        Block { translation, entries: Vec::new() }
    }

    fn with(mut self, id: u32, key: &str, value: &str) -> Block {
        let mut units: Vec<u16> = value.encode_utf16().collect();
        units.push(0);
        self.entries.push((path_units(id, key), units));
        self
    }

    fn with_units(mut self, id: u32, key: &str, units: Vec<u16>) -> Block {
        self.entries.push((path_units(id, key), units));
        self
    }

    fn lookup(&self, path: &[u16]) -> Option<Vec<u16>> {
        self.entries.iter().find(|(p, _)| p.as_slice() == path).map(|(_, v)| v.clone())
    }
}

fn path_units(id: u32, key: &str) -> Vec<u16> {
    let mut p: Vec<u16> = format!("\\StringFileInfo\\{id:08x}\\{key}").encode_utf16().collect();
    p.push(0);
    p
}

fn units(s: &str) -> Vec<u16> {
    s.encode_utf16().collect()
}

/// Runs a search over `block`, returning the result and every path looked up.
fn run(block: &Block) -> (VersionInfoOs, Vec<Vec<u16>>) {
    let mut asked: Vec<Vec<u16>> = Vec::new();
    let mut search = VersionQuery::new(block.translation.as_deref());
    while let Some(paths) = search.paths() {
        let found: Vec<Option<Vec<u16>>> = paths.iter().map(|p| block.lookup(p)).collect();
        asked.extend(paths);
        if let Some(info) = search.advance(&found) {
            return (info, asked);
        }
    }
    (VersionInfoOs::default(), asked)
}

fn translation_bytes(id: u32) -> Vec<u8> {
    let lang = (id >> 16) as u16;
    let cp = id as u16;
    let mut b = lang.to_le_bytes().to_vec();
    b.extend_from_slice(&cp.to_le_bytes());
    b
}

#[test]
fn swap_halves_exchanges_words() {
    assert_eq!(swap_halves(0x04B0_0409), 0x0409_04B0);
    assert_eq!(swap_halves(0x0000_0001), 0x0001_0000);
    assert_eq!(swap_halves(0xFFFF_0000), 0x0000_FFFF);
}

#[test]
fn swap_halves_twice_is_identity() {
    for x in [0u32, 1, 0x1234_5678, 0xFFFF_FFFF, 0x0409_04E4, 0x8000_0001] {
        assert_eq!(swap_halves(swap_halves(x)), x);
    }
}

#[test]
fn read_le_u32_reads_unaligned_bytes() {
    let bytes = [0xAAu8, 0x09, 0x04, 0xB0, 0x04, 0xBB];
    assert_eq!(read_le_u32(&bytes[1..]), 0x04B0_0409);
}

#[test]
fn resolve_translation_swaps_declared_value() {
    assert_eq!(resolve_translation(Some(&[0x09, 0x04, 0xB0, 0x04])), Some(0x0409_04B0));
    assert_eq!(resolve_translation(Some(&[0x19, 0x04, 0xB0, 0x04, 0x09, 0x04, 0xE4, 0x04])), Some(0x0419_04B0));
}

#[test]
fn resolve_translation_absent_or_short_is_none() {
    assert_eq!(resolve_translation(None), None);
    assert_eq!(resolve_translation(Some(&[])), None);
    assert_eq!(resolve_translation(Some(&[0x09, 0x04, 0xB0])), None);
}

#[test]
fn candidates_without_declared_translation_are_the_fallbacks() {
    assert_eq!(
        candidate_ids(None),
        vec![LANG_US_ENGLISH_CP_UNKNOWN, LANG_US_ENGLISH_CP_UNICODE, LANG_US_ENGLISH_CP_USASCII]
    );
    assert_eq!(candidate_ids(None), vec![0x0409_0000, 0x0409_04B0, 0x0409_04E4]);
}

#[test]
fn candidates_with_declared_translation_put_it_first() {
    assert_eq!(
        candidate_ids(Some(0x0419_04B0)),
        vec![0x0419_04B0, 0x0409_0000, 0x0409_04B0, 0x0409_04E4]
    );
}

#[test]
fn translation_path_is_nul_terminated() {
    let mut expected = units("\\VarFileInfo\\Translation");
    expected.push(0);
    assert_eq!(translation_path(), expected);
}

#[test]
fn field_path_uses_lowercase_hex() {
    assert_eq!(field_path(FieldName::FileVersion, 0x0409_04B0), path_units(0x0409_04B0, "FileVersion"));
    let mut expected = units("\\StringFileInfo\\00abcdef\\SpecialBuild");
    expected.push(0);
    assert_eq!(field_path(FieldName::SpecialBuild, 0x00AB_CDEF), expected);
}

#[test]
fn field_order_is_fixed() {
    let keys = [
        "Comments", "CompanyName", "FileDescription", "FileVersion", "InternalName",
        "LegalCopyright", "LegalTrademarks", "OriginalFilename", "ProductName",
        "ProductVersion", "PrivateBuild", "SpecialBuild",
    ];
    assert_eq!(FIELD_COUNT, keys.len());
    for (i, key) in keys.iter().enumerate() {
        assert_eq!(FieldName::at(i).key_str(), *key);
    }
}

#[test]
fn strip_removes_trailing_nuls_only() {
    assert_eq!(strip_trailing_nuls(&[0x31, 0, 0x32, 0, 0]), vec![0x31, 0, 0x32]);
    assert_eq!(strip_trailing_nuls(&[0x31, 0x32]), vec![0x31, 0x32]);
    assert_eq!(strip_trailing_nuls(&[]), Vec::<u16>::new());
}

#[test]
fn strip_is_idempotent_and_all_nuls_strip_to_empty() {
    let once = strip_trailing_nuls(&[0x41, 0x42, 0, 0, 0]);
    assert_eq!(strip_trailing_nuls(&once), once);
    assert_eq!(strip_trailing_nuls(&[0, 0, 0, 0]), Vec::<u16>::new());
}

#[test]
fn from_lookups_strips_and_empties() {
    let mut found: Vec<Option<Vec<u16>>> = vec![None; FIELD_COUNT];
    found[3] = Some(vec![0x31, 0x2E, 0x30, 0]);
    found[0] = Some(vec![0, 0]);
    let info = VersionInfoOs::from_lookups(&found);
    assert_eq!(info.file_version, vec![0x31, 0x2E, 0x30]);
    assert!(info.comments.is_empty());
    assert!(info.company_name.is_empty());
    assert!(info.has_file_version());
    assert!(!VersionInfoOs::default().has_file_version());
}

#[test]
fn default_records_are_empty() {
    let os = VersionInfoOs::default();
    assert!(os.file_version.is_empty() && os.special_build.is_empty() && os.comments.is_empty());
    let text = VersionInfo::default();
    assert!(text.file_version.is_empty() && text.product_name.is_empty());
    assert_eq!(VersionInfo::from_os(&os), text);
}

#[test]
fn declared_translation_round_trip() {
    let block = Block::new(Some(translation_bytes(0x0409_04B0)))
        .with(0x0409_04B0, "FileVersion", "1.2.3.4")
        .with(0x0409_04B0, "FileDescription", "Demo App");
    let (info, _) = run(&block);
    let text = VersionInfo::from_os(&info);
    assert_eq!(text.file_version, "1.2.3.4");
    assert_eq!(text.file_description, "Demo App");
    assert_eq!(info.file_version, units("1.2.3.4"));
    for empty in [
        &text.comments, &text.company_name, &text.internal_name, &text.legal_copyright,
        &text.legal_trademarks, &text.original_filename, &text.product_name,
        &text.product_version, &text.private_build, &text.special_build,
    ] {
        assert!(empty.is_empty());
    }
}

#[test]
fn declared_translation_wins_over_fallbacks() {
    let block = Block::new(Some(translation_bytes(0x0419_04B0)))
        .with(0x0419_04B0, "FileVersion", "9.9.9.9");
    let (info, asked) = run(&block);
    assert_eq!(VersionInfo::from_os(&info).file_version, "9.9.9.9");
    assert_eq!(asked.len(), FIELD_COUNT);
}

#[test]
fn declared_translation_preferred_even_when_fallbacks_hold_data() {
    let block = Block::new(Some(translation_bytes(0x0419_04B0)))
        .with(0x0419_04B0, "FileVersion", "9.9.9.9")
        .with(0x0409_0000, "FileVersion", "1.0")
        .with(0x0409_04B0, "FileVersion", "2.0");
    let (info, _) = run(&block);
    assert_eq!(VersionInfo::from_os(&info).file_version, "9.9.9.9");
}

#[test]
fn first_candidate_with_version_wins_and_later_ones_are_not_consulted() {
    let block = Block::new(None)
        .with(0x0409_0000, "ProductName", "no version here")
        .with(0x0409_04B0, "FileVersion", "2.0")
        .with(0x0409_04B0, "ProductName", "Unicode")
        .with(0x0409_04E4, "FileVersion", "3.0");
    let (info, asked) = run(&block);
    let text = VersionInfo::from_os(&info);
    assert_eq!(text.file_version, "2.0");
    assert_eq!(text.product_name, "Unicode");
    assert_eq!(asked.len(), 2 * FIELD_COUNT);
    let ascii_table = units("\\StringFileInfo\\040904e4\\");
    assert!(asked.iter().all(|p| !p.starts_with(&ascii_table)));
}

#[test]
fn fallback_order_without_declared_translation() {
    let block = Block::new(None).with(0x0409_04E4, "FileVersion", "3.0");
    let (info, asked) = run(&block);
    assert_eq!(VersionInfo::from_os(&info).file_version, "3.0");
    assert_eq!(asked.len(), 3 * FIELD_COUNT);
    assert_eq!(asked[0], path_units(0x0409_0000, "Comments"));
    assert_eq!(asked[FIELD_COUNT], path_units(0x0409_04B0, "Comments"));
    assert_eq!(asked[2 * FIELD_COUNT], path_units(0x0409_04E4, "Comments"));
}

#[test]
fn short_translation_value_falls_back() {
    let block = Block::new(Some(vec![0x19, 0x04, 0xB0]))
        .with(0x0409_04B0, "FileVersion", "5.0");
    let (info, asked) = run(&block);
    assert_eq!(VersionInfo::from_os(&info).file_version, "5.0");
    assert_eq!(asked[0], path_units(0x0409_0000, "Comments"));
}

#[test]
fn no_string_tables_give_all_empty_success() {
    let block = Block::new(Some(translation_bytes(0x0409_04B0)))
        .with(0x0809_04B0, "FileVersion", "7.0");
    let (info, asked) = run(&block);
    assert_eq!(info, VersionInfoOs::default());
    assert_eq!(VersionInfo::from_os(&info), VersionInfo::default());
    assert_eq!(asked.len(), 4 * FIELD_COUNT);
}

#[test]
fn empty_file_version_does_not_end_search() {
    let block = Block::new(Some(translation_bytes(0x0409_04B0)))
        .with(0x0409_04B0, "FileVersion", "")
        .with(0x0409_04B0, "CompanyName", "Declared")
        .with(0x0409_04E4, "FileVersion", "4.0");
    let (info, _) = run(&block);
    let text = VersionInfo::from_os(&info);
    assert_eq!(text.file_version, "4.0");
    assert!(text.company_name.is_empty());
}

#[test]
fn advance_after_finish_changes_nothing() {
    let mut search = VersionQuery::new(None);
    let mut found: Vec<Option<Vec<u16>>> = vec![None; FIELD_COUNT];
    found[3] = Some(units("1.0"));
    assert!(search.advance(&found).is_some());
    assert!(search.finished);
    assert_eq!(search.next, 0);
    assert!(search.paths().is_none());
    assert!(search.advance(&found).is_none());
    assert_eq!(search.next, 0);
}

#[test]
fn unpaired_surrogate_kept_raw_and_replaced_in_text() {
    let raw: Vec<u16> = vec![0x41, 0xD800, 0x42, 0];
    let block = Block::new(None)
        .with(0x0409_0000, "FileVersion", "1.0")
        .with_units(0x0409_0000, "FileDescription", raw.clone());
    let (info, _) = run(&block);
    assert_eq!(info.file_description, vec![0x41, 0xD800, 0x42]);
    let text = VersionInfo::from_os(&info);
    assert_eq!(text.file_description, "A\u{FFFD}B");
    assert_eq!(text.file_description.chars().filter(|&c| c == '\u{FFFD}').count(), 1);
}

#[test]
fn surrogate_pair_decodes_to_one_character() {
    let mut found: Vec<Option<Vec<u16>>> = vec![None; FIELD_COUNT];
    found[3] = Some(vec![0xD83D, 0xDE00, 0x21, 0xDC00, 0]);
    let text = VersionInfo::from_os(&VersionInfoOs::from_lookups(&found));
    assert_eq!(text.file_version, "\u{1F600}!\u{FFFD}");
}
