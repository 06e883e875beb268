use guibiao_backend::dtu_receiver::{station_id_is_blank, white_space};

#[test]
fn blank_station_ids() {
    for id in ["", " ", "\t\n", "\u{3000}", " \u{a0}\u{2028} "] {
        assert!(station_id_is_blank(id), "{:?}", id);
        assert_eq!(station_id_is_blank(id), id.trim().is_empty());
    }
}

#[test]
fn station_ids_with_content() {
    for id in ["dengfeng_001", " a ", "\u{200b}", "登封观星台", "\u{3000}x"] {
        assert!(!station_id_is_blank(id), "{:?}", id);
        assert_eq!(station_id_is_blank(id), id.trim().is_empty());
    }
}

#[test]
fn white_space_matches_std() {
    for u in 0u32..0x3100 {
        if let Some(c) = char::from_u32(u) {
            assert_eq!(white_space(c), c.is_whitespace(), "U+{:04X}", u);
        }
    }
    for c in ['\u{feff}', '\u{10ffff}', 'a', '\u{1f600}'] {
        assert_eq!(white_space(c), c.is_whitespace());
    }
}
