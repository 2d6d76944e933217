use maplibre_native::ResourceKind;

const KINDS: [(u8, ResourceKind); 8] = [
    (0, ResourceKind::Unknown),
    (1, ResourceKind::Style),
    (2, ResourceKind::Source),
    (3, ResourceKind::Tile),
    (4, ResourceKind::Glyphs),
    (5, ResourceKind::SpriteImage),
    (6, ResourceKind::SpriteJSON),
    (7, ResourceKind::Image),
];

#[test]
fn every_kind_has_its_byte() {
    for (code, kind) in KINDS {
        assert_eq!(ResourceKind::from_u8(code), kind);
        assert_eq!(kind.as_u8(), code);
    }
}

#[test]
fn other_bytes_are_unknown() {
    for code in 8..=u8::MAX {
        assert_eq!(ResourceKind::from_u8(code), ResourceKind::Unknown);
    }
}

#[test]
fn no_two_kinds_share_a_byte() {
    for (_, a) in KINDS {
        for (_, b) in KINDS {
            assert_eq!(a.as_u8() == b.as_u8(), a == b);
        }
    }
}
