use sharpie::{BeltType, Deck, DeckType};

fn coef(millionths: u32) -> f64 {
    millionths as f64 / 1_000_000.0
}

const DECK_TYPES: [DeckType; 7] = [
    DeckType::MultipleArmored,
    DeckType::SingleArmored,
    DeckType::MultipleProtected,
    DeckType::SingleProtected,
    DeckType::BoxOverMachinery,
    DeckType::BoxOverMagazine,
    DeckType::BoxOverBoth,
];

fn belt_wgt(kind: BeltType, thick: f64, len: f64, hgt: f64) -> f64 {
    let lwl: f64 = 500.0;
    let cwp: f64 = 0.5;
    let b: f64 = 10.0;
    (len + coef(kind.taper()) * ((lwl - len) / lwl).powf(1.0 - cwp) * b) * hgt * thick * 0.0185 * 2.0
}

#[test]
fn belt_taper_by_kind() {
    assert_eq!(coef(BeltType::Main.taper()), 1.0);
    assert_eq!(coef(BeltType::Upper.taper()), 1.0);
    assert_eq!(coef(BeltType::End.taper()), 0.0);
    assert_eq!(coef(BeltType::Bulge.taper()), 0.0);
    assert_eq!(coef(BeltType::Bulkhead.taper()), 0.0);
}

#[test]
fn belt_wgt_zero() {
    assert!(0.0 == belt_wgt(BeltType::Main, 0.0, 0.0, 0.0));
}

#[test]
fn belt_wgt_main() {
    assert!(40.30938060669968 == belt_wgt(BeltType::Main, 1.0, 100.0, 10.0));
}

#[test]
fn belt_wgt_end() {
    assert!(37.0 == belt_wgt(BeltType::End, 1.0, 100.0, 10.0));
}

#[test]
fn belt_wgt_upper() {
    assert!(40.30938060669968 == belt_wgt(BeltType::Upper, 1.0, 100.0, 10.0));
}

#[test]
fn belt_wgt_bulge() {
    assert!(37.0 == belt_wgt(BeltType::Bulge, 1.0, 100.0, 10.0));
}

#[test]
fn belt_wgt_bulkhead() {
    assert!(37.0 == belt_wgt(BeltType::Bulkhead, 1.0, 100.0, 10.0));
}

#[test]
fn deck_new_is_unarmoured() {
    let d = Deck::new();
    assert_eq!(d, Deck { kind: DeckType::MultipleArmored, fc: 0, fd: 0, ad: 0, qd: 0 });
    assert_eq!(Deck::default(), d);
}

#[test]
fn deck_type_from_code() {
    for (i, k) in DECK_TYPES.iter().enumerate() {
        assert_eq!(DeckType::from(i.to_string().as_str()), *k);
        assert_eq!(DeckType::from(i.to_string()), *k);
    }
    assert_eq!(DeckType::from("7"), DeckType::MultipleArmored);
    assert_eq!(DeckType::from("box"), DeckType::MultipleArmored);
    assert_eq!(DeckType::default(), DeckType::MultipleArmored);
}

#[test]
fn deck_type_names() {
    let names: Vec<String> = DECK_TYPES.iter().map(|k| k.to_string()).collect();
    assert_eq!(
        names,
        [
            "Armoured deck - multiple decks",
            "Armoured deck - single deck",
            "Protected deck - multiple decks",
            "Protected deck - singls deck",
            "Box over machinery",
            "Box over magazines",
            "Box over machiner & magazines"
        ]
    );
}

#[test]
fn deck_type_boxes() {
    let boxes: Vec<(bool, bool, bool)> = DECK_TYPES
        .iter()
        .map(|k| (k.is_box(), k.covers_machinery(), k.covers_magazines()))
        .collect();
    assert_eq!(
        boxes,
        [
            (false, false, false),
            (false, false, false),
            (false, false, false),
            (false, false, false),
            (true, true, false),
            (true, false, true),
            (true, true, true)
        ]
    );
}
