use sharpie::MiscWgts;

#[test]
fn wgt_sum() {
    let misc_wgts = MiscWgts { vital: 1, hull: 10, on: 100, above: 1_000, void: 10_000 };
    assert!(11_111 == misc_wgts.wgt());
}

#[test]
fn wgt_default_is_zero() {
    let w = MiscWgts::default();
    assert_eq!(w, MiscWgts { vital: 0, hull: 0, on: 0, above: 0, void: 0 });
    assert_eq!(w.wgt(), 0);
}

#[test]
fn wgt_at_the_limit() {
    let w = MiscWgts { vital: u32::MAX - 10, hull: 1, on: 2, above: 3, void: 4 };
    assert_eq!(w.wgt(), u32::MAX);
    assert_eq!(w.checked_wgt(), Some(u32::MAX));
}

#[test]
fn checked_wgt_agrees_with_wgt() {
    let w = MiscWgts { vital: 5, hull: 50, on: 500, above: 5_000, void: 50_000 };
    assert_eq!(w.checked_wgt(), Some(w.wgt()));
}

#[test]
fn checked_wgt_beyond_the_limit() {
    let w = MiscWgts { vital: u32::MAX, hull: 1, on: 0, above: 0, void: 0 };
    assert_eq!(w.checked_wgt(), None);
    let w = MiscWgts {
        vital: u32::MAX,
        hull: u32::MAX,
        on: u32::MAX,
        above: u32::MAX,
        void: u32::MAX,
    };
    assert_eq!(w.checked_wgt(), None);
}
