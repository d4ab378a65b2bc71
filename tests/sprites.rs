use nes::sprites::evaluate_sprites;

fn empty_oam() -> Vec<u8> {
    vec![0xF0u8; 256]
}

#[test]
fn picks_sprites_on_the_line_in_order() {
    let mut oam = empty_oam();
    oam[4 * 3] = 10;
    oam[4 * 7] = 5;
    oam[4 * 20] = 12;
    oam[4 * 30] = 13;
    let (sel, overflow) = evaluate_sprites(&oam, 12, false);
    assert_eq!(sel, vec![3, 7, 20]);
    assert!(!overflow);
}

#[test]
fn ninth_sprite_sets_overflow() {
    let mut oam = empty_oam();
    for i in 0..9 {
        oam[4 * i] = 20;
    }
    let (sel, overflow) = evaluate_sprites(&oam, 22, false);
    assert_eq!(sel, vec![0, 1, 2, 3, 4, 5, 6, 7]);
    assert!(overflow);
}

#[test]
fn overflow_search_reads_diagonally() {
    let mut oam = empty_oam();
    for i in 0..8 {
        oam[4 * i] = 20;
    }
    // sprite 9's tile byte is read as a Y coordinate after sprite 8 misses
    oam[4 * 9 + 1] = 20;
    let (sel, overflow) = evaluate_sprites(&oam, 22, false);
    assert_eq!(sel.len(), 8);
    assert!(overflow);
    // a real ninth sprite found only at byte 0 is missed once m has moved on
    let mut oam = empty_oam();
    for i in 0..8 {
        oam[4 * i] = 20;
    }
    oam[4 * 9] = 20;
    oam[4 * 9 + 1] = 0xF0;
    let (_, overflow) = evaluate_sprites(&oam, 22, false);
    assert!(!overflow);
}

#[test]
fn tall_sprites_cover_sixteen_lines() {
    let mut oam = empty_oam();
    oam[0] = 0;
    assert_eq!(evaluate_sprites(&oam, 15, true).0, vec![0]);
    assert_eq!(evaluate_sprites(&oam, 15, false).0, Vec::<u8>::new());
    assert_eq!(evaluate_sprites(&oam, 7, false).0, vec![0]);
}
