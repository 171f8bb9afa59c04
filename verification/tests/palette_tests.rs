use particle_life::palette::{full_palette, take_colors, CssColor, PALETTE_LEN};

#[test]
fn full_palette_has_every_entry() {
    let all = full_palette();
    assert_eq!(all.len(), PALETTE_LEN);
    assert_eq!(all[0], CssColor::Red);
    assert_eq!(all[10], CssColor::OrangeRed);
    assert_eq!(all[PALETTE_LEN - 1], CssColor::DimGray);
}

#[test]
fn take_colors_takes_a_prefix() {
    assert_eq!(take_colors(3), vec![CssColor::Red, CssColor::Crimson, CssColor::DarkRed]);
    let fifty = take_colors(50);
    let hundred = take_colors(100);
    assert_eq!(fifty.len(), 50);
    assert_eq!(hundred.len(), 100);
    assert_eq!(&hundred[..50], &fifty[..]);
}

#[test]
fn take_colors_edges() {
    assert!(take_colors(0).is_empty());
    assert_eq!(take_colors(PALETTE_LEN), full_palette());
    assert_eq!(take_colors(PALETTE_LEN + 1), full_palette());
    assert_eq!(take_colors(usize::MAX).len(), PALETTE_LEN);
}
