use my_midi::layout::Layout;
use my_midi::profile::Profile;

#[test]
fn complete_layout_table() {
    let keys = "zxcvbnmasdfghjqwertyu";
    for (i, k) in keys.chars().enumerate() {
        assert_eq!(Layout::Complete.key_for(48 + i as u8), Some(k));
    }
    assert_eq!(Layout::Complete.key_for(47), None);
    assert_eq!(Layout::Complete.key_for(69), None);
}

#[test]
fn lows_layout_table() {
    let notes = [48u8, 50, 52, 53, 55, 57, 59, 60, 62, 64, 65, 67, 69, 71, 72];
    let keys = "zxcvbnmasdfghjq";
    for (n, k) in notes.iter().zip(keys.chars()) {
        assert_eq!(Layout::Lows.key_for(*n), Some(k));
    }
    assert_eq!(Layout::Lows.key_for(49), None);
    assert_eq!(Layout::Lows.key_for(73), None);
}

#[test]
fn highs_layout_table() {
    let notes = [48u8, 50, 52, 53, 55, 57, 59, 60, 62, 64, 65, 67, 69, 71];
    let keys = "asdfghjqwertyu";
    for (n, k) in notes.iter().zip(keys.chars()) {
        assert_eq!(Layout::Highs.key_for(*n), Some(k));
    }
    assert_eq!(Layout::Highs.key_for(72), None);
    assert_eq!(Layout::Highs.key_for(0), None);
    assert_eq!(Layout::Highs.key_for(127), None);
}

#[test]
fn layout_cycle_order() {
    assert_eq!(Layout::Complete.next(), Layout::Lows);
    assert_eq!(Layout::Lows.next(), Layout::Highs);
    assert_eq!(Layout::Highs.next(), Layout::Complete);
    for l in [Layout::Complete, Layout::Lows, Layout::Highs] {
        assert_eq!(l.next().next().next(), l);
    }
}

#[test]
fn profile_cycle_order_and_names() {
    assert_eq!(Profile::Default.next(), Profile::Genshin);
    assert_eq!(Profile::Genshin.next(), Profile::Sky);
    assert_eq!(Profile::Sky.next(), Profile::Default);
    for p in [Profile::Default, Profile::Genshin, Profile::Sky] {
        assert_eq!(p.next().next().next(), p);
    }
    assert_eq!(Profile::Default.name(), "Default");
    assert_eq!(Profile::Genshin.name(), "Genshin");
    assert_eq!(Profile::Sky.name(), "Sky");
    assert!(Profile::Genshin.sustains_notes());
    assert!(!Profile::Default.sustains_notes());
    assert!(!Profile::Sky.sustains_notes());
}
