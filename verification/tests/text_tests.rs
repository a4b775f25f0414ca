use vibes::text::bar_block;
use vibes::text::bar_char;
use vibes::text::dec_str;
use vibes::text::truncate_str;
use vibes::text::two_dec_str;

#[test]
fn test_dec_str_renders_decimal() {
    assert_eq!(dec_str(0), "0");
    assert_eq!(dec_str(7), "7");
    assert_eq!(dec_str(42), "42");
    assert_eq!(dec_str(1000), "1000");
}

#[test]
fn test_two_dec_str_zero_pads() {
    assert_eq!(two_dec_str(3), "03");
    assert_eq!(two_dec_str(33), "33");
}

#[test]
fn test_truncate_str_keeps_short_entries() {
    assert_eq!(truncate_str("short", 10), "short");
    assert_eq!(truncate_str("exact", 5), "exact");
}

#[test]
fn test_truncate_str_cuts_with_ellipsis() {
    assert_eq!(truncate_str("a longer name", 8), "a longe…");
    assert_eq!(truncate_str("ab", 1), "…");
    assert_eq!(truncate_str("ab", 0), "…");
}

#[test]
fn test_bar_block_fills_below_height() {
    assert_eq!(bar_block(3, 2), "█");
    assert_eq!(bar_block(3, 3), " ");
}

#[test]
fn test_bar_char_saturates() {
    assert_eq!(bar_char(0), "▁");
    assert_eq!(bar_char(1), "▁");
    assert_eq!(bar_char(5), "▅");
    assert_eq!(bar_char(8), "█");
    assert_eq!(bar_char(12), "█");
}
