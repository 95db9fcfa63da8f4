use snake_core::game::Game;
use snake_core::score::{parse_score, update_high_score};
use snake_core::text::{coins_cents, coins_whole, decimal_digits};

#[test]
fn parse_plain_digit_strings() {
    assert_eq!(parse_score(&b"0".to_vec()), 0);
    assert_eq!(parse_score(&b"123".to_vec()), 123);
    assert_eq!(parse_score(&b"00123".to_vec()), 123);
    assert_eq!(parse_score(&b"18446744073709551615".to_vec()), usize::MAX);
}

#[test]
fn malformed_or_overlong_scores_read_as_zero() {
    assert_eq!(parse_score(&b"".to_vec()), 0);
    assert_eq!(parse_score(&b"12a".to_vec()), 0);
    assert_eq!(parse_score(&b"-5".to_vec()), 0);
    assert_eq!(parse_score(&b"42\n".to_vec()), 0);
    assert_eq!(parse_score(&b"18446744073709551616".to_vec()), 0);
    assert_eq!(parse_score(&b"99999999999999999999999999".to_vec()), 0);
}

#[test]
fn rendering_and_parsing_round_trip() {
    for n in [0usize, 1, 9, 10, 42, 999, 98_765, usize::MAX] {
        let digits = decimal_digits(n);
        assert_eq!(parse_score(&digits), n);
    }
    assert_eq!(decimal_digits(0), b"0".to_vec());
    assert_eq!(decimal_digits(1204), b"1204".to_vec());
}

#[test]
fn coin_display_splits_milli_amounts() {
    assert_eq!(coins_whole(17_500), 17);
    assert_eq!(coins_cents(17_500), 50);
    assert_eq!(coins_whole(8_370), 8);
    assert_eq!(coins_cents(8_370), 37);
    assert_eq!(coins_whole(0), 0);
    assert_eq!(coins_cents(0), 0);
    // Sub-cent milli units are truncated, never rounded up.
    assert_eq!(coins_cents(1_999), 99);
}

#[test]
fn high_score_is_saved_only_when_beaten() {
    let mut game = Game::new();
    game.score = 10;
    assert_eq!(update_high_score(&game, 9), Some(10));
    assert_eq!(update_high_score(&game, 10), None);
    assert_eq!(update_high_score(&game, 11), None);
}
