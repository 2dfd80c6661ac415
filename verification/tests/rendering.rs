use dsec_bot::model::Timestamp;
use dsec_bot::render::channel_mention;
use dsec_bot::render::dec_u64;
use dsec_bot::render::format_timestamp;
use dsec_bot::render::id_footer;
use dsec_bot::render::join_spaces;
use dsec_bot::render::role_mention;
use dsec_bot::render::role_mentions;
use dsec_bot::render::two_digits;
use dsec_bot::render::user_mention;

fn ts(year: u64, month: u64, day: u64, hour: u64, minute: u64) -> Timestamp {
    Timestamp { year, month, day, hour, minute }
}

#[test]
fn decimal_zero() {
    assert_eq!(dec_u64(0), "0");
}

#[test]
fn decimal_single_digit() {
    assert_eq!(dec_u64(7), "7");
}

#[test]
fn decimal_multi_digit() {
    assert_eq!(dec_u64(165), "165");
    assert_eq!(dec_u64(1000), "1000");
}

#[test]
fn decimal_largest() {
    assert_eq!(dec_u64(u64::MAX), "18446744073709551615");
}

#[test]
fn decimal_bot_identifier() {
    assert_eq!(dec_u64(1434887135135268935), "1434887135135268935");
}

#[test]
fn two_digit_padding() {
    assert_eq!(two_digits(0), "00");
    assert_eq!(two_digits(7), "07");
    assert_eq!(two_digits(42), "42");
}

#[test]
fn timestamp_afternoon() {
    assert_eq!(format_timestamp(&ts(2015, 3, 7, 14, 5)), "07/03/2015 02:05 PM");
}

#[test]
fn timestamp_midnight_is_twelve_am() {
    assert_eq!(format_timestamp(&ts(2020, 12, 31, 0, 0)), "31/12/2020 12:00 AM");
}

#[test]
fn timestamp_noon_is_twelve_pm() {
    assert_eq!(format_timestamp(&ts(2021, 1, 1, 12, 0)), "01/01/2021 12:00 PM");
}

#[test]
fn timestamp_morning() {
    assert_eq!(format_timestamp(&ts(2016, 4, 30, 11, 18)), "30/04/2016 11:18 AM");
}

#[test]
fn timestamp_late_evening() {
    assert_eq!(format_timestamp(&ts(2154, 5, 15, 23, 59)), "15/05/2154 11:59 PM");
}

#[test]
fn mentions() {
    assert_eq!(user_mention(1), "<@1>");
    assert_eq!(role_mention(99887766), "<@&99887766>");
    assert_eq!(channel_mention(42), "<#42>");
}

#[test]
fn footer_line() {
    assert_eq!(id_footer(42), "ID: 42");
}

#[test]
fn join_empty() {
    assert_eq!(join_spaces(&vec![]), "");
}

#[test]
fn join_single() {
    assert_eq!(join_spaces(&vec!["a".to_string()]), "a");
}

#[test]
fn join_several() {
    let items = vec!["a".to_string(), "b".to_string(), "c".to_string()];
    assert_eq!(join_spaces(&items), "a b c");
}

#[test]
fn role_mentions_in_order() {
    let mentions = role_mentions(&vec![3, 1, 2]);
    assert_eq!(mentions, vec!["<@&3>", "<@&1>", "<@&2>"]);
}
