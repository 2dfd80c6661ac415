use dsec_bot::latency::elapsed_ms;
use dsec_bot::model::classify;
use dsec_bot::model::ChannelDescriptor;
use dsec_bot::model::ChannelKind;
use dsec_bot::resolve::resolve;
use dsec_bot::resolve::resolve_chain;
use dsec_bot::resolve::resolve_string;
use dsec_bot::tally::tally;
use dsec_bot::tally::ChannelTally;

fn ch(id: u64, kind: ChannelKind) -> ChannelDescriptor {
    ChannelDescriptor { id, kind }
}

#[test]
fn resolve_prefers_present_value() {
    assert_eq!(resolve(Some(3u64), 9), 3);
    assert_eq!(resolve(None, 9u64), 9);
}

#[test]
fn resolve_all_absent_yields_terminal() {
    assert_eq!(resolve_chain::<&str>(vec![None, None], "N/A"), "N/A");
}

#[test]
fn resolve_chain_first_present_wins() {
    assert_eq!(resolve_chain(vec![None, Some("nickname"), Some("username")], "N/A"), "nickname");
    assert_eq!(resolve_chain(vec![Some("custom"), Some("default")], "none"), "custom");
}

#[test]
fn resolve_string_borrows() {
    let nick = Some("nick".to_string());
    let name = "user".to_string();
    assert_eq!(resolve_string(&nick, &name), "nick");
    assert_eq!(resolve_string(&None, &name), "user");
}

#[test]
fn classification_policy() {
    assert_eq!(classify(0), ChannelKind::Text);
    assert_eq!(classify(2), ChannelKind::Voice);
    assert_eq!(classify(4), ChannelKind::Category);
    assert_eq!(classify(5), ChannelKind::Other);
    assert_eq!(classify(13), ChannelKind::Other);
    assert_eq!(classify(255), ChannelKind::Other);
}

#[test]
fn classify_then_tally_from_raw_codes() {
    let raw: Vec<(u64, u8)> = vec![(1, 0), (2, 0), (3, 2), (4, 10)];
    let channels: Vec<ChannelDescriptor> =
        raw.iter().map(|&(id, code)| ch(id, classify(code))).collect();
    let t = tally(&channels);
    assert_eq!(t, ChannelTally { category: 0, text: 2, voice: 1, other: 1 });
}

#[test]
fn tally_example_buckets() {
    let channels = vec![
        ch(1, ChannelKind::Text),
        ch(2, ChannelKind::Text),
        ch(3, ChannelKind::Voice),
        ch(4, ChannelKind::Other),
    ];
    let t = tally(&channels);
    assert_eq!(t, ChannelTally { category: 0, text: 2, voice: 1, other: 1 });
    assert_eq!(t.get(ChannelKind::Text), 2);
    assert_eq!(t.get(ChannelKind::Voice), 1);
    assert_eq!(t.get(ChannelKind::Category), 0);
    assert_eq!(t.get(ChannelKind::Other), 1);
}

#[test]
fn tally_counts_sum_to_length() {
    let channels = vec![
        ch(1, ChannelKind::Category),
        ch(2, ChannelKind::Text),
        ch(3, ChannelKind::Voice),
        ch(4, ChannelKind::Voice),
        ch(5, ChannelKind::Other),
    ];
    let t = tally(&channels);
    assert_eq!(t.category + t.text + t.voice + t.other, channels.len());
}

#[test]
fn tally_empty_list_is_all_zero() {
    let t = tally(&vec![]);
    assert_eq!(t, ChannelTally { category: 0, text: 0, voice: 0, other: 0 });
}

#[test]
fn tally_is_order_independent() {
    let a = vec![ch(1, ChannelKind::Text), ch(2, ChannelKind::Voice), ch(3, ChannelKind::Text)];
    let b = vec![ch(2, ChannelKind::Voice), ch(3, ChannelKind::Text), ch(1, ChannelKind::Text)];
    assert_eq!(tally(&a), tally(&b));
}

#[test]
fn elapsed_is_difference() {
    assert_eq!(elapsed_ms(5, 12), 7);
    assert_eq!(elapsed_ms(40, 40), 0);
}

#[test]
fn elapsed_never_negative() {
    assert_eq!(elapsed_ms(12, 5), 0);
}

#[test]
fn elapsed_depends_only_on_its_own_readings() {
    let first = elapsed_ms(100, 180);
    let second = elapsed_ms(1000, 1003);
    assert_eq!(first, 80);
    assert_eq!(second, 3);
}
