use host_alert::decimal::format_hundredths;
use host_alert::decimal::format_u128;
use host_alert::decimal::percent_in_hundredths;
use host_alert::dispatch::alert_url_for_host;
use host_alert::dispatch::build_alert_url;
use host_alert::dispatch::compose_content;

#[test]
fn url_for_memory_alert_on_known_host() {
    let url = build_alert_url(
        "abc123",
        "Memory used over 75.00% - alert by Dawn.",
        Some("Linux".to_string()),
        Some("h1".to_string()),
    );
    assert_eq!(
        url,
        "https://www.pushplus.plus/send?token=abc123&content=Linux%20-%20h1%20-%20Memory%20used%20over%2075.00%25%20-%20alert%20by%20Dawn."
    );
}

#[test]
fn unresolved_identity_falls_back_to_placeholders() {
    let url = build_alert_url("t", "x", None, None);
    assert_eq!(
        url,
        "https://www.pushplus.plus/send?token=t&content=Unknown%20OS%20-%20Unknown%20Hostname%20-%20x"
    );
}

#[test]
fn composed_content_keeps_the_given_identity() {
    let full = compose_content(Some("Linux".to_string()), Some("h1".to_string()), "hello");
    assert_eq!(full, "Linux - h1 - hello");
}

#[test]
fn encoding_covers_reserved_and_multibyte_characters() {
    let url = build_alert_url("t", "a~/\u{e9}", Some("os".to_string()), Some("h".to_string()));
    assert_eq!(
        url,
        "https://www.pushplus.plus/send?token=t&content=os%20-%20h%20-%20a~%2F%C3%A9"
    );
}

#[test]
fn url_for_this_host_targets_the_webhook() {
    let url = alert_url_for_host("tok", "content");
    assert!(url.starts_with("https://www.pushplus.plus/send?token=tok&content="));
    assert!(url.ends_with("%20-%20content"));
}

#[test]
fn hundredths_render_with_two_decimal_places() {
    assert_eq!(format_hundredths(800), "8.00");
    assert_eq!(format_hundredths(7013), "70.13");
    assert_eq!(format_hundredths(5), "0.05");
    assert_eq!(format_u128(0), "0");
    assert_eq!(format_u128(90010), "90010");
}

#[test]
fn percentages_are_rounded_to_the_nearest_hundredth() {
    assert_eq!(percent_in_hundredths(1, 3), 3333);
    assert_eq!(percent_in_hundredths(2, 3), 6667);
    assert_eq!(percent_in_hundredths(5610, 8000), 7013);
    assert_eq!(percent_in_hundredths(75, 100), 7500);
    assert_eq!(percent_in_hundredths(0, 7), 0);
}
