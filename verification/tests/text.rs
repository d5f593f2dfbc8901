use cloudflare_ddns::text::{get_current_ip, trim};

#[test]
fn trims_surrounding_whitespace() {
    assert_eq!(trim("  203.0.113.5\n"), "203.0.113.5");
    assert_eq!(trim("\r\n203.0.113.5 \t"), "203.0.113.5");
    assert_eq!(trim("203.0.113.5"), "203.0.113.5");
}

#[test]
fn trims_all_whitespace_to_empty() {
    assert_eq!(trim(""), "");
    assert_eq!(trim(" \t\r\n "), "");
}

#[test]
fn keeps_inner_whitespace() {
    assert_eq!(trim(" a b "), "a b");
}

#[test]
fn current_ip_is_the_trimmed_body() {
    assert_eq!(get_current_ip(200, "203.0.113.5\n").unwrap(), "203.0.113.5");
    assert_eq!(get_current_ip(204, "not an address\n").unwrap(), "not an address");
}

#[test]
fn current_ip_fails_on_bad_status() {
    assert_eq!(get_current_ip(503, "203.0.113.5\n").unwrap_err(), "HTTP 503");
}

#[test]
fn current_ip_fails_on_empty_body() {
    assert_eq!(
        get_current_ip(200, " \n").unwrap_err(),
        "Empty response from the IP echo service"
    );
}
