use weather_clock::config::{decode_plus, parse_form_data, split_on, value_for};
use weather_clock::text::{chars_of, same_text, text_of};

fn pair(a: &str, b: &str) -> Option<(String, String)> {
    Some((a.to_string(), b.to_string()))
}

fn chars(s: &str) -> Vec<char> {
    s.chars().collect()
}

#[test]
fn form_with_plus_in_the_name() {
    assert_eq!(parse_form_data("ssid=My+Network&password=Secr3t"), pair("My Network", "Secr3t"));
}

#[test]
fn fields_in_the_other_order() {
    assert_eq!(parse_form_data("password=p&ssid=s"), pair("s", "p"));
}

#[test]
fn missing_password_gives_nothing() {
    assert_eq!(parse_form_data("ssid=home"), None);
}

#[test]
fn missing_ssid_gives_nothing() {
    assert_eq!(parse_form_data("password=secret"), None);
}

#[test]
fn empty_body_gives_nothing() {
    assert_eq!(parse_form_data(""), None);
}

#[test]
fn empty_values_are_values() {
    assert_eq!(parse_form_data("ssid=&password="), pair("", ""));
}

#[test]
fn key_without_equals_sign_is_passed_over() {
    assert_eq!(parse_form_data("ssid&password=x"), None);
    assert_eq!(parse_form_data("ssid=a&password"), None);
}

#[test]
fn last_of_repeated_keys_counts() {
    assert_eq!(parse_form_data("ssid=a&password=x&ssid=b&password=y"), pair("b", "y"));
}

#[test]
fn later_pair_without_value_does_not_erase() {
    assert_eq!(parse_form_data("ssid=a&password=x&ssid"), pair("a", "x"));
}

#[test]
fn value_ends_at_the_second_equals_sign() {
    assert_eq!(parse_form_data("ssid=a=b&password=c==d"), pair("a", "c"));
}

#[test]
fn other_keys_are_passed_over() {
    assert_eq!(parse_form_data("x=1&ssid=s&y=2&password=p&z"), pair("s", "p"));
    assert_eq!(parse_form_data("SSID=s&password=p"), None);
    assert_eq!(parse_form_data("ssid =s&password=p"), None);
}

#[test]
fn empty_pairs_are_passed_over() {
    assert_eq!(parse_form_data("&&ssid=s&&password=p&"), pair("s", "p"));
}

#[test]
fn every_plus_becomes_a_space() {
    assert_eq!(parse_form_data("ssid=+a++b+&password=+"), pair(" a  b ", " "));
}

#[test]
fn percent_escapes_are_kept_as_they_are() {
    assert_eq!(parse_form_data("ssid=a%20b&password=%2B"), pair("a%20b", "%2B"));
}

#[test]
fn text_beyond_ascii_passes_through() {
    assert_eq!(parse_form_data("ssid=咖啡+店&password=密码"), pair("咖啡 店", "密码"));
}

#[test]
fn chars_of_and_text_of_are_inverse() {
    for s in ["", "a", "ssid=My+Network", "温度 20℃"] {
        assert_eq!(chars_of(s), chars(s));
        assert_eq!(text_of(&chars(s)), s);
    }
}

#[test]
fn split_on_cuts_at_every_separator() {
    assert_eq!(split_on(&chars("a&b&c"), '&'), vec![chars("a"), chars("b"), chars("c")]);
    assert_eq!(split_on(&chars(""), '&'), vec![chars("")]);
    assert_eq!(split_on(&chars("&"), '&'), vec![chars(""), chars("")]);
    assert_eq!(split_on(&chars("a&&b&"), '&'), vec![chars("a"), chars(""), chars("b"), chars("")]);
    assert_eq!(split_on(&chars("abc"), '='), vec![chars("abc")]);
}

#[test]
fn split_pieces_joined_give_the_text() {
    for s in ["", "&", "a&b", "&&a&", "ssid=x&password=y"] {
        let pieces = split_on(&chars(s), '&');
        let joined: Vec<String> = pieces.iter().map(|p| p.iter().collect()).collect();
        assert_eq!(joined.join("&"), s);
        assert!(pieces.iter().all(|p| !p.contains(&'&')));
    }
}

#[test]
fn same_text_compares_all_characters() {
    assert!(same_text(&chars("ssid"), "ssid"));
    assert!(same_text(&chars(""), ""));
    assert!(!same_text(&chars("ssid"), "ssi"));
    assert!(!same_text(&chars("ssi"), "ssid"));
    assert!(!same_text(&chars("ssix"), "ssid"));
    assert!(!same_text(&chars("Ssid"), "ssid"));
}

#[test]
fn decode_plus_touches_only_plus() {
    assert_eq!(decode_plus(&chars("a+b c+")), chars("a b c "));
    assert_eq!(decode_plus(&chars("")), chars(""));
    assert_eq!(decode_plus(&chars("abc")), chars("abc"));
}

#[test]
fn value_for_reads_one_pair() {
    assert_eq!(value_for(&chars("ssid=a+b"), "ssid"), Some(chars("a+b")));
    assert_eq!(value_for(&chars("ssid=a=b"), "ssid"), Some(chars("a")));
    assert_eq!(value_for(&chars("ssid="), "ssid"), Some(chars("")));
    assert_eq!(value_for(&chars("ssid"), "ssid"), None);
    assert_eq!(value_for(&chars("password=x"), "ssid"), None);
    assert_eq!(value_for(&chars("=x"), ""), Some(chars("x")));
}
