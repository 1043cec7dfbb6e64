use hedwig::gmail::parse::{get_unread_count, parse_usize, unread_count_in_nodes, UnreadCountError, XmlNode};

const FEED: &str = r#"<?xml version="1.0" encoding="UTF-8"?>
<feed version="0.3" xmlns="http://purl.org/atom/ns#">
<title>Gmail - Inbox for someone@gmail.com</title>
<tagline>New messages in your Gmail Inbox</tagline>
<fullcount>3</fullcount>
<link rel="alternate" href="https://mail.google.com/mail" type="text/html"/>
</feed>"#;

#[test]
fn count_is_read_from_feed() {
    assert_eq!(get_unread_count(FEED).unwrap(), 3);
}

#[test]
fn zero_unread() {
    let xml = "<feed><fullcount>0</fullcount></feed>";
    assert_eq!(get_unread_count(xml).unwrap(), 0);
}

#[test]
fn first_fullcount_decides() {
    let xml = "<feed><entry><fullcount>12</fullcount></entry><fullcount>5</fullcount></feed>";
    assert_eq!(get_unread_count(xml).unwrap(), 12);
}

#[test]
fn prefixed_element_matches_by_local_name() {
    let xml = r#"<a:feed xmlns:a="urn:x"><a:fullcount>8</a:fullcount></a:feed>"#;
    assert_eq!(get_unread_count(xml).unwrap(), 8);
}

#[test]
fn missing_text_counts_as_zero() {
    assert_eq!(get_unread_count("<feed><fullcount/></feed>").unwrap(), 0);
}

#[test]
fn text_that_is_no_number_counts_as_zero() {
    assert_eq!(get_unread_count("<feed><fullcount>many</fullcount></feed>").unwrap(), 0);
    assert_eq!(get_unread_count("<feed><fullcount> 4 </fullcount></feed>").unwrap(), 0);
    assert_eq!(
        get_unread_count("<feed><fullcount>99999999999999999999999</fullcount></feed>").unwrap(),
        0
    );
}

#[test]
fn plus_sign_is_accepted() {
    assert_eq!(get_unread_count("<feed><fullcount>+7</fullcount></feed>").unwrap(), 7);
}

#[test]
fn missing_fullcount_is_an_error() {
    let r = get_unread_count("<feed><title>Inbox</title></feed>");
    assert!(matches!(r, Err(UnreadCountError::MissingFullCount)));
}

#[test]
fn malformed_xml_is_an_error() {
    let r = get_unread_count("<feed><fullcount>3</feed>");
    assert!(matches!(r, Err(UnreadCountError::Xml(_))));
    assert!(matches!(get_unread_count(""), Err(UnreadCountError::Xml(_))));
}

#[test]
fn count_from_node_list() {
    let nodes = vec![
        XmlNode { is_element: false, local_name: String::new(), text: None },
        XmlNode { is_element: true, local_name: "feed".to_string(), text: None },
        XmlNode { is_element: false, local_name: "fullcount".to_string(), text: Some("9".to_string()) },
        XmlNode { is_element: true, local_name: "fullcount".to_string(), text: Some("42".to_string()) },
    ];
    assert_eq!(unread_count_in_nodes(&nodes), Some(42));
    assert_eq!(unread_count_in_nodes(&nodes[..2].to_vec()), None);
}

#[test]
fn usize_parsing_follows_std() {
    for s in ["", "+", "-", "-1", "42", "+42", " 42", "4 2", "007", "18446744073709551615",
              "18446744073709551616", "\u{ff14}\u{ff12}", "1a"] {
        assert_eq!(parse_usize(s), s.parse::<usize>().ok(), "input {:?}", s);
    }
    assert_eq!(parse_usize("+42"), Some(42));
    assert_eq!(parse_usize("-1"), None);
}
