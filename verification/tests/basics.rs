use report_commenter::json::{find_member, find_present, parse_document, Json};
use report_commenter::sequence::append_all;
use report_commenter::text::{decimal, text_is};
use report_commenter::timestamp::Timestamp;

#[test]
fn document_is_read_as_a_tree() {
    let document = parse_document(
        r#"{"s":"text","n":12,"f":1.5,"neg":-3,"big":18446744073709551615,"b":true,"z":null,"a":[1,"x",[]],"o":{"k":"v"}}"#,
    ).unwrap();
    let members = match &document {
        Json::Object(members) => members,
        other => panic!("{:?}", other),
    };
    let lookup = |key: &str| find_member(members, key).unwrap();
    assert_eq!(lookup("s"), &Json::Text("text".to_string()));
    assert_eq!(lookup("n"), &Json::Number(Some(12)));
    assert_eq!(lookup("f"), &Json::Number(None));
    assert_eq!(lookup("neg"), &Json::Number(None));
    assert_eq!(lookup("big"), &Json::Number(Some(u64::MAX)));
    assert_eq!(lookup("b"), &Json::Bool(true));
    assert_eq!(lookup("z"), &Json::Null);
    assert_eq!(
        lookup("a"),
        &Json::Array(vec![Json::Number(Some(1)), Json::Text("x".to_string()), Json::Array(vec![])])
    );
    assert_eq!(
        lookup("o"),
        &Json::Object(vec![("k".to_string(), Json::Text("v".to_string()))])
    );
    assert_eq!(members.len(), 9);
}

#[test]
fn text_that_is_no_document_gives_the_parsers_message() {
    assert_eq!(
        parse_document("").unwrap_err(),
        "EOF while parsing a value at line 1 column 0"
    );
    assert_eq!(parse_document("nul").unwrap_err(), "EOF while parsing a value at line 1 column 3");
    assert_eq!(parse_document("1 2").unwrap_err(), "trailing characters at line 1 column 3");
}

#[test]
fn scalars_are_documents_too() {
    assert_eq!(parse_document("null"), Ok(Json::Null));
    assert_eq!(parse_document(" false "), Ok(Json::Bool(false)));
    assert_eq!(parse_document("\"a\\nb\""), Ok(Json::Text("a\nb".to_string())));
    assert_eq!(parse_document("0"), Ok(Json::Number(Some(0))));
}

#[test]
fn accessors_read_one_kind_each() {
    let text = Json::Text("t".to_string());
    let number = Json::Number(Some(7));
    let array = Json::Array(vec![Json::Null]);
    let object = Json::Object(vec![("k".to_string(), Json::Null)]);
    assert_eq!(text.as_text().map(|s| s.as_str()), Some("t"));
    assert_eq!(number.as_text(), None);
    assert_eq!(number.as_unsigned(), Some(7));
    assert_eq!(Json::Number(None).as_unsigned(), None);
    assert_eq!(text.as_unsigned(), None);
    assert_eq!(array.as_items().map(|v| v.len()), Some(1));
    assert_eq!(object.as_items(), None);
    assert_eq!(object.as_members().map(|v| v.len()), Some(1));
    assert_eq!(array.as_members(), None);
    assert!(Json::Null.is_null());
    assert!(!Json::Bool(false).is_null());
}

#[test]
fn first_member_of_a_name_counts() {
    let members = vec![
        ("a".to_string(), Json::Number(Some(1))),
        ("b".to_string(), Json::Null),
        ("a".to_string(), Json::Number(Some(2))),
    ];
    assert_eq!(find_member(&members, "a"), Some(&Json::Number(Some(1))));
    assert_eq!(find_member(&members, "b"), Some(&Json::Null));
    assert_eq!(find_member(&members, "c"), None);
    assert_eq!(find_member(&members, ""), None);
    assert_eq!(find_present(&members, "a"), Some(&Json::Number(Some(1))));
    assert_eq!(find_present(&members, "b"), None);
    assert_eq!(find_present(&members, "c"), None);
    assert_eq!(find_member(&vec![], "a"), None);
}

#[test]
fn numbers_are_written_in_decimal() {
    assert_eq!(decimal(0), "0");
    assert_eq!(decimal(7), "7");
    assert_eq!(decimal(9), "9");
    assert_eq!(decimal(10), "10");
    assert_eq!(decimal(1234567890), "1234567890");
    assert_eq!(decimal(4294967295), "4294967295");
    assert_eq!(decimal(u64::MAX), "18446744073709551615");
    for n in [0u64, 1, 99, 100, 101, 65535, 1 << 40] {
        assert_eq!(decimal(n), n.to_string());
    }
}

#[test]
fn texts_are_compared_with_literals() {
    assert!(text_is(&"High".to_string(), "High"));
    assert!(!text_is(&"high".to_string(), "High"));
    assert!(!text_is(&"Hig".to_string(), "High"));
    assert!(text_is(&String::new(), ""));
}

#[test]
fn time_is_read_from_its_calendar_form() {
    assert_eq!(Timestamp::parse("1970-01-01T00:00:00"), Some(Timestamp { seconds: 0, nanos: 0 }));
    assert_eq!(
        Timestamp::parse("2020-01-28T03:26:02"),
        Some(Timestamp { seconds: 1580181962, nanos: 0 })
    );
    assert_eq!(
        Timestamp::parse("2016-07-26T14:44:48.926"),
        Some(Timestamp { seconds: 1469544288, nanos: 926_000_000 })
    );
    assert_eq!(
        Timestamp::parse("1969-12-31T23:59:59"),
        Some(Timestamp { seconds: -1, nanos: 0 })
    );
    assert_eq!(Timestamp::parse("2020-01-28"), None);
    assert_eq!(Timestamp::parse("2020-13-01T00:00:00"), None);
    assert_eq!(Timestamp::parse("2020-01-28T03:26:02Z"), None);
    assert_eq!(Timestamp::parse(""), None);
}

#[test]
fn time_is_written_in_its_calendar_form() {
    assert_eq!(Timestamp::epoch().to_text(), "1970-01-01T00:00:00");
    assert_eq!(Timestamp { seconds: 1580181962, nanos: 0 }.to_text(), "2020-01-28T03:26:02");
    assert_eq!(
        Timestamp { seconds: 1469544288, nanos: 926_000_000 }.to_text(),
        "2016-07-26T14:44:48.926"
    );
    assert_eq!(Timestamp { seconds: i64::MAX, nanos: 0 }.to_text(), "out of range");
    assert_eq!(Timestamp { seconds: 0, nanos: 2_000_000_000 }.to_text(), "out of range");
    for text in ["2023-04-01T12:30:00", "1999-12-31T23:59:59.500"] {
        assert_eq!(Timestamp::parse(text).unwrap().to_text(), text);
    }
}

#[test]
fn times_are_ordered_by_seconds_then_nanoseconds() {
    let early = Timestamp { seconds: 10, nanos: 999 };
    let late = Timestamp { seconds: 11, nanos: 0 };
    let later = Timestamp { seconds: 11, nanos: 1 };
    assert!(late.later_than(&early));
    assert!(!early.later_than(&late));
    assert!(later.later_than(&late));
    assert!(!late.later_than(&late));
    assert!(Timestamp { seconds: 0, nanos: 0 }.later_than(&Timestamp { seconds: -1, nanos: 5 }));
}

#[test]
fn parts_are_put_behind_the_head_in_order() {
    let parts = vec!["b".to_string(), String::new(), "cd".to_string()];
    assert_eq!(append_all("a".to_string(), &parts), "abcd");
    assert_eq!(append_all("a".to_string(), &vec![]), "a");
    assert_eq!(append_all(String::new(), &vec!["x".to_string()]), "x");
}
