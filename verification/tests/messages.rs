use std::collections::HashMap;
use tap_bridge::error::Error;
use tap_bridge::json::{member, parse, text_member, Json};
use tap_bridge::message::{Message, Plan, Plans};
use tap_bridge::models::MessageType;

fn plan(title: &str, body: &str) -> Plan {
    Plan { title: title.to_string(), body: body.to_string() }
}

fn invalid(text: &str) -> Result<Message, Error> {
    Err(Error::InvalidMessage(text.to_string()))
}

#[test]
fn a_note_is_written_as_an_object_with_its_tag() {
    assert_eq!(Message::Disposable("hello".to_string()).to_string(), "{\"Disposable\":\"hello\"}");
    assert_eq!(Message::BackToBack("hi".to_string()).to_string(), "{\"BackToBack\":\"hi\"}");
    assert_eq!(Message::Seal("now".to_string()).to_string(), "{\"Seal\":\"now\"}");
    assert_eq!(Message::Disposable(String::new()).to_string(), "{\"Disposable\":\"\"}");
}

#[test]
fn the_empty_message_is_written_as_a_string() {
    assert_eq!(Message::Empty.to_string(), "\"Empty\"");
}

#[test]
fn text_is_escaped_on_the_wire() {
    assert_eq!(
        Message::Seal("a\"b\\c\nd".to_string()).to_string(),
        "{\"Seal\":\"a\\\"b\\\\c\\nd\"}"
    );
    assert_eq!(
        Message::Seal("\u{8}\u{c}\r\t".to_string()).to_string(),
        "{\"Seal\":\"\\b\\f\\r\\t\"}"
    );
    assert_eq!(
        Message::Seal("\u{1}\u{1f}\u{7f}".to_string()).to_string(),
        "{\"Seal\":\"\\u0001\\u001f\u{7f}\"}"
    );
    assert_eq!(Message::Seal("é中/".to_string()).to_string(), "{\"Seal\":\"é中/\"}");
}

#[test]
fn plans_are_written_with_selection_and_members() {
    let none = Message::PlanSync(Plans { selected_plan: None, plans: HashMap::new() });
    assert_eq!(none.to_string(), "{\"PlanSync\":{\"selected_plan\":null,\"plans\":{}}}");

    let mut plans = HashMap::new();
    plans.insert(1u128, plan("t", "b"));
    let one = Message::PlanSync(Plans { selected_plan: Some(1), plans });
    assert_eq!(
        one.to_string(),
        "{\"PlanSync\":{\"selected_plan\":\"00000000-0000-0000-0000-000000000001\",\
         \"plans\":{\"00000000-0000-0000-0000-000000000001\":{\"title\":\"t\",\"body\":\"b\"}}}}"
    );
}

#[test]
fn two_plans_are_written_in_either_order() {
    let mut plans = HashMap::new();
    plans.insert(1u128, plan("a", "x"));
    plans.insert(2u128, plan("b", "y"));
    let text = Message::PlanSync(Plans { selected_plan: Some(2), plans }).to_string();
    let first = "\"00000000-0000-0000-0000-000000000001\":{\"title\":\"a\",\"body\":\"x\"}";
    let second = "\"00000000-0000-0000-0000-000000000002\":{\"title\":\"b\",\"body\":\"y\"}";
    let head = "{\"PlanSync\":{\"selected_plan\":\"00000000-0000-0000-0000-000000000002\",\"plans\":{";
    let one_way = format!("{head}{first},{second}}}}}}}");
    let other_way = format!("{head}{second},{first}}}}}}}");
    assert!(text == one_way || text == other_way, "{text}");
}

#[test]
fn the_wire_form_is_json_as_serde_json_reads_it() {
    let text = Message::Disposable("he said \"hi\"\n".to_string()).to_string();
    let value: serde_json::Value = serde_json::from_str(&text).unwrap();
    let object = value.as_object().unwrap();
    assert_eq!(object.len(), 1);
    assert_eq!(object["Disposable"].as_str(), Some("he said \"hi\"\n"));
}

#[test]
fn every_message_is_read_back_from_its_wire_form() {
    let mut plans = HashMap::new();
    plans.insert(0xa1a2a3a4b1b2c1c2d1d2d3d4d5d6d7d8u128, plan("walk", "in the park"));
    plans.insert(3u128, plan("read \"it\"", "line\nbreak"));
    plans.insert(u128::MAX, plan("", ""));
    let messages = vec![
        Message::Disposable("hello".to_string()),
        Message::Disposable("\u{0}\u{1f}\"\\/é".to_string()),
        Message::BackToBack("back".to_string()),
        Message::Seal("seal".to_string()),
        Message::PlanSync(Plans { selected_plan: None, plans: HashMap::new() }),
        Message::PlanSync(Plans { selected_plan: Some(3), plans }),
        Message::Empty,
    ];
    for message in messages {
        let text = message.to_string();
        assert_eq!(Message::decode(text.as_bytes()), Ok(message));
    }
}

#[test]
fn the_empty_message_is_read_in_both_forms() {
    assert_eq!(Message::decode(b"\"Empty\""), Ok(Message::Empty));
    assert_eq!(Message::decode(b"{\"Empty\":null}"), Ok(Message::Empty));
    assert_eq!(Message::decode(b"  \"Empty\"  "), Ok(Message::Empty));
}

#[test]
fn an_unknown_tag_is_a_decode_error() {
    assert_eq!(Message::decode(b"{\"Bogus\":1}"), invalid("unknown message tag"));
    assert_eq!(Message::decode(b"\"Bogus\""), invalid("unknown message tag"));
    assert_eq!(Message::decode(b"{\"Mail\":\"x\"}"), invalid("unknown message tag"));
    assert_eq!(Message::decode(b"{\"disposable\":\"x\"}"), invalid("unknown message tag"));
    assert_eq!(Message::decode(b"{\"\":\"x\"}"), invalid("unknown message tag"));
}

#[test]
fn a_known_tag_with_the_wrong_payload_is_a_decode_error() {
    assert_eq!(Message::decode(b"{\"Disposable\":5}"), invalid("malformed message"));
    assert_eq!(Message::decode(b"{\"Seal\":null}"), invalid("malformed message"));
    assert_eq!(Message::decode(b"{\"BackToBack\":[\"x\"]}"), invalid("malformed message"));
    assert_eq!(Message::decode(b"{\"Empty\":\"x\"}"), invalid("malformed message"));
    assert_eq!(Message::decode(b"\"Disposable\""), invalid("malformed message"));
    assert_eq!(Message::decode(b"\"PlanSync\""), invalid("malformed message"));
    assert_eq!(Message::decode(b"{\"PlanSync\":\"x\"}"), invalid("malformed message"));
}

#[test]
fn a_document_without_a_single_tag_is_a_decode_error() {
    assert_eq!(Message::decode(b"{}"), invalid("malformed message"));
    assert_eq!(Message::decode(b"[]"), invalid("malformed message"));
    assert_eq!(Message::decode(b"null"), invalid("malformed message"));
    assert_eq!(Message::decode(b"true"), invalid("malformed message"));
    assert_eq!(Message::decode(b"12"), invalid("malformed message"));
    assert_eq!(
        Message::decode(b"{\"Disposable\":\"a\",\"Seal\":\"b\"}"),
        invalid("malformed message")
    );
}

#[test]
fn bytes_that_are_no_json_are_reported_in_the_readers_words() {
    for bytes in [&b"hello"[..], b"", b"{\"Disposable\":", b"\"Empty\" x", b"\xff\xfe"] {
        let theirs = serde_json::from_slice::<serde_json::Value>(bytes).unwrap_err().to_string();
        assert_eq!(Message::decode(bytes), Err(Error::InvalidMessage(theirs)));
    }
}

#[test]
fn plans_are_read_with_their_rules() {
    // No selection where the member is absent.
    assert_eq!(
        Message::decode(b"{\"PlanSync\":{\"plans\":{}}}"),
        Ok(Message::PlanSync(Plans { selected_plan: None, plans: HashMap::new() }))
    );
    // Members that the plans do not know are passed over.
    let mut plans = HashMap::new();
    plans.insert(10u128, plan("x", "y"));
    assert_eq!(
        Message::decode(
            b"{\"PlanSync\":{\"more\":1,\"selected_plan\":\"0000000000000000000000000000000A\",\
              \"plans\":{\"00000000-0000-0000-0000-00000000000a\":\
              {\"body\":\"y\",\"title\":\"x\",\"more\":[]}}}}"
        ),
        Ok(Message::PlanSync(Plans { selected_plan: Some(10), plans }))
    );
}

#[test]
fn of_two_names_for_one_plan_the_later_counts() {
    // The reader hands out the members in the order of their names, and the
    // upper-case name comes first.
    let mut plans = HashMap::new();
    plans.insert(10u128, plan("lower", "l"));
    assert_eq!(
        Message::decode(
            b"{\"PlanSync\":{\"plans\":{\
              \"00000000-0000-0000-0000-00000000000a\":{\"title\":\"lower\",\"body\":\"l\"},\
              \"00000000-0000-0000-0000-00000000000A\":{\"title\":\"upper\",\"body\":\"u\"}}}}"
        ),
        Ok(Message::PlanSync(Plans { selected_plan: None, plans }))
    );
}

#[test]
fn plans_of_another_shape_are_a_decode_error() {
    let bad: [&[u8]; 8] = [
        b"{\"PlanSync\":{}}",
        b"{\"PlanSync\":{\"selected_plan\":null}}",
        b"{\"PlanSync\":{\"selected_plan\":\"nope\",\"plans\":{}}}",
        b"{\"PlanSync\":{\"selected_plan\":7,\"plans\":{}}}",
        b"{\"PlanSync\":{\"plans\":[]}}",
        b"{\"PlanSync\":{\"plans\":{\"nope\":{\"title\":\"a\",\"body\":\"b\"}}}}",
        b"{\"PlanSync\":{\"plans\":{\"00000000-0000-0000-0000-000000000001\":{\"title\":\"a\"}}}}",
        b"{\"PlanSync\":{\"plans\":{\"00000000-0000-0000-0000-000000000001\":{\"title\":\"a\",\"body\":1}}}}",
    ];
    for bytes in bad {
        assert_eq!(Message::decode(bytes), invalid("malformed message"));
    }
}

#[test]
fn a_message_is_read_from_a_document() {
    let doc = Json::Object(vec![("Seal".to_string(), Json::Text("now".to_string()))]);
    assert_eq!(Message::from_json(&doc), Ok(Message::Seal("now".to_string())));
    let empty = Json::Text("Empty".to_string());
    assert_eq!(Message::from_json(&empty), Ok(Message::Empty));
    let number = Json::Object(vec![("Seal".to_string(), Json::Number)]);
    assert_eq!(Message::from_json(&number), invalid("malformed message"));
    let array = Json::Array(vec![Json::Text("Empty".to_string())]);
    assert_eq!(Message::from_json(&array), invalid("malformed message"));
}

#[test]
fn a_plan_is_read_from_a_document() {
    let doc = Json::Object(vec![
        ("title".to_string(), Json::Text("t".to_string())),
        ("body".to_string(), Json::Text("b".to_string())),
    ]);
    assert_eq!(Plan::from_json(&doc), Some(plan("t", "b")));
    let short = Json::Object(vec![("title".to_string(), Json::Text("t".to_string()))]);
    assert_eq!(Plan::from_json(&short), None);
    assert_eq!(Plan::from_json(&Json::Null), None);
    assert_eq!(Plans::from_json(&Json::Bool(true)), None);
    assert_eq!(Plans::new(), Plans { selected_plan: None, plans: HashMap::new() });
}

#[test]
fn a_json_text_is_read_as_a_tree() {
    let doc = parse(b" {\"b\": [1, true, null], \"a\": \"x\\u0041\"} ").unwrap();
    match &doc {
        Json::Object(members) => {
            // The reader hands out the members in the order of their names.
            assert_eq!(members.len(), 2);
            assert_eq!(members[0].0, "a");
            assert_eq!(members[1].0, "b");
            assert_eq!(text_member(members, "a"), Some("xA".to_string()));
            assert_eq!(text_member(members, "b"), None);
            assert_eq!(text_member(members, "c"), None);
            match member(members, "b") {
                Some(Json::Array(items)) => {
                    assert_eq!(items.len(), 3);
                    assert!(matches!(items[0], Json::Number));
                    assert!(matches!(items[1], Json::Bool(true)));
                    assert!(matches!(items[2], Json::Null));
                }
                _ => panic!("b is an array"),
            }
        }
        _ => panic!("the text is an object"),
    }
    assert!(parse(b"{").is_err());
}

#[test]
fn of_two_members_with_one_name_the_later_is_found() {
    let members = vec![
        ("k".to_string(), Json::Text("first".to_string())),
        ("k".to_string(), Json::Text("second".to_string())),
    ];
    assert_eq!(text_member(&members, "k"), Some("second".to_string()));
}

#[test]
fn the_kind_of_a_message_is_its_tag() {
    assert_eq!(MessageType::from(&Message::Disposable("x".to_string())), MessageType::Disposable);
    assert_eq!(MessageType::from(&Message::BackToBack("x".to_string())), MessageType::BackToBack);
    assert_eq!(MessageType::from(&Message::Seal("x".to_string())), MessageType::Seal);
    assert_eq!(MessageType::from(&Message::PlanSync(Plans::new())), MessageType::PlanSync);
    assert_eq!(MessageType::from(&Message::Empty), MessageType::Empty);
}
