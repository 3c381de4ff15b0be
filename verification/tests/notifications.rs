use twitch_api::document::Value;
use twitch_api::error::{Details, Fault, ParseError, Section};
use twitch_api::eventsub::automod::message::hold::{AutomodMessageHoldV1, AutomodMessageHoldV1Payload};
use twitch_api::eventsub::{lookup, Envelope, Event, EventType, Subscription, Transport};

const SAMPLE: &str = r##"
    {
      "subscription": {
        "id": "f1c2a387-161a-49f9-a165-0f21d7a4e1c4",
        "type": "automod.message.hold",
        "version": "1",
        "status": "enabled",
        "cost": 0,
        "condition": {
          "broadcaster_user_id": "1337",
          "moderator_user_id": "9001"
        },
        "transport": {
          "method": "webhook",
          "callback": "https://example.com/webhooks/callback"
        },
        "created_at": "2023-04-11T10:11:12.123Z"
      },
      "event": {
        "broadcaster_user_id": "1337",
        "broadcaster_user_name": "blah",
        "broadcaster_user_login": "blahblah",
        "user_id": "456789012",
        "user_name": "baduser",
        "user_login": "baduserbla",
        "message_id": "bad-message-id",
        "message": "This is a bad message… ",
        "level": 5,
        "category": "aggressive",
        "held_at": "2022-12-02T15:00:00.00Z",
        "fragments": {
          "emotes": [
            {
              "text": "badtextemote1",
              "id": "emote-123",
              "set-id": "set-emote-1"
            },
            {
              "text": "badtextemote2",
              "id": "emote-234",
              "set-id": "set-emote-2"
            }
          ],
          "cheermotes": [
            {
              "text": "badtextcheermote1",
              "amount": 1000,
              "prefix": "prefix",
              "tier": 1
            }
          ]
        }
      }
    }
    "##;

fn to_value(json: &serde_json::Value) -> Value {
    match json {
        serde_json::Value::Null => Value::Null,
        serde_json::Value::Bool(b) => Value::Bool(*b),
        serde_json::Value::Number(n) => match n.as_u64() {
            Some(n) => Value::Number(n),
            None => Value::Raw(n.to_string()),
        },
        serde_json::Value::String(s) => Value::Text(s.clone()),
        serde_json::Value::Array(items) => Value::List(items.iter().map(to_value).collect()),
        serde_json::Value::Object(members) => {
            Value::Object(members.iter().map(|(key, value)| (key.clone(), to_value(value))).collect())
        }
    }
}

fn document(text: &str) -> Value {
    let json: serde_json::Value = serde_json::from_str(text).unwrap();
    to_value(&json)
}

/// The document with the member at `path` taken out.
fn without(doc: &Value, path: &[&str]) -> Value {
    edit(doc, path, None)
}

/// The document with the member at `path` set to `value`.
fn with(doc: &Value, path: &[&str], value: Value) -> Value {
    edit(doc, path, Some(value))
}

fn edit(doc: &Value, path: &[&str], value: Option<Value>) -> Value {
    let entries = match doc {
        Value::Object(entries) => entries,
        _ => panic!("no object on the path"),
    };
    let mut out: Vec<(String, Value)> = Vec::new();
    let mut value = value;
    let mut seen = false;
    for (key, member) in entries {
        if key == path[0] {
            seen = true;
            if path.len() > 1 {
                out.push((key.clone(), edit(member, &path[1..], value.take())));
            } else if let Some(new) = value.take() {
                out.push((key.clone(), new));
            }
        } else {
            out.push((key.clone(), member.clone()));
        }
    }
    if !seen {
        if let Some(new) = value.take() {
            assert_eq!(path.len(), 1);
            out.push((path[0].to_string(), new));
        }
    }
    Value::Object(out)
}

fn sample_event() -> Event {
    Event::AutomodMessageHoldV1(Envelope {
        subscription: Subscription {
            id: "f1c2a387-161a-49f9-a165-0f21d7a4e1c4".to_string(),
            status: "enabled".to_string(),
            cost: 0,
            condition: AutomodMessageHoldV1::new("1337", "9001"),
            transport: Transport {
                method: "webhook".to_string(),
                callback: Some("https://example.com/webhooks/callback".to_string()),
                session_id: None,
            },
            created_at: "2023-04-11T10:11:12.123Z".to_string(),
        },
        event: AutomodMessageHoldV1Payload {
            broadcaster_user_id: "1337".to_string(),
            broadcaster_user_name: "blah".to_string(),
            broadcaster_user_login: "blahblah".to_string(),
            user_id: "456789012".to_string(),
            user_name: "baduser".to_string(),
            user_login: "baduserbla".to_string(),
            message_id: "bad-message-id".to_string(),
            message: "This is a bad message… ".to_string(),
            level: 5,
            category: "aggressive".to_string(),
            held_at: "2022-12-02T15:00:00.00Z".to_string(),
        },
    })
}

fn malformed(section: Section, field: &str, fault: Fault) -> ParseError {
    ParseError::MalformedPayload(Details { section, field: field.to_string(), fault })
}

fn roundtrip(event: &Event) {
    let written = event.to_document();
    assert_eq!(Event::parse(&written), Ok(event.clone()));
    assert_eq!(Event::parse_strict(&written), Ok(event.clone()));
}

#[test]
fn parse_payload() {
    let payload = SAMPLE;
    let val = Event::parse(&document(payload)).unwrap();
    println!("{:?}", val);
    roundtrip(&val)
}

#[test]
fn parse_payload_gives_every_field() {
    assert_eq!(Event::parse(&document(SAMPLE)), Ok(sample_event()));
}

#[test]
fn level_is_not_range_checked() {
    let Event::AutomodMessageHoldV1(envelope) = Event::parse(&document(SAMPLE)).unwrap();
    assert_eq!(envelope.event.level, 5);
    let large = with(&document(SAMPLE), &["event", "level"], Value::Number(u64::MAX));
    let Event::AutomodMessageHoldV1(envelope) = Event::parse(&large).unwrap();
    assert_eq!(envelope.event.level, u64::MAX);
    let zero = with(&document(SAMPLE), &["event", "level"], Value::Number(0));
    let Event::AutomodMessageHoldV1(envelope) = Event::parse(&zero).unwrap();
    assert_eq!(envelope.event.level, 0);
}

#[test]
fn round_trip_of_a_sample_envelope() {
    roundtrip(&sample_event());
    let Event::AutomodMessageHoldV1(mut envelope) = sample_event();
    envelope.subscription.transport = Transport {
        method: "websocket".to_string(),
        callback: None,
        session_id: Some("AQoQexAWVYKSTIu4ec_2VAxyuhAB".to_string()),
    };
    envelope.event.level = 4;
    envelope.subscription.cost = 7;
    roundtrip(&Event::AutomodMessageHoldV1(envelope));
}

#[test]
fn missing_type_is_missing_discriminant() {
    let doc = without(&document(SAMPLE), &["subscription", "type"]);
    assert_eq!(Event::parse(&doc), Err(ParseError::MissingDiscriminant));
    assert_eq!(Event::parse_strict(&doc), Err(ParseError::MissingDiscriminant));
}

#[test]
fn missing_version_is_missing_discriminant() {
    let doc = without(&document(SAMPLE), &["subscription", "version"]);
    assert_eq!(Event::parse(&doc), Err(ParseError::MissingDiscriminant));
}

#[test]
fn missing_subscription_is_missing_discriminant() {
    let doc = without(&document(SAMPLE), &["subscription"]);
    assert_eq!(Event::parse(&doc), Err(ParseError::MissingDiscriminant));
    assert_eq!(Event::parse(&Value::Null), Err(ParseError::MissingDiscriminant));
    assert_eq!(Event::parse(&Value::List(vec![])), Err(ParseError::MissingDiscriminant));
    assert_eq!(Event::parse(&Value::Object(vec![])), Err(ParseError::MissingDiscriminant));
}

#[test]
fn discriminant_that_is_no_text_is_missing() {
    let doc = with(&document(SAMPLE), &["subscription", "version"], Value::Number(1));
    assert_eq!(Event::parse(&doc), Err(ParseError::MissingDiscriminant));
    let doc = with(&document(SAMPLE), &["subscription"], Value::Text("automod.message.hold".to_string()));
    assert_eq!(Event::parse(&doc), Err(ParseError::MissingDiscriminant));
}

#[test]
fn unknown_type_is_unknown_event_type() {
    let doc = with(&document(SAMPLE), &["subscription", "type"], Value::text("automod.message.update"));
    let expected = ParseError::UnknownEventType {
        event_type: "automod.message.update".to_string(),
        version: "1".to_string(),
    };
    assert_eq!(Event::parse(&doc), Err(expected.clone()));
    assert_eq!(Event::parse_strict(&doc), Err(expected));
}

#[test]
fn unknown_version_is_unknown_event_type() {
    let doc = with(&document(SAMPLE), &["subscription", "version"], Value::text("2"));
    let expected =
        ParseError::UnknownEventType { event_type: "automod.message.hold".to_string(), version: "2".to_string() };
    assert_eq!(Event::parse(&doc), Err(expected));
}

#[test]
fn unknown_type_wins_over_a_malformed_payload() {
    let doc = with(&document(SAMPLE), &["subscription", "type"], Value::text("channel.follow"));
    let doc = without(&doc, &["event"]);
    let doc = without(&doc, &["subscription", "id"]);
    assert_eq!(
        Event::parse_strict(&doc),
        Err(ParseError::UnknownEventType { event_type: "channel.follow".to_string(), version: "1".to_string() })
    );
}

#[test]
fn missing_payload_field_is_named() {
    let names = [
        "broadcaster_user_id",
        "broadcaster_user_name",
        "broadcaster_user_login",
        "user_id",
        "user_name",
        "user_login",
        "message_id",
        "message",
        "level",
        "category",
        "held_at",
    ];
    for name in names {
        let doc = without(&document(SAMPLE), &["event", name]);
        assert_eq!(Event::parse(&doc), Err(malformed(Section::Event, name, Fault::Missing)));
    }
}

#[test]
fn first_missing_payload_field_is_reported() {
    let doc = without(&document(SAMPLE), &["event", "held_at"]);
    let doc = without(&doc, &["event", "user_id"]);
    assert_eq!(Event::parse(&doc), Err(malformed(Section::Event, "user_id", Fault::Missing)));
}

#[test]
fn mistyped_payload_field_is_named() {
    let doc = with(&document(SAMPLE), &["event", "level"], Value::text("5"));
    assert_eq!(Event::parse(&doc), Err(malformed(Section::Event, "level", Fault::Mistyped)));
    let doc = with(&document(SAMPLE), &["event", "category"], Value::Number(3));
    assert_eq!(Event::parse(&doc), Err(malformed(Section::Event, "category", Fault::Mistyped)));
    let doc = with(&document(SAMPLE), &["event", "message"], Value::Null);
    assert_eq!(Event::parse(&doc), Err(malformed(Section::Event, "message", Fault::Mistyped)));
}

#[test]
fn level_that_is_no_unsigned_integer_is_mistyped() {
    let text = SAMPLE.replace("\"level\": 5", "\"level\": -1");
    assert_eq!(Event::parse(&document(&text)), Err(malformed(Section::Event, "level", Fault::Mistyped)));
    let text = SAMPLE.replace("\"level\": 5", "\"level\": 2.5");
    assert_eq!(Event::parse(&document(&text)), Err(malformed(Section::Event, "level", Fault::Mistyped)));
}

#[test]
fn missing_event_is_malformed() {
    let doc = without(&document(SAMPLE), &["event"]);
    assert_eq!(Event::parse(&doc), Err(malformed(Section::Root, "event", Fault::Missing)));
    let doc = with(&document(SAMPLE), &["event"], Value::List(vec![]));
    assert_eq!(Event::parse(&doc), Err(malformed(Section::Root, "event", Fault::Mistyped)));
}

#[test]
fn strict_refuses_an_extra_field() {
    let doc = document(SAMPLE);
    assert_eq!(Event::parse_strict(&doc), Err(malformed(Section::Event, "fragments", Fault::Unexpected)));
    assert_eq!(Event::parse_with(&doc, true), Err(malformed(Section::Event, "fragments", Fault::Unexpected)));
}

#[test]
fn permissive_discards_an_extra_field() {
    let doc = document(SAMPLE);
    let plain = without(&doc, &["event", "fragments"]);
    assert_eq!(Event::parse(&doc), Ok(sample_event()));
    assert_eq!(Event::parse_with(&doc, false), Event::parse(&plain));
    assert_eq!(Event::parse_strict(&plain), Ok(sample_event()));
    let written = Event::parse(&doc).unwrap().to_document();
    assert_eq!(written.get("event").unwrap().get("fragments"), None);
}

#[test]
fn strict_refuses_extra_fields_of_the_subscription() {
    let plain = without(&document(SAMPLE), &["event", "fragments"]);
    let doc = with(&plain, &["subscription", "note"], Value::Bool(true));
    assert_eq!(Event::parse_strict(&doc), Err(malformed(Section::Subscription, "note", Fault::Unexpected)));
    assert_eq!(Event::parse(&doc), Ok(sample_event()));
    let doc = with(&plain, &["subscription", "condition", "user_id"], Value::text("1"));
    assert_eq!(Event::parse_strict(&doc), Err(malformed(Section::Condition, "user_id", Fault::Unexpected)));
    assert_eq!(Event::parse(&doc), Ok(sample_event()));
    let doc = with(&plain, &["subscription", "transport", "secret"], Value::text("s3cre7"));
    assert_eq!(Event::parse_strict(&doc), Err(malformed(Section::Transport, "secret", Fault::Unexpected)));
    assert_eq!(Event::parse(&doc), Ok(sample_event()));
}

#[test]
fn payload_is_read_before_the_subscription() {
    let doc = without(&document(SAMPLE), &["subscription", "id"]);
    let doc = without(&doc, &["event", "category"]);
    assert_eq!(Event::parse(&doc), Err(malformed(Section::Event, "category", Fault::Missing)));
}

#[test]
fn malformed_subscription_is_named() {
    let doc = without(&document(SAMPLE), &["subscription", "id"]);
    assert_eq!(Event::parse(&doc), Err(malformed(Section::Subscription, "id", Fault::Missing)));
    let doc = with(&document(SAMPLE), &["subscription", "cost"], Value::text("0"));
    assert_eq!(Event::parse(&doc), Err(malformed(Section::Subscription, "cost", Fault::Mistyped)));
    let doc = without(&document(SAMPLE), &["subscription", "condition"]);
    assert_eq!(Event::parse(&doc), Err(malformed(Section::Subscription, "condition", Fault::Missing)));
    let doc = without(&document(SAMPLE), &["subscription", "condition", "moderator_user_id"]);
    assert_eq!(Event::parse(&doc), Err(malformed(Section::Condition, "moderator_user_id", Fault::Missing)));
    let doc = without(&document(SAMPLE), &["subscription", "transport", "method"]);
    assert_eq!(Event::parse(&doc), Err(malformed(Section::Transport, "method", Fault::Missing)));
    let doc = with(&document(SAMPLE), &["subscription", "transport", "callback"], Value::Number(1));
    assert_eq!(Event::parse(&doc), Err(malformed(Section::Transport, "callback", Fault::Mistyped)));
    let doc = without(&document(SAMPLE), &["subscription", "created_at"]);
    assert_eq!(Event::parse(&doc), Err(malformed(Section::Subscription, "created_at", Fault::Missing)));
}

#[test]
fn transport_fields_may_be_absent_or_null() {
    let doc = without(&document(SAMPLE), &["subscription", "transport", "callback"]);
    let doc = with(&doc, &["subscription", "transport", "session_id"], Value::Null);
    let Event::AutomodMessageHoldV1(envelope) = Event::parse(&doc).unwrap();
    assert_eq!(
        envelope.subscription.transport,
        Transport { method: "webhook".to_string(), callback: None, session_id: None }
    );
}

#[test]
fn written_document_has_every_member_in_order() {
    let written = sample_event().to_document();
    let text = |s: &str| Value::Text(s.to_string());
    let expected = Value::Object(vec![
        (
            "subscription".to_string(),
            Value::Object(vec![
                ("id".to_string(), text("f1c2a387-161a-49f9-a165-0f21d7a4e1c4")),
                ("type".to_string(), text("automod.message.hold")),
                ("version".to_string(), text("1")),
                ("status".to_string(), text("enabled")),
                ("cost".to_string(), Value::Number(0)),
                (
                    "condition".to_string(),
                    Value::Object(vec![
                        ("broadcaster_user_id".to_string(), text("1337")),
                        ("moderator_user_id".to_string(), text("9001")),
                    ]),
                ),
                (
                    "transport".to_string(),
                    Value::Object(vec![
                        ("method".to_string(), text("webhook")),
                        ("callback".to_string(), text("https://example.com/webhooks/callback")),
                        ("session_id".to_string(), Value::Null),
                    ]),
                ),
                ("created_at".to_string(), text("2023-04-11T10:11:12.123Z")),
            ]),
        ),
        (
            "event".to_string(),
            Value::Object(vec![
                ("broadcaster_user_id".to_string(), text("1337")),
                ("broadcaster_user_name".to_string(), text("blah")),
                ("broadcaster_user_login".to_string(), text("blahblah")),
                ("user_id".to_string(), text("456789012")),
                ("user_name".to_string(), text("baduser")),
                ("user_login".to_string(), text("baduserbla")),
                ("message_id".to_string(), text("bad-message-id")),
                ("message".to_string(), text("This is a bad message… ")),
                ("level".to_string(), Value::Number(5)),
                ("category".to_string(), text("aggressive")),
                ("held_at".to_string(), text("2022-12-02T15:00:00.00Z")),
            ]),
        ),
    ]);
    assert_eq!(written, expected);
}

#[test]
fn registry_knows_one_pair() {
    assert_eq!(lookup("automod.message.hold", "1"), Some(EventType::AutomodMessageHold));
    assert_eq!(lookup("automod.message.hold", "2"), None);
    assert_eq!(lookup("automod.message.hold", ""), None);
    assert_eq!(lookup("automod.message", "1"), None);
    assert_eq!(lookup("1", "automod.message.hold"), None);
    assert_eq!(EventType::AutomodMessageHold.name(), "automod.message.hold");
    assert_eq!(EventType::AutomodMessageHold.version(), "1");
    assert_eq!(sample_event().event_type(), EventType::AutomodMessageHold);
}

#[test]
fn condition_is_made_of_both_ids() {
    let condition = AutomodMessageHoldV1::new("1337", "9001");
    assert_eq!(condition.broadcaster_user_id, "1337");
    assert_eq!(condition.moderator_user_id, "9001");
    assert_eq!(
        condition.to_members(),
        vec![
            ("broadcaster_user_id".to_string(), Value::Text("1337".to_string())),
            ("moderator_user_id".to_string(), Value::Text("9001".to_string())),
        ]
    );
    assert_eq!(AutomodMessageHoldV1::from_members(&condition.to_members(), true), Ok(condition));
}

#[test]
fn path_names_the_section_and_the_field() {
    assert_eq!(Details::new(Section::Event, "level", Fault::Missing).path(), "event.level");
    assert_eq!(Details::new(Section::Root, "event", Fault::Missing).path(), "event");
    assert_eq!(Details::new(Section::Subscription, "id", Fault::Mistyped).path(), "subscription.id");
    assert_eq!(
        Details::new(Section::Condition, "moderator_user_id", Fault::Missing).path(),
        "subscription.condition.moderator_user_id"
    );
    assert_eq!(
        Details::new(Section::Transport, "secret", Fault::Unexpected).path(),
        "subscription.transport.secret"
    );
    let doc = without(&document(SAMPLE), &["event", "level"]);
    match Event::parse(&doc) {
        Err(ParseError::MalformedPayload(details)) => assert_eq!(details.path(), "event.level"),
        other => panic!("{:?}", other),
    }
}

#[test]
fn first_member_of_a_key_is_the_one_found() {
    let doc = Value::Object(vec![
        ("a".to_string(), Value::Number(1)),
        ("b".to_string(), Value::Bool(true)),
        ("a".to_string(), Value::Number(2)),
    ]);
    assert_eq!(doc.get("a"), Some(&Value::Number(1)));
    assert_eq!(doc.get("b"), Some(&Value::Bool(true)));
    assert_eq!(doc.get("c"), None);
    assert_eq!(Value::Number(1).get("a"), None);
    assert_eq!(Value::text("a").as_object(), None);
    assert_eq!(Value::object(vec![]).as_object(), Some(&vec![]));
}

#[test]
fn copy_of_a_document_is_equal_to_it() {
    let doc = document(SAMPLE);
    let copy = doc.clone();
    assert_eq!(copy, doc);
    assert_eq!(Event::parse(&copy), Event::parse(&doc));
    let list = Value::List(vec![Value::Null, Value::Bool(false), Value::Raw("-1.5".to_string()), Value::Number(3)]);
    assert_eq!(list.clone(), list);
    assert_ne!(list.clone(), Value::List(vec![]));
}

#[test]
fn failures_are_described() {
    assert_eq!(ParseError::MissingDiscriminant.describe(), "missing event type or version");
    let unknown =
        ParseError::UnknownEventType { event_type: "channel.follow".to_string(), version: "2".to_string() };
    assert_eq!(unknown.describe(), "unknown event type channel.follow version 2");
    assert_eq!(
        malformed(Section::Event, "level", Fault::Missing).describe(),
        "malformed payload: missing field event.level"
    );
    assert_eq!(
        malformed(Section::Subscription, "cost", Fault::Mistyped).describe(),
        "malformed payload: mistyped field subscription.cost"
    );
    assert_eq!(
        malformed(Section::Event, "fragments", Fault::Unexpected).describe(),
        "malformed payload: unexpected field event.fragments"
    );
    assert_eq!(
        Event::parse_strict(&document(SAMPLE)).unwrap_err().describe(),
        "malformed payload: unexpected field event.fragments"
    );
}

#[test]
fn condition_names_its_event_type_and_version() {
    assert_eq!(AutomodMessageHoldV1::event_type(), EventType::AutomodMessageHold);
    assert_eq!(AutomodMessageHoldV1::version(), "1");
    assert_eq!(
        lookup(AutomodMessageHoldV1::event_type().name(), AutomodMessageHoldV1::version()),
        Some(EventType::AutomodMessageHold)
    );
}

#[test]
fn envelope_is_read_from_the_members() {
    let doc = document(SAMPLE);
    let root = doc.as_object().unwrap();
    let subscription = doc.get("subscription").unwrap().as_object().unwrap();
    let Event::AutomodMessageHoldV1(expected) = sample_event();
    assert_eq!(Envelope::from_members(root, subscription, false), Ok(expected));
    assert_eq!(
        Envelope::from_members(root, subscription, true),
        Err(Details::new(Section::Event, "fragments", Fault::Unexpected))
    );
}

#[test]
fn payload_is_read_from_the_members_and_written_back() {
    let doc = document(SAMPLE);
    let event = doc.get("event").unwrap().as_object().unwrap();
    let payload = AutomodMessageHoldV1Payload::from_members(event, false).unwrap();
    assert_eq!(payload.level, 5);
    assert_eq!(payload.message, "This is a bad message… ");
    assert_eq!(payload.held_at, "2022-12-02T15:00:00.00Z");
    assert_eq!(AutomodMessageHoldV1Payload::from_members(&payload.to_members(), true), Ok(payload));
}
