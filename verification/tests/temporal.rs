use chrono::{FixedOffset, NaiveDate, NaiveTime, TimeZone};
use lowmain::commands::nodes::{delete_plan, delete_response};
use lowmain::commands::schema::count_response;
use lowmain::connection::{ConnectionSources, Setting};
use lowmain::convert::{node_field_to_json, node_to_json, relation_to_json, row_to_json};
use lowmain::error::AppError;
use lowmain::json::JsonValue;
use lowmain::shape::{risks_of, Risks};
use neo4rs::{
    BoltDuration, BoltFloat, BoltInteger, BoltList, BoltMap, BoltNode, BoltPoint2D, BoltRelation,
    BoltString, BoltType, Node, Relation, Row,
};

fn far_future() -> BoltType {
    let zone = FixedOffset::east_opt(3600).unwrap();
    BoltType::from(zone.with_ymd_and_hms(2300, 1, 2, 3, 4, 5).unwrap())
}

fn holder(entries: Vec<(&str, BoltType)>) -> Node {
    let properties: BoltMap =
        entries.into_iter().map(|(k, v)| (BoltString::from(k), v)).collect();
    Node::new(BoltNode::new(
        BoltInteger::new(1),
        BoltList::from(vec![BoltType::from("T")]),
        properties,
    ))
}

fn one(column: &str, value: BoltType) -> Row {
    Row::new(BoltList::from(vec![BoltType::from(column)]), BoltList::from(vec![value]))
}

#[test]
fn date_time_out_of_nanosecond_range_reads_as_text() {
    let node = holder(vec![("at", far_future())]);
    assert_eq!(
        node_field_to_json(&node, "at"),
        JsonValue::String("2300-01-02T03:04:05+01:00".to_string())
    );
    let object = node_to_json(&node);
    match object {
        JsonValue::Object(fields) => assert_eq!(
            fields[2],
            ("at".to_string(), JsonValue::String("2300-01-02T03:04:05+01:00".to_string()))
        ),
        _ => panic!("not an object"),
    }
    let relation = Relation::new(BoltRelation {
        id: BoltInteger::new(1),
        start_node_id: BoltInteger::new(2),
        end_node_id: BoltInteger::new(3),
        typ: BoltString::from("T"),
        properties: vec![(BoltString::from("at"), far_future())].into_iter().collect(),
    });
    match relation_to_json(&relation) {
        JsonValue::Object(fields) => assert_eq!(
            fields[4],
            ("at".to_string(), JsonValue::String("2300-01-02T03:04:05+01:00".to_string()))
        ),
        _ => panic!("not an object"),
    }
}

#[test]
fn date_times_read_as_integers_and_dates_as_text() {
    let zone = FixedOffset::east_opt(0).unwrap();
    let now = zone.with_ymd_and_hms(2020, 5, 6, 7, 8, 9).unwrap();
    let local = NaiveDate::from_ymd_opt(2020, 5, 6).unwrap().and_hms_opt(7, 8, 9).unwrap();
    let node = holder(vec![
        ("now", BoltType::from(now)),
        ("local", BoltType::from(local)),
        ("day", BoltType::from(NaiveDate::from_ymd_opt(2020, 5, 6).unwrap())),
        ("days", BoltType::List(BoltList::from(vec![
            BoltType::from(NaiveDate::from_ymd_opt(2020, 5, 6).unwrap()),
            BoltType::from("x"),
        ]))),
        ("moments", BoltType::List(BoltList::from(vec![far_future()]))),
        ("nows", BoltType::List(BoltList::from(vec![BoltType::from(now)]))),
    ]);
    // a date-time in range is first of all an integer: its nanoseconds
    assert_eq!(node_field_to_json(&node, "now"), JsonValue::Integer(1_588_748_889_000_000_000));
    assert_eq!(node_field_to_json(&node, "now"), JsonValue::Integer(node.get::<i64>("now").unwrap()));
    assert_eq!(node_field_to_json(&node, "local"), JsonValue::Integer(1_588_748_889_000_000_000));
    assert_eq!(node_field_to_json(&node, "day"), JsonValue::String("2020-05-06".to_string()));
    assert_eq!(
        node_field_to_json(&node, "days"),
        JsonValue::Array(vec![
            JsonValue::String("2020-05-06".to_string()),
            JsonValue::String("x".to_string())
        ])
    );
    // a list is asked for as texts before it is asked for as integers
    assert_eq!(
        node_field_to_json(&node, "moments"),
        JsonValue::Array(vec![JsonValue::String("2300-01-02T03:04:05+01:00".to_string())])
    );
    assert_eq!(
        node_field_to_json(&node, "nows"),
        JsonValue::Array(vec![JsonValue::String("2020-05-06T07:08:09+00:00".to_string())])
    );
}

#[test]
fn time_of_day_reads_as_text() {
    // within range a time of day reads as its text
    let time = NaiveTime::from_hms_opt(7, 8, 9).unwrap();
    let node = holder(vec![
        ("local", BoltType::from(time)),
        ("zoned", BoltType::from((time, FixedOffset::east_opt(3600).unwrap()))),
        ("times", BoltType::List(BoltList::from(vec![BoltType::from(time)]))),
        ("name", BoltType::from("kept")),
    ]);
    assert_eq!(node_field_to_json(&node, "local"), JsonValue::String("07:08:09".to_string()));
    assert_eq!(node_field_to_json(&node, "zoned"), JsonValue::String("07:08:09".to_string()));
    assert_eq!(
        node_field_to_json(&node, "times"),
        JsonValue::Array(vec![JsonValue::String("07:08:09".to_string())])
    );
    assert_eq!(node_field_to_json(&node, "name"), JsonValue::String("kept".to_string()));
    let expected: serde_json::Value = serde_json::from_str(r#"{"t":"07:08:09"}"#).unwrap();
    assert_eq!(row_to_json(&one("t", BoltType::from(time))), JsonValue::Document(expected));
    let expected: serde_json::Value =
        serde_json::from_str(r#"{"t":"2300-01-02T03:04:05+01:00"}"#).unwrap();
    assert_eq!(row_to_json(&one("t", far_future())), JsonValue::Document(expected));
}

fn beyond_midnight() -> BoltType {
    // a leap second at the end of the day: more nanoseconds than a day has
    BoltType::from(NaiveTime::from_hms_nano_opt(23, 59, 59, 1_500_000_000).unwrap())
}

#[test]
fn time_of_day_out_of_range_is_not_read() {
    let shown = format!("{:?}", beyond_midnight());
    assert_eq!(shown, "LocalTime(BoltLocalTime { nanoseconds: BoltInteger { value: 86400500000000 } })");
    assert_eq!(risks_of(&shown), Risks { numbers: false, texts: true });
    let node = holder(vec![
        ("late", beyond_midnight()),
        ("lates", BoltType::List(BoltList::from(vec![BoltType::from("x"), beyond_midnight()]))),
        ("name", BoltType::from("kept")),
        ("count", BoltType::from(7i64)),
    ]);
    assert_eq!(node_field_to_json(&node, "late"), JsonValue::Null);
    assert_eq!(node_field_to_json(&node, "lates"), JsonValue::Null);
    assert_eq!(node_field_to_json(&node, "name"), JsonValue::String("kept".to_string()));
    assert_eq!(node_field_to_json(&node, "count"), JsonValue::Integer(7));
    assert_eq!(row_to_json(&one("t", beyond_midnight())), JsonValue::Null);
    let labelled = Node::new(BoltNode::new(
        BoltInteger::new(1),
        BoltList::from(vec![beyond_midnight()]),
        BoltMap::new(),
    ));
    match node_to_json(&labelled) {
        JsonValue::Object(fields) => {
            assert_eq!(fields[1], ("_labels".to_string(), JsonValue::Array(vec![])))
        }
        _ => panic!("not an object"),
    }
}

#[test]
fn duration_and_point_are_null() {
    let node = holder(vec![
        ("span", BoltType::Duration(BoltDuration::from(std::time::Duration::from_secs(5)))),
        ("place", BoltType::Point2D(BoltPoint2D {
            sr_id: BoltInteger::new(4326),
            x: BoltFloat::new(1.5),
            y: BoltFloat::new(2.5),
        })),
        ("places", BoltType::List(BoltList::from(vec![
            BoltType::from(3i64),
            BoltType::Point2D(BoltPoint2D {
                sr_id: BoltInteger::new(4326),
                x: BoltFloat::new(1.5),
                y: BoltFloat::new(2.5),
            }),
        ]))),
    ]);
    assert_eq!(node_field_to_json(&node, "span"), JsonValue::Null);
    assert_eq!(node_field_to_json(&node, "place"), JsonValue::Null);
    assert_eq!(node_field_to_json(&node, "places"), JsonValue::Null);
    // the reads of the driver itself say the same
    assert!(node.get::<i64>("span").is_err() && node.get::<Vec<i64>>("span").is_err());
    assert!(node.get::<String>("span").is_err() && node.get::<Vec<String>>("span").is_err());
    assert!(node.get::<Vec<i64>>("place").is_err() && node.get::<Vec<String>>("place").is_err());
    assert!(node.get::<Vec<i64>>("places").is_err() && node.get::<Vec<String>>("places").is_err());
}

#[test]
fn every_other_value_is_decoded_again() {
    // a read is left out only where the value cannot be looked at, and that
    // is so for a point alone
    let values: Vec<BoltType> = vec![
        BoltType::from(1i64),
        BoltType::Float(BoltFloat::new(1.5)),
        BoltType::from(true),
        BoltType::from("x"),
        BoltType::Null(neo4rs::BoltNull),
        BoltType::from(vec![1i64, 2]),
        BoltType::from(vec![1u8, 2u8]),
        BoltType::from(NaiveDate::from_ymd_opt(2020, 5, 6).unwrap().and_hms_opt(7, 8, 9).unwrap()),
        BoltType::from((
            NaiveDate::from_ymd_opt(2020, 5, 6).unwrap().and_hms_opt(7, 8, 9).unwrap(),
            "Europe/Paris",
        )),
        BoltType::Node(BoltNode::new(
            BoltInteger::new(1),
            BoltList::from(vec![BoltType::from("T")]),
            BoltMap::new(),
        )),
        BoltType::Map(vec![(BoltString::from("k"), BoltType::from(1i64))].into_iter().collect()),
        BoltType::from(NaiveDate::from_ymd_opt(2020, 5, 6).unwrap()),
        BoltType::from(NaiveTime::from_hms_opt(7, 8, 9).unwrap()),
        far_future(),
        beyond_midnight(),
        BoltType::Duration(BoltDuration::from(std::time::Duration::from_secs(5))),
    ];
    for value in values {
        let shown = format!("{:?}", value);
        let node = holder(vec![("v", value)]);
        assert!(node.get::<BoltType>("v").is_ok(), "{}", shown);
    }
    let node = holder(vec![
        ("bytes", BoltType::from(vec![1u8, 2u8])),
        (
            "zoned",
            BoltType::from((
                NaiveDate::from_ymd_opt(2020, 5, 6).unwrap().and_hms_opt(7, 8, 9).unwrap(),
                "Europe/Paris",
            )),
        ),
    ]);
    assert_eq!(
        node_field_to_json(&node, "bytes"),
        JsonValue::Array(vec![JsonValue::Integer(1), JsonValue::Integer(2)])
    );
    assert_eq!(
        node_field_to_json(&node, "zoned"),
        JsonValue::String("2020-05-06T07:08:09+02:00".to_string())
    );
}

#[test]
fn risks_are_decided_at_the_exact_bounds() {
    let instant = |s: &str, n: &str, o: &str| {
        risks_of(&format!(
            "DateTime(BoltDateTime {{ seconds: BoltInteger {{ value: {} }}, nanoseconds: BoltInteger {{ value: {} }}, tz_offset_seconds: BoltInteger {{ value: {} }} }})",
            s, n, o
        ))
    };
    let safe = Risks { numbers: false, texts: false };
    let numbers = Risks { numbers: true, texts: false };
    let texts = Risks { numbers: false, texts: true };
    let every = Risks { numbers: true, texts: true };
    assert_eq!(instant("0", "0", "0"), safe);
    assert_eq!(instant("9223372036", "854775807", "0"), safe);
    assert_eq!(instant("9223372036", "854775808", "0"), numbers);
    assert_eq!(instant("9223372037", "0", "0"), numbers);
    assert_eq!(instant("9223372036", "854775807", "-1"), numbers);
    assert_eq!(instant("-9223372037", "145224192", "0"), safe);
    assert_eq!(instant("-9223372037", "145224191", "0"), numbers);
    assert_eq!(instant("-9223372036854775808", "0", "1"), every);
    assert_eq!(instant("9223372036854775807", "0", "-1"), every);
    assert_eq!(instant("9223372036854775807", "0", "0"), numbers);
    assert_eq!(instant("x", "0", "0"), every);
    let local = |s: &str, n: &str| {
        risks_of(&format!(
            "LocalDateTime(BoltLocalDateTime {{ seconds: BoltInteger {{ value: {} }}, nanoseconds: BoltInteger {{ value: {} }} }})",
            s, n
        ))
    };
    assert_eq!(local("9223372036", "854775807"), safe);
    assert_eq!(local("9223372036", "854775808"), numbers);
    let clock = |n: &str, o: &str| {
        risks_of(&format!(
            "Time(BoltTime {{ nanoseconds: BoltInteger {{ value: {} }}, tz_offset_seconds: BoltInteger {{ value: {} }} }})",
            n, o
        ))
    };
    assert_eq!(clock("86399999999999", "86399"), safe);
    assert_eq!(clock("86399999999999", "-86399"), safe);
    assert_eq!(clock("86399999999999", "86400"), texts);
    assert_eq!(clock("86399999999999", "-86400"), texts);
    assert_eq!(clock("86400000000000", "0"), texts);
    assert_eq!(clock("-1", "0"), texts);
    // the driver keeps the low thirty-two bits of the offset and of the seconds
    assert_eq!(clock("0", "4294967296"), safe);
    let local_clock = |n: &str| {
        risks_of(&format!("LocalTime(BoltLocalTime {{ nanoseconds: BoltInteger {{ value: {} }} }})", n))
    };
    assert_eq!(local_clock("0"), safe);
    assert_eq!(local_clock("4294967296000000000"), safe);
    assert_eq!(local_clock("-4294967291000000000"), safe);
    assert_eq!(local_clock("-1000000000"), texts);
    // the parts of a list and of a map are looked at, the content of a text is not
    assert_eq!(
        risks_of("List(BoltList { value: [Integer(BoltInteger { value: 1 }), LocalTime(BoltLocalTime { nanoseconds: BoltInteger { value: -1 } })] })"),
        texts
    );
    assert_eq!(
        risks_of("String(BoltString { value: \"LocalTime(BoltLocalTime { nanoseconds: BoltInteger { value: -1 } })\" })"),
        safe
    );
    assert_eq!(
        risks_of("String(BoltString { value: \"a\\\" BoltLocalTime { nanoseconds: BoltInteger { value: -1 } }\" })"),
        safe
    );
    assert_eq!(
        risks_of("String(BoltString { value: \"a\\\\\" }) BoltLocalTime { nanoseconds: BoltInteger { value: -1 } }"),
        texts
    );
}

#[test]
fn counts_that_are_date_times_are_no_counts() {
    let sources = ConnectionSources {
        uri: Setting { flag: None, env: None },
        user: Setting { flag: None, env: None },
        password: Setting { flag: Some("pw".to_string()), env: None },
        database: Setting { flag: None, env: None },
    };
    let plan = delete_plan(Some("3"), false, &sources).unwrap();
    let row = one("deleted", far_future());
    assert_eq!(
        delete_response(&plan, Some(&row)),
        Err(AppError::NodeNotFound { id: "3".to_string() })
    );
    let nodes = one("node_count", far_future());
    let relationships = one("rel_count", BoltType::from(4i64));
    match count_response(Some(&nodes), Some(&relationships)).data {
        JsonValue::Object(fields) => {
            assert_eq!(fields[0].1, JsonValue::Integer(0));
            assert_eq!(fields[1].1, JsonValue::Integer(4));
        }
        _ => panic!("not an object"),
    }
}

#[test]
fn text_that_names_a_driver_type_is_not_mistaken_for_one() {
    let node = holder(vec![("note", BoltType::from("see BoltInteger"))]);
    assert_eq!(
        node_field_to_json(&node, "note"),
        JsonValue::String("see BoltInteger".to_string())
    );
    // a text is a text, whatever it says
    let node = holder(vec![
        ("note", BoltType::from("BoltTime { x } BoltDateTime { y }")),
        ("notes", BoltType::from(vec!["BoltTime { x }"])),
    ]);
    assert_eq!(
        node_field_to_json(&node, "note"),
        JsonValue::String("BoltTime { x } BoltDateTime { y }".to_string())
    );
    assert_eq!(
        node_field_to_json(&node, "notes"),
        JsonValue::Array(vec![JsonValue::String("BoltTime { x }".to_string())])
    );
    // also where it reads like a value that is out of range
    let out = "BoltLocalTime { nanoseconds: BoltInteger { value: -1 } }";
    let quoted = "a\" BoltLocalTime { nanoseconds: BoltInteger { value: -1 } }";
    let node = holder(vec![
        ("note", BoltType::from(out)),
        ("quoted", BoltType::from(quoted)),
        ("notes", BoltType::from(vec![quoted, out])),
    ]);
    assert_eq!(node_field_to_json(&node, "note"), JsonValue::String(out.to_string()));
    assert_eq!(node_field_to_json(&node, "quoted"), JsonValue::String(quoted.to_string()));
    assert_eq!(
        node_field_to_json(&node, "notes"),
        JsonValue::Array(vec![
            JsonValue::String(quoted.to_string()),
            JsonValue::String(out.to_string())
        ])
    );
    let object = format!("{{\"t\":{}}}", serde_json::Value::String(quoted.to_string()));
    let expected: serde_json::Value = serde_json::from_str(&object).unwrap();
    assert_eq!(row_to_json(&one("t", BoltType::from(quoted))), JsonValue::Document(expected));
}

#[test]
fn every_kind_of_date_and_time_out_of_range_is_found() {
    let late = NaiveTime::from_hms_nano_opt(23, 59, 59, 1_500_000_000).unwrap();
    let far = NaiveDate::from_ymd_opt(2300, 1, 2).unwrap().and_hms_opt(3, 4, 5).unwrap();
    let early = NaiveDate::from_ymd_opt(1600, 1, 2).unwrap().and_hms_opt(3, 4, 5).unwrap();
    let node = holder(vec![
        ("zoned_late", BoltType::from((late, FixedOffset::east_opt(3600).unwrap()))),
        ("far", BoltType::from(far)),
        ("early", BoltType::from(early)),
        ("fars", BoltType::List(BoltList::from(vec![BoltType::from(1i64), BoltType::from(far)]))),
    ]);
    assert_eq!(node_field_to_json(&node, "zoned_late"), JsonValue::Null);
    assert_eq!(node_field_to_json(&node, "far"), JsonValue::String("2300-01-02T03:04:05".to_string()));
    assert_eq!(
        node_field_to_json(&node, "early"),
        JsonValue::String("1600-01-02T03:04:05".to_string())
    );
    // as texts the list fails at its first item, and as integers it is not read
    assert_eq!(node_field_to_json(&node, "fars"), JsonValue::Null);
    let relation = Relation::new(BoltRelation {
        id: BoltInteger::new(1),
        start_node_id: BoltInteger::new(2),
        end_node_id: BoltInteger::new(3),
        typ: BoltString::from("T"),
        properties: vec![
            (BoltString::from("late"), beyond_midnight()),
            (BoltString::from("noon"), BoltType::from(NaiveTime::from_hms_opt(12, 0, 0).unwrap())),
        ]
        .into_iter()
        .collect(),
    });
    match relation_to_json(&relation) {
        JsonValue::Object(mut fields) => {
            let mut own = fields.split_off(4);
            own.sort_by(|a, b| a.0.cmp(&b.0));
            assert_eq!(
                own,
                vec![
                    ("late".to_string(), JsonValue::Null),
                    ("noon".to_string(), JsonValue::String("12:00:00".to_string())),
                ]
            );
        }
        _ => panic!("not an object"),
    }
}
