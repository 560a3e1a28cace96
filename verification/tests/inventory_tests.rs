use sound_out::inventory::{accept_item, names_device, parse_devices};
use sound_out::json::{parse_json, Json};
use sound_out::manager::{first_hit, fragment_hit, AudioManager};
use sound_out::text::{classify, Identifier};

fn item(name: &str) -> Json {
    Json::Object(vec![("_name".to_string(), Json::Text(name.to_string()))])
}

fn group(items: Vec<Json>) -> Json {
    Json::Object(vec![("_items".to_string(), Json::Array(items))])
}

fn inventory(groups: Vec<Json>) -> Json {
    Json::Object(vec![("SPAudioDataType".to_string(), Json::Array(groups))])
}

fn summary(manager: &AudioManager) -> Vec<(u64, String, String, bool)> {
    manager.devices.iter().map(|d| (d.id, d.name.clone(), d.uid.clone(), d.is_output)).collect()
}

fn fallback() -> Vec<(u64, String, String, bool)> {
    vec![
        (0, "Built-in Output".to_string(), "builtin_output".to_string(), true),
        (1, "Built-in Headphones".to_string(), "builtin_headphones".to_string(), true),
    ]
}

#[test]
fn control_entry_is_excluded_from_the_payload() {
    let manager = AudioManager::new("{\"_items\":[{\"_name\":\"AirPods\"},{\"_name\":\"Audio Controls\"}]}");
    assert_eq!(summary(&manager), vec![(0, "AirPods".to_string(), "device_0".to_string(), true)]);
}

#[test]
fn grouped_payload_is_numbered_across_groups() {
    let payload = "{\"SPAudioDataType\":[{\"_items\":[{\"_name\":\"Speakers\"},{\"_name\":\"USB Controller\"},{\"_name\":\"AirPods\",\"x\":1.5}]},{\"_name\":\"no items\"},{\"_items\":[{\"_name\":\"Audio Controls\"},{\"other\":1},{\"_name\":7},{\"_name\":\"Display\"}]}]}";
    let manager = AudioManager::new(payload);
    assert_eq!(
        summary(&manager),
        vec![
            (0, "Speakers".to_string(), "device_0".to_string(), true),
            (1, "AirPods".to_string(), "device_1".to_string(), true),
            (2, "Display".to_string(), "device_2".to_string(), true),
        ]
    );
}

#[test]
fn uid_counts_in_decimal() {
    let items: Vec<Json> = (0..12).map(|i| item(&format!("Out {}", i))).collect();
    let devices = parse_devices(&inventory(vec![group(items)]));
    assert_eq!(devices.len(), 12);
    assert_eq!(devices[9].uid, "device_9");
    assert_eq!(devices[10].uid, "device_10");
    assert_eq!(devices[11].id, 11);
    assert_eq!(devices[11].name, "Out 11");
}

#[test]
fn malformed_payload_falls_back_to_builtin_devices() {
    assert_eq!(summary(&AudioManager::new("")), fallback());
    assert_eq!(summary(&AudioManager::new("not json")), fallback());
    assert_eq!(summary(&AudioManager::new("{\"SPAudioDataType\":")), fallback());
    assert_eq!(summary(&AudioManager::new("[1,2,3]")), fallback());
    assert_eq!(summary(&AudioManager::new("{\"SPAudioDataType\":[]}")), fallback());
    assert_eq!(
        summary(&AudioManager::new("{\"SPAudioDataType\":[{\"_items\":[{\"_name\":\"Audio Controls\"}]}]}")),
        fallback()
    );
}

#[test]
fn refresh_replaces_the_registry() {
    let mut manager = AudioManager::new("{\"SPAudioDataType\":[{\"_items\":[{\"_name\":\"A\"},{\"_name\":\"B\"},{\"_name\":\"C\"}]}]}");
    assert_eq!(manager.count(), 3);
    manager.refresh_devices("{\"SPAudioDataType\":[{\"_items\":[{\"_name\":\"Z\"}]}]}");
    assert_eq!(summary(&manager), vec![(0, "Z".to_string(), "device_0".to_string(), true)]);
    manager.refresh_from(&None);
    assert_eq!(summary(&manager), fallback());
    manager.refresh_from(&Some(inventory(vec![group(vec![item("Q"), item("Controller Hub")])])));
    assert_eq!(summary(&manager), vec![(0, "Q".to_string(), "device_0".to_string(), true)]);
}

#[test]
fn parse_json_carries_every_variant() {
    let doc = parse_json("{\"a\":[null,true,1,\"s\"],\"b\":{\"c\":false}}").unwrap();
    assert_eq!(
        doc,
        Json::Object(vec![
            (
                "a".to_string(),
                Json::Array(vec![Json::Null, Json::Bool(true), Json::Number, Json::Text("s".to_string())])
            ),
            ("b".to_string(), Json::Object(vec![("c".to_string(), Json::Bool(false))])),
        ])
    );
    assert_eq!(parse_json("{"), None);
    assert_eq!(parse_json("\"a\\u0041\""), Some(Json::Text("aA".to_string())));
}

#[test]
fn member_elements_and_text() {
    let doc = Json::Object(vec![
        ("k".to_string(), Json::Number),
        ("list".to_string(), Json::Array(vec![Json::Null])),
        ("k".to_string(), Json::Null),
    ]);
    assert_eq!(doc.member("k"), Some(&Json::Number));
    assert_eq!(doc.member("K"), None);
    assert_eq!(doc.member(""), None);
    assert_eq!(doc.member("list").unwrap().elements(), Some(&vec![Json::Null]));
    assert_eq!(doc.elements(), None);
    assert_eq!(Json::Text("x".to_string()).text(), Some(&"x".to_string()));
    assert_eq!(Json::Null.text(), None);
    assert_eq!(Json::Array(Vec::new()).member("k"), None);
}

#[test]
fn names_of_control_surfaces_are_refused() {
    assert!(names_device(&"AirPods".to_string()));
    assert!(!names_device(&"Audio Controls".to_string()));
    assert!(names_device(&"Audio Controls 2".to_string()));
    assert!(names_device(&"audio controls".to_string()));
    assert!(!names_device(&"USB Controller".to_string()));
    assert!(!names_device(&"Controller".to_string()));
    assert!(!names_device(&"XControllerY".to_string()));
    assert!(names_device(&"controller".to_string()));
    assert!(names_device(&"".to_string()));
}

#[test]
fn accept_item_reads_the_display_name() {
    assert_eq!(accept_item(&item("AirPods")), Some(&"AirPods".to_string()));
    assert_eq!(accept_item(&item("Audio Controls")), None);
    assert_eq!(accept_item(&item("Hub Controller")), None);
    assert_eq!(accept_item(&Json::Object(vec![("_name".to_string(), Json::Number)])), None);
    assert_eq!(accept_item(&Json::Object(Vec::new())), None);
    assert_eq!(accept_item(&Json::Text("AirPods".to_string())), None);
    let valid_looking = Json::Object(vec![
        ("_name".to_string(), Json::Text("Audio Controls".to_string())),
        ("coreaudio_device_output".to_string(), Json::Number),
    ]);
    assert_eq!(accept_item(&valid_looking), None);
}

#[test]
fn classify_reads_numerals() {
    assert_eq!(classify("0"), Identifier::Index(0));
    assert_eq!(classify("42"), Identifier::Index(42));
    assert_eq!(classify("+42"), Identifier::Index(42));
    assert_eq!(classify("007"), Identifier::Index(7));
    assert_eq!(classify("18446744073709551615"), Identifier::Index(u64::MAX));
    assert_eq!(classify("18446744073709551616"), Identifier::Beyond);
    assert_eq!(classify("99999999999999999999999999"), Identifier::Beyond);
    assert_eq!(classify(""), Identifier::Fragment);
    assert_eq!(classify("+"), Identifier::Fragment);
    assert_eq!(classify("-1"), Identifier::Fragment);
    assert_eq!(classify("1a"), Identifier::Fragment);
    assert_eq!(classify(" 1"), Identifier::Fragment);
    assert_eq!(classify("1_000"), Identifier::Fragment);
    assert_eq!(classify("++1"), Identifier::Fragment);
    assert_eq!(classify("air"), Identifier::Fragment);
    assert_eq!(classify("\u{0661}"), Identifier::Fragment);
}

#[test]
fn fragment_hit_looks_in_both_keys() {
    assert!(fragment_hit("airpods", "device_0", "pod"));
    assert!(fragment_hit("airpods", "device_0", "_0"));
    assert!(fragment_hit("airpods", "device_0", ""));
    assert!(!fragment_hit("airpods", "device_0", "Pod"));
    assert!(!fragment_hit("airpods", "device_0", "airpodsx"));
    assert!(!fragment_hit("", "", "a"));
}

#[test]
fn first_hit_keeps_the_order_of_the_keys() {
    let keys = vec![
        ("speakers".to_string(), "device_0".to_string()),
        ("usb headset".to_string(), "device_1".to_string()),
        ("headset two".to_string(), "device_2".to_string()),
    ];
    assert_eq!(first_hit(&keys, "headset"), Some(1));
    assert_eq!(first_hit(&keys, "two"), Some(2));
    assert_eq!(first_hit(&keys, "device_"), Some(0));
    assert_eq!(first_hit(&keys, ""), Some(0));
    assert_eq!(first_hit(&keys, "Headset"), None);
    assert_eq!(first_hit(&Vec::new(), ""), None);
}
