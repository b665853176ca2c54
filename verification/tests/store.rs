use xpm::desktop::PlasmoidInfo;
use xpm::firmware::list_firmware;
use xpm::json::{Json, Member};
use xpm::store::{
    fetch_store_versions, parse_plasmoid_json, plasmoid_from_json, plasmoid_info, plasmoid_rows,
    version_is_newer, version_numbers, versions_in, Metadata,
};

fn by_std(store_version: &str, current_version: &str) -> bool {
    let store_parts: Vec<u32> = store_version
        .split(|c: char| !c.is_ascii_digit())
        .filter_map(|s| s.parse().ok())
        .collect();
    let current_parts: Vec<u32> = current_version
        .split(|c: char| !c.is_ascii_digit())
        .filter_map(|s| s.parse().ok())
        .collect();
    for i in 0..store_parts.len().max(current_parts.len()) {
        let store_part = store_parts.get(i).copied().unwrap_or(0);
        let current_part = current_parts.get(i).copied().unwrap_or(0);
        if store_part > current_part {
            return true;
        } else if store_part < current_part {
            return false;
        }
    }
    false
}

const VERSIONS: [&str; 18] = [
    "",
    "1",
    "1.0",
    "1.0.0",
    "1.0.1",
    "1.1",
    "2",
    "v2.0",
    "2.0-beta3",
    "10.0",
    "9.9.9",
    "unknown",
    "1..2",
    "007",
    "4294967295",
    "4294967296.5",
    "1.99999999999999999999.3",
    "٣.1",
];

#[test]
fn newer_versions_are_told_by_their_numbers() {
    assert!(version_is_newer("1.1", "1.0"));
    assert!(!version_is_newer("1.0", "1.1"));
    assert!(!version_is_newer("1.0", "1.0"));
    assert!(version_is_newer("1.0.1", "1.0"));
    assert!(!version_is_newer("1.0", "1.0.0"));
    assert!(version_is_newer("10.0", "9.9"));
    assert!(version_is_newer("v2", "1.5"));
    assert!(version_is_newer("1", "unknown"));
    assert!(!version_is_newer("unknown", "unknown"));
    assert!(!version_is_newer("", ""));
}

#[test]
fn numbers_too_long_for_32_bits_are_passed_over() {
    assert_eq!(version_numbers("1.99999999999999999999.3"), vec![1, 3]);
    assert_eq!(version_numbers("4294967295"), vec![4294967295]);
    assert_eq!(version_numbers("4294967296"), Vec::<u32>::new());
    assert_eq!(version_numbers("a1b22c333"), vec![1, 22, 333]);
    assert_eq!(version_numbers("007"), vec![7]);
    assert_eq!(version_numbers(""), Vec::<u32>::new());
}

#[test]
fn newer_agrees_with_split_and_parse() {
    for a in VERSIONS {
        for b in VERSIONS {
            assert_eq!(version_is_newer(a, b), by_std(a, b), "{:?} against {:?}", a, b);
        }
    }
}

#[test]
fn the_store_lists_names_and_versions() {
    let answer = r#"{"ocs": {"status": "ok", "data": [
        {"name": "Clock", "version": "1.2", "id": 7},
        {"name": "", "version": "3"},
        {"name": "NoVersion"},
        {"name": "Weather", "version": ""},
        {"name": 5, "version": "1"},
        "stray",
        {"version": "2.0", "name": "Notes"}
    ]}}"#;
    let versions = fetch_store_versions(Some(answer));
    assert_eq!(
        versions,
        vec![
            (String::from("Clock"), String::from("1.2")),
            (String::from("Notes"), String::from("2.0")),
        ]
    );
}

#[test]
fn an_answer_of_another_shape_lists_nothing() {
    assert!(fetch_store_versions(None).is_empty());
    assert!(fetch_store_versions(Some("")).is_empty());
    assert!(fetch_store_versions(Some("not json")).is_empty());
    assert!(fetch_store_versions(Some("{}")).is_empty());
    assert!(fetch_store_versions(Some(r#"{"ocs": 1}"#)).is_empty());
    assert!(fetch_store_versions(Some(r#"{"ocs": {"data": {"name": "x", "version": "1"}}}"#)).is_empty());
    assert!(fetch_store_versions(Some(r#"[{"name": "x", "version": "1"}]"#)).is_empty());
    assert!(fetch_store_versions(Some(r#"{"ocs": {"data": []}} trailing"#)).is_empty());
}

fn object(members: Vec<(&str, Json)>) -> Json {
    Json::Object(
        members.into_iter().map(|(name, value)| Member { name: String::from(name), value }).collect(),
    )
}

fn text(s: &str) -> Json {
    Json::Text(String::from(s))
}

#[test]
fn versions_are_read_from_a_document() {
    let document = object(vec![(
        "ocs",
        object(vec![(
            "data",
            Json::List(vec![
                object(vec![("name", text("A")), ("version", text("1"))]),
                object(vec![("name", text("B")), ("version", Json::Number(String::from("2")))]),
                Json::Null,
            ]),
        )]),
    )]);
    assert_eq!(versions_in(&document), vec![(String::from("A"), String::from("1"))]);
    assert!(versions_in(&Json::Bool(true)).is_empty());
}

#[test]
fn json_values_answer_by_kind() {
    let document = object(vec![("a", text("x")), ("b", Json::List(vec![Json::Null]))]);
    assert_eq!(document.get("a").and_then(|v| v.as_str()), Some("x"));
    assert!(document.get("c").is_none());
    assert_eq!(document.get("b").and_then(|v| v.as_array()).map(|v| v.len()), Some(1));
    assert!(document.get("a").unwrap().as_array().is_none());
    assert!(document.get("b").unwrap().as_str().is_none());
    assert!(text("x").get("a").is_none());
    assert_eq!(document.text_or("a", "d"), "x");
    assert_eq!(document.text_or("b", "d"), "d");
    assert_eq!(document.text_or("z", "d"), "d");
}

fn fields(info: &PlasmoidInfo) -> (String, String, String, String) {
    (info.id.clone(), info.name.clone(), info.version.clone(), info.description.clone())
}

#[test]
fn a_widget_is_read_from_its_json() {
    let content = r#"{"KPlugin": {"Id": "org.kde.clock", "Name": "Clock", "Version": "2.1", "Description": "Shows the time"}, "X": 1}"#;
    assert_eq!(
        fields(&parse_plasmoid_json(Some(content))),
        (
            String::from("org.kde.clock"),
            String::from("Clock"),
            String::from("2.1"),
            String::from("Shows the time")
        )
    );
    let partial = r#"{"KPlugin": {"Name": 3}}"#;
    assert_eq!(
        fields(&parse_plasmoid_json(Some(partial))),
        (String::new(), String::from("Unknown"), String::from("unknown"), String::new())
    );
    for content in [None, Some(""), Some("{}"), Some("[1]"), Some("{\"KPlugin\"")] {
        assert_eq!(
            fields(&parse_plasmoid_json(content)),
            (String::new(), String::from("Unknown"), String::from("unknown"), String::new())
        );
    }
    let odd = object(vec![("KPlugin", text("no object"))]);
    assert_eq!(
        fields(&plasmoid_from_json(&odd)),
        (String::new(), String::from("Unknown"), String::from("unknown"), String::new())
    );
}

#[test]
fn a_widget_is_known_by_what_its_directory_holds() {
    let json = plasmoid_info(Metadata::Json { content: Some(r#"{"KPlugin": {"Id": "a", "Name": "A"}}"#) });
    assert_eq!(fields(&json), (String::from("a"), String::from("A"), String::from("unknown"), String::new()));
    let desktop = plasmoid_info(Metadata::Desktop {
        content: Some("Name=B\nX-KDE-PluginInfo-Name=b\nX-KDE-PluginInfo-Version=3\nComment=bee\n"),
    });
    assert_eq!(fields(&desktop), (String::from("b"), String::from("B"), String::from("3"), String::from("bee")));
    let missing = plasmoid_info(Metadata::Missing { directory: "org.kde.thing" });
    assert_eq!(
        fields(&missing),
        (String::from("org.kde.thing"), String::from("org.kde.thing"), String::from("unknown"), String::new())
    );
}

fn widget(name: &str, version: &str) -> PlasmoidInfo {
    PlasmoidInfo {
        id: String::from("org.kde.widget"),
        name: String::from(name),
        version: String::from(version),
        description: String::from("A widget"),
    }
}

#[test]
fn a_users_widget_with_a_newer_version_in_the_store_has_an_update() {
    let store = vec![
        (String::from("Other"), String::from("9")),
        (String::from("Big Clock"), String::from("1.5")),
        (String::from("Big Clock"), String::from("0.1")),
    ];
    let (row, update) =
        plasmoid_rows(&widget("Big Clock", "1.2"), "/home/u/.local/share/plasma/plasmoids", &store);
    assert_eq!(row.name, "org.kde.widget");
    assert_eq!(row.display_name, "Big Clock");
    assert_eq!(row.version, "1.2");
    assert_eq!(row.description, "A widget");
    assert_eq!(row.repository, "kde-store");
    assert_eq!(row.backend, 3);
    assert!(row.installed);
    assert!(row.has_update);
    assert_eq!(row.url, "https://store.kde.org/search?search=Big+Clock");
    let update = update.unwrap();
    assert_eq!(update.version, "1.2 → 1.5");
    assert_eq!(update.name, "org.kde.widget");
    assert!(update.has_update);
    assert_eq!(update.url, "https://store.kde.org/search?search=Big+Clock");
    assert_eq!(update.repository, "kde-store");
}

#[test]
fn other_widgets_have_no_update() {
    let store = vec![(String::from("Clock"), String::from("2.0")), (String::from(""), String::from("9"))];
    let user = "/home/u/.local/share/plasma/plasmoids";
    let (row, update) = plasmoid_rows(&widget("Clock", "1.0"), "/usr/share/plasma/plasmoids", &store);
    assert_eq!(row.repository, "system");
    assert!(!row.has_update);
    assert!(update.is_none());
    let (row, update) = plasmoid_rows(&widget("Clock", "2.0"), user, &store);
    assert!(!row.has_update);
    assert!(update.is_none());
    let (row, update) = plasmoid_rows(&widget("Unlisted", "1.0"), user, &store);
    assert!(!row.has_update);
    assert!(update.is_none());
    let (row, update) = plasmoid_rows(&widget("", "1.0"), user, &store);
    assert!(!row.has_update);
    assert!(update.is_none());
    assert_eq!(row.url, "https://store.kde.org/search?search=");
}

#[test]
fn firmware_lists_the_devices_that_can_be_updated() {
    let devices = r#"{"Devices": [
        {"Name": "SSD", "Version": "1.0", "Vendor": "Acme", "DeviceId": "abc", "Flags": ["internal", "updatable"]},
        {"Name": "Dock", "DeviceId": "def", "Flags": ["internal"]},
        {"DeviceId": "ghi", "Flags": ["updatable", 1]},
        {"Name": "NoFlags", "DeviceId": "jkl"},
        {"Name": "OddFlags", "DeviceId": "mno", "Flags": "updatable"},
        {"Name": "Mouse", "Version": "2", "Vendor": "", "Flags": ["updatable"]}
    ]}"#;
    let updates = r#"{"Devices": [{"DeviceId": "ghi"}, {"DeviceId": "zzz"}]}"#;
    let rows = list_firmware(Some(devices), Some(updates));
    assert_eq!(rows.len(), 3);
    assert_eq!(rows[0].name, "abc");
    assert_eq!(rows[0].display_name, "SSD");
    assert_eq!(rows[0].version, "1.0");
    assert_eq!(rows[0].description, "Firmware by Acme");
    assert_eq!(rows[0].repository, "fwupd");
    assert_eq!(rows[0].backend, 4);
    assert!(rows[0].installed);
    assert!(!rows[0].has_update);
    assert_eq!(rows[1].name, "ghi");
    assert_eq!(rows[1].display_name, "Unknown Device");
    assert_eq!(rows[1].version, "unknown");
    assert_eq!(rows[1].description, "Firmware device");
    assert!(rows[1].has_update);
    assert_eq!(rows[2].name, "");
    assert_eq!(rows[2].display_name, "Mouse");
    assert_eq!(rows[2].description, "Firmware device");
    assert!(!rows[2].has_update);
}

#[test]
fn firmware_without_reports() {
    let devices = r#"{"Devices": [{"DeviceId": "a", "Flags": ["updatable"]}]}"#;
    assert!(list_firmware(None, None).is_empty());
    assert!(list_firmware(None, Some(devices)).is_empty());
    assert!(list_firmware(Some("nonsense"), Some(devices)).is_empty());
    assert!(list_firmware(Some("{}"), None).is_empty());
    assert!(list_firmware(Some(r#"{"Devices": {}}"#), None).is_empty());
    let rows = list_firmware(Some(devices), None);
    assert_eq!(rows.len(), 1);
    assert!(!rows[0].has_update);
    let rows = list_firmware(Some(devices), Some("nonsense"));
    assert!(!rows[0].has_update);
    let rows = list_firmware(Some(devices), Some(devices));
    assert!(rows[0].has_update);
    let nameless = r#"{"Devices": [{"Flags": ["updatable"]}]}"#;
    let rows = list_firmware(Some(nameless), Some(r#"{"Devices": [{}]}"#));
    assert!(rows[0].has_update);
}
