use minimuxer::codec::{round_trip_flat_dict, round_trip_value};
use minimuxer::provision::{
    dump_blob_path, dump_dir, dump_plist_path, dump_profiles_plan, extract_embedded_plist,
    find_window, profile_matches, remove_provisioning_profiles, select_profiles_to_remove,
    ProfileInfo,
};
use minimuxer::pval::{dict_get, PValue};
use minimuxer::text::{
    contains_sub, first_component, parse_u32_bounded, split_string, strip_file_prefix,
};

fn flat_dict() -> PValue {
    PValue::Dict(vec![
        ("kind".to_string(), PValue::Str("record".to_string())),
        ("count".to_string(), PValue::Int(-42)),
        ("payload".to_string(), PValue::Data(vec![0, 1, 2, 255])),
    ])
}

#[test]
fn encode_then_decode_is_identity_on_flat_dicts() {
    let v = flat_dict();
    let back = round_trip_flat_dict(&v).unwrap();
    match back {
        PValue::Dict(entries) => {
            assert_eq!(entries.len(), 3);
            assert_eq!(entries[0].0, "kind");
            assert!(matches!(&entries[0].1, PValue::Str(s) if s == "record"));
            assert_eq!(entries[1].0, "count");
            assert!(matches!(&entries[1].1, PValue::Int(-42)));
            assert_eq!(entries[2].0, "payload");
            assert!(matches!(&entries[2].1, PValue::Data(d) if d == &vec![0u8, 1, 2, 255]));
        },
        _ => panic!("round trip lost the dictionary"),
    }
}

#[test]
fn encode_then_decode_is_identity_on_nested_values() {
    let v = PValue::Dict(vec![
        ("flags".to_string(), PValue::Bool(true)),
        (
            "list".to_string(),
            PValue::Arr(vec![PValue::Int(1), PValue::Str("two".to_string())]),
        ),
        ("inner".to_string(), PValue::Dict(vec![("k".to_string(), PValue::Data(vec![7, 8]))])),
    ]);
    let back = round_trip_value(&v).unwrap();
    match back {
        PValue::Dict(entries) => {
            assert_eq!(entries.len(), 3);
            assert_eq!(entries[0].0, "flags");
            assert!(matches!(entries[0].1, PValue::Bool(true)));
            assert_eq!(entries[1].0, "list");
            match &entries[1].1 {
                PValue::Arr(items) => {
                    assert_eq!(items.len(), 2);
                    assert!(matches!(items[0], PValue::Int(1)));
                    assert!(matches!(&items[1], PValue::Str(s) if s == "two"));
                }
                _ => panic!("the array came back as something else"),
            }
            match &entries[2].1 {
                PValue::Dict(inner) => {
                    assert_eq!(inner.len(), 1);
                    assert_eq!(inner[0].0, "k");
                    assert!(matches!(&inner[0].1, PValue::Data(d) if d == &vec![7u8, 8]));
                }
                _ => panic!("the nested dictionary came back as something else"),
            }
        }
        _ => panic!("round trip lost the dictionary"),
    }
}

#[test]
fn dict_get_returns_the_first_match() {
    let entries = vec![
        ("a".to_string(), PValue::Int(1)),
        ("b".to_string(), PValue::Int(2)),
        ("a".to_string(), PValue::Int(3)),
    ];
    assert!(matches!(dict_get(&entries, "a"), Some(PValue::Int(1))));
    assert!(matches!(dict_get(&entries, "b"), Some(PValue::Int(2))));
    assert!(dict_get(&entries, "c").is_none());
}

#[test]
fn parse_bounded_matches_the_standard_parser() {
    assert_eq!(parse_u32_bounded("16", 255), Some(16));
    assert_eq!(parse_u32_bounded("+16", 255), Some(16));
    assert_eq!(parse_u32_bounded("016", 255), Some(16));
    assert_eq!(parse_u32_bounded("255", 255), Some(255));
    assert_eq!(parse_u32_bounded("256", 255), None);
    assert_eq!(parse_u32_bounded("", 255), None);
    assert_eq!(parse_u32_bounded("+", 255), None);
    assert_eq!(parse_u32_bounded("1a", 255), None);
    assert_eq!(parse_u32_bounded("-1", 255), None);
    assert_eq!(parse_u32_bounded("4294967295", u32::MAX), Some(u32::MAX));
    assert_eq!(parse_u32_bounded("4294967296", u32::MAX), None);
}

#[test]
fn first_component_cuts_at_the_separator() {
    assert_eq!(first_component("16.3", '.'), "16");
    assert_eq!(first_component("17", '.'), "17");
    assert_eq!(first_component("", '.'), "");
    assert_eq!(first_component(".5", '.'), "");
}

#[test]
fn split_string_matches_the_standard_splitter() {
    let own: Vec<String> = split_string("a,,bc", ',');
    let std: Vec<&str> = "a,,bc".split(',').collect();
    assert_eq!(own, std);
    assert_eq!(split_string("", ','), vec!["".to_string()]);
    assert_eq!(split_string("x,", ','), vec!["x".to_string(), "".to_string()]);
}

#[test]
fn contains_sub_matches_the_standard_contains() {
    assert!(contains_sub("com.example.app", "example"));
    assert!(contains_sub("abc", ""));
    assert!(!contains_sub("abc", "abcd"));
    assert!(!contains_sub("com.x", "com.y"));
}

#[test]
fn strip_file_prefix_drops_the_uri_scheme() {
    assert_eq!(strip_file_prefix("file:///docs"), "/docs");
}

#[test]
fn find_window_returns_the_first_occurrence() {
    assert_eq!(find_window(b"xxabcyyabc", b"abc"), Some(2));
    assert_eq!(find_window(b"xxab", b"abc"), None);
    assert_eq!(find_window(b"abc", b"abc"), Some(0));
}

fn profile_blob(name: &str, uuid: &str) -> Vec<u8> {
    let mut xml = Vec::new();
    xml.extend_from_slice(b"<?xml version=\"1.0\"?><plist version=\"1.0\"><dict>");
    xml.extend_from_slice(
        format!("<key>Name</key><string>{name}</string><key>UUID</key><string>{uuid}</string>")
            .as_bytes(),
    );
    xml.extend_from_slice(b"</dict></plist>");
    let mut blob = vec![0x30, 0x82, 0x01, 0x00];
    blob.extend_from_slice(&xml);
    blob.extend_from_slice(&[0xff, 0xfe, 0x00]);
    blob
}

#[test]
fn embedded_plist_is_cut_between_the_two_windows() {
    let blob = profile_blob("My App", "UUID-1");
    let xml = extract_embedded_plist(&blob).unwrap();
    assert!(xml.starts_with(b"<?xml version="));
    assert!(xml.ends_with(b"</plist>"));
    let value = plist::Value::from_reader(std::io::Cursor::new(&xml)).unwrap();
    let dict = value.as_dictionary().unwrap();
    assert_eq!(dict.get("Name").unwrap().as_string().unwrap(), "My App");
    assert_eq!(dict.get("UUID").unwrap().as_string().unwrap(), "UUID-1");
}

#[test]
fn extract_rejects_blobs_without_the_windows() {
    assert!(extract_embedded_plist(b"no plist here").is_none());
    assert!(extract_embedded_plist(b"</plist> comes before <?xml version=").is_none());
}

#[test]
fn profile_matching_uses_comma_separated_substrings() {
    assert!(profile_matches("com.example.app", "example"));
    assert!(profile_matches("com.example.app", "nope,example"));
    assert!(!profile_matches("com.example.app", "nope,other"));
    assert!(!profile_matches("com.example.app", ""));
    assert!(!profile_matches("com.example.app", ","));
    // Substring matching can over-match by design.
    assert!(profile_matches("com.xenon", "com.x"));
}

#[test]
fn empty_id_list_removes_nothing() {
    let infos = vec![
        ProfileInfo { name: "com.a".to_string(), uuid: "U1".to_string() },
        ProfileInfo { name: "com.b".to_string(), uuid: "U2".to_string() },
    ];
    assert!(select_profiles_to_remove(&infos, "").is_empty());
    let blobs = vec![profile_blob("com.a", "U1"), profile_blob("com.b", "U2")];
    assert!(remove_provisioning_profiles(&blobs, "").is_empty());
}

#[test]
fn matching_profiles_are_selected_by_uuid() {
    let infos = vec![
        ProfileInfo { name: "com.alpha".to_string(), uuid: "U1".to_string() },
        ProfileInfo { name: "com.beta".to_string(), uuid: "U2".to_string() },
        ProfileInfo { name: "org.alpha".to_string(), uuid: "U3".to_string() },
    ];
    assert_eq!(select_profiles_to_remove(&infos, "alpha"), vec!["U1", "U3"]);
    assert_eq!(select_profiles_to_remove(&infos, "beta,org"), vec!["U2", "U3"]);
    let blobs = vec![profile_blob("com.alpha", "U1"), profile_blob("com.beta", "U2")];
    assert_eq!(remove_provisioning_profiles(&blobs, "alpha"), vec!["U1"]);
}

#[test]
fn dump_plan_pairs_each_blob_with_its_embedded_plist() {
    let blobs = vec![profile_blob("com.a", "U1"), b"garbage".to_vec()];
    let plan = dump_profiles_plan(&blobs);
    assert_eq!(plan.len(), 1);
    assert_eq!(plan[0].uuid, "U1");
    assert_eq!(plan[0].blob, blobs[0]);
    assert!(plan[0].xml.starts_with(b"<?xml version="));
}

#[test]
fn dump_paths_are_built_from_uuid_and_timestamp() {
    let dir = dump_dir("/docs", "2024-01-01_01-02-03-AM");
    assert_eq!(dir, "/docs/ProfileDump/2024-01-01_01-02-03-AM");
    assert_eq!(dump_blob_path(&dir, "U1"), "/docs/ProfileDump/2024-01-01_01-02-03-AM/U1.mobileprovision");
    assert_eq!(dump_plist_path(&dir, "U1"), "/docs/ProfileDump/2024-01-01_01-02-03-AM/U1.plist");
}
