use transmission_rpc_types::fields::{TorrentAction, TorrentGetField};
use transmission_rpc_types::json::{parse_json, Json};
use transmission_rpc_types::request::{Id, RpcRequest, TorrentAddArgs};

#[test]
fn no_argument_methods_exact_wire() {
    assert_eq!(RpcRequest::session_get().to_json(), "{\"method\":\"session-get\"}");
    assert_eq!(RpcRequest::session_stats().to_json(), "{\"method\":\"session-stats\"}");
    assert_eq!(RpcRequest::session_close().to_json(), "{\"method\":\"session-close\"}");
    assert_eq!(
        RpcRequest::blocklist_update().to_json(),
        "{\"method\":\"blocklist-update\"}"
    );
    assert_eq!(RpcRequest::port_test().to_json(), "{\"method\":\"port-test\"}");
}

#[test]
fn free_space_wire() {
    let r = RpcRequest::free_space(String::from("/downloads"));
    assert_eq!(
        r.to_json(),
        "{\"method\":\"free-space\",\"arguments\":{\"path\":\"/downloads\"}}"
    );
}

#[test]
fn torrent_get_explicit_fields_keep_caller_order() {
    let r = RpcRequest::torrent_get(
        Some(vec![
            TorrentGetField::Eta,
            TorrentGetField::Name,
            TorrentGetField::Id,
        ]),
        None,
    );
    assert_eq!(
        r.to_json(),
        "{\"method\":\"torrent-get\",\"arguments\":{\"fields\":[\"eta\",\"name\",\"id\"]}}"
    );
}

#[test]
fn torrent_get_default_fields_cover_catalog_in_order() {
    let r = RpcRequest::torrent_get(None, None);
    let parsed = parse_json(&r.to_json()).expect("request text parses");
    let members = match parsed {
        Json::Object(ms) => ms,
        _ => panic!("request is an object"),
    };
    let args = members
        .iter()
        .find(|(k, _)| k == "arguments")
        .map(|(_, v)| v)
        .expect("arguments present");
    let fields = match args {
        Json::Object(ms) => match ms.iter().find(|(k, _)| k == "fields").map(|(_, v)| v) {
            Some(Json::List(items)) => items,
            _ => panic!("fields is a list"),
        },
        _ => panic!("arguments is an object"),
    };
    assert_eq!(fields.len(), 76);
    assert_eq!(fields[0], Json::Text(String::from("activityDate")));
    assert_eq!(fields[75], Json::Text(String::from("webseedsSendingToUs")));
}

#[test]
fn torrent_get_with_ids() {
    let r = RpcRequest::torrent_get(
        Some(vec![TorrentGetField::Id]),
        Some(vec![Id::Id(1), Id::Hash(String::from("deadbeef"))]),
    );
    assert_eq!(
        r.to_json(),
        "{\"method\":\"torrent-get\",\"arguments\":{\"fields\":[\"id\"],\"ids\":[1,\"deadbeef\"]}}"
    );
}

#[test]
fn identifier_list_serializes_bare_scalars() {
    let r = RpcRequest::torrent_remove(vec![Id::Id(7), Id::Hash(String::from("abc123"))], true);
    let text = r.to_json();
    assert!(text.contains("\"ids\":[7,\"abc123\"]"));
    assert_eq!(
        text,
        "{\"method\":\"torrent-remove\",\"arguments\":{\"ids\":[7,\"abc123\"],\"delete-local-data\":true}}"
    );
}

#[test]
fn delete_local_data_is_hyphenated() {
    let r = RpcRequest::torrent_remove(vec![Id::Id(7)], true);
    let text = r.to_json();
    assert!(text.contains("\"delete-local-data\":true"));
    assert!(!text.contains("delete_local_data"));
}

#[test]
fn torrent_action_selects_method_name() {
    let cases = [
        (TorrentAction::Start, "torrent-start"),
        (TorrentAction::Stop, "torrent-stop"),
        (TorrentAction::StartNow, "torrent-start-now"),
        (TorrentAction::Verify, "torrent-verify"),
        (TorrentAction::Reannounce, "torrent-reannounce"),
    ];
    for (action, name) in cases {
        let r = RpcRequest::torrent_action(action, vec![Id::Id(3)]);
        assert_eq!(
            r.to_json(),
            format!("{{\"method\":\"{}\",\"arguments\":{{\"ids\":[3]}}}}", name)
        );
    }
}

#[test]
fn torrent_set_location_with_move() {
    let r = RpcRequest::torrent_set_location(vec![Id::Id(2)], String::from("/new"), Some(false));
    assert_eq!(
        r.to_json(),
        "{\"method\":\"torrent-set-location\",\"arguments\":{\"ids\":[2],\"location\":\"/new\",\"move\":false}}"
    );
}

#[test]
fn torrent_set_location_without_move_omits_member() {
    let r = RpcRequest::torrent_set_location(vec![Id::Id(2)], String::from("/new"), None);
    assert_eq!(
        r.to_json(),
        "{\"method\":\"torrent-set-location\",\"arguments\":{\"ids\":[2],\"location\":\"/new\"}}"
    );
}

#[test]
fn torrent_rename_path_wire() {
    let r = RpcRequest::torrent_rename_path(
        vec![Id::Id(9)],
        String::from("old/name"),
        String::from("new-name"),
    );
    assert_eq!(
        r.to_json(),
        "{\"method\":\"torrent-rename-path\",\"arguments\":{\"ids\":[9],\"path\":\"old/name\",\"name\":\"new-name\"}}"
    );
}

#[test]
fn torrent_add_default_is_empty_object() {
    let r = RpcRequest::torrent_add(TorrentAddArgs::default());
    assert_eq!(r.to_json(), "{\"method\":\"torrent-add\",\"arguments\":{}}");
}

#[test]
fn torrent_add_renamed_members() {
    let mut args = TorrentAddArgs::default();
    args.download_dir = Some(String::from("/dl"));
    args.filename = Some(String::from("a.torrent"));
    args.paused = Some(true);
    args.peer_limit = Some(40);
    args.bandwidth_priority = Some(-1);
    args.files_wanted = Some(vec![0, 2]);
    args.priority_high = Some(vec![1]);
    let r = RpcRequest::torrent_add(args);
    assert_eq!(
        r.to_json(),
        "{\"method\":\"torrent-add\",\"arguments\":{\"download-dir\":\"/dl\",\"filename\":\"a.torrent\",\"paused\":true,\"peer-limit\":40,\"bandwidthPriority\":-1,\"files-wanted\":[0,2],\"priority-high\":[1]}}"
    );
}

#[test]
fn string_values_are_escaped() {
    let r = RpcRequest::free_space(String::from("/a\"b\\c\nd"));
    assert_eq!(
        r.to_json(),
        "{\"method\":\"free-space\",\"arguments\":{\"path\":\"/a\\\"b\\\\c\\nd\"}}"
    );
}

#[test]
fn control_characters_use_hex_escapes() {
    let r = RpcRequest::free_space(String::from("\u{1}\u{1f}"));
    assert_eq!(
        r.to_json(),
        "{\"method\":\"free-space\",\"arguments\":{\"path\":\"\\u0001\\u001f\"}}"
    );
}

#[test]
fn identifier_extremes_serialize_exact_digits() {
    let r = RpcRequest::torrent_action(
        TorrentAction::Start,
        vec![Id::Id(i64::MIN), Id::Id(i64::MAX), Id::Id(0)],
    );
    assert_eq!(
        r.to_json(),
        "{\"method\":\"torrent-start\",\"arguments\":{\"ids\":[-9223372036854775808,9223372036854775807,0]}}"
    );
}

#[test]
fn catalog_has_every_field_once() {
    let all = TorrentGetField::all();
    assert_eq!(all.len(), 76);
    let mut names: Vec<String> = all.iter().map(|f| f.to_str()).collect();
    names.sort();
    names.dedup();
    assert_eq!(names.len(), 76);
}

#[test]
fn irregular_wire_names_are_hard_coded() {
    assert_eq!(TorrentGetField::Filecount.to_str(), "file-count");
    assert_eq!(TorrentGetField::Peerlimit.to_str(), "peer-limit");
    assert_eq!(TorrentGetField::HashString.to_str(), "hashString");
    assert_eq!(TorrentGetField::Bandwidthpriority.to_str(), "bandwidthPriority");
    assert_eq!(TorrentGetField::Activitydate.to_str(), "activityDate");
}

#[test]
fn torrent_add_default_has_no_content_source() {
    let args = TorrentAddArgs::default();
    assert!(args.filename.is_none());
    assert!(args.metainfo.is_none());
    assert!(args.cookies.is_none());
    assert!(args.files_unwanted.is_none());
    assert!(args.priority_low.is_none());
    assert!(args.priority_normal.is_none());
}

#[test]
fn torrent_get_empty_field_list_serializes_empty() {
    let r = RpcRequest::torrent_get(Some(vec![]), None);
    assert_eq!(
        r.to_json(),
        "{\"method\":\"torrent-get\",\"arguments\":{\"fields\":[]}}"
    );
}

#[test]
fn torrent_add_with_metainfo_and_cookies() {
    let mut args = TorrentAddArgs::default();
    args.cookies = Some(String::from("k=v"));
    args.metainfo = Some(String::from("ZGF0YQ=="));
    args.files_unwanted = Some(vec![3]);
    args.priority_low = Some(vec![]);
    args.priority_normal = Some(vec![0]);
    let r = RpcRequest::torrent_add(args);
    assert_eq!(
        r.to_json(),
        "{\"method\":\"torrent-add\",\"arguments\":{\"cookies\":\"k=v\",\"metainfo\":\"ZGF0YQ==\",\"files-unwanted\":[3],\"priority-low\":[],\"priority-normal\":[0]}}"
    );
}
