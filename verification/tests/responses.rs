use transmission_rpc_types::json::{parse_json, Json, WireNum};
use transmission_rpc_types::response::{
    BlocklistUpdate, FreeSpace, Nothing, PortTest, RpcResponse, RpcResponseArgument, SessionGet,
    SessionStats, Torrent, TorrentAdded, TorrentRenamePath, Torrents,
};

fn parse(text: &str) -> Json {
    parse_json(text).expect("reply text parses")
}

#[test]
fn is_success_only_for_exact_literal() {
    let ok = parse("{\"result\":\"success\",\"arguments\":{}}");
    let r = RpcResponse::<Nothing>::from_json(&ok).expect("decodes");
    assert!(r.is_ok());
    for bad in ["", "Success", "duplicate torrent", "success ", "SUCCESS"] {
        let text = format!("{{\"result\":\"{}\",\"arguments\":{{}}}}", bad);
        let j = parse(&text);
        let r = RpcResponse::<Nothing>::from_json(&j).expect("decodes");
        assert!(!r.is_ok());
        assert_eq!(r.result, bad);
    }
}

#[test]
fn failure_string_is_preserved_verbatim() {
    let j = parse("{\"result\":\"no such torrent\",\"arguments\":{}}");
    let r = RpcResponse::<Nothing>::from_json(&j).expect("decodes");
    assert!(!r.is_ok());
    assert_eq!(r.result, "no such torrent");
}

#[test]
fn envelope_requires_result_and_arguments() {
    let no_result = parse("{\"arguments\":{}}");
    assert!(RpcResponse::<Nothing>::from_json(&no_result).is_err());
    let no_args = parse("{\"result\":\"success\"}");
    assert!(RpcResponse::<Nothing>::from_json(&no_args).is_err());
    let bad_result = parse("{\"result\":7,\"arguments\":{}}");
    assert!(RpcResponse::<Nothing>::from_json(&bad_result).is_err());
}

#[test]
fn decode_session_get() {
    let j = parse(
        "{\"result\":\"success\",\"arguments\":{\
         \"alt-speed-down\":50,\"alt-speed-enabled\":false,\"alt-speed-up\":50,\
         \"blocklist-enabled\":true,\"download-dir\":\"/dl\",\"encryption\":\"preferred\",\
         \"rpc-version-minimum\":1,\"rpc-version\":17,\"version\":\"4.0.5\"}}",
    );
    let r = RpcResponse::<SessionGet>::from_json(&j).expect("decodes");
    assert!(r.is_ok());
    let s = r.arguments;
    assert_eq!(s.alt_speed_down, 50);
    assert!(!s.alt_speed_enabled);
    assert!(s.blocklist_enabled);
    assert_eq!(s.download_dir, "/dl");
    assert_eq!(s.encryption, "preferred");
    assert_eq!(s.rpc_version_minimum, 1);
    assert_eq!(s.rpc_version, 17);
    assert_eq!(s.version, "4.0.5");
}

#[test]
fn session_get_missing_required_member_is_error() {
    let j = parse("{\"result\":\"success\",\"arguments\":{\"alt-speed-down\":50}}");
    assert!(RpcResponse::<SessionGet>::from_json(&j).is_err());
}

#[test]
fn decode_session_stats_with_nested_stats() {
    let j = parse(
        "{\"result\":\"success\",\"arguments\":{\
         \"torrentCount\":3,\"activeTorrentCount\":1,\"pausedTorrentCount\":2,\
         \"downloadSpeed\":1024,\"uploadSpeed\":512,\
         \"current-stats\":{\"filesAdded\":1,\"downloadedBytes\":10,\"uploadedBytes\":20,\"secondsActive\":30},\
         \"cumulative-stats\":{\"filesAdded\":9,\"downloadedBytes\":90,\"uploadedBytes\":80,\"secondsActive\":70,\"sessionCount\":5}}}",
    );
    let r = RpcResponse::<SessionStats>::from_json(&j).expect("decodes");
    let s = r.arguments;
    assert_eq!(s.torrent_count, 3);
    assert_eq!(s.download_speed, 1024);
    assert_eq!(s.current_stats.files_added, 1);
    assert_eq!(s.current_stats.session_count, None);
    assert_eq!(s.cumulative_stats.session_count, Some(5));
    assert_eq!(s.cumulative_stats.seconds_active, 70);
}

#[test]
fn decode_blocklist_update_without_size() {
    let j = parse("{\"result\":\"success\",\"arguments\":{}}");
    let r = RpcResponse::<BlocklistUpdate>::from_json(&j).expect("decodes");
    assert_eq!(r.arguments.blocklist_size, None);
    let j2 = parse("{\"result\":\"success\",\"arguments\":{\"blocklist-size\":393006}}");
    let r2 = RpcResponse::<BlocklistUpdate>::from_json(&j2).expect("decodes");
    assert_eq!(r2.arguments.blocklist_size, Some(393006));
}

#[test]
fn decode_free_space_and_port_test() {
    let j = parse("{\"result\":\"success\",\"arguments\":{\"path\":\"/dl\",\"size-bytes\":1048576}}");
    let r = RpcResponse::<FreeSpace>::from_json(&j).expect("decodes");
    assert_eq!(r.arguments.path, "/dl");
    assert_eq!(r.arguments.size_bytes, 1048576);
    let j2 = parse("{\"result\":\"success\",\"arguments\":{\"port-is-open\":true}}");
    let r2 = RpcResponse::<PortTest>::from_json(&j2).expect("decodes");
    assert!(r2.arguments.port_is_open);
}

#[test]
fn torrent_added_null_is_absent_not_error() {
    let j = parse("{\"result\":\"success\",\"arguments\":{\"torrent-added\": null}}");
    let r = RpcResponse::<TorrentAdded>::from_json(&j).expect("decodes");
    assert!(r.is_ok());
    assert!(r.arguments.torrent_added.is_none());
}

#[test]
fn torrent_added_present_decodes() {
    let j = parse(
        "{\"result\":\"success\",\"arguments\":{\"torrent-added\":{\"id\":5,\"name\":\"linux.iso\",\"hashString\":\"ff00\"}}}",
    );
    let r = RpcResponse::<TorrentAdded>::from_json(&j).expect("decodes");
    let t = r.arguments.torrent_added.expect("torrent present");
    assert_eq!(t.id, Some(5));
    assert_eq!(t.name.as_deref(), Some("linux.iso"));
    assert_eq!(t.hash_string.as_deref(), Some("ff00"));
    assert_eq!(t.eta, None);
}

#[test]
fn missing_optional_member_decodes_absent() {
    let j = parse(
        "{\"result\":\"success\",\"arguments\":{\"torrents\":[{\"id\":1,\"name\":\"a\"}]}}",
    );
    let r = RpcResponse::<Torrents<Torrent>>::from_json(&j).expect("decodes");
    let t = &r.arguments.torrents[0];
    assert_eq!(t.id, Some(1));
    assert_eq!(t.eta, None);
    assert_eq!(t.activity_date, None);
    assert_eq!(t.upload_ratio, None);
    assert!(t.files.is_none());
    assert!(t.download_limited.is_none());
}

#[test]
fn null_optional_member_decodes_absent() {
    let j = parse(
        "{\"result\":\"success\",\"arguments\":{\"torrents\":[{\"id\":1,\"eta\":null}]}}",
    );
    let r = RpcResponse::<Torrents<Torrent>>::from_json(&j).expect("decodes");
    assert_eq!(r.arguments.torrents[0].eta, None);
}

#[test]
fn member_with_wrong_type_is_decode_error() {
    let j = parse(
        "{\"result\":\"success\",\"arguments\":{\"torrents\":[{\"eta\":\"soon\"}]}}",
    );
    assert!(RpcResponse::<Torrents<Torrent>>::from_json(&j).is_err());
    let j2 = parse(
        "{\"result\":\"success\",\"arguments\":{\"torrents\":[{\"isFinished\":1}]}}",
    );
    assert!(RpcResponse::<Torrents<Torrent>>::from_json(&j2).is_err());
}

#[test]
fn unknown_extra_member_is_ignored() {
    let j = parse(
        "{\"result\":\"success\",\"arguments\":{\"torrents\":[{\"id\":2,\"someFutureField\":{\"x\":[1,2]},\"another\":null}]}}",
    );
    let r = RpcResponse::<Torrents<Torrent>>::from_json(&j).expect("decodes");
    assert_eq!(r.arguments.torrents[0].id, Some(2));
}

#[test]
fn decode_torrent_composites() {
    let j = parse(
        "{\"result\":\"success\",\"arguments\":{\"torrents\":[{\
         \"id\":1,\
         \"files\":[{\"length\":100,\"bytesCompleted\":50,\"name\":\"a.bin\"}],\
         \"fileStats\":[{\"bytesCompleted\":50,\"wanted\":true,\"priority\":-1}],\
         \"trackers\":[{\"id\":0,\"announce\":\"http://t.example/announce\"}],\
         \"trackerStats\":[{\"announce\":\"http://t.example/announce\",\"seederCount\":12,\"site_name\":\"example\"}],\
         \"peers\":[{\"address\":\"10.0.0.1\",\"isUTP\":false,\"progress\":0.5,\"port\":51413}],\
         \"peersFrom\":{\"fromDht\":3,\"fromTracker\":7},\
         \"priorities\":[-1,0,1],\
         \"wanted\":[1,0],\
         \"webseeds\":[\"http://seed.example/\"]\
         }]}}",
    );
    let r = RpcResponse::<Torrents<Torrent>>::from_json(&j).expect("decodes");
    let t = &r.arguments.torrents[0];
    let files = t.files.as_ref().expect("files");
    assert_eq!(files.len(), 1);
    assert_eq!(files[0].length, 100);
    assert_eq!(files[0].bytes_completed, 50);
    assert_eq!(files[0].name, "a.bin");
    let fs = t.file_stats.as_ref().expect("fileStats");
    assert!(fs[0].wanted);
    assert_eq!(fs[0].priority, -1);
    let tr = t.trackers.as_ref().expect("trackers");
    assert_eq!(tr[0].id, 0);
    assert_eq!(tr[0].announce, "http://t.example/announce");
    let ts = t.tracker_stats.as_ref().expect("trackerStats");
    assert_eq!(ts[0].seeder_count, Some(12));
    assert_eq!(ts[0].site_name.as_deref(), Some("example"));
    assert_eq!(ts[0].leecher_count, None);
    let peers = t.peers.as_ref().expect("peers");
    assert_eq!(peers[0].address.as_deref(), Some("10.0.0.1"));
    assert_eq!(peers[0].is_utp, Some(false));
    assert_eq!(peers[0].progress, Some(WireNum::Decimal(String::from("0.5"))));
    let pf = t.peers_from.as_ref().expect("peersFrom");
    assert_eq!(pf.from_dht, Some(3));
    assert_eq!(pf.from_cache, None);
    assert_eq!(t.priorities.as_deref(), Some(&[-1i8, 0, 1][..]));
    assert_eq!(t.wanted.as_deref(), Some(&[1i8, 0][..]));
    assert_eq!(
        t.webseeds.as_deref(),
        Some(&[String::from("http://seed.example/")][..])
    );
}

#[test]
fn file_missing_required_member_is_error() {
    let j = parse(
        "{\"result\":\"success\",\"arguments\":{\"torrents\":[{\"files\":[{\"length\":1,\"name\":\"x\"}]}]}}",
    );
    assert!(RpcResponse::<Torrents<Torrent>>::from_json(&j).is_err());
}

#[test]
fn file_stat_priority_out_of_range_is_error() {
    let j = parse(
        "{\"result\":\"success\",\"arguments\":{\"torrents\":[{\"fileStats\":[{\"bytesCompleted\":0,\"wanted\":false,\"priority\":300}]}]}}",
    );
    assert!(RpcResponse::<Torrents<Torrent>>::from_json(&j).is_err());
}

#[test]
fn numeric_members_keep_wire_form() {
    let j = parse(
        "{\"result\":\"success\",\"arguments\":{\"torrents\":[{\
         \"percentDone\":0.25,\"metadataPercentComplete\":1,\"uploadRatio\":-1,\
         \"seedRatioLimit\":2.0,\"recheckProgress\":0}]}}",
    );
    let r = RpcResponse::<Torrents<Torrent>>::from_json(&j).expect("decodes");
    let t = &r.arguments.torrents[0];
    assert_eq!(t.percent_done, Some(WireNum::Decimal(String::from("0.25"))));
    assert_eq!(t.metadata_percent_complete, Some(WireNum::Whole(1)));
    assert_eq!(t.upload_ratio, Some(WireNum::Whole(-1)));
    assert_eq!(t.seed_ratio_limit, Some(WireNum::Decimal(String::from("2.0"))));
    assert_eq!(t.recheck_progress, Some(WireNum::Whole(0)));
}

#[test]
fn decode_torrent_rename_path() {
    let j = parse(
        "{\"result\":\"success\",\"arguments\":{\"path\":\"old/name\",\"name\":\"new\",\"id\":4}}",
    );
    let r = RpcResponse::<TorrentRenamePath>::from_json(&j).expect("decodes");
    assert_eq!(r.arguments.path.as_deref(), Some("old/name"));
    assert_eq!(r.arguments.name.as_deref(), Some("new"));
    assert_eq!(r.arguments.id, Some(4));
}

#[test]
fn torrents_member_is_required() {
    let j = parse("{\"result\":\"success\",\"arguments\":{}}");
    assert!(RpcResponse::<Torrents<Torrent>>::from_json(&j).is_err());
}

#[test]
fn requested_members_all_present_after_decode() {
    let j = parse(
        "{\"result\":\"success\",\"arguments\":{\"torrents\":[{\
         \"activityDate\":1,\"addedDate\":2,\"bandwidthPriority\":0,\"comment\":\"c\",\
         \"corruptEver\":0,\"creator\":\"me\",\"dateCreated\":3,\"desiredAvailable\":4,\
         \"doneDate\":5,\"downloadDir\":\"/dl\",\"downloadedEver\":6,\"downloadLimit\":7,\
         \"downloadLimited\":false,\"editDate\":8,\"error\":0,\"errorString\":\"\",\
         \"eta\":-1,\"etaIdle\":-1,\"fileCount\":1,\"hashString\":\"aa\",\
         \"haveUnchecked\":0,\"haveValid\":9,\"honorsSessionLimits\":true,\"id\":10,\
         \"isFinished\":false,\"isPrivate\":false,\"isStalled\":false,\"leftUntilDone\":0,\
         \"magnetLink\":\"magnet:?\",\"manualAnnounceTime\":-1,\"maxConnectedPeers\":50,\
         \"metadataPercentComplete\":1,\"name\":\"n\",\"peerLimit\":60,\"peersConnected\":0,\
         \"peersGettingFromUs\":0,\"peersSendingToUs\":0,\"percentComplete\":1,\
         \"percentDone\":1,\"pieces\":\"AA==\",\"pieceCount\":11,\"queuePosition\":0,\
         \"rateDownload\":0,\"rateUpload\":0,\"recheckProgress\":0,\"secondsDownloading\":12,\
         \"secondsSeeding\":13,\"seedIdleLimit\":30,\"seedIdleMode\":0,\"seedRatioLimit\":2.0,\
         \"seedRatioMode\":0,\"sizeWhenDone\":14,\"startDate\":15,\"status\":6,\
         \"totalSize\":16,\"torrentFile\":\"/t.torrent\",\"uploadedEver\":17,\
         \"uploadLimit\":18,\"uploadLimited\":false,\"uploadRatio\":1,\
         \"webseedsSendingToUs\":0}]}}",
    );
    let r = RpcResponse::<Torrents<Torrent>>::from_json(&j).expect("decodes");
    let t = &r.arguments.torrents[0];
    assert_eq!(t.activity_date, Some(1));
    assert_eq!(t.comment.as_deref(), Some("c"));
    assert_eq!(t.error_string.as_deref(), Some(""));
    assert_eq!(t.eta, Some(-1));
    assert_eq!(t.file_count, Some(1));
    assert_eq!(t.peer_limit, Some(60));
    assert_eq!(t.status, Some(6));
    assert_eq!(t.torrent_file.as_deref(), Some("/t.torrent"));
    assert_eq!(t.webseeds_sending_to_us, Some(0));
    // members the reply does not carry stay absent
    assert!(t.files.is_none());
    assert!(t.peers_from.is_none());
    assert!(t.primary_mime_type.is_none());
}

#[test]
fn non_object_arguments_is_error() {
    let j = parse("{\"result\":\"success\",\"arguments\":[1,2]}");
    assert!(RpcResponse::<Nothing>::from_json(&j).is_err());
}

fn shape_ok_probe<T: RpcResponseArgument>(text: &str) -> bool {
    let j = parse(text);
    T::from_json(&j).is_ok()
}

#[test]
fn payloads_decode_directly_too() {
    assert!(shape_ok_probe::<Nothing>("{}"));
    assert!(!shape_ok_probe::<Nothing>("[]"));
    assert!(shape_ok_probe::<BlocklistUpdate>("{\"blocklist-size\":1}"));
    assert!(!shape_ok_probe::<PortTest>("{}"));
}

#[test]
fn i32_member_out_of_range_is_error() {
    let j = parse("{\"result\":\"success\",\"arguments\":{\"blocklist-size\":999999999999}}");
    assert!(RpcResponse::<BlocklistUpdate>::from_json(&j).is_err());
    let j2 = parse(
        "{\"result\":\"success\",\"arguments\":{\"torrents\":[{\"trackers\":[{\"id\":4294967296,\"announce\":\"x\"}]}]}}",
    );
    assert!(RpcResponse::<Torrents<Torrent>>::from_json(&j2).is_err());
}

#[test]
fn scalar_list_with_wrong_element_is_error() {
    let j = parse(
        "{\"result\":\"success\",\"arguments\":{\"torrents\":[{\"priorities\":[0,\"high\"]}]}}",
    );
    assert!(RpcResponse::<Torrents<Torrent>>::from_json(&j).is_err());
    let j2 = parse(
        "{\"result\":\"success\",\"arguments\":{\"torrents\":[{\"priorities\":[0,200]}]}}",
    );
    assert!(RpcResponse::<Torrents<Torrent>>::from_json(&j2).is_err());
    let j3 = parse(
        "{\"result\":\"success\",\"arguments\":{\"torrents\":[{\"webseeds\":[1]}]}}",
    );
    assert!(RpcResponse::<Torrents<Torrent>>::from_json(&j3).is_err());
}

#[test]
fn fractional_value_in_integer_member_is_error() {
    let j = parse("{\"result\":\"success\",\"arguments\":{\"torrents\":[{\"eta\":1.5}]}}");
    assert!(RpcResponse::<Torrents<Torrent>>::from_json(&j).is_err());
}
