//! The response decoder: the generic reply envelope with its success
//! predicate, and one strongly typed result record per method family.
//! Every attribute the protocol leaves optional decodes to an explicit
//! absent value when the daemon omits it or sends null; a member present
//! with an unexpected shape fails the whole decode; unknown members are
//! ignored.
use vstd::prelude::*;

use crate::fields::{wire_name, TorrentGetField};
use crate::json::{
    get_opt_bool, get_opt_i32, get_opt_i64, get_opt_i8_list, get_opt_num, get_opt_text,
    get_opt_text_list, get_req_bool, get_req_i32, get_req_i64, get_req_i8, get_req_text,
    find_member, json_member, m_opt_bool, m_opt_i32, m_opt_i64, m_opt_i8_list, m_opt_num,
    m_opt_text, m_opt_text_list, m_req_bool, m_req_i32, m_req_i64, m_req_i8, m_req_text,
    ok_opt_bool, ok_opt_i32, ok_opt_i64, ok_opt_i8_list, ok_opt_num, ok_opt_text,
    ok_opt_text_list, ok_req_bool, ok_req_i32, ok_req_i64, ok_req_i8, ok_req_text, DecodeError,
    Json, WireNum,
};

verus! {

/// A method-specific result payload: how its shape is checked and how a
/// decoded value relates, member by member, to the reply object.
pub trait RpcResponseArgument: Sized {
    /// Whether every known member of `j` has an acceptable shape.
    spec fn arg_shape_ok(j: Json) -> bool;

    /// How a decoded value relates to the reply object, member by member.
    spec fn arg_matches(j: Json, v: Self) -> bool;

    /// Decodes the payload; fails exactly when some known member has an
    /// unacceptable shape.
    fn from_json(j: &Json) -> (r: Result<Self, DecodeError>)
        ensures
            r matches Ok(v) ==> Self::arg_shape_ok(*j) && Self::arg_matches(*j, v),
            r is Err <==> !Self::arg_shape_ok(*j),
    ;
}

fn require_object(j: &Json) -> (r: Result<(), DecodeError>)
    ensures
        r is Ok <==> j is Object,
{
    match j {
        Json::Object(_) => Ok(()),
        _ => Err(DecodeError),
    }
}

// ---------------------------------------------------------------------------
// Composite members: single entities and entity lists, shared by every
// record that nests another record.
// ---------------------------------------------------------------------------
/// The member is absent, null, or an acceptable entity.
pub open spec fn ok_opt_entity<T: RpcResponseArgument>(j: Json, key: Seq<char>) -> bool {
    match json_member(j, key) {
        None => true,
        Some(Json::Null) => true,
        Some(e) => T::arg_shape_ok(e),
    }
}

pub open spec fn m_opt_entity<T: RpcResponseArgument>(j: Json, key: Seq<char>, v: Option<T>) -> bool {
    match json_member(j, key) {
        None => v is None,
        Some(Json::Null) => v is None,
        Some(e) => v matches Some(x) && T::arg_matches(e, x),
    }
}

fn get_opt_entity<T: RpcResponseArgument>(j: &Json, key: &str) -> (r: Result<
    Option<T>,
    DecodeError,
>)
    ensures
        r matches Ok(v) ==> ok_opt_entity::<T>(*j, key@) && m_opt_entity::<T>(*j, key@, v),
        r is Err <==> !ok_opt_entity::<T>(*j, key@),
{
    match find_member(j, key) {
        None => Ok(None),
        Some(Json::Null) => Ok(None),
        Some(e) => {
            let x = T::from_json(e)?;
            Ok(Some(x))
        },
    }
}

/// The member is present and an acceptable entity.
pub open spec fn ok_req_entity<T: RpcResponseArgument>(j: Json, key: Seq<char>) -> bool {
    match json_member(j, key) {
        Some(e) => T::arg_shape_ok(e),
        None => false,
    }
}

pub open spec fn m_req_entity<T: RpcResponseArgument>(j: Json, key: Seq<char>, v: T) -> bool {
    match json_member(j, key) {
        Some(e) => T::arg_matches(e, v),
        None => true,
    }
}

fn get_req_entity<T: RpcResponseArgument>(j: &Json, key: &str) -> (r: Result<T, DecodeError>)
    ensures
        r matches Ok(v) ==> ok_req_entity::<T>(*j, key@) && m_req_entity::<T>(*j, key@, v),
        r is Err <==> !ok_req_entity::<T>(*j, key@),
{
    match find_member(j, key) {
        Some(e) => {
            let x = T::from_json(e)?;
            Ok(x)
        },
        None => Err(DecodeError),
    }
}

/// The member is absent, null, or a list of acceptable entities.
pub open spec fn ok_opt_entity_list<T: RpcResponseArgument>(j: Json, key: Seq<char>) -> bool {
    match json_member(j, key) {
        None => true,
        Some(Json::Null) => true,
        Some(Json::List(items)) => forall|i: int|
            0 <= i < items@.len() ==> #[trigger] T::arg_shape_ok(items@[i]),
        Some(_) => false,
    }
}

pub open spec fn m_opt_entity_list<T: RpcResponseArgument>(
    j: Json,
    key: Seq<char>,
    v: Option<Vec<T>>,
) -> bool {
    match json_member(j, key) {
        None => v is None,
        Some(Json::Null) => v is None,
        Some(Json::List(items)) => v matches Some(vs) && vs@.len() == items@.len() && (forall|
            i: int,
        |
            0 <= i < items@.len() ==> #[trigger] T::arg_matches(items@[i], vs@[i])),
        Some(_) => true,
    }
}

fn get_opt_entity_list<T: RpcResponseArgument>(j: &Json, key: &str) -> (r: Result<
    Option<Vec<T>>,
    DecodeError,
>)
    ensures
        r matches Ok(v) ==> ok_opt_entity_list::<T>(*j, key@) && m_opt_entity_list::<T>(
            *j,
            key@,
            v,
        ),
        r is Err <==> !ok_opt_entity_list::<T>(*j, key@),
{
    match find_member(j, key) {
        None => Ok(None),
        Some(Json::Null) => Ok(None),
        Some(Json::List(items)) => {
            let mut out: Vec<T> = Vec::new();
            let mut k: usize = 0;
            while k < items.len()
                invariant
                    k <= items@.len(),
                    out@.len() == k,
                    json_member(*j, key@) == Some(Json::List(*items)),
                    forall|i: int| 0 <= i < k ==> #[trigger] T::arg_shape_ok(items@[i]),
                    forall|i: int| 0 <= i < k ==> #[trigger] T::arg_matches(items@[i], out@[i]),
                decreases items@.len() - k,
            {
                match T::from_json(&items[k]) {
                    Ok(x) => out.push(x),
                    Err(e) => {
                        proof {
                            assert(!T::arg_shape_ok(items@[k as int]));
                            match json_member(*j, key@) {
                                Some(Json::List(its)) => {
                                    assert(its == *items);
                                    if ok_opt_entity_list::<T>(*j, key@) {
                                        assert(T::arg_shape_ok(its@[k as int]));
                                    }
                                },
                                _ => {
                                    assert(false);
                                },
                            }
                        }
                        return Err(e);
                    },
                }
                k = k + 1;
            }
            Ok(Some(out))
        },
        Some(_) => Err(DecodeError),
    }
}

/// The member is present and a list of acceptable entities.
pub open spec fn ok_req_entity_list<T: RpcResponseArgument>(j: Json, key: Seq<char>) -> bool {
    match json_member(j, key) {
        Some(Json::List(items)) => forall|i: int|
            0 <= i < items@.len() ==> #[trigger] T::arg_shape_ok(items@[i]),
        _ => false,
    }
}

pub open spec fn m_req_entity_list<T: RpcResponseArgument>(
    j: Json,
    key: Seq<char>,
    v: Vec<T>,
) -> bool {
    match json_member(j, key) {
        Some(Json::List(items)) => v@.len() == items@.len() && (forall|i: int|
            0 <= i < items@.len() ==> #[trigger] T::arg_matches(items@[i], v@[i])),
        _ => true,
    }
}

fn get_req_entity_list<T: RpcResponseArgument>(j: &Json, key: &str) -> (r: Result<
    Vec<T>,
    DecodeError,
>)
    ensures
        r matches Ok(v) ==> ok_req_entity_list::<T>(*j, key@) && m_req_entity_list::<T>(
            *j,
            key@,
            v,
        ),
        r is Err <==> !ok_req_entity_list::<T>(*j, key@),
{
    match find_member(j, key) {
        Some(Json::List(items)) => {
            let mut out: Vec<T> = Vec::new();
            let mut k: usize = 0;
            while k < items.len()
                invariant
                    k <= items@.len(),
                    out@.len() == k,
                    json_member(*j, key@) == Some(Json::List(*items)),
                    forall|i: int| 0 <= i < k ==> #[trigger] T::arg_shape_ok(items@[i]),
                    forall|i: int| 0 <= i < k ==> #[trigger] T::arg_matches(items@[i], out@[i]),
                decreases items@.len() - k,
            {
                match T::from_json(&items[k]) {
                    Ok(x) => out.push(x),
                    Err(e) => {
                        proof {
                            assert(!T::arg_shape_ok(items@[k as int]));
                            match json_member(*j, key@) {
                                Some(Json::List(its)) => {
                                    assert(its == *items);
                                    if ok_req_entity_list::<T>(*j, key@) {
                                        assert(T::arg_shape_ok(its@[k as int]));
                                    }
                                },
                                _ => {
                                    assert(false);
                                },
                            }
                        }
                        return Err(e);
                    },
                }
                k = k + 1;
            }
            Ok(out)
        },
        _ => Err(DecodeError),
    }
}


/// One bundle of transfer statistics.
#[derive(Debug, Clone)]
pub struct Stats {
    pub files_added: i32,
    pub downloaded_bytes: i64,
    pub uploaded_bytes: i64,
    pub seconds_active: i64,
    pub session_count: Option<i32>,
}

impl RpcResponseArgument for Stats {
    open spec fn arg_shape_ok(j: Json) -> bool {
        &&& j is Object
        &&& ok_req_i32(j, "filesAdded"@)
        &&& ok_req_i64(j, "downloadedBytes"@)
        &&& ok_req_i64(j, "uploadedBytes"@)
        &&& ok_req_i64(j, "secondsActive"@)
        &&& ok_opt_i32(j, "sessionCount"@)
    }

    open spec fn arg_matches(j: Json, v: Self) -> bool {
        &&& m_req_i32(j, "filesAdded"@, v.files_added)
        &&& m_req_i64(j, "downloadedBytes"@, v.downloaded_bytes)
        &&& m_req_i64(j, "uploadedBytes"@, v.uploaded_bytes)
        &&& m_req_i64(j, "secondsActive"@, v.seconds_active)
        &&& m_opt_i32(j, "sessionCount"@, v.session_count)
    }

    fn from_json(j: &Json) -> (r: Result<Self, DecodeError>) {
        require_object(j)?;
        let files_added = get_req_i32(j, "filesAdded")?;
        let downloaded_bytes = get_req_i64(j, "downloadedBytes")?;
        let uploaded_bytes = get_req_i64(j, "uploadedBytes")?;
        let seconds_active = get_req_i64(j, "secondsActive")?;
        let session_count = get_opt_i32(j, "sessionCount")?;
        Ok(Stats {
            files_added,
            downloaded_bytes,
            uploaded_bytes,
            seconds_active,
            session_count,
        })
    }
}

/// One file of a torrent; these members are always present when a
/// file list is returned at all.
#[derive(Debug, Clone)]
pub struct File {
    pub length: i64,
    pub bytes_completed: i64,
    pub name: String,
}

impl RpcResponseArgument for File {
    open spec fn arg_shape_ok(j: Json) -> bool {
        &&& j is Object
        &&& ok_req_i64(j, "length"@)
        &&& ok_req_i64(j, "bytesCompleted"@)
        &&& ok_req_text(j, "name"@)
    }

    open spec fn arg_matches(j: Json, v: Self) -> bool {
        &&& m_req_i64(j, "length"@, v.length)
        &&& m_req_i64(j, "bytesCompleted"@, v.bytes_completed)
        &&& m_req_text(j, "name"@, v.name)
    }

    fn from_json(j: &Json) -> (r: Result<Self, DecodeError>) {
        require_object(j)?;
        let length = get_req_i64(j, "length")?;
        let bytes_completed = get_req_i64(j, "bytesCompleted")?;
        let name = get_req_text(j, "name")?;
        Ok(File {
            length,
            bytes_completed,
            name,
        })
    }
}

/// Per-file transfer state; these members are always present when a
/// file-stat list is returned at all.
#[derive(Debug, Clone)]
pub struct FileStat {
    pub bytes_completed: i64,
    pub wanted: bool,
    /// Low: -1, normal: 0, high: 1.
    pub priority: i8,
}

impl RpcResponseArgument for FileStat {
    open spec fn arg_shape_ok(j: Json) -> bool {
        &&& j is Object
        &&& ok_req_i64(j, "bytesCompleted"@)
        &&& ok_req_bool(j, "wanted"@)
        &&& ok_req_i8(j, "priority"@)
    }

    open spec fn arg_matches(j: Json, v: Self) -> bool {
        &&& m_req_i64(j, "bytesCompleted"@, v.bytes_completed)
        &&& m_req_bool(j, "wanted"@, v.wanted)
        &&& m_req_i8(j, "priority"@, v.priority)
    }

    fn from_json(j: &Json) -> (r: Result<Self, DecodeError>) {
        require_object(j)?;
        let bytes_completed = get_req_i64(j, "bytesCompleted")?;
        let wanted = get_req_bool(j, "wanted")?;
        let priority = get_req_i8(j, "priority")?;
        Ok(FileStat {
            bytes_completed,
            wanted,
            priority,
        })
    }
}

/// One tracker a torrent announces to.
#[derive(Debug, Clone)]
pub struct Trackers {
    pub id: i32,
    pub announce: String,
}

impl RpcResponseArgument for Trackers {
    open spec fn arg_shape_ok(j: Json) -> bool {
        &&& j is Object
        &&& ok_req_i32(j, "id"@)
        &&& ok_req_text(j, "announce"@)
    }

    open spec fn arg_matches(j: Json, v: Self) -> bool {
        &&& m_req_i32(j, "id"@, v.id)
        &&& m_req_text(j, "announce"@, v.announce)
    }

    fn from_json(j: &Json) -> (r: Result<Self, DecodeError>) {
        require_object(j)?;
        let id = get_req_i32(j, "id")?;
        let announce = get_req_text(j, "announce")?;
        Ok(Trackers {
            id,
            announce,
        })
    }
}

/// Announce and scrape state of one tracker.
#[derive(Debug, Clone)]
pub struct TrackerStats {
    pub announce_state: Option<i64>,
    pub announce: Option<String>,
    pub download_count: Option<i64>,
    pub has_announced: Option<bool>,
    pub host: Option<String>,
    pub id: Option<i64>,
    pub is_backup: Option<bool>,
    pub last_announce_peer_count: Option<i64>,
    pub last_announce_result: Option<String>,
    pub last_announce_start_time: Option<i64>,
    pub last_announce_succeeded: Option<bool>,
    pub last_announce_time: Option<i64>,
    pub last_announce_timed_out: Option<bool>,
    pub last_scrape_result: Option<String>,
    pub last_scrape_start_time: Option<i64>,
    pub last_scrape_succeeded: Option<bool>,
    pub last_scrape_time: Option<i64>,
    pub last_scrape_timed_out: Option<bool>,
    pub leecher_count: Option<i64>,
    pub next_announce_time: Option<i64>,
    pub next_scrape_time: Option<i64>,
    pub scrape_state: Option<i64>,
    pub scrape: Option<String>,
    pub seeder_count: Option<i64>,
    pub site_name: Option<String>,
    pub tier: Option<i64>,
}

impl RpcResponseArgument for TrackerStats {
    open spec fn arg_shape_ok(j: Json) -> bool {
        &&& j is Object
        &&& ok_opt_i64(j, "announceState"@)
        &&& ok_opt_text(j, "announce"@)
        &&& ok_opt_i64(j, "downloadCount"@)
        &&& ok_opt_bool(j, "hasAnnounced"@)
        &&& ok_opt_text(j, "host"@)
        &&& ok_opt_i64(j, "id"@)
        &&& ok_opt_bool(j, "isBackup"@)
        &&& ok_opt_i64(j, "lastAnnouncePeerCount"@)
        &&& ok_opt_text(j, "lastAnnounceResult"@)
        &&& ok_opt_i64(j, "lastAnnounceStartTime"@)
        &&& ok_opt_bool(j, "lastAnnounceSucceeded"@)
        &&& ok_opt_i64(j, "lastAnnounceTime"@)
        &&& ok_opt_bool(j, "lastAnnounceTimedOut"@)
        &&& ok_opt_text(j, "lastScrapeResult"@)
        &&& ok_opt_i64(j, "lastScrapeStartTime"@)
        &&& ok_opt_bool(j, "lastScrapeSucceeded"@)
        &&& ok_opt_i64(j, "lastScrapeTime"@)
        &&& ok_opt_bool(j, "lastScrapeTimedOut"@)
        &&& ok_opt_i64(j, "leecherCount"@)
        &&& ok_opt_i64(j, "nextAnnounceTime"@)
        &&& ok_opt_i64(j, "nextScrapeTime"@)
        &&& ok_opt_i64(j, "scrapeState"@)
        &&& ok_opt_text(j, "scrape"@)
        &&& ok_opt_i64(j, "seederCount"@)
        &&& ok_opt_text(j, "site_name"@)
        &&& ok_opt_i64(j, "tier"@)
    }

    open spec fn arg_matches(j: Json, v: Self) -> bool {
        &&& m_opt_i64(j, "announceState"@, v.announce_state)
        &&& m_opt_text(j, "announce"@, v.announce)
        &&& m_opt_i64(j, "downloadCount"@, v.download_count)
        &&& m_opt_bool(j, "hasAnnounced"@, v.has_announced)
        &&& m_opt_text(j, "host"@, v.host)
        &&& m_opt_i64(j, "id"@, v.id)
        &&& m_opt_bool(j, "isBackup"@, v.is_backup)
        &&& m_opt_i64(j, "lastAnnouncePeerCount"@, v.last_announce_peer_count)
        &&& m_opt_text(j, "lastAnnounceResult"@, v.last_announce_result)
        &&& m_opt_i64(j, "lastAnnounceStartTime"@, v.last_announce_start_time)
        &&& m_opt_bool(j, "lastAnnounceSucceeded"@, v.last_announce_succeeded)
        &&& m_opt_i64(j, "lastAnnounceTime"@, v.last_announce_time)
        &&& m_opt_bool(j, "lastAnnounceTimedOut"@, v.last_announce_timed_out)
        &&& m_opt_text(j, "lastScrapeResult"@, v.last_scrape_result)
        &&& m_opt_i64(j, "lastScrapeStartTime"@, v.last_scrape_start_time)
        &&& m_opt_bool(j, "lastScrapeSucceeded"@, v.last_scrape_succeeded)
        &&& m_opt_i64(j, "lastScrapeTime"@, v.last_scrape_time)
        &&& m_opt_bool(j, "lastScrapeTimedOut"@, v.last_scrape_timed_out)
        &&& m_opt_i64(j, "leecherCount"@, v.leecher_count)
        &&& m_opt_i64(j, "nextAnnounceTime"@, v.next_announce_time)
        &&& m_opt_i64(j, "nextScrapeTime"@, v.next_scrape_time)
        &&& m_opt_i64(j, "scrapeState"@, v.scrape_state)
        &&& m_opt_text(j, "scrape"@, v.scrape)
        &&& m_opt_i64(j, "seederCount"@, v.seeder_count)
        &&& m_opt_text(j, "site_name"@, v.site_name)
        &&& m_opt_i64(j, "tier"@, v.tier)
    }

    #[verifier::rlimit(60)]
    fn from_json(j: &Json) -> (r: Result<Self, DecodeError>) {
        require_object(j)?;
        let announce_state = get_opt_i64(j, "announceState")?;
        let announce = get_opt_text(j, "announce")?;
        let download_count = get_opt_i64(j, "downloadCount")?;
        let has_announced = get_opt_bool(j, "hasAnnounced")?;
        let host = get_opt_text(j, "host")?;
        let id = get_opt_i64(j, "id")?;
        let is_backup = get_opt_bool(j, "isBackup")?;
        let last_announce_peer_count = get_opt_i64(j, "lastAnnouncePeerCount")?;
        let last_announce_result = get_opt_text(j, "lastAnnounceResult")?;
        let last_announce_start_time = get_opt_i64(j, "lastAnnounceStartTime")?;
        let last_announce_succeeded = get_opt_bool(j, "lastAnnounceSucceeded")?;
        let last_announce_time = get_opt_i64(j, "lastAnnounceTime")?;
        let last_announce_timed_out = get_opt_bool(j, "lastAnnounceTimedOut")?;
        let last_scrape_result = get_opt_text(j, "lastScrapeResult")?;
        let last_scrape_start_time = get_opt_i64(j, "lastScrapeStartTime")?;
        let last_scrape_succeeded = get_opt_bool(j, "lastScrapeSucceeded")?;
        let last_scrape_time = get_opt_i64(j, "lastScrapeTime")?;
        let last_scrape_timed_out = get_opt_bool(j, "lastScrapeTimedOut")?;
        let leecher_count = get_opt_i64(j, "leecherCount")?;
        let next_announce_time = get_opt_i64(j, "nextAnnounceTime")?;
        let next_scrape_time = get_opt_i64(j, "nextScrapeTime")?;
        let scrape_state = get_opt_i64(j, "scrapeState")?;
        let scrape = get_opt_text(j, "scrape")?;
        let seeder_count = get_opt_i64(j, "seederCount")?;
        let site_name = get_opt_text(j, "site_name")?;
        let tier = get_opt_i64(j, "tier")?;
        Ok(TrackerStats {
            announce_state,
            announce,
            download_count,
            has_announced,
            host,
            id,
            is_backup,
            last_announce_peer_count,
            last_announce_result,
            last_announce_start_time,
            last_announce_succeeded,
            last_announce_time,
            last_announce_timed_out,
            last_scrape_result,
            last_scrape_start_time,
            last_scrape_succeeded,
            last_scrape_time,
            last_scrape_timed_out,
            leecher_count,
            next_announce_time,
            next_scrape_time,
            scrape_state,
            scrape,
            seeder_count,
            site_name,
            tier,
        })
    }
}

/// One connected peer of a torrent.
#[derive(Debug, Clone)]
pub struct Peer {
    pub address: Option<String>,
    pub client_name: Option<String>,
    pub client_is_choked: Option<bool>,
    pub client_is_interested: Option<bool>,
    pub flag_str: Option<String>,
    pub is_downloading_from: Option<bool>,
    pub is_encrypted: Option<bool>,
    pub is_incoming: Option<bool>,
    pub is_uploading_to: Option<bool>,
    pub is_utp: Option<bool>,
    pub peer_is_choked: Option<bool>,
    pub peer_is_interested: Option<bool>,
    pub port: Option<i64>,
    /// Completion as it stood on the wire: a fraction between zero and one.
    pub progress: Option<WireNum>,
    pub rate_to_client: Option<i64>,
    pub rate_to_peer: Option<i64>,
}

impl RpcResponseArgument for Peer {
    open spec fn arg_shape_ok(j: Json) -> bool {
        &&& j is Object
        &&& ok_opt_text(j, "address"@)
        &&& ok_opt_text(j, "clientName"@)
        &&& ok_opt_bool(j, "clientIsChoked"@)
        &&& ok_opt_bool(j, "clientIsInterested"@)
        &&& ok_opt_text(j, "flagStr"@)
        &&& ok_opt_bool(j, "isDownloadingFrom"@)
        &&& ok_opt_bool(j, "isEncrypted"@)
        &&& ok_opt_bool(j, "isIncoming"@)
        &&& ok_opt_bool(j, "isUploadingTo"@)
        &&& ok_opt_bool(j, "isUTP"@)
        &&& ok_opt_bool(j, "peerIsChoked"@)
        &&& ok_opt_bool(j, "peerIsInterested"@)
        &&& ok_opt_i64(j, "port"@)
        &&& ok_opt_num(j, "progress"@)
        &&& ok_opt_i64(j, "rateToClient"@)
        &&& ok_opt_i64(j, "rateToPeer"@)
    }

    open spec fn arg_matches(j: Json, v: Self) -> bool {
        &&& m_opt_text(j, "address"@, v.address)
        &&& m_opt_text(j, "clientName"@, v.client_name)
        &&& m_opt_bool(j, "clientIsChoked"@, v.client_is_choked)
        &&& m_opt_bool(j, "clientIsInterested"@, v.client_is_interested)
        &&& m_opt_text(j, "flagStr"@, v.flag_str)
        &&& m_opt_bool(j, "isDownloadingFrom"@, v.is_downloading_from)
        &&& m_opt_bool(j, "isEncrypted"@, v.is_encrypted)
        &&& m_opt_bool(j, "isIncoming"@, v.is_incoming)
        &&& m_opt_bool(j, "isUploadingTo"@, v.is_uploading_to)
        &&& m_opt_bool(j, "isUTP"@, v.is_utp)
        &&& m_opt_bool(j, "peerIsChoked"@, v.peer_is_choked)
        &&& m_opt_bool(j, "peerIsInterested"@, v.peer_is_interested)
        &&& m_opt_i64(j, "port"@, v.port)
        &&& m_opt_num(j, "progress"@, v.progress)
        &&& m_opt_i64(j, "rateToClient"@, v.rate_to_client)
        &&& m_opt_i64(j, "rateToPeer"@, v.rate_to_peer)
    }

    #[verifier::rlimit(60)]
    fn from_json(j: &Json) -> (r: Result<Self, DecodeError>) {
        require_object(j)?;
        let address = get_opt_text(j, "address")?;
        let client_name = get_opt_text(j, "clientName")?;
        let client_is_choked = get_opt_bool(j, "clientIsChoked")?;
        let client_is_interested = get_opt_bool(j, "clientIsInterested")?;
        let flag_str = get_opt_text(j, "flagStr")?;
        let is_downloading_from = get_opt_bool(j, "isDownloadingFrom")?;
        let is_encrypted = get_opt_bool(j, "isEncrypted")?;
        let is_incoming = get_opt_bool(j, "isIncoming")?;
        let is_uploading_to = get_opt_bool(j, "isUploadingTo")?;
        let is_utp = get_opt_bool(j, "isUTP")?;
        let peer_is_choked = get_opt_bool(j, "peerIsChoked")?;
        let peer_is_interested = get_opt_bool(j, "peerIsInterested")?;
        let port = get_opt_i64(j, "port")?;
        let progress = get_opt_num(j, "progress")?;
        let rate_to_client = get_opt_i64(j, "rateToClient")?;
        let rate_to_peer = get_opt_i64(j, "rateToPeer")?;
        Ok(Peer {
            address,
            client_name,
            client_is_choked,
            client_is_interested,
            flag_str,
            is_downloading_from,
            is_encrypted,
            is_incoming,
            is_uploading_to,
            is_utp,
            peer_is_choked,
            peer_is_interested,
            port,
            progress,
            rate_to_client,
            rate_to_peer,
        })
    }
}

/// Where the connected peers were learned of.
#[derive(Debug, Clone)]
pub struct PeersFrom {
    pub from_cache: Option<i64>,
    pub from_dht: Option<i64>,
    pub from_incoming: Option<i64>,
    pub from_lpd: Option<i64>,
    pub from_ltep: Option<i64>,
    pub from_pex: Option<i64>,
    pub from_tracker: Option<i64>,
}

impl RpcResponseArgument for PeersFrom {
    open spec fn arg_shape_ok(j: Json) -> bool {
        &&& j is Object
        &&& ok_opt_i64(j, "fromCache"@)
        &&& ok_opt_i64(j, "fromDht"@)
        &&& ok_opt_i64(j, "fromIncoming"@)
        &&& ok_opt_i64(j, "fromLpd"@)
        &&& ok_opt_i64(j, "fromLtep"@)
        &&& ok_opt_i64(j, "fromPex"@)
        &&& ok_opt_i64(j, "fromTracker"@)
    }

    open spec fn arg_matches(j: Json, v: Self) -> bool {
        &&& m_opt_i64(j, "fromCache"@, v.from_cache)
        &&& m_opt_i64(j, "fromDht"@, v.from_dht)
        &&& m_opt_i64(j, "fromIncoming"@, v.from_incoming)
        &&& m_opt_i64(j, "fromLpd"@, v.from_lpd)
        &&& m_opt_i64(j, "fromLtep"@, v.from_ltep)
        &&& m_opt_i64(j, "fromPex"@, v.from_pex)
        &&& m_opt_i64(j, "fromTracker"@, v.from_tracker)
    }

    fn from_json(j: &Json) -> (r: Result<Self, DecodeError>) {
        require_object(j)?;
        let from_cache = get_opt_i64(j, "fromCache")?;
        let from_dht = get_opt_i64(j, "fromDht")?;
        let from_incoming = get_opt_i64(j, "fromIncoming")?;
        let from_lpd = get_opt_i64(j, "fromLpd")?;
        let from_ltep = get_opt_i64(j, "fromLtep")?;
        let from_pex = get_opt_i64(j, "fromPex")?;
        let from_tracker = get_opt_i64(j, "fromTracker")?;
        Ok(PeersFrom {
            from_cache,
            from_dht,
            from_incoming,
            from_lpd,
            from_ltep,
            from_pex,
            from_tracker,
        })
    }
}
/// One torrent as the daemon reports it. Every attribute is optional:
/// which members the daemon populates follows the requested field subset,
/// so an absent member means not asked for or not applicable, never an
/// error, and decodes to an explicit absent value.
#[derive(Debug, Clone)]
pub struct Torrent {
    pub activity_date: Option<i64>,
    pub added_date: Option<i64>,
    pub bandwidth_priority: Option<i64>,
    pub comment: Option<String>,
    pub corrupt_ever: Option<i64>,
    pub creator: Option<String>,
    pub date_created: Option<i64>,
    pub desired_available: Option<i64>,
    pub done_date: Option<i64>,
    pub download_dir: Option<String>,
    pub downloaded_ever: Option<i64>,
    pub download_limit: Option<i64>,
    pub download_limited: Option<bool>,
    pub edit_date: Option<i64>,
    pub error: Option<i64>,
    pub error_string: Option<String>,
    pub eta: Option<i64>,
    pub eta_idle: Option<i64>,
    pub file_count: Option<i64>,
    pub files: Option<Vec<File>>,
    pub file_stats: Option<Vec<FileStat>>,
    pub hash_string: Option<String>,
    pub have_unchecked: Option<i64>,
    pub have_valid: Option<i64>,
    pub honors_session_limits: Option<bool>,
    pub id: Option<i64>,
    pub is_finished: Option<bool>,
    pub is_private: Option<bool>,
    pub is_stalled: Option<bool>,
    pub left_until_done: Option<i64>,
    pub magnet_link: Option<String>,
    pub manual_announce_time: Option<i64>,
    pub max_connected_peers: Option<i64>,
    /// A fraction, kept exactly as it stood on the wire.
    pub metadata_percent_complete: Option<WireNum>,
    pub name: Option<String>,
    pub peer_limit: Option<i64>,
    pub peers: Option<Vec<Peer>>,
    pub peers_connected: Option<i64>,
    pub peers_from: Option<PeersFrom>,
    pub peers_getting_from_us: Option<i64>,
    pub peers_sending_to_us: Option<i64>,
    /// A fraction, kept exactly as it stood on the wire.
    pub percent_complete: Option<WireNum>,
    /// A fraction, kept exactly as it stood on the wire.
    pub percent_done: Option<WireNum>,
    pub pieces: Option<String>,
    pub piece_count: Option<i64>,
    /// For each file, its download priority: low -1, normal 0, high 1.
    pub priorities: Option<Vec<i8>>,
    pub primary_mime_type: Option<String>,
    pub queue_position: Option<i64>,
    pub rate_download: Option<i64>,
    pub rate_upload: Option<i64>,
    /// A fraction, kept exactly as it stood on the wire.
    pub recheck_progress: Option<WireNum>,
    pub seconds_downloading: Option<i64>,
    pub seconds_seeding: Option<i64>,
    pub seed_idle_limit: Option<i64>,
    pub seed_idle_mode: Option<i64>,
    /// A ratio, kept exactly as it stood on the wire.
    pub seed_ratio_limit: Option<WireNum>,
    pub seed_ratio_mode: Option<i64>,
    pub size_when_done: Option<i64>,
    pub start_date: Option<i64>,
    pub status: Option<i64>,
    pub trackers: Option<Vec<Trackers>>,
    pub tracker_stats: Option<Vec<TrackerStats>>,
    pub total_size: Option<i64>,
    pub torrent_file: Option<String>,
    pub uploaded_ever: Option<i64>,
    pub upload_limit: Option<i64>,
    pub upload_limited: Option<bool>,
    /// A ratio, kept exactly as it stood on the wire.
    pub upload_ratio: Option<WireNum>,
    /// For each file, whether it will be downloaded: 0 or 1.
    pub wanted: Option<Vec<i8>>,
    pub webseeds: Option<Vec<String>>,
    pub webseeds_sending_to_us: Option<i64>,
}

impl RpcResponseArgument for Torrent {
    open spec fn arg_shape_ok(j: Json) -> bool {
        &&& j is Object
        &&& ok_opt_i64(j, "activityDate"@)
        &&& ok_opt_i64(j, "addedDate"@)
        &&& ok_opt_i64(j, "bandwidthPriority"@)
        &&& ok_opt_text(j, "comment"@)
        &&& ok_opt_i64(j, "corruptEver"@)
        &&& ok_opt_text(j, "creator"@)
        &&& ok_opt_i64(j, "dateCreated"@)
        &&& ok_opt_i64(j, "desiredAvailable"@)
        &&& ok_opt_i64(j, "doneDate"@)
        &&& ok_opt_text(j, "downloadDir"@)
        &&& ok_opt_i64(j, "downloadedEver"@)
        &&& ok_opt_i64(j, "downloadLimit"@)
        &&& ok_opt_bool(j, "downloadLimited"@)
        &&& ok_opt_i64(j, "editDate"@)
        &&& ok_opt_i64(j, "error"@)
        &&& ok_opt_text(j, "errorString"@)
        &&& ok_opt_i64(j, "eta"@)
        &&& ok_opt_i64(j, "etaIdle"@)
        &&& ok_opt_i64(j, "fileCount"@)
        &&& ok_opt_entity_list::<File>(j, "files"@)
        &&& ok_opt_entity_list::<FileStat>(j, "fileStats"@)
        &&& ok_opt_text(j, "hashString"@)
        &&& ok_opt_i64(j, "haveUnchecked"@)
        &&& ok_opt_i64(j, "haveValid"@)
        &&& ok_opt_bool(j, "honorsSessionLimits"@)
        &&& ok_opt_i64(j, "id"@)
        &&& ok_opt_bool(j, "isFinished"@)
        &&& ok_opt_bool(j, "isPrivate"@)
        &&& ok_opt_bool(j, "isStalled"@)
        &&& ok_opt_i64(j, "leftUntilDone"@)
        &&& ok_opt_text(j, "magnetLink"@)
        &&& ok_opt_i64(j, "manualAnnounceTime"@)
        &&& ok_opt_i64(j, "maxConnectedPeers"@)
        &&& ok_opt_num(j, "metadataPercentComplete"@)
        &&& ok_opt_text(j, "name"@)
        &&& ok_opt_i64(j, "peerLimit"@)
        &&& ok_opt_entity_list::<Peer>(j, "peers"@)
        &&& ok_opt_i64(j, "peersConnected"@)
        &&& ok_opt_entity::<PeersFrom>(j, "peersFrom"@)
        &&& ok_opt_i64(j, "peersGettingFromUs"@)
        &&& ok_opt_i64(j, "peersSendingToUs"@)
        &&& ok_opt_num(j, "percentComplete"@)
        &&& ok_opt_num(j, "percentDone"@)
        &&& ok_opt_text(j, "pieces"@)
        &&& ok_opt_i64(j, "pieceCount"@)
        &&& ok_opt_i8_list(j, "priorities"@)
        &&& ok_opt_text(j, "primary-mime-type"@)
        &&& ok_opt_i64(j, "queuePosition"@)
        &&& ok_opt_i64(j, "rateDownload"@)
        &&& ok_opt_i64(j, "rateUpload"@)
        &&& ok_opt_num(j, "recheckProgress"@)
        &&& ok_opt_i64(j, "secondsDownloading"@)
        &&& ok_opt_i64(j, "secondsSeeding"@)
        &&& ok_opt_i64(j, "seedIdleLimit"@)
        &&& ok_opt_i64(j, "seedIdleMode"@)
        &&& ok_opt_num(j, "seedRatioLimit"@)
        &&& ok_opt_i64(j, "seedRatioMode"@)
        &&& ok_opt_i64(j, "sizeWhenDone"@)
        &&& ok_opt_i64(j, "startDate"@)
        &&& ok_opt_i64(j, "status"@)
        &&& ok_opt_entity_list::<Trackers>(j, "trackers"@)
        &&& ok_opt_entity_list::<TrackerStats>(j, "trackerStats"@)
        &&& ok_opt_i64(j, "totalSize"@)
        &&& ok_opt_text(j, "torrentFile"@)
        &&& ok_opt_i64(j, "uploadedEver"@)
        &&& ok_opt_i64(j, "uploadLimit"@)
        &&& ok_opt_bool(j, "uploadLimited"@)
        &&& ok_opt_num(j, "uploadRatio"@)
        &&& ok_opt_i8_list(j, "wanted"@)
        &&& ok_opt_text_list(j, "webseeds"@)
        &&& ok_opt_i64(j, "webseedsSendingToUs"@)
    }

    open spec fn arg_matches(j: Json, v: Self) -> bool {
        &&& m_opt_i64(j, "activityDate"@, v.activity_date)
        &&& m_opt_i64(j, "addedDate"@, v.added_date)
        &&& m_opt_i64(j, "bandwidthPriority"@, v.bandwidth_priority)
        &&& m_opt_text(j, "comment"@, v.comment)
        &&& m_opt_i64(j, "corruptEver"@, v.corrupt_ever)
        &&& m_opt_text(j, "creator"@, v.creator)
        &&& m_opt_i64(j, "dateCreated"@, v.date_created)
        &&& m_opt_i64(j, "desiredAvailable"@, v.desired_available)
        &&& m_opt_i64(j, "doneDate"@, v.done_date)
        &&& m_opt_text(j, "downloadDir"@, v.download_dir)
        &&& m_opt_i64(j, "downloadedEver"@, v.downloaded_ever)
        &&& m_opt_i64(j, "downloadLimit"@, v.download_limit)
        &&& m_opt_bool(j, "downloadLimited"@, v.download_limited)
        &&& m_opt_i64(j, "editDate"@, v.edit_date)
        &&& m_opt_i64(j, "error"@, v.error)
        &&& m_opt_text(j, "errorString"@, v.error_string)
        &&& m_opt_i64(j, "eta"@, v.eta)
        &&& m_opt_i64(j, "etaIdle"@, v.eta_idle)
        &&& m_opt_i64(j, "fileCount"@, v.file_count)
        &&& m_opt_entity_list::<File>(j, "files"@, v.files)
        &&& m_opt_entity_list::<FileStat>(j, "fileStats"@, v.file_stats)
        &&& m_opt_text(j, "hashString"@, v.hash_string)
        &&& m_opt_i64(j, "haveUnchecked"@, v.have_unchecked)
        &&& m_opt_i64(j, "haveValid"@, v.have_valid)
        &&& m_opt_bool(j, "honorsSessionLimits"@, v.honors_session_limits)
        &&& m_opt_i64(j, "id"@, v.id)
        &&& m_opt_bool(j, "isFinished"@, v.is_finished)
        &&& m_opt_bool(j, "isPrivate"@, v.is_private)
        &&& m_opt_bool(j, "isStalled"@, v.is_stalled)
        &&& m_opt_i64(j, "leftUntilDone"@, v.left_until_done)
        &&& m_opt_text(j, "magnetLink"@, v.magnet_link)
        &&& m_opt_i64(j, "manualAnnounceTime"@, v.manual_announce_time)
        &&& m_opt_i64(j, "maxConnectedPeers"@, v.max_connected_peers)
        &&& m_opt_num(j, "metadataPercentComplete"@, v.metadata_percent_complete)
        &&& m_opt_text(j, "name"@, v.name)
        &&& m_opt_i64(j, "peerLimit"@, v.peer_limit)
        &&& m_opt_entity_list::<Peer>(j, "peers"@, v.peers)
        &&& m_opt_i64(j, "peersConnected"@, v.peers_connected)
        &&& m_opt_entity::<PeersFrom>(j, "peersFrom"@, v.peers_from)
        &&& m_opt_i64(j, "peersGettingFromUs"@, v.peers_getting_from_us)
        &&& m_opt_i64(j, "peersSendingToUs"@, v.peers_sending_to_us)
        &&& m_opt_num(j, "percentComplete"@, v.percent_complete)
        &&& m_opt_num(j, "percentDone"@, v.percent_done)
        &&& m_opt_text(j, "pieces"@, v.pieces)
        &&& m_opt_i64(j, "pieceCount"@, v.piece_count)
        &&& m_opt_i8_list(j, "priorities"@, v.priorities)
        &&& m_opt_text(j, "primary-mime-type"@, v.primary_mime_type)
        &&& m_opt_i64(j, "queuePosition"@, v.queue_position)
        &&& m_opt_i64(j, "rateDownload"@, v.rate_download)
        &&& m_opt_i64(j, "rateUpload"@, v.rate_upload)
        &&& m_opt_num(j, "recheckProgress"@, v.recheck_progress)
        &&& m_opt_i64(j, "secondsDownloading"@, v.seconds_downloading)
        &&& m_opt_i64(j, "secondsSeeding"@, v.seconds_seeding)
        &&& m_opt_i64(j, "seedIdleLimit"@, v.seed_idle_limit)
        &&& m_opt_i64(j, "seedIdleMode"@, v.seed_idle_mode)
        &&& m_opt_num(j, "seedRatioLimit"@, v.seed_ratio_limit)
        &&& m_opt_i64(j, "seedRatioMode"@, v.seed_ratio_mode)
        &&& m_opt_i64(j, "sizeWhenDone"@, v.size_when_done)
        &&& m_opt_i64(j, "startDate"@, v.start_date)
        &&& m_opt_i64(j, "status"@, v.status)
        &&& m_opt_entity_list::<Trackers>(j, "trackers"@, v.trackers)
        &&& m_opt_entity_list::<TrackerStats>(j, "trackerStats"@, v.tracker_stats)
        &&& m_opt_i64(j, "totalSize"@, v.total_size)
        &&& m_opt_text(j, "torrentFile"@, v.torrent_file)
        &&& m_opt_i64(j, "uploadedEver"@, v.uploaded_ever)
        &&& m_opt_i64(j, "uploadLimit"@, v.upload_limit)
        &&& m_opt_bool(j, "uploadLimited"@, v.upload_limited)
        &&& m_opt_num(j, "uploadRatio"@, v.upload_ratio)
        &&& m_opt_i8_list(j, "wanted"@, v.wanted)
        &&& m_opt_text_list(j, "webseeds"@, v.webseeds)
        &&& m_opt_i64(j, "webseedsSendingToUs"@, v.webseeds_sending_to_us)
    }

    #[verifier::rlimit(100)]
    fn from_json(j: &Json) -> (r: Result<Self, DecodeError>) {
        require_object(j)?;
        let activity_date = get_opt_i64(j, "activityDate")?;
        let added_date = get_opt_i64(j, "addedDate")?;
        let bandwidth_priority = get_opt_i64(j, "bandwidthPriority")?;
        let comment = get_opt_text(j, "comment")?;
        let corrupt_ever = get_opt_i64(j, "corruptEver")?;
        let creator = get_opt_text(j, "creator")?;
        let date_created = get_opt_i64(j, "dateCreated")?;
        let desired_available = get_opt_i64(j, "desiredAvailable")?;
        let done_date = get_opt_i64(j, "doneDate")?;
        let download_dir = get_opt_text(j, "downloadDir")?;
        let downloaded_ever = get_opt_i64(j, "downloadedEver")?;
        let download_limit = get_opt_i64(j, "downloadLimit")?;
        let download_limited = get_opt_bool(j, "downloadLimited")?;
        let edit_date = get_opt_i64(j, "editDate")?;
        let error = get_opt_i64(j, "error")?;
        let error_string = get_opt_text(j, "errorString")?;
        let eta = get_opt_i64(j, "eta")?;
        let eta_idle = get_opt_i64(j, "etaIdle")?;
        let file_count = get_opt_i64(j, "fileCount")?;
        let files = get_opt_entity_list::<File>(j, "files")?;
        let file_stats = get_opt_entity_list::<FileStat>(j, "fileStats")?;
        let hash_string = get_opt_text(j, "hashString")?;
        let have_unchecked = get_opt_i64(j, "haveUnchecked")?;
        let have_valid = get_opt_i64(j, "haveValid")?;
        let honors_session_limits = get_opt_bool(j, "honorsSessionLimits")?;
        let id = get_opt_i64(j, "id")?;
        let is_finished = get_opt_bool(j, "isFinished")?;
        let is_private = get_opt_bool(j, "isPrivate")?;
        let is_stalled = get_opt_bool(j, "isStalled")?;
        let left_until_done = get_opt_i64(j, "leftUntilDone")?;
        let magnet_link = get_opt_text(j, "magnetLink")?;
        let manual_announce_time = get_opt_i64(j, "manualAnnounceTime")?;
        let max_connected_peers = get_opt_i64(j, "maxConnectedPeers")?;
        let metadata_percent_complete = get_opt_num(j, "metadataPercentComplete")?;
        let name = get_opt_text(j, "name")?;
        let peer_limit = get_opt_i64(j, "peerLimit")?;
        let peers = get_opt_entity_list::<Peer>(j, "peers")?;
        let peers_connected = get_opt_i64(j, "peersConnected")?;
        let peers_from = get_opt_entity::<PeersFrom>(j, "peersFrom")?;
        let peers_getting_from_us = get_opt_i64(j, "peersGettingFromUs")?;
        let peers_sending_to_us = get_opt_i64(j, "peersSendingToUs")?;
        let percent_complete = get_opt_num(j, "percentComplete")?;
        let percent_done = get_opt_num(j, "percentDone")?;
        let pieces = get_opt_text(j, "pieces")?;
        let piece_count = get_opt_i64(j, "pieceCount")?;
        let priorities = get_opt_i8_list(j, "priorities")?;
        let primary_mime_type = get_opt_text(j, "primary-mime-type")?;
        let queue_position = get_opt_i64(j, "queuePosition")?;
        let rate_download = get_opt_i64(j, "rateDownload")?;
        let rate_upload = get_opt_i64(j, "rateUpload")?;
        let recheck_progress = get_opt_num(j, "recheckProgress")?;
        let seconds_downloading = get_opt_i64(j, "secondsDownloading")?;
        let seconds_seeding = get_opt_i64(j, "secondsSeeding")?;
        let seed_idle_limit = get_opt_i64(j, "seedIdleLimit")?;
        let seed_idle_mode = get_opt_i64(j, "seedIdleMode")?;
        let seed_ratio_limit = get_opt_num(j, "seedRatioLimit")?;
        let seed_ratio_mode = get_opt_i64(j, "seedRatioMode")?;
        let size_when_done = get_opt_i64(j, "sizeWhenDone")?;
        let start_date = get_opt_i64(j, "startDate")?;
        let status = get_opt_i64(j, "status")?;
        let trackers = get_opt_entity_list::<Trackers>(j, "trackers")?;
        let tracker_stats = get_opt_entity_list::<TrackerStats>(j, "trackerStats")?;
        let total_size = get_opt_i64(j, "totalSize")?;
        let torrent_file = get_opt_text(j, "torrentFile")?;
        let uploaded_ever = get_opt_i64(j, "uploadedEver")?;
        let upload_limit = get_opt_i64(j, "uploadLimit")?;
        let upload_limited = get_opt_bool(j, "uploadLimited")?;
        let upload_ratio = get_opt_num(j, "uploadRatio")?;
        let wanted = get_opt_i8_list(j, "wanted")?;
        let webseeds = get_opt_text_list(j, "webseeds")?;
        let webseeds_sending_to_us = get_opt_i64(j, "webseedsSendingToUs")?;
        Ok(Torrent {
            activity_date,
            added_date,
            bandwidth_priority,
            comment,
            corrupt_ever,
            creator,
            date_created,
            desired_available,
            done_date,
            download_dir,
            downloaded_ever,
            download_limit,
            download_limited,
            edit_date,
            error,
            error_string,
            eta,
            eta_idle,
            file_count,
            files,
            file_stats,
            hash_string,
            have_unchecked,
            have_valid,
            honors_session_limits,
            id,
            is_finished,
            is_private,
            is_stalled,
            left_until_done,
            magnet_link,
            manual_announce_time,
            max_connected_peers,
            metadata_percent_complete,
            name,
            peer_limit,
            peers,
            peers_connected,
            peers_from,
            peers_getting_from_us,
            peers_sending_to_us,
            percent_complete,
            percent_done,
            pieces,
            piece_count,
            priorities,
            primary_mime_type,
            queue_position,
            rate_download,
            rate_upload,
            recheck_progress,
            seconds_downloading,
            seconds_seeding,
            seed_idle_limit,
            seed_idle_mode,
            seed_ratio_limit,
            seed_ratio_mode,
            size_when_done,
            start_date,
            status,
            trackers,
            tracker_stats,
            total_size,
            torrent_file,
            uploaded_ever,
            upload_limit,
            upload_limited,
            upload_ratio,
            wanted,
            webseeds,
            webseeds_sending_to_us,
        })
    }
}

/// The session settings the session-get method reports.
#[derive(Debug, Clone)]
pub struct SessionGet {
    pub alt_speed_down: i64,
    pub alt_speed_enabled: bool,
    pub alt_speed_up: i64,
    pub blocklist_enabled: bool,
    pub download_dir: String,
    pub encryption: String,
    pub rpc_version_minimum: i32,
    pub rpc_version: i32,
    pub version: String,
}

impl RpcResponseArgument for SessionGet {
    open spec fn arg_shape_ok(j: Json) -> bool {
        &&& j is Object
        &&& ok_req_i64(j, "alt-speed-down"@)
        &&& ok_req_bool(j, "alt-speed-enabled"@)
        &&& ok_req_i64(j, "alt-speed-up"@)
        &&& ok_req_bool(j, "blocklist-enabled"@)
        &&& ok_req_text(j, "download-dir"@)
        &&& ok_req_text(j, "encryption"@)
        &&& ok_req_i32(j, "rpc-version-minimum"@)
        &&& ok_req_i32(j, "rpc-version"@)
        &&& ok_req_text(j, "version"@)
    }

    open spec fn arg_matches(j: Json, v: Self) -> bool {
        &&& m_req_i64(j, "alt-speed-down"@, v.alt_speed_down)
        &&& m_req_bool(j, "alt-speed-enabled"@, v.alt_speed_enabled)
        &&& m_req_i64(j, "alt-speed-up"@, v.alt_speed_up)
        &&& m_req_bool(j, "blocklist-enabled"@, v.blocklist_enabled)
        &&& m_req_text(j, "download-dir"@, v.download_dir)
        &&& m_req_text(j, "encryption"@, v.encryption)
        &&& m_req_i32(j, "rpc-version-minimum"@, v.rpc_version_minimum)
        &&& m_req_i32(j, "rpc-version"@, v.rpc_version)
        &&& m_req_text(j, "version"@, v.version)
    }

    #[verifier::rlimit(60)]
    fn from_json(j: &Json) -> (r: Result<Self, DecodeError>) {
        require_object(j)?;
        let alt_speed_down = get_req_i64(j, "alt-speed-down")?;
        let alt_speed_enabled = get_req_bool(j, "alt-speed-enabled")?;
        let alt_speed_up = get_req_i64(j, "alt-speed-up")?;
        let blocklist_enabled = get_req_bool(j, "blocklist-enabled")?;
        let download_dir = get_req_text(j, "download-dir")?;
        let encryption = get_req_text(j, "encryption")?;
        let rpc_version_minimum = get_req_i32(j, "rpc-version-minimum")?;
        let rpc_version = get_req_i32(j, "rpc-version")?;
        let version = get_req_text(j, "version")?;
        Ok(SessionGet {
            alt_speed_down,
            alt_speed_enabled,
            alt_speed_up,
            blocklist_enabled,
            download_dir,
            encryption,
            rpc_version_minimum,
            rpc_version,
            version,
        })
    }
}

/// The counters the session-stats method reports.
#[derive(Debug, Clone)]
pub struct SessionStats {
    pub torrent_count: i32,
    pub active_torrent_count: i32,
    pub paused_torrent_count: i32,
    pub download_speed: i64,
    pub upload_speed: i64,
    pub current_stats: Stats,
    pub cumulative_stats: Stats,
}

impl RpcResponseArgument for SessionStats {
    open spec fn arg_shape_ok(j: Json) -> bool {
        &&& j is Object
        &&& ok_req_i32(j, "torrentCount"@)
        &&& ok_req_i32(j, "activeTorrentCount"@)
        &&& ok_req_i32(j, "pausedTorrentCount"@)
        &&& ok_req_i64(j, "downloadSpeed"@)
        &&& ok_req_i64(j, "uploadSpeed"@)
        &&& ok_req_entity::<Stats>(j, "current-stats"@)
        &&& ok_req_entity::<Stats>(j, "cumulative-stats"@)
    }

    open spec fn arg_matches(j: Json, v: Self) -> bool {
        &&& m_req_i32(j, "torrentCount"@, v.torrent_count)
        &&& m_req_i32(j, "activeTorrentCount"@, v.active_torrent_count)
        &&& m_req_i32(j, "pausedTorrentCount"@, v.paused_torrent_count)
        &&& m_req_i64(j, "downloadSpeed"@, v.download_speed)
        &&& m_req_i64(j, "uploadSpeed"@, v.upload_speed)
        &&& m_req_entity::<Stats>(j, "current-stats"@, v.current_stats)
        &&& m_req_entity::<Stats>(j, "cumulative-stats"@, v.cumulative_stats)
    }

    #[verifier::rlimit(60)]
    fn from_json(j: &Json) -> (r: Result<Self, DecodeError>) {
        require_object(j)?;
        let torrent_count = get_req_i32(j, "torrentCount")?;
        let active_torrent_count = get_req_i32(j, "activeTorrentCount")?;
        let paused_torrent_count = get_req_i32(j, "pausedTorrentCount")?;
        let download_speed = get_req_i64(j, "downloadSpeed")?;
        let upload_speed = get_req_i64(j, "uploadSpeed")?;
        let current_stats = get_req_entity::<Stats>(j, "current-stats")?;
        let cumulative_stats = get_req_entity::<Stats>(j, "cumulative-stats")?;
        Ok(SessionStats {
            torrent_count,
            active_torrent_count,
            paused_torrent_count,
            download_speed,
            upload_speed,
            current_stats,
            cumulative_stats,
        })
    }
}

/// The empty result of session-close.
#[derive(Debug, Clone)]
pub struct SessionClose {
}

impl RpcResponseArgument for SessionClose {
    open spec fn arg_shape_ok(j: Json) -> bool {
        &&& j is Object
    }

    open spec fn arg_matches(j: Json, v: Self) -> bool {
        true
    }

    fn from_json(j: &Json) -> (r: Result<Self, DecodeError>) {
        require_object(j)?;
        Ok(SessionClose {
        })
    }
}

/// The result of blocklist-update.
#[derive(Debug, Clone)]
pub struct BlocklistUpdate {
    pub blocklist_size: Option<i32>,
}

impl RpcResponseArgument for BlocklistUpdate {
    open spec fn arg_shape_ok(j: Json) -> bool {
        &&& j is Object
        &&& ok_opt_i32(j, "blocklist-size"@)
    }

    open spec fn arg_matches(j: Json, v: Self) -> bool {
        &&& m_opt_i32(j, "blocklist-size"@, v.blocklist_size)
    }

    fn from_json(j: &Json) -> (r: Result<Self, DecodeError>) {
        require_object(j)?;
        let blocklist_size = get_opt_i32(j, "blocklist-size")?;
        Ok(BlocklistUpdate {
            blocklist_size,
        })
    }
}

/// The result of free-space.
#[derive(Debug, Clone)]
pub struct FreeSpace {
    pub path: String,
    pub size_bytes: i64,
}

impl RpcResponseArgument for FreeSpace {
    open spec fn arg_shape_ok(j: Json) -> bool {
        &&& j is Object
        &&& ok_req_text(j, "path"@)
        &&& ok_req_i64(j, "size-bytes"@)
    }

    open spec fn arg_matches(j: Json, v: Self) -> bool {
        &&& m_req_text(j, "path"@, v.path)
        &&& m_req_i64(j, "size-bytes"@, v.size_bytes)
    }

    fn from_json(j: &Json) -> (r: Result<Self, DecodeError>) {
        require_object(j)?;
        let path = get_req_text(j, "path")?;
        let size_bytes = get_req_i64(j, "size-bytes")?;
        Ok(FreeSpace {
            path,
            size_bytes,
        })
    }
}

/// The result of port-test.
#[derive(Debug, Clone)]
pub struct PortTest {
    pub port_is_open: bool,
}

impl RpcResponseArgument for PortTest {
    open spec fn arg_shape_ok(j: Json) -> bool {
        &&& j is Object
        &&& ok_req_bool(j, "port-is-open"@)
    }

    open spec fn arg_matches(j: Json, v: Self) -> bool {
        &&& m_req_bool(j, "port-is-open"@, v.port_is_open)
    }

    fn from_json(j: &Json) -> (r: Result<Self, DecodeError>) {
        require_object(j)?;
        let port_is_open = get_req_bool(j, "port-is-open")?;
        Ok(PortTest {
            port_is_open,
        })
    }
}

/// The empty result of methods that report nothing.
#[derive(Debug, Clone)]
pub struct Nothing {
}

impl RpcResponseArgument for Nothing {
    open spec fn arg_shape_ok(j: Json) -> bool {
        &&& j is Object
    }

    open spec fn arg_matches(j: Json, v: Self) -> bool {
        true
    }

    fn from_json(j: &Json) -> (r: Result<Self, DecodeError>) {
        require_object(j)?;
        Ok(Nothing {
        })
    }
}

/// The result of torrent-rename-path.
#[derive(Debug, Clone)]
pub struct TorrentRenamePath {
    pub path: Option<String>,
    pub name: Option<String>,
    pub id: Option<i64>,
}

impl RpcResponseArgument for TorrentRenamePath {
    open spec fn arg_shape_ok(j: Json) -> bool {
        &&& j is Object
        &&& ok_opt_text(j, "path"@)
        &&& ok_opt_text(j, "name"@)
        &&& ok_opt_i64(j, "id"@)
    }

    open spec fn arg_matches(j: Json, v: Self) -> bool {
        &&& m_opt_text(j, "path"@, v.path)
        &&& m_opt_text(j, "name"@, v.name)
        &&& m_opt_i64(j, "id"@, v.id)
    }

    fn from_json(j: &Json) -> (r: Result<Self, DecodeError>) {
        require_object(j)?;
        let path = get_opt_text(j, "path")?;
        let name = get_opt_text(j, "name")?;
        let id = get_opt_i64(j, "id")?;
        Ok(TorrentRenamePath {
            path,
            name,
            id,
        })
    }
}
/// The result of torrent-get: the list of reported torrents.
#[derive(Debug)]
pub struct Torrents<T> {
    pub torrents: Vec<T>,
}

impl RpcResponseArgument for Torrents<Torrent> {
    open spec fn arg_shape_ok(j: Json) -> bool {
        &&& j is Object
        &&& ok_req_entity_list::<Torrent>(j, "torrents"@)
    }

    open spec fn arg_matches(j: Json, v: Self) -> bool {
        m_req_entity_list::<Torrent>(j, "torrents"@, v.torrents)
    }

    fn from_json(j: &Json) -> (r: Result<Self, DecodeError>) {
        require_object(j)?;
        let torrents = get_req_entity_list::<Torrent>(j, "torrents")?;
        Ok(Torrents { torrents })
    }
}

/// The result of torrent-add: the added torrent, or nothing when the
/// daemon recognized the content as a duplicate.
#[derive(Debug)]
pub struct TorrentAdded {
    pub torrent_added: Option<Torrent>,
}

impl RpcResponseArgument for TorrentAdded {
    open spec fn arg_shape_ok(j: Json) -> bool {
        &&& j is Object
        &&& ok_opt_entity::<Torrent>(j, "torrent-added"@)
    }

    open spec fn arg_matches(j: Json, v: Self) -> bool {
        m_opt_entity::<Torrent>(j, "torrent-added"@, v.torrent_added)
    }

    fn from_json(j: &Json) -> (r: Result<Self, DecodeError>) {
        require_object(j)?;
        let torrent_added = get_opt_entity::<Torrent>(j, "torrent-added")?;
        Ok(TorrentAdded { torrent_added })
    }
}

// ---------------------------------------------------------------------------
// The reply envelope
// ---------------------------------------------------------------------------
/// Whether a reply object has a well-shaped envelope for payload type `T`:
/// a result string, and an arguments member `T` accepts.
pub open spec fn resp_shape_ok<T: RpcResponseArgument>(j: Json) -> bool {
    &&& j is Object
    &&& json_member(j, "result"@) matches Some(Json::Text(_))
    &&& json_member(j, "arguments"@) matches Some(a) && T::arg_shape_ok(a)
}

/// How a decoded envelope relates to the reply object.
pub open spec fn resp_matches<T: RpcResponseArgument>(j: Json, v: RpcResponse<T>) -> bool {
    &&& (match json_member(j, "result"@) {
        Some(Json::Text(s)) => v.result@ == s@,
        _ => true,
    })
    &&& (match json_member(j, "arguments"@) {
        Some(a) => T::arg_matches(a, v.arguments),
        None => true,
    })
}

/// A reply envelope: the daemon's outcome string, preserved verbatim, and
/// the method-specific result payload.
#[derive(Debug)]
pub struct RpcResponse<T: RpcResponseArgument> {
    pub arguments: T,
    pub result: String,
}

impl<T: RpcResponseArgument> RpcResponse<T> {
    /// Decodes a reply for the method whose result type is `T`; fails
    /// exactly when the envelope or some known member has an unacceptable
    /// shape.
    pub fn from_json(j: &Json) -> (r: Result<Self, DecodeError>)
        ensures
            r matches Ok(v) ==> resp_shape_ok::<T>(*j) && resp_matches::<T>(*j, v),
            r is Err <==> !resp_shape_ok::<T>(*j),
    {
        require_object(j)?;
        let result = get_req_text(j, "result")?;
        match find_member(j, "arguments") {
            Some(a) => {
                let arguments = T::from_json(a)?;
                Ok(RpcResponse { arguments, result })
            },
            None => Err(DecodeError),
        }
    }

    /// True exactly when the daemon reported the literal outcome string
    /// "success"; any other string, the empty one included, is a failure.
    pub fn is_ok(&self) -> (r: bool)
        ensures
            r == (self.result@ == "success"@),
    {
        let succ = String::from_str("success");
        self.result == succ
    }
}

// ---------------------------------------------------------------------------
// Laws relating the catalog to the torrent record
// ---------------------------------------------------------------------------
/// Whether the torrent record stores a given catalog field under exactly
/// its catalog wire name. The few fields this does not hold of are either
/// absent from the record or decoded under a different member name.
pub open spec fn catalog_field_stored(f: TorrentGetField) -> bool {
    match f {
        TorrentGetField::Availability => false,
        TorrentGetField::Filecount => false,
        TorrentGetField::Group => false,
        TorrentGetField::Labels => false,
        TorrentGetField::Peerlimit => false,
        TorrentGetField::Piecesize => false,
        TorrentGetField::Primarymimetype => false,
        TorrentGetField::Trackerlist => false,
        _ => true,
    }
}

/// Whether the attribute a catalog field names is present in a decoded
/// torrent. False for the fields the record does not store.
pub open spec fn torrent_attr_present(t: Torrent, f: TorrentGetField) -> bool {
    match f {
        TorrentGetField::Activitydate => t.activity_date is Some,
        TorrentGetField::Addeddate => t.added_date is Some,
        TorrentGetField::Availability => false,
        TorrentGetField::Bandwidthpriority => t.bandwidth_priority is Some,
        TorrentGetField::Comment => t.comment is Some,
        TorrentGetField::Corruptever => t.corrupt_ever is Some,
        TorrentGetField::Creator => t.creator is Some,
        TorrentGetField::Datecreated => t.date_created is Some,
        TorrentGetField::Desiredavailable => t.desired_available is Some,
        TorrentGetField::Donedate => t.done_date is Some,
        TorrentGetField::Downloaddir => t.download_dir is Some,
        TorrentGetField::Downloadedever => t.downloaded_ever is Some,
        TorrentGetField::Downloadlimit => t.download_limit is Some,
        TorrentGetField::Downloadlimited => t.download_limited is Some,
        TorrentGetField::Editdate => t.edit_date is Some,
        TorrentGetField::Error => t.error is Some,
        TorrentGetField::Errorstring => t.error_string is Some,
        TorrentGetField::Eta => t.eta is Some,
        TorrentGetField::Etaidle => t.eta_idle is Some,
        TorrentGetField::Filecount => false,
        TorrentGetField::Files => t.files is Some,
        TorrentGetField::Filestats => t.file_stats is Some,
        TorrentGetField::Group => false,
        TorrentGetField::HashString => t.hash_string is Some,
        TorrentGetField::Haveunchecked => t.have_unchecked is Some,
        TorrentGetField::Havevalid => t.have_valid is Some,
        TorrentGetField::Honorssessionlimits => t.honors_session_limits is Some,
        TorrentGetField::Id => t.id is Some,
        TorrentGetField::Isfinished => t.is_finished is Some,
        TorrentGetField::Isprivate => t.is_private is Some,
        TorrentGetField::Isstalled => t.is_stalled is Some,
        TorrentGetField::Labels => false,
        TorrentGetField::Leftuntildone => t.left_until_done is Some,
        TorrentGetField::Magnetlink => t.magnet_link is Some,
        TorrentGetField::Manualannouncetime => t.manual_announce_time is Some,
        TorrentGetField::Maxconnectedpeers => t.max_connected_peers is Some,
        TorrentGetField::Metadatapercentcomplete => t.metadata_percent_complete is Some,
        TorrentGetField::Name => t.name is Some,
        TorrentGetField::Peerlimit => false,
        TorrentGetField::Peers => t.peers is Some,
        TorrentGetField::Peersconnected => t.peers_connected is Some,
        TorrentGetField::Peersfrom => t.peers_from is Some,
        TorrentGetField::Peersgettingfromus => t.peers_getting_from_us is Some,
        TorrentGetField::Peerssendingtous => t.peers_sending_to_us is Some,
        TorrentGetField::Percentcomplete => t.percent_complete is Some,
        TorrentGetField::Percentdone => t.percent_done is Some,
        TorrentGetField::Pieces => t.pieces is Some,
        TorrentGetField::Piececount => t.piece_count is Some,
        TorrentGetField::Piecesize => false,
        TorrentGetField::Priorities => t.priorities is Some,
        TorrentGetField::Primarymimetype => false,
        TorrentGetField::Queueposition => t.queue_position is Some,
        TorrentGetField::Ratedownload => t.rate_download is Some,
        TorrentGetField::Rateupload => t.rate_upload is Some,
        TorrentGetField::Recheckprogress => t.recheck_progress is Some,
        TorrentGetField::Secondsdownloading => t.seconds_downloading is Some,
        TorrentGetField::Secondsseeding => t.seconds_seeding is Some,
        TorrentGetField::Seedidlelimit => t.seed_idle_limit is Some,
        TorrentGetField::Seedidlemode => t.seed_idle_mode is Some,
        TorrentGetField::Seedratiolimit => t.seed_ratio_limit is Some,
        TorrentGetField::Seedratiomode => t.seed_ratio_mode is Some,
        TorrentGetField::Sizewhendone => t.size_when_done is Some,
        TorrentGetField::Startdate => t.start_date is Some,
        TorrentGetField::Status => t.status is Some,
        TorrentGetField::Trackers => t.trackers is Some,
        TorrentGetField::Trackerlist => false,
        TorrentGetField::Trackerstats => t.tracker_stats is Some,
        TorrentGetField::Totalsize => t.total_size is Some,
        TorrentGetField::Torrentfile => t.torrent_file is Some,
        TorrentGetField::Uploadedever => t.uploaded_ever is Some,
        TorrentGetField::Uploadlimit => t.upload_limit is Some,
        TorrentGetField::Uploadlimited => t.upload_limited is Some,
        TorrentGetField::Uploadratio => t.upload_ratio is Some,
        TorrentGetField::Wanted => t.wanted is Some,
        TorrentGetField::Webseeds => t.webseeds is Some,
        TorrentGetField::Webseedssendingtous => t.webseeds_sending_to_us is Some,
    }
}

/// Whether a reply object carries a member under the catalog wire name of
/// `f`, with a value that is not null.
pub open spec fn requested_member_present(j: Json, f: TorrentGetField) -> bool {
    json_member(j, wire_name(f)) matches Some(v) && !(v is Null)
}

/// Law: the catalog round-trips through a reply. For every catalog field
/// the torrent record stores under its catalog wire name, the decoded
/// attribute is present exactly when the reply object carries that wire
/// name with a non-null value; in particular a field that was not
/// requested, and so does not appear in the reply, decodes to an absent
/// attribute.
#[verifier::rlimit(100)]
pub proof fn lemma_torrent_attr_round_trip(j: Json, t: Torrent, f: TorrentGetField)
    requires
        Torrent::arg_shape_ok(j),
        Torrent::arg_matches(j, t),
        catalog_field_stored(f),
    ensures
        torrent_attr_present(t, f) <==> requested_member_present(j, f),
{
    match f {
        TorrentGetField::Activitydate => {},
        TorrentGetField::Addeddate => {},
        TorrentGetField::Availability => {},
        TorrentGetField::Bandwidthpriority => {},
        TorrentGetField::Comment => {},
        TorrentGetField::Corruptever => {},
        TorrentGetField::Creator => {},
        TorrentGetField::Datecreated => {},
        TorrentGetField::Desiredavailable => {},
        TorrentGetField::Donedate => {},
        TorrentGetField::Downloaddir => {},
        TorrentGetField::Downloadedever => {},
        TorrentGetField::Downloadlimit => {},
        TorrentGetField::Downloadlimited => {},
        TorrentGetField::Editdate => {},
        TorrentGetField::Error => {},
        TorrentGetField::Errorstring => {},
        TorrentGetField::Eta => {},
        TorrentGetField::Etaidle => {},
        TorrentGetField::Filecount => {},
        TorrentGetField::Files => {},
        TorrentGetField::Filestats => {},
        TorrentGetField::Group => {},
        TorrentGetField::HashString => {},
        TorrentGetField::Haveunchecked => {},
        TorrentGetField::Havevalid => {},
        TorrentGetField::Honorssessionlimits => {},
        TorrentGetField::Id => {},
        TorrentGetField::Isfinished => {},
        TorrentGetField::Isprivate => {},
        TorrentGetField::Isstalled => {},
        TorrentGetField::Labels => {},
        TorrentGetField::Leftuntildone => {},
        TorrentGetField::Magnetlink => {},
        TorrentGetField::Manualannouncetime => {},
        TorrentGetField::Maxconnectedpeers => {},
        TorrentGetField::Metadatapercentcomplete => {},
        TorrentGetField::Name => {},
        TorrentGetField::Peerlimit => {},
        TorrentGetField::Peers => {},
        TorrentGetField::Peersconnected => {},
        TorrentGetField::Peersfrom => {},
        TorrentGetField::Peersgettingfromus => {},
        TorrentGetField::Peerssendingtous => {},
        TorrentGetField::Percentcomplete => {},
        TorrentGetField::Percentdone => {},
        TorrentGetField::Pieces => {},
        TorrentGetField::Piececount => {},
        TorrentGetField::Piecesize => {},
        TorrentGetField::Priorities => {},
        TorrentGetField::Primarymimetype => {},
        TorrentGetField::Queueposition => {},
        TorrentGetField::Ratedownload => {},
        TorrentGetField::Rateupload => {},
        TorrentGetField::Recheckprogress => {},
        TorrentGetField::Secondsdownloading => {},
        TorrentGetField::Secondsseeding => {},
        TorrentGetField::Seedidlelimit => {},
        TorrentGetField::Seedidlemode => {},
        TorrentGetField::Seedratiolimit => {},
        TorrentGetField::Seedratiomode => {},
        TorrentGetField::Sizewhendone => {},
        TorrentGetField::Startdate => {},
        TorrentGetField::Status => {},
        TorrentGetField::Trackers => {},
        TorrentGetField::Trackerlist => {},
        TorrentGetField::Trackerstats => {},
        TorrentGetField::Totalsize => {},
        TorrentGetField::Torrentfile => {},
        TorrentGetField::Uploadedever => {},
        TorrentGetField::Uploadlimit => {},
        TorrentGetField::Uploadlimited => {},
        TorrentGetField::Uploadratio => {},
        TorrentGetField::Wanted => {},
        TorrentGetField::Webseeds => {},
        TorrentGetField::Webseedssendingtous => {},
    }
}

/// Law: a torrent object without an eta member decodes to an absent eta,
/// never a placeholder value.
pub proof fn lemma_absent_eta_decodes_absent(j: Json, t: Torrent)
    requires
        Torrent::arg_matches(j, t),
        json_member(j, "eta"@) is None,
    ensures
        t.eta is None,
{
}

/// Law: a torrent-added member that is null is an acceptable shape, and
/// decodes to an absent torrent, not a decode error.
pub proof fn lemma_null_added_torrent_is_absent(j: Json, v: TorrentAdded)
    requires
        j is Object,
        json_member(j, "torrent-added"@) == Some(Json::Null),
    ensures
        TorrentAdded::arg_shape_ok(j),
        TorrentAdded::arg_matches(j, v) ==> v.torrent_added is None,
{
}

} // verus!
