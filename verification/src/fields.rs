//! The field and action catalog: the closed set of retrievable torrent
//! attributes with their canonical wire names, and the action verbs whose
//! wire method names encode the action itself.
use vstd::prelude::*;

verus! {

/// Every retrievable torrent attribute the catalog knows.
#[derive(Debug, Clone, PartialEq, Eq, Structural)]
pub enum TorrentGetField {
    Activitydate,
    Addeddate,
    Availability,
    Bandwidthpriority,
    Comment,
    Corruptever,
    Creator,
    Datecreated,
    Desiredavailable,
    Donedate,
    Downloaddir,
    Downloadedever,
    Downloadlimit,
    Downloadlimited,
    Editdate,
    Error,
    Errorstring,
    Eta,
    Etaidle,
    Filecount,
    Files,
    Filestats,
    Group,
    HashString,
    Haveunchecked,
    Havevalid,
    Honorssessionlimits,
    Id,
    Isfinished,
    Isprivate,
    Isstalled,
    Labels,
    Leftuntildone,
    Magnetlink,
    Manualannouncetime,
    Maxconnectedpeers,
    Metadatapercentcomplete,
    Name,
    Peerlimit,
    Peers,
    Peersconnected,
    Peersfrom,
    Peersgettingfromus,
    Peerssendingtous,
    Percentcomplete,
    Percentdone,
    Pieces,
    Piececount,
    Piecesize,
    Priorities,
    Primarymimetype,
    Queueposition,
    Ratedownload,
    Rateupload,
    Recheckprogress,
    Secondsdownloading,
    Secondsseeding,
    Seedidlelimit,
    Seedidlemode,
    Seedratiolimit,
    Seedratiomode,
    Sizewhendone,
    Startdate,
    Status,
    Trackers,
    Trackerlist,
    Trackerstats,
    Totalsize,
    Torrentfile,
    Uploadedever,
    Uploadlimit,
    Uploadlimited,
    Uploadratio,
    Wanted,
    Webseeds,
    Webseedssendingtous,
}

/// The canonical wire name of one catalog field.
pub open spec fn wire_name(f: TorrentGetField) -> Seq<char> {
    match f {
        TorrentGetField::Activitydate => "activityDate"@,
        TorrentGetField::Addeddate => "addedDate"@,
        TorrentGetField::Availability => "availability"@,
        TorrentGetField::Bandwidthpriority => "bandwidthPriority"@,
        TorrentGetField::Comment => "comment"@,
        TorrentGetField::Corruptever => "corruptEver"@,
        TorrentGetField::Creator => "creator"@,
        TorrentGetField::Datecreated => "dateCreated"@,
        TorrentGetField::Desiredavailable => "desiredAvailable"@,
        TorrentGetField::Donedate => "doneDate"@,
        TorrentGetField::Downloaddir => "downloadDir"@,
        TorrentGetField::Downloadedever => "downloadedEver"@,
        TorrentGetField::Downloadlimit => "downloadLimit"@,
        TorrentGetField::Downloadlimited => "downloadLimited"@,
        TorrentGetField::Editdate => "editDate"@,
        TorrentGetField::Error => "error"@,
        TorrentGetField::Errorstring => "errorString"@,
        TorrentGetField::Eta => "eta"@,
        TorrentGetField::Etaidle => "etaIdle"@,
        TorrentGetField::Filecount => "file-count"@,
        TorrentGetField::Files => "files"@,
        TorrentGetField::Filestats => "fileStats"@,
        TorrentGetField::Group => "group"@,
        TorrentGetField::HashString => "hashString"@,
        TorrentGetField::Haveunchecked => "haveUnchecked"@,
        TorrentGetField::Havevalid => "haveValid"@,
        TorrentGetField::Honorssessionlimits => "honorsSessionLimits"@,
        TorrentGetField::Id => "id"@,
        TorrentGetField::Isfinished => "isFinished"@,
        TorrentGetField::Isprivate => "isPrivate"@,
        TorrentGetField::Isstalled => "isStalled"@,
        TorrentGetField::Labels => "labels"@,
        TorrentGetField::Leftuntildone => "leftUntilDone"@,
        TorrentGetField::Magnetlink => "magnetLink"@,
        TorrentGetField::Manualannouncetime => "manualAnnounceTime"@,
        TorrentGetField::Maxconnectedpeers => "maxConnectedPeers"@,
        TorrentGetField::Metadatapercentcomplete => "metadataPercentComplete"@,
        TorrentGetField::Name => "name"@,
        TorrentGetField::Peerlimit => "peer-limit"@,
        TorrentGetField::Peers => "peers"@,
        TorrentGetField::Peersconnected => "peersConnected"@,
        TorrentGetField::Peersfrom => "peersFrom"@,
        TorrentGetField::Peersgettingfromus => "peersGettingFromUs"@,
        TorrentGetField::Peerssendingtous => "peersSendingToUs"@,
        TorrentGetField::Percentcomplete => "percentComplete"@,
        TorrentGetField::Percentdone => "percentDone"@,
        TorrentGetField::Pieces => "pieces"@,
        TorrentGetField::Piececount => "pieceCount"@,
        TorrentGetField::Piecesize => "pieceSize"@,
        TorrentGetField::Priorities => "priorities"@,
        TorrentGetField::Primarymimetype => "primaryMimeType"@,
        TorrentGetField::Queueposition => "queuePosition"@,
        TorrentGetField::Ratedownload => "rateDownload"@,
        TorrentGetField::Rateupload => "rateUpload"@,
        TorrentGetField::Recheckprogress => "recheckProgress"@,
        TorrentGetField::Secondsdownloading => "secondsDownloading"@,
        TorrentGetField::Secondsseeding => "secondsSeeding"@,
        TorrentGetField::Seedidlelimit => "seedIdleLimit"@,
        TorrentGetField::Seedidlemode => "seedIdleMode"@,
        TorrentGetField::Seedratiolimit => "seedRatioLimit"@,
        TorrentGetField::Seedratiomode => "seedRatioMode"@,
        TorrentGetField::Sizewhendone => "sizeWhenDone"@,
        TorrentGetField::Startdate => "startDate"@,
        TorrentGetField::Status => "status"@,
        TorrentGetField::Trackers => "trackers"@,
        TorrentGetField::Trackerlist => "trackerList"@,
        TorrentGetField::Trackerstats => "trackerStats"@,
        TorrentGetField::Totalsize => "totalSize"@,
        TorrentGetField::Torrentfile => "torrentFile"@,
        TorrentGetField::Uploadedever => "uploadedEver"@,
        TorrentGetField::Uploadlimit => "uploadLimit"@,
        TorrentGetField::Uploadlimited => "uploadLimited"@,
        TorrentGetField::Uploadratio => "uploadRatio"@,
        TorrentGetField::Wanted => "wanted"@,
        TorrentGetField::Webseeds => "webseeds"@,
        TorrentGetField::Webseedssendingtous => "webseedsSendingToUs"@,
    }
}

/// The full catalog, in its fixed order.
pub open spec fn all_fields() -> Seq<TorrentGetField> {
    seq![
        TorrentGetField::Activitydate,
        TorrentGetField::Addeddate,
        TorrentGetField::Availability,
        TorrentGetField::Bandwidthpriority,
        TorrentGetField::Comment,
        TorrentGetField::Corruptever,
        TorrentGetField::Creator,
        TorrentGetField::Datecreated,
        TorrentGetField::Desiredavailable,
        TorrentGetField::Donedate,
        TorrentGetField::Downloaddir,
        TorrentGetField::Downloadedever,
        TorrentGetField::Downloadlimit,
        TorrentGetField::Downloadlimited,
        TorrentGetField::Editdate,
        TorrentGetField::Error,
        TorrentGetField::Errorstring,
        TorrentGetField::Eta,
        TorrentGetField::Etaidle,
        TorrentGetField::Filecount,
        TorrentGetField::Files,
        TorrentGetField::Filestats,
        TorrentGetField::Group,
        TorrentGetField::HashString,
        TorrentGetField::Haveunchecked,
        TorrentGetField::Havevalid,
        TorrentGetField::Honorssessionlimits,
        TorrentGetField::Id,
        TorrentGetField::Isfinished,
        TorrentGetField::Isprivate,
        TorrentGetField::Isstalled,
        TorrentGetField::Labels,
        TorrentGetField::Leftuntildone,
        TorrentGetField::Magnetlink,
        TorrentGetField::Manualannouncetime,
        TorrentGetField::Maxconnectedpeers,
        TorrentGetField::Metadatapercentcomplete,
        TorrentGetField::Name,
        TorrentGetField::Peerlimit,
        TorrentGetField::Peers,
        TorrentGetField::Peersconnected,
        TorrentGetField::Peersfrom,
        TorrentGetField::Peersgettingfromus,
        TorrentGetField::Peerssendingtous,
        TorrentGetField::Percentcomplete,
        TorrentGetField::Percentdone,
        TorrentGetField::Pieces,
        TorrentGetField::Piececount,
        TorrentGetField::Piecesize,
        TorrentGetField::Priorities,
        TorrentGetField::Primarymimetype,
        TorrentGetField::Queueposition,
        TorrentGetField::Ratedownload,
        TorrentGetField::Rateupload,
        TorrentGetField::Recheckprogress,
        TorrentGetField::Secondsdownloading,
        TorrentGetField::Secondsseeding,
        TorrentGetField::Seedidlelimit,
        TorrentGetField::Seedidlemode,
        TorrentGetField::Seedratiolimit,
        TorrentGetField::Seedratiomode,
        TorrentGetField::Sizewhendone,
        TorrentGetField::Startdate,
        TorrentGetField::Status,
        TorrentGetField::Trackers,
        TorrentGetField::Trackerlist,
        TorrentGetField::Trackerstats,
        TorrentGetField::Totalsize,
        TorrentGetField::Torrentfile,
        TorrentGetField::Uploadedever,
        TorrentGetField::Uploadlimit,
        TorrentGetField::Uploadlimited,
        TorrentGetField::Uploadratio,
        TorrentGetField::Wanted,
        TorrentGetField::Webseeds,
        TorrentGetField::Webseedssendingtous,
    ]
}

impl TorrentGetField {
    /// The exact wire string for this field.
    pub fn to_str(&self) -> (r: String)
        ensures
            r@ == wire_name(*self),
    {
        match self {
            TorrentGetField::Activitydate => String::from_str("activityDate"),
            TorrentGetField::Addeddate => String::from_str("addedDate"),
            TorrentGetField::Availability => String::from_str("availability"),
            TorrentGetField::Bandwidthpriority => String::from_str("bandwidthPriority"),
            TorrentGetField::Comment => String::from_str("comment"),
            TorrentGetField::Corruptever => String::from_str("corruptEver"),
            TorrentGetField::Creator => String::from_str("creator"),
            TorrentGetField::Datecreated => String::from_str("dateCreated"),
            TorrentGetField::Desiredavailable => String::from_str("desiredAvailable"),
            TorrentGetField::Donedate => String::from_str("doneDate"),
            TorrentGetField::Downloaddir => String::from_str("downloadDir"),
            TorrentGetField::Downloadedever => String::from_str("downloadedEver"),
            TorrentGetField::Downloadlimit => String::from_str("downloadLimit"),
            TorrentGetField::Downloadlimited => String::from_str("downloadLimited"),
            TorrentGetField::Editdate => String::from_str("editDate"),
            TorrentGetField::Error => String::from_str("error"),
            TorrentGetField::Errorstring => String::from_str("errorString"),
            TorrentGetField::Eta => String::from_str("eta"),
            TorrentGetField::Etaidle => String::from_str("etaIdle"),
            TorrentGetField::Filecount => String::from_str("file-count"),
            TorrentGetField::Files => String::from_str("files"),
            TorrentGetField::Filestats => String::from_str("fileStats"),
            TorrentGetField::Group => String::from_str("group"),
            TorrentGetField::HashString => String::from_str("hashString"),
            TorrentGetField::Haveunchecked => String::from_str("haveUnchecked"),
            TorrentGetField::Havevalid => String::from_str("haveValid"),
            TorrentGetField::Honorssessionlimits => String::from_str("honorsSessionLimits"),
            TorrentGetField::Id => String::from_str("id"),
            TorrentGetField::Isfinished => String::from_str("isFinished"),
            TorrentGetField::Isprivate => String::from_str("isPrivate"),
            TorrentGetField::Isstalled => String::from_str("isStalled"),
            TorrentGetField::Labels => String::from_str("labels"),
            TorrentGetField::Leftuntildone => String::from_str("leftUntilDone"),
            TorrentGetField::Magnetlink => String::from_str("magnetLink"),
            TorrentGetField::Manualannouncetime => String::from_str("manualAnnounceTime"),
            TorrentGetField::Maxconnectedpeers => String::from_str("maxConnectedPeers"),
            TorrentGetField::Metadatapercentcomplete => String::from_str("metadataPercentComplete"),
            TorrentGetField::Name => String::from_str("name"),
            TorrentGetField::Peerlimit => String::from_str("peer-limit"),
            TorrentGetField::Peers => String::from_str("peers"),
            TorrentGetField::Peersconnected => String::from_str("peersConnected"),
            TorrentGetField::Peersfrom => String::from_str("peersFrom"),
            TorrentGetField::Peersgettingfromus => String::from_str("peersGettingFromUs"),
            TorrentGetField::Peerssendingtous => String::from_str("peersSendingToUs"),
            TorrentGetField::Percentcomplete => String::from_str("percentComplete"),
            TorrentGetField::Percentdone => String::from_str("percentDone"),
            TorrentGetField::Pieces => String::from_str("pieces"),
            TorrentGetField::Piececount => String::from_str("pieceCount"),
            TorrentGetField::Piecesize => String::from_str("pieceSize"),
            TorrentGetField::Priorities => String::from_str("priorities"),
            TorrentGetField::Primarymimetype => String::from_str("primaryMimeType"),
            TorrentGetField::Queueposition => String::from_str("queuePosition"),
            TorrentGetField::Ratedownload => String::from_str("rateDownload"),
            TorrentGetField::Rateupload => String::from_str("rateUpload"),
            TorrentGetField::Recheckprogress => String::from_str("recheckProgress"),
            TorrentGetField::Secondsdownloading => String::from_str("secondsDownloading"),
            TorrentGetField::Secondsseeding => String::from_str("secondsSeeding"),
            TorrentGetField::Seedidlelimit => String::from_str("seedIdleLimit"),
            TorrentGetField::Seedidlemode => String::from_str("seedIdleMode"),
            TorrentGetField::Seedratiolimit => String::from_str("seedRatioLimit"),
            TorrentGetField::Seedratiomode => String::from_str("seedRatioMode"),
            TorrentGetField::Sizewhendone => String::from_str("sizeWhenDone"),
            TorrentGetField::Startdate => String::from_str("startDate"),
            TorrentGetField::Status => String::from_str("status"),
            TorrentGetField::Trackers => String::from_str("trackers"),
            TorrentGetField::Trackerlist => String::from_str("trackerList"),
            TorrentGetField::Trackerstats => String::from_str("trackerStats"),
            TorrentGetField::Totalsize => String::from_str("totalSize"),
            TorrentGetField::Torrentfile => String::from_str("torrentFile"),
            TorrentGetField::Uploadedever => String::from_str("uploadedEver"),
            TorrentGetField::Uploadlimit => String::from_str("uploadLimit"),
            TorrentGetField::Uploadlimited => String::from_str("uploadLimited"),
            TorrentGetField::Uploadratio => String::from_str("uploadRatio"),
            TorrentGetField::Wanted => String::from_str("wanted"),
            TorrentGetField::Webseeds => String::from_str("webseeds"),
            TorrentGetField::Webseedssendingtous => String::from_str("webseedsSendingToUs"),
        }
    }

    /// The complete, stably ordered list of supported fields.
    pub fn all() -> (r: Vec<TorrentGetField>)
        ensures
            r@ == all_fields(),
    {
        let v = vec![
            TorrentGetField::Activitydate,
            TorrentGetField::Addeddate,
            TorrentGetField::Availability,
            TorrentGetField::Bandwidthpriority,
            TorrentGetField::Comment,
            TorrentGetField::Corruptever,
            TorrentGetField::Creator,
            TorrentGetField::Datecreated,
            TorrentGetField::Desiredavailable,
            TorrentGetField::Donedate,
            TorrentGetField::Downloaddir,
            TorrentGetField::Downloadedever,
            TorrentGetField::Downloadlimit,
            TorrentGetField::Downloadlimited,
            TorrentGetField::Editdate,
            TorrentGetField::Error,
            TorrentGetField::Errorstring,
            TorrentGetField::Eta,
            TorrentGetField::Etaidle,
            TorrentGetField::Filecount,
            TorrentGetField::Files,
            TorrentGetField::Filestats,
            TorrentGetField::Group,
            TorrentGetField::HashString,
            TorrentGetField::Haveunchecked,
            TorrentGetField::Havevalid,
            TorrentGetField::Honorssessionlimits,
            TorrentGetField::Id,
            TorrentGetField::Isfinished,
            TorrentGetField::Isprivate,
            TorrentGetField::Isstalled,
            TorrentGetField::Labels,
            TorrentGetField::Leftuntildone,
            TorrentGetField::Magnetlink,
            TorrentGetField::Manualannouncetime,
            TorrentGetField::Maxconnectedpeers,
            TorrentGetField::Metadatapercentcomplete,
            TorrentGetField::Name,
            TorrentGetField::Peerlimit,
            TorrentGetField::Peers,
            TorrentGetField::Peersconnected,
            TorrentGetField::Peersfrom,
            TorrentGetField::Peersgettingfromus,
            TorrentGetField::Peerssendingtous,
            TorrentGetField::Percentcomplete,
            TorrentGetField::Percentdone,
            TorrentGetField::Pieces,
            TorrentGetField::Piececount,
            TorrentGetField::Piecesize,
            TorrentGetField::Priorities,
            TorrentGetField::Primarymimetype,
            TorrentGetField::Queueposition,
            TorrentGetField::Ratedownload,
            TorrentGetField::Rateupload,
            TorrentGetField::Recheckprogress,
            TorrentGetField::Secondsdownloading,
            TorrentGetField::Secondsseeding,
            TorrentGetField::Seedidlelimit,
            TorrentGetField::Seedidlemode,
            TorrentGetField::Seedratiolimit,
            TorrentGetField::Seedratiomode,
            TorrentGetField::Sizewhendone,
            TorrentGetField::Startdate,
            TorrentGetField::Status,
            TorrentGetField::Trackers,
            TorrentGetField::Trackerlist,
            TorrentGetField::Trackerstats,
            TorrentGetField::Totalsize,
            TorrentGetField::Torrentfile,
            TorrentGetField::Uploadedever,
            TorrentGetField::Uploadlimit,
            TorrentGetField::Uploadlimited,
            TorrentGetField::Uploadratio,
            TorrentGetField::Wanted,
            TorrentGetField::Webseeds,
            TorrentGetField::Webseedssendingtous,
        ];
        assert(v@ =~= all_fields());
        v
    }
}

/// Size of the full catalog.
pub proof fn lemma_catalog_size()
    ensures
        all_fields().len() == 76,
{
}

/// One verb of the torrent-action family; the verb picks the wire method
/// name itself rather than travelling in the payload.
#[derive(Debug, Clone, PartialEq, Eq, Structural)]
pub enum TorrentAction {
    Start,
    Stop,
    StartNow,
    Verify,
    Reannounce,
}

/// The wire method name that a torrent action selects.
pub open spec fn action_name(a: TorrentAction) -> Seq<char> {
    match a {
        TorrentAction::Start => "torrent-start"@,
        TorrentAction::Stop => "torrent-stop"@,
        TorrentAction::StartNow => "torrent-start-now"@,
        TorrentAction::Verify => "torrent-verify"@,
        TorrentAction::Reannounce => "torrent-reannounce"@,
    }
}

impl TorrentAction {
    /// The exact wire method name for this action.
    pub fn to_str(&self) -> (r: String)
        ensures
            r@ == action_name(*self),
    {
        match self {
            TorrentAction::Start => String::from_str("torrent-start"),
            TorrentAction::Stop => String::from_str("torrent-stop"),
            TorrentAction::StartNow => String::from_str("torrent-start-now"),
            TorrentAction::Verify => String::from_str("torrent-verify"),
            TorrentAction::Reannounce => String::from_str("torrent-reannounce"),
        }
    }
}

} // verus!
