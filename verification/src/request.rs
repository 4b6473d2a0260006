//! The request builder: strongly typed argument payloads for each remote
//! method, and the serializer that renders a request envelope to its exact
//! wire text. Absent optional fields are omitted from the object entirely,
//! never written as null, and renamed fields use their wire spelling.
use vstd::prelude::*;

use crate::fields::{action_name, all_fields, wire_name, TorrentAction, TorrentGetField};
use crate::wire::{
    arr_text, array_str, bool_str, bool_text, i64_str, int_text, member, member_str, obj_text,
    object_str, quoted, quoted_str, views_of,
};

verus! {

/// A torrent reference: a numeric id or a content-hash string. It travels
/// as a bare scalar, never as a wrapped object, and one list may mix both.
#[derive(Debug, Clone, PartialEq)]
pub enum Id {
    Id(i64),
    Hash(String),
}

/// The wire text of one identifier: the bare number or the quoted hash.
pub open spec fn id_text(i: Id) -> Seq<char> {
    match i {
        Id::Id(n) => int_text(n as int),
        Id::Hash(h) => quoted(h@),
    }
}

/// The wire text of an identifier list.
pub open spec fn ids_text(ids: Seq<Id>) -> Seq<char> {
    arr_text(Seq::new(ids.len(), |k: int| id_text(ids[k])))
}

/// The wire text of a list of already-translated field names.
pub open spec fn names_text(names: Seq<String>) -> Seq<char> {
    arr_text(Seq::new(names.len(), |k: int| quoted(names[k]@)))
}

/// The wire text of a list of file indices.
pub open spec fn indices_text(ns: Seq<i32>) -> Seq<char> {
    arr_text(Seq::new(ns.len(), |k: int| int_text(ns[k] as int)))
}

fn ids_str(ids: &Vec<Id>) -> (r: String)
    ensures
        r@ == ids_text(ids@),
{
    let mut parts: Vec<String> = Vec::new();
    let mut k: usize = 0;
    while k < ids.len()
        invariant
            k <= ids@.len(),
            parts@.len() == k,
            forall|i: int| 0 <= i < k ==> parts@[i]@ == id_text(ids@[i]),
        decreases ids@.len() - k,
    {
        match &ids[k] {
            Id::Id(n) => parts.push(i64_str(*n)),
            Id::Hash(h) => parts.push(quoted_str(h.as_str())),
        }
        k = k + 1;
    }
    assert(views_of(parts@) =~= Seq::new(ids@.len(), |k: int| id_text(ids@[k])));
    array_str(&parts)
}

fn names_str(names: &Vec<String>) -> (r: String)
    ensures
        r@ == names_text(names@),
{
    let mut parts: Vec<String> = Vec::new();
    let mut k: usize = 0;
    while k < names.len()
        invariant
            k <= names@.len(),
            parts@.len() == k,
            forall|i: int| 0 <= i < k ==> parts@[i]@ == quoted(names@[i]@),
        decreases names@.len() - k,
    {
        parts.push(quoted_str(names[k].as_str()));
        k = k + 1;
    }
    assert(views_of(parts@) =~= Seq::new(names@.len(), |k: int| quoted(names@[k]@)));
    array_str(&parts)
}

fn indices_str(ns: &Vec<i32>) -> (r: String)
    ensures
        r@ == indices_text(ns@),
{
    let mut parts: Vec<String> = Vec::new();
    let mut k: usize = 0;
    while k < ns.len()
        invariant
            k <= ns@.len(),
            parts@.len() == k,
            forall|i: int| 0 <= i < k ==> parts@[i]@ == int_text(ns@[i] as int),
        decreases ns@.len() - k,
    {
        parts.push(i64_str(ns[k] as i64));
        k = k + 1;
    }
    assert(views_of(parts@) =~= Seq::new(ns@.len(), |k: int| int_text(ns@[k] as int)));
    array_str(&parts)
}

// ---------------------------------------------------------------------------
// Argument payloads
// ---------------------------------------------------------------------------
/// Marker for the types a torrent-get field list may enumerate.
pub trait ArgumentFields {

}

impl ArgumentFields for TorrentGetField {

}

/// Arguments of free-space.
#[derive(Debug, Clone)]
pub struct FreeSpaceArgs {
    pub path: String,
}

/// Arguments of torrent-get; both members are omitted when absent.
#[derive(Debug, Clone)]
pub struct TorrentGetArgs {
    pub fields: Option<Vec<String>>,
    pub ids: Option<Vec<Id>>,
}

impl Default for TorrentGetArgs {
    /// The full catalog's wire names, in catalog order, and every torrent.
    fn default() -> (r: Self)
        ensures
            r.fields matches Some(names) && names@.len() == all_fields().len() && (forall|i: int|
                0 <= i < all_fields().len() ==> names@[i]@ == wire_name(all_fields()[i])),
            r.ids is None,
    {
        let base = TorrentGetField::all();
        let mut names: Vec<String> = Vec::new();
        let mut k: usize = 0;
        while k < base.len()
            invariant
                k <= base@.len(),
                base@ == all_fields(),
                names@.len() == k,
                forall|i: int| 0 <= i < k ==> names@[i]@ == wire_name(base@[i]),
            decreases base@.len() - k,
        {
            names.push(base[k].to_str());
            k = k + 1;
        }
        TorrentGetArgs { fields: Some(names), ids: None }
    }
}

/// Arguments of the torrent-action family: the identifier list alone.
#[derive(Debug, Clone)]
pub struct TorrentActionArgs {
    pub ids: Vec<Id>,
}

/// Arguments of torrent-remove; the boolean travels as delete-local-data.
#[derive(Debug, Clone)]
pub struct TorrentRemoveArgs {
    pub ids: Vec<Id>,
    pub delete_local_data: bool,
}

/// Arguments of torrent-set-location; move_from travels as move.
#[derive(Debug, Clone)]
pub struct TorrentSetLocationArgs {
    pub ids: Vec<Id>,
    pub location: String,
    pub move_from: Option<bool>,
}

/// Arguments of torrent-rename-path.
#[derive(Debug, Clone)]
pub struct TorrentRenamePathArgs {
    pub ids: Vec<Id>,
    pub path: String,
    pub name: String,
}

/// Arguments of torrent-add. Exactly one of filename and metainfo should be
/// supplied; the builder forwards whatever the caller chose, the daemon is
/// the arbiter. Every member is omitted from the wire object when absent.
#[derive(Debug, Clone)]
pub struct TorrentAddArgs {
    pub cookies: Option<String>,
    pub download_dir: Option<String>,
    /// Filename or URL of the .torrent file; this or metainfo should be set.
    pub filename: Option<String>,
    /// Base64-encoded .torrent content; this or filename should be set.
    pub metainfo: Option<String>,
    pub paused: Option<bool>,
    pub peer_limit: Option<i64>,
    pub bandwidth_priority: Option<i64>,
    /// Indices of files to download; files in neither list are still wanted.
    pub files_wanted: Option<Vec<i32>>,
    /// Indices of files not to download.
    pub files_unwanted: Option<Vec<i32>>,
    /// Indices of files to download with high priority.
    pub priority_high: Option<Vec<i32>>,
    /// Indices of files to download with low priority.
    pub priority_low: Option<Vec<i32>>,
    /// Indices of files to download with normal priority.
    pub priority_normal: Option<Vec<i32>>,
}

impl Default for TorrentAddArgs {
    /// All members absent.
    fn default() -> (r: Self)
        ensures
            r.cookies is None,
            r.download_dir is None,
            r.filename is None,
            r.metainfo is None,
            r.paused is None,
            r.peer_limit is None,
            r.bandwidth_priority is None,
            r.files_wanted is None,
            r.files_unwanted is None,
            r.priority_high is None,
            r.priority_low is None,
            r.priority_normal is None,
    {
        TorrentAddArgs {
            cookies: None,
            download_dir: None,
            filename: None,
            metainfo: None,
            paused: None,
            peer_limit: None,
            bandwidth_priority: None,
            files_wanted: None,
            files_unwanted: None,
            priority_high: None,
            priority_low: None,
            priority_normal: None,
        }
    }
}

/// The method-specific argument payload: a closed union whose variant is
/// implied by the method name on the wire, never by a discriminator.
#[derive(Debug, Clone)]
pub enum Args {
    FreeSpaceArgs(FreeSpaceArgs),
    TorrentGetArgs(TorrentGetArgs),
    TorrentActionArgs(TorrentActionArgs),
    TorrentRemoveArgs(TorrentRemoveArgs),
    TorrentAddArgs(TorrentAddArgs),
    TorrentSetLocationArgs(TorrentSetLocationArgs),
    TorrentRenamePathArgs(TorrentRenamePathArgs),
}

// ---------------------------------------------------------------------------
// Wire text of each payload: the member lists, in declaration order,
// with absent optional members contributing nothing.
// ---------------------------------------------------------------------------
/// Zero or one rendered members for an optional string value.
pub open spec fn opt_text_member(key: Seq<char>, o: Option<String>) -> Seq<Seq<char>> {
    match o {
        Some(s) => seq![member(key, quoted(s@))],
        None => seq![],
    }
}

/// Zero or one rendered members for an optional boolean.
pub open spec fn opt_bool_member(key: Seq<char>, o: Option<bool>) -> Seq<Seq<char>> {
    match o {
        Some(b) => seq![member(key, bool_text(b))],
        None => seq![],
    }
}

/// Zero or one rendered members for an optional integer.
pub open spec fn opt_i64_member(key: Seq<char>, o: Option<i64>) -> Seq<Seq<char>> {
    match o {
        Some(n) => seq![member(key, int_text(n as int))],
        None => seq![],
    }
}

/// Zero or one rendered members for an optional index list.
pub open spec fn opt_indices_member(key: Seq<char>, o: Option<Vec<i32>>) -> Seq<Seq<char>> {
    match o {
        Some(ns) => seq![member(key, indices_text(ns@))],
        None => seq![],
    }
}

pub open spec fn free_space_members(a: FreeSpaceArgs) -> Seq<Seq<char>> {
    seq![member("path"@, quoted(a.path@))]
}

pub open spec fn torrent_get_members(a: TorrentGetArgs) -> Seq<Seq<char>> {
    (match a.fields {
        Some(names) => seq![member("fields"@, names_text(names@))],
        None => seq![],
    }) + (match a.ids {
        Some(ids) => seq![member("ids"@, ids_text(ids@))],
        None => seq![],
    })
}

pub open spec fn torrent_action_members(a: TorrentActionArgs) -> Seq<Seq<char>> {
    seq![member("ids"@, ids_text(a.ids@))]
}

pub open spec fn torrent_remove_members(a: TorrentRemoveArgs) -> Seq<Seq<char>> {
    seq![
        member("ids"@, ids_text(a.ids@)),
        member("delete-local-data"@, bool_text(a.delete_local_data)),
    ]
}

pub open spec fn torrent_set_location_members(a: TorrentSetLocationArgs) -> Seq<Seq<char>> {
    seq![member("ids"@, ids_text(a.ids@)), member("location"@, quoted(a.location@))]
        + opt_bool_member("move"@, a.move_from)
}

pub open spec fn torrent_rename_path_members(a: TorrentRenamePathArgs) -> Seq<Seq<char>> {
    seq![
        member("ids"@, ids_text(a.ids@)),
        member("path"@, quoted(a.path@)),
        member("name"@, quoted(a.name@)),
    ]
}

pub open spec fn torrent_add_members(a: TorrentAddArgs) -> Seq<Seq<char>> {
    opt_text_member("cookies"@, a.cookies) + opt_text_member("download-dir"@, a.download_dir)
        + opt_text_member("filename"@, a.filename) + opt_text_member("metainfo"@, a.metainfo)
        + opt_bool_member("paused"@, a.paused) + opt_i64_member("peer-limit"@, a.peer_limit)
        + opt_i64_member("bandwidthPriority"@, a.bandwidth_priority) + opt_indices_member(
        "files-wanted"@,
        a.files_wanted,
    ) + opt_indices_member("files-unwanted"@, a.files_unwanted) + opt_indices_member(
        "priority-high"@,
        a.priority_high,
    ) + opt_indices_member("priority-low"@, a.priority_low) + opt_indices_member(
        "priority-normal"@,
        a.priority_normal,
    )
}

/// The rendered members of one argument payload.
pub open spec fn args_members(a: Args) -> Seq<Seq<char>> {
    match a {
        Args::FreeSpaceArgs(x) => free_space_members(x),
        Args::TorrentGetArgs(x) => torrent_get_members(x),
        Args::TorrentActionArgs(x) => torrent_action_members(x),
        Args::TorrentRemoveArgs(x) => torrent_remove_members(x),
        Args::TorrentAddArgs(x) => torrent_add_members(x),
        Args::TorrentSetLocationArgs(x) => torrent_set_location_members(x),
        Args::TorrentRenamePathArgs(x) => torrent_rename_path_members(x),
    }
}

/// The wire text of one argument payload: a flat object.
pub open spec fn args_text(a: Args) -> Seq<char> {
    obj_text(args_members(a))
}

fn free_space_str(a: &FreeSpaceArgs) -> (r: String)
    ensures
        r@ == args_text(Args::FreeSpaceArgs(*a)),
{
    let mut members: Vec<String> = Vec::new();
    members.push(member_str("path", quoted_str(a.path.as_str())));
    assert(views_of(members@) =~= free_space_members(*a));
    object_str(&members)
}

fn torrent_get_str(a: &TorrentGetArgs) -> (r: String)
    ensures
        r@ == args_text(Args::TorrentGetArgs(*a)),
{
    let mut members: Vec<String> = Vec::new();
    if let Some(names) = &a.fields {
        members.push(member_str("fields", names_str(names)));
    }
    if let Some(ids) = &a.ids {
        members.push(member_str("ids", ids_str(ids)));
    }
    assert(views_of(members@) =~= torrent_get_members(*a));
    object_str(&members)
}

fn torrent_action_str(a: &TorrentActionArgs) -> (r: String)
    ensures
        r@ == args_text(Args::TorrentActionArgs(*a)),
{
    let mut members: Vec<String> = Vec::new();
    members.push(member_str("ids", ids_str(&a.ids)));
    assert(views_of(members@) =~= torrent_action_members(*a));
    object_str(&members)
}

fn torrent_remove_str(a: &TorrentRemoveArgs) -> (r: String)
    ensures
        r@ == args_text(Args::TorrentRemoveArgs(*a)),
{
    let mut members: Vec<String> = Vec::new();
    members.push(member_str("ids", ids_str(&a.ids)));
    members.push(member_str("delete-local-data", bool_str(a.delete_local_data)));
    assert(views_of(members@) =~= torrent_remove_members(*a));
    object_str(&members)
}

fn torrent_set_location_str(a: &TorrentSetLocationArgs) -> (r: String)
    ensures
        r@ == args_text(Args::TorrentSetLocationArgs(*a)),
{
    let mut members: Vec<String> = Vec::new();
    members.push(member_str("ids", ids_str(&a.ids)));
    members.push(member_str("location", quoted_str(a.location.as_str())));
    if let Some(b) = a.move_from {
        members.push(member_str("move", bool_str(b)));
    }
    assert(views_of(members@) =~= torrent_set_location_members(*a));
    object_str(&members)
}

fn torrent_rename_path_str(a: &TorrentRenamePathArgs) -> (r: String)
    ensures
        r@ == args_text(Args::TorrentRenamePathArgs(*a)),
{
    let mut members: Vec<String> = Vec::new();
    members.push(member_str("ids", ids_str(&a.ids)));
    members.push(member_str("path", quoted_str(a.path.as_str())));
    members.push(member_str("name", quoted_str(a.name.as_str())));
    assert(views_of(members@) =~= torrent_rename_path_members(*a));
    object_str(&members)
}

fn push_opt_text(members: &mut Vec<String>, key: &str, o: &Option<String>)
    ensures
        views_of(final(members)@) == views_of(old(members)@) + opt_text_member(key@, *o),
{
    if let Some(s) = o {
        members.push(member_str(key, quoted_str(s.as_str())));
    }
    assert(views_of(members@) =~= views_of(old(members)@) + opt_text_member(key@, *o));
}

fn push_opt_bool(members: &mut Vec<String>, key: &str, o: &Option<bool>)
    ensures
        views_of(final(members)@) == views_of(old(members)@) + opt_bool_member(key@, *o),
{
    if let Some(b) = o {
        members.push(member_str(key, bool_str(*b)));
    }
    assert(views_of(members@) =~= views_of(old(members)@) + opt_bool_member(key@, *o));
}

fn push_opt_i64(members: &mut Vec<String>, key: &str, o: &Option<i64>)
    ensures
        views_of(final(members)@) == views_of(old(members)@) + opt_i64_member(key@, *o),
{
    if let Some(n) = o {
        members.push(member_str(key, i64_str(*n)));
    }
    assert(views_of(members@) =~= views_of(old(members)@) + opt_i64_member(key@, *o));
}

fn push_opt_indices(members: &mut Vec<String>, key: &str, o: &Option<Vec<i32>>)
    ensures
        views_of(final(members)@) == views_of(old(members)@) + opt_indices_member(key@, *o),
{
    if let Some(ns) = o {
        members.push(member_str(key, indices_str(ns)));
    }
    assert(views_of(members@) =~= views_of(old(members)@) + opt_indices_member(key@, *o));
}

fn torrent_add_str(a: &TorrentAddArgs) -> (r: String)
    ensures
        r@ == args_text(Args::TorrentAddArgs(*a)),
{
    let mut members: Vec<String> = Vec::new();
    assert(views_of(members@) =~= Seq::<Seq<char>>::empty());
    push_opt_text(&mut members, "cookies", &a.cookies);
    push_opt_text(&mut members, "download-dir", &a.download_dir);
    push_opt_text(&mut members, "filename", &a.filename);
    push_opt_text(&mut members, "metainfo", &a.metainfo);
    push_opt_bool(&mut members, "paused", &a.paused);
    push_opt_i64(&mut members, "peer-limit", &a.peer_limit);
    push_opt_i64(&mut members, "bandwidthPriority", &a.bandwidth_priority);
    push_opt_indices(&mut members, "files-wanted", &a.files_wanted);
    push_opt_indices(&mut members, "files-unwanted", &a.files_unwanted);
    push_opt_indices(&mut members, "priority-high", &a.priority_high);
    push_opt_indices(&mut members, "priority-low", &a.priority_low);
    push_opt_indices(&mut members, "priority-normal", &a.priority_normal);
    assert(views_of(members@) =~= torrent_add_members(*a));
    object_str(&members)
}

fn args_str(a: &Args) -> (r: String)
    ensures
        r@ == args_text(*a),
{
    match a {
        Args::FreeSpaceArgs(x) => free_space_str(x),
        Args::TorrentGetArgs(x) => torrent_get_str(x),
        Args::TorrentActionArgs(x) => torrent_action_str(x),
        Args::TorrentRemoveArgs(x) => torrent_remove_str(x),
        Args::TorrentAddArgs(x) => torrent_add_str(x),
        Args::TorrentSetLocationArgs(x) => torrent_set_location_str(x),
        Args::TorrentRenamePathArgs(x) => torrent_rename_path_str(x),
    }
}

// ---------------------------------------------------------------------------
// The request envelope
// ---------------------------------------------------------------------------
/// A request envelope: the method name, and the payload for methods that
/// take one. A method without parameters carries no arguments member at all.
#[derive(Debug)]
pub struct RpcRequest {
    pub method: String,
    pub arguments: Option<Args>,
}

/// The rendered members of the envelope: the method, then the arguments
/// member exactly when the method has a payload.
pub open spec fn req_members(r: RpcRequest) -> Seq<Seq<char>> {
    seq![member("method"@, quoted(r.method@))] + (match r.arguments {
        Some(a) => seq![member("arguments"@, args_text(a))],
        None => seq![],
    })
}

/// The exact wire text of a request envelope.
pub open spec fn req_text(r: RpcRequest) -> Seq<char> {
    obj_text(req_members(r))
}

impl RpcRequest {
    /// Serializes the envelope to its exact wire text.
    pub fn to_json(&self) -> (r: String)
        ensures
            r@ == req_text(*self),
    {
        let mut members: Vec<String> = Vec::new();
        members.push(member_str("method", quoted_str(self.method.as_str())));
        if let Some(a) = &self.arguments {
            members.push(member_str("arguments", args_str(a)));
        }
        assert(views_of(members@) =~= req_members(*self));
        object_str(&members)
    }

    pub fn session_get() -> (r: RpcRequest)
        ensures
            r.method@ == "session-get"@,
            r.arguments is None,
    {
        RpcRequest { method: String::from_str("session-get"), arguments: None }
    }

    pub fn session_stats() -> (r: RpcRequest)
        ensures
            r.method@ == "session-stats"@,
            r.arguments is None,
    {
        RpcRequest { method: String::from_str("session-stats"), arguments: None }
    }

    pub fn session_close() -> (r: RpcRequest)
        ensures
            r.method@ == "session-close"@,
            r.arguments is None,
    {
        RpcRequest { method: String::from_str("session-close"), arguments: None }
    }

    pub fn blocklist_update() -> (r: RpcRequest)
        ensures
            r.method@ == "blocklist-update"@,
            r.arguments is None,
    {
        RpcRequest { method: String::from_str("blocklist-update"), arguments: None }
    }

    pub fn port_test() -> (r: RpcRequest)
        ensures
            r.method@ == "port-test"@,
            r.arguments is None,
    {
        RpcRequest { method: String::from_str("port-test"), arguments: None }
    }

    /// The path names a location on the daemon's host; no local check is made.
    pub fn free_space(path: String) -> (r: RpcRequest)
        ensures
            r.method@ == "free-space"@,
            r.arguments matches Some(Args::FreeSpaceArgs(a)) && a.path == path,
    {
        RpcRequest {
            method: String::from_str("free-space"),
            arguments: Some(Args::FreeSpaceArgs(FreeSpaceArgs { path })),
        }
    }

    /// An absent field list requests the full catalog, in catalog order; an
    /// explicit list is translated name by name, in the caller's order.
    /// Absent ids mean every torrent.
    pub fn torrent_get(fields: Option<Vec<TorrentGetField>>, ids: Option<Vec<Id>>) -> (r:
        RpcRequest)
        ensures
            r.method@ == "torrent-get"@,
            r.arguments matches Some(Args::TorrentGetArgs(a)) && {
                let requested = match fields {
                    Some(fs) => fs@,
                    None => all_fields(),
                };
                &&& a.fields matches Some(names) && names@.len() == requested.len() && (forall|
                    i: int,
                |
                    0 <= i < requested.len() ==> names@[i]@ == wire_name(requested[i]))
                &&& a.ids == ids
            },
    {
        let base: Vec<TorrentGetField> = match fields {
            Some(fs) => fs,
            None => TorrentGetField::all(),
        };
        let mut names: Vec<String> = Vec::new();
        let mut k: usize = 0;
        while k < base.len()
            invariant
                k <= base@.len(),
                names@.len() == k,
                forall|i: int| 0 <= i < k ==> names@[i]@ == wire_name(base@[i]),
            decreases base@.len() - k,
        {
            names.push(base[k].to_str());
            k = k + 1;
        }
        RpcRequest {
            method: String::from_str("torrent-get"),
            arguments: Some(
                Args::TorrentGetArgs(TorrentGetArgs { fields: Some(names), ids }),
            ),
        }
    }

    pub fn torrent_remove(ids: Vec<Id>, delete_local_data: bool) -> (r: RpcRequest)
        ensures
            r.method@ == "torrent-remove"@,
            r.arguments matches Some(Args::TorrentRemoveArgs(a)) && a.ids == ids
                && a.delete_local_data == delete_local_data,
    {
        RpcRequest {
            method: String::from_str("torrent-remove"),
            arguments: Some(
                Args::TorrentRemoveArgs(TorrentRemoveArgs { ids, delete_local_data }),
            ),
        }
    }

    /// Forwards the payload as given; supplying exactly one content source
    /// is the caller's responsibility, the daemon is the arbiter.
    pub fn torrent_add(add: TorrentAddArgs) -> (r: RpcRequest)
        ensures
            r.method@ == "torrent-add"@,
            r.arguments == Some(Args::TorrentAddArgs(add)),
    {
        RpcRequest {
            method: String::from_str("torrent-add"),
            arguments: Some(Args::TorrentAddArgs(add)),
        }
    }

    /// The action selects the wire method name itself; the identifier list
    /// is the sole payload.
    pub fn torrent_action(action: TorrentAction, ids: Vec<Id>) -> (r: RpcRequest)
        ensures
            r.method@ == action_name(action),
            r.arguments matches Some(Args::TorrentActionArgs(a)) && a.ids == ids,
    {
        RpcRequest {
            method: action.to_str(),
            arguments: Some(Args::TorrentActionArgs(TorrentActionArgs { ids })),
        }
    }

    /// move_from, when present, travels under the wire name move.
    pub fn torrent_set_location(ids: Vec<Id>, location: String, move_from: Option<bool>) -> (r:
        RpcRequest)
        ensures
            r.method@ == "torrent-set-location"@,
            r.arguments matches Some(Args::TorrentSetLocationArgs(a)) && a.ids == ids
                && a.location == location && a.move_from == move_from,
    {
        RpcRequest {
            method: String::from_str("torrent-set-location"),
            arguments: Some(
                Args::TorrentSetLocationArgs(TorrentSetLocationArgs { ids, location, move_from }),
            ),
        }
    }

    /// Renames one path component of the torrent's file tree; ids
    /// conventionally hold exactly one identifier, which is not enforced.
    pub fn torrent_rename_path(ids: Vec<Id>, path: String, name: String) -> (r: RpcRequest)
        ensures
            r.method@ == "torrent-rename-path"@,
            r.arguments matches Some(Args::TorrentRenamePathArgs(a)) && a.ids == ids && a.path
                == path && a.name == name,
    {
        RpcRequest {
            method: String::from_str("torrent-rename-path"),
            arguments: Some(
                Args::TorrentRenamePathArgs(TorrentRenamePathArgs { ids, path, name }),
            ),
        }
    }
}

/// Law: a torrent-get payload with a field list serializes a fields member
/// first, holding exactly the given names, one quoted name per entry, in
/// the given order. Together with the builder's contract this pins the
/// serialized list for a defaulted request to the full catalog, in catalog
/// order, with as many entries as lemma_catalog_size gives.
pub proof fn lemma_torrent_get_fields_wire(a: TorrentGetArgs, names: Vec<String>)
    requires
        a.fields == Some(names),
    ensures
        torrent_get_members(a)[0] == member("fields"@, names_text(names@)),
        names_text(names@) == arr_text(Seq::new(names@.len(), |k: int| quoted(names@[k]@))),
{
}

/// Law: a request without arguments serializes as the single-member object
/// holding the method name alone; no arguments member appears.
pub proof fn lemma_no_argument_wire(r: RpcRequest)
    requires
        r.arguments is None,
    ensures
        req_text(r) == seq!['{'] + member("method"@, quoted(r.method@)) + seq!['}'],
{
    assert(req_members(r) =~= seq![member("method"@, quoted(r.method@))]);
    assert(req_text(r) =~= seq!['{'] + member("method"@, quoted(r.method@)) + seq!['}']);
}

} // verus!
