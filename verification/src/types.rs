//! The data the bot exchanges with Twitch, Discord, Spotify, Patreon, the
//! game APIs, its own dashboard and its redis store.
#![allow(non_snake_case)]
use std::collections::{HashMap, HashSet};
use vstd::prelude::*;

verus! {

#[derive(Debug, PartialEq, Eq)]
pub enum RedisResult {
    String,
    Hash,
    Vec
}

#[derive(Debug, PartialEq, Eq)]
pub enum AuthError {
    Missing,
    Invalid
}

#[derive(Debug, PartialEq, Eq)]
pub enum ThreadAction {
    Kill,
    Part(String)
}

#[derive(Debug, PartialEq, Eq)]
pub enum ClientAction {
    Command(String, Vec<String>),
    Privmsg(String, String),
    Parsed(String, String),
    Part(String)
}


#[derive(Debug, PartialEq, Eq)]
pub struct DiscordPayload {
    pub heartbeat_inverval: i32
}

#[derive(Debug, PartialEq, Eq)]
/// The claims of a session token: the channel and the expiry time in
/// seconds since the Unix epoch.
pub struct Auth {
    pub channel: String,
    pub exp: u64
}

#[derive(Debug, PartialEq, Eq)]
pub struct TmiChatters {
    pub chatters: Chatters
}

#[derive(Debug, PartialEq, Eq)]
pub struct Chatters {
    pub moderators: Vec<String>,
    pub viewers: Vec<String>,
    pub vips: Vec<String>
}

#[derive(Debug, PartialEq, Eq)]
pub struct TwitchErr {
    pub status: u8,
    pub error: String,
    pub message: String
}

#[derive(Debug, PartialEq, Eq)]
pub struct TwitchRsp {
    pub access_token: String,
    pub token_type: String,
    pub scope: Vec<String>,
    pub refresh_token: String
}

#[derive(Debug, PartialEq, Eq)]
pub struct TwitchRefresh {
    pub access_token: String,
    pub refresh_token: String
}

#[derive(Debug, PartialEq, Eq)]
pub struct SpotifyRsp {
    pub access_token: String,
    pub token_type: String,
    pub scope: String,
    pub refresh_token: String
}

#[derive(Debug, PartialEq, Eq)]
pub struct SpotifyRefresh {
    pub access_token: String,
    pub token_type: String,
    pub scope: String
}

#[derive(Debug, PartialEq, Eq)]
pub struct PatreonRsp {
    pub access_token: String,
    pub token_type: String,
    pub scope: String,
    pub refresh_token: String
}

#[derive(Debug, PartialEq, Eq)]
pub struct PatreonIdentity {
    pub data: PatreonIdentityData,
    pub included: Vec<PatreonIdentityIncluded>
}

#[derive(Debug, PartialEq, Eq)]
pub struct PatreonIdentityIncluded {
    pub id: String,
    pub type_: String,
    pub relationships: Option<PatreonIdentityIncludedRelationships>
}

#[derive(Debug, PartialEq, Eq)]
pub struct PatreonIdentityIncludedRelationships {
    pub campaign: PatreonIdentityIncludedCampaign
}

#[derive(Debug, PartialEq, Eq)]
pub struct PatreonIdentityIncludedCampaign {
    pub data: PatreonIdentityIncludedData
}

#[derive(Debug, PartialEq, Eq)]
pub struct PatreonIdentityIncludedData {
    pub id: String
}

#[derive(Debug, PartialEq, Eq)]
pub struct PatreonIdentityData {
    pub relationships: PatreonIdentityRelationships
}

#[derive(Debug, PartialEq, Eq)]
pub struct PatreonIdentityRelationships {
    pub memberships: PatreonIdentityMemberships
}

#[derive(Debug, PartialEq, Eq)]
pub struct PatreonIdentityMemberships {
    pub data: Vec<PatreonIdentityMembershipsData>
}

#[derive(Debug, PartialEq, Eq)]
pub struct PatreonIdentityMembershipsData {
    pub id: String,
    pub type_: String
}

#[derive(Debug, PartialEq, Eq)]
pub struct HelixClips {
    pub data: Vec<HelixClip>
}

#[derive(Debug, PartialEq, Eq)]
pub struct HelixClip {
    pub id: String
}

#[derive(Debug, PartialEq, Eq)]
pub struct HelixUsers {
    pub data: Vec<HelixUsersData>
}

#[derive(Debug, PartialEq, Eq)]
pub struct HelixUsersData {
    pub id: String,
    pub login: String,
    pub display_name: String
}

#[derive(Debug, PartialEq, Eq)]
pub struct HelixGames {
    pub data: Vec<HelixGamesData>
}

#[derive(Debug, PartialEq, Eq)]
pub struct HelixGamesData {
    pub name: String
}

#[derive(Debug, PartialEq, Eq)]
pub struct KrakenHosts {
    pub hosts: Vec<KrakenHost>
}

#[derive(Debug, PartialEq, Eq)]
pub struct KrakenHost {
    pub host_id: String,
    pub target_id: String
}

#[derive(Debug, PartialEq, Eq)]
pub struct KrakenFollow {
    pub created_at: String
}

#[derive(Debug, PartialEq, Eq)]
pub struct KrakenFollows {
    pub total: i32
}

#[derive(Debug, PartialEq, Eq)]
pub struct KrakenSubs {
    pub total: i32
}

#[derive(Debug, PartialEq, Eq)]
pub struct KrakenUsers {
    pub total: i32,
    pub users: Vec<KrakenUser>
}

#[derive(Debug, PartialEq, Eq)]
pub struct KrakenUser {
    pub id: String,
    pub name: String,
    pub created_at: String
}

#[derive(Debug, PartialEq, Eq)]
pub struct KrakenChannel {
    pub status: String,
    pub game: String,
    pub name: String,
    pub logo: String,
    pub url: String,
    pub display_name: String
}

#[derive(Debug, PartialEq, Eq)]
pub struct KrakenStreams {
    pub streams: Vec<KrakenStream>
}

#[derive(Debug, PartialEq, Eq)]
pub struct KrakenStream {
    pub created_at: String,
    pub viewers: i32,
    pub channel: KrakenChannel
}

#[derive(Debug, PartialEq, Eq)]
pub struct SpotifyPlaying {
    pub item: Option<SpotifyItem>
}

#[derive(Debug, PartialEq, Eq)]
pub struct SpotifyItem {
    pub name: String,
    pub album: SpotifyAlbum,
    pub artists: Vec<SpotifyArtist>
}

#[derive(Debug, PartialEq, Eq)]
pub struct SpotifyAlbum {
    pub name: String
}

#[derive(Debug, PartialEq, Eq)]
pub struct SpotifyArtist {
    pub name: String
}

#[derive(Debug, PartialEq, Eq)]
pub struct FortniteApi {
    pub stats: FortniteStats,
    pub lifeTimeStats: Vec<FortniteLifeStat>,
    pub recentMatches: Vec<FortniteMatch>
}

#[derive(Debug, PartialEq, Eq)]
pub struct FortniteLifeStat {
    pub key: String,
    pub value: String
}

#[derive(Debug, PartialEq, Eq)]
pub struct FortniteStats {
    pub solo: HashMap<String, FortniteStat>,
    pub duo: HashMap<String, FortniteStat>,
    pub squad: HashMap<String, FortniteStat>
}

#[derive(Debug, PartialEq, Eq)]
pub struct FortniteStat {
    pub value: String
}

#[derive(Debug, PartialEq, Eq)]
pub struct FortniteMatch {
    pub id: i64,
    pub playlist: String,
    pub kills: i16,
    pub top1: i16
}


#[derive(Debug, PartialEq, Eq)]
pub struct PubgMatchData {
    pub attributes: PubgMatchAttrs
}

#[derive(Debug, PartialEq, Eq)]
pub struct PubgMatchAttrs {
    pub created_at: String
}


#[derive(Debug, PartialEq, Eq)]
pub struct PubgPlayers {
    pub data: Vec<Player>
}

#[derive(Debug, PartialEq, Eq)]
pub struct Player {
    pub id: String
}

#[derive(Debug, PartialEq, Eq)]
pub struct PubgPlayer {
    pub data: PlayerData
}

#[derive(Debug, PartialEq, Eq)]
pub struct PlayerData {
    pub relationships: PlayerRelationships
}

#[derive(Debug, PartialEq, Eq)]
pub struct PlayerRelationships {
    pub matches: PlayerMatches
}

#[derive(Debug, PartialEq, Eq)]
pub struct PlayerMatches {
    pub data: Vec<PlayerMatch>
}

#[derive(Debug, PartialEq, Eq)]
pub struct PlayerMatch {
    pub id: String,
    pub mtype: String
}

#[derive(Debug, PartialEq, Eq)]
pub struct YoutubeData {
    pub title: String
}

#[derive(Debug, PartialEq, Eq)]
/// The dashboard data. Each map is held as a list of (key, value) pairs in
/// which a key is listed at most once (`ApiData::well_formed`).
pub struct ApiData {
    pub channel: String,
    pub state: String,
    pub fields: Vec<(String, String)>,
    pub commands: Vec<(String, String)>,
    pub notices: Vec<(String, Vec<String>)>,
    pub settings: Vec<(String, String)>,
    pub blacklist: Vec<(String, Vec<(String, String)>)>,
    pub keywords: Vec<(String, Vec<(String, String)>)>,
    pub songreqs: Vec<(String, String, String)>,
    pub integrations: Vec<(String, Vec<(String, String)>)>
}

#[derive(Debug, PartialEq, Eq)]
pub struct ApiReady {
    pub success: bool
}

#[derive(Debug, PartialEq, Eq)]
pub struct ApiRedisReq {
    pub args: Vec<String>,
    pub secret_key: String
}

#[derive(Debug, PartialEq, Eq)]
pub struct ApiRedisExecute {
    pub success: bool,
    pub message: String
}

#[derive(Debug, PartialEq, Eq)]
pub struct ApiRedisString {
    pub success: bool,
    pub message: String,
    pub result: String
}

#[derive(Debug, PartialEq, Eq)]
pub struct ApiRedisVec {
    pub success: bool,
    pub message: String,
    pub result: Vec<String>
}

#[derive(Debug, PartialEq, Eq)]
pub struct ApiRedisHash {
    pub success: bool,
    pub message: String,
    pub result: HashSet<String>
}

#[derive(Debug, PartialEq, Eq)]
/// The reply of the dashboard API endpoints.
pub struct ApiRsp {
    pub success: bool,
    pub field: Option<String>,
    pub success_value: Option<String>,
    pub error_message: Option<String>
}

#[derive(Debug, PartialEq, Eq)]
pub struct LocalRsp {
    pub version: String,
    pub success: bool,
    pub actions: Vec<LocalAction>,
    pub error_message: Option<String>
}

#[derive(Debug, PartialEq, Eq)]
pub struct LocalAction {
    pub name: String,
    pub keys: Vec<u16>,
    pub hold: u64,
    pub delay: u64
}

#[derive(Debug, PartialEq, Eq)]
pub struct ApiLocalReq {
    pub channel: String,
    pub key: String
}

#[derive(Debug, PartialEq, Eq)]
pub struct ApiLogsReq {
    pub num: String
}

#[derive(Debug, PartialEq, Eq)]
pub struct ApiLoginReq {
    pub channel: String,
    pub password: String
}

#[derive(Debug, PartialEq, Eq)]
pub struct ApiSignupReq {
    pub token: String,
    pub refresh: String,
    pub password: String,
    pub invite: String
}

#[derive(Debug, PartialEq, Eq)]
pub struct ApiPasswordReq {
    pub password: String
}

#[derive(Debug, PartialEq, Eq)]
pub struct ApiTitleReq {
    pub title: String
}

#[derive(Debug, PartialEq, Eq)]
pub struct ApiGameReq {
    pub game: String
}

#[derive(Debug, PartialEq, Eq)]
pub struct ApiSaveCommandReq {
    pub command: String,
    pub message: String
}

#[derive(Debug, PartialEq, Eq)]
pub struct ApiTrashCommandReq {
    pub command: String
}

#[derive(Debug, PartialEq, Eq)]
pub struct ApiNoticeReq {
    pub interval: String,
    pub command: String
}

#[derive(Debug, PartialEq, Eq)]
pub struct ApiSaveSettingReq {
    pub name: String,
    pub value: String
}

#[derive(Debug, PartialEq, Eq)]
pub struct ApiTrashSettingReq {
    pub name: String
}

#[derive(Debug, PartialEq, Eq)]
pub struct ApiNewBlacklistReq {
    pub regex: String,
    pub length: String
}

#[derive(Debug, PartialEq, Eq)]
pub struct ApiSaveBlacklistReq {
    pub regex: String,
    pub length: String,
    pub key: String
}

#[derive(Debug, PartialEq, Eq)]
pub struct ApiTrashBlacklistReq {
    pub key: String
}

#[derive(Debug, PartialEq, Eq)]
pub struct ApiNewKeywordReq {
    pub regex: String,
    pub command: String
}

#[derive(Debug, PartialEq, Eq)]
pub struct ApiSaveKeywordReq {
    pub regex: String,
    pub command: String,
    pub key: String
}

#[derive(Debug, PartialEq, Eq)]
pub struct ApiTrashKeywordReq {
    pub key: String
}

#[derive(Debug, PartialEq, Eq)]
pub struct ApiTrashSongReq {
    pub index: usize
}

/// No key is listed twice.
pub open spec fn keys_distinct<V>(pairs: Seq<(String, V)>) -> bool {
    forall|i: int, j: int| 0 <= i < j < pairs.len() ==> pairs[i].0@ != pairs[j].0@
}

/// Every nested map lists each key at most once.
pub open spec fn nested_keys_distinct(maps: Seq<(String, Vec<(String, String)>)>) -> bool {
    &&& keys_distinct(maps)
    &&& forall|i: int| 0 <= i < maps.len() ==> keys_distinct(#[trigger] maps[i].1@)
}

impl ApiData {
    /// Each of the maps lists a key at most once, as a map would.
    pub open spec fn well_formed(self) -> bool {
        &&& keys_distinct(self.fields@)
        &&& keys_distinct(self.commands@)
        &&& keys_distinct(self.notices@)
        &&& keys_distinct(self.settings@)
        &&& nested_keys_distinct(self.blacklist@)
        &&& nested_keys_distinct(self.keywords@)
        &&& nested_keys_distinct(self.integrations@)
    }
}

/// A channel setting as stored in the redis settings hash: text, or a flag.
#[derive(Debug, PartialEq, Eq)]
pub enum Setting {
    String(String),
    Bool(bool)
}

} // verus!
