//! The data model of a Valve query: app identity, request kinds and the
//! typed response records the parsers produce.

use vstd::prelude::*;

verus! {

/// App id of The Ship, whose responses carry extra per-player and info fields.
pub const APPID_THE_SHIP: u32 = 2400;

/// App id of Counter-Strike: Source, whose protocol-7 split fragments omit
/// the size field.
pub const APPID_CSS: u32 = 240;

/// The engine variant being queried. Identity, not a label: it changes field
/// widths, server-type character sets and which wire fields exist at all.
#[derive(Debug, Clone, PartialEq, Eq)]
pub enum App {
    /// A GoldSrc server; `true` forces the obsolete fixed info layout.
    GoldSrc(bool),
    /// A Source server, with an optional expected app id to check against.
    Source(Option<u32>),
}

/// Whether the app identity is The Ship (expected app id equal to its id).
pub open spec fn spec_is_the_ship(app: App) -> bool {
    app matches App::Source(Some(id)) && id == APPID_THE_SHIP
}

/// Whether the app identity is Counter-Strike: Source.
pub open spec fn spec_is_css(app: App) -> bool {
    app matches App::Source(Some(id)) && id == APPID_CSS
}

impl App {
    /// Whether this identity is The Ship.
    pub fn is_the_ship(&self) -> (r: bool)
        ensures
            r == spec_is_the_ship(*self),
    {
        match self {
            App::Source(Some(id)) => *id == APPID_THE_SHIP,
            _ => false,
        }
    }

    /// Whether this identity is Counter-Strike: Source.
    pub fn is_css(&self) -> (r: bool)
        ensures
            r == spec_is_css(*self),
    {
        match self {
            App::Source(Some(id)) => *id == APPID_CSS,
            _ => false,
        }
    }
}

/// The request kinds of the protocol; internal to the request flow.
#[derive(Debug, Clone, Copy, PartialEq, Eq, Structural)]
pub enum Request {
    INFO,
    PLAYERS,
    RULES,
}

impl Request {
    /// The wire byte of this request kind.
    pub open spec fn spec_code(self) -> u8 {
        match self {
            Request::INFO => 0x54,
            Request::PLAYERS => 0x55,
            Request::RULES => 0x56,
        }
    }

    /// The wire byte of this request kind.
    pub fn code(&self) -> (r: u8)
        ensures
            r == self.spec_code(),
    {
        match self {
            Request::INFO => 0x54,
            Request::PLAYERS => 0x55,
            Request::RULES => 0x56,
        }
    }
}

/// How a server is run.
#[derive(Debug, Clone, Copy, PartialEq, Eq, Structural)]
pub enum Server {
    Dedicated,
    NonDedicated,
    TV,
}

/// The operating system a server runs on.
#[derive(Debug, Clone, Copy, PartialEq, Eq, Structural)]
pub enum Environment {
    Linux,
    Windows,
    Mac,
}

/// The Ship's extra info fields.
#[derive(Debug, Clone, Copy, PartialEq, Eq, Structural)]
pub struct TheShip {
    pub mode: u8,
    pub witnesses: u8,
    pub duration: u8,
}

/// The mod block of the obsolete GoldSrc info layout.
#[derive(Debug, Clone)]
pub struct ModData {
    pub link: String,
    pub download_link: String,
    pub version: u32,
    pub size: u32,
    pub multiplayer_only: bool,
    pub has_own_dll: bool,
}

/// The sparse, flag-gated block of optional info fields. Each field is
/// present exactly when its flag bit was set in the wire's flags byte.
#[derive(Debug, Clone)]
pub struct ExtraData {
    /// The server's game port; flag bit 0x80.
    pub port: Option<u16>,
    /// The server's 64-bit Steam id; flag bit 0x10.
    pub steam_id: Option<u64>,
    /// The spectator port; flag bit 0x40.
    pub tv_port: Option<u16>,
    /// The spectator server name; flag bit 0x40.
    pub tv_name: Option<String>,
    /// The keywords string; flag bit 0x20.
    pub keywords: Option<String>,
    /// The 64-bit game id whose low 24 bits override the app id; flag bit 0x01.
    pub game_id: Option<u64>,
}

/// A server's metadata, produced once per INFO request.
#[derive(Debug, Clone)]
pub struct ServerInfo {
    pub protocol: u8,
    pub name: String,
    pub map: String,
    pub folder: String,
    pub game: String,
    pub appid: u32,
    pub players: u8,
    pub max_players: u8,
    pub bots: u8,
    pub server_type: Server,
    pub environment_type: Environment,
    pub has_password: bool,
    pub vac_secured: bool,
    pub the_ship: Option<TheShip>,
    pub version: String,
    pub extra_data: Option<ExtraData>,
    pub is_mod: bool,
    pub mod_data: Option<ModData>,
}

/// One connected player. The played duration is kept as the raw IEEE-754
/// bits of the wire's 32-bit float; interpreting them stays outside the
/// verified core.
#[derive(Debug, Clone)]
pub struct ServerPlayer {
    pub name: String,
    pub score: u32,
    pub duration_bits: u32,
    pub deaths: Option<u32>,
    pub money: Option<u32>,
}

/// One server-side rule: a name/value string pair.
#[derive(Debug, Clone)]
pub struct ServerRule {
    pub name: String,
    pub value: String,
}

/// The unified result of a query.
#[derive(Debug, Clone)]
pub struct Response {
    pub info: ServerInfo,
    pub players: Option<Vec<ServerPlayer>>,
    pub rules: Option<Vec<ServerRule>>,
}

} // verus!
