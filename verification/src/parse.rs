//! The response-body parsers: server info in its two historical layouts,
//! the player list and the rule list.
//!
//! Each parser is specified against a wire-level model: a spec-level record
//! of exactly the bytes a valid body carries, field by field. The executable
//! parsers are proved to return the typed record that corresponds to that
//! model, and to fail exactly on the buffers the model rejects.

use vstd::prelude::*;
use crate::buffer::{
    Bufferer, ReadFail, bytes_of, err_matches, find_nul, le16_at, le32_at, le64_at, sp_string, sp_u16,
    sp_u32, sp_u64, sp_u8,
};
use crate::errors::{GDError, GDResult};
use crate::types::{
    App, Environment, ExtraData, ModData, Server, ServerInfo, ServerPlayer, ServerRule, TheShip,
    spec_is_the_ship,
};

verus! {

/// Response kind byte of the obsolete GoldSrc info layout.
pub const KIND_INFO_OBSOLETE: u8 = 0x6D;

/// Server type from a current-layout character code: 'd', 'l' or 'p'.
pub open spec fn server_from_current(b: u8) -> Option<Server> {
    if b == 100 {
        Some(Server::Dedicated)
    } else if b == 108 {
        Some(Server::NonDedicated)
    } else if b == 112 {
        Some(Server::TV)
    } else {
        None
    }
}

/// Environment from a current-layout character code: 'l', 'w', 'm' or 'o'
/// (both of the last two meaning Mac).
pub open spec fn env_from_current(b: u8) -> Option<Environment> {
    if b == 108 {
        Some(Environment::Linux)
    } else if b == 119 {
        Some(Environment::Windows)
    } else if b == 109 || b == 111 {
        Some(Environment::Mac)
    } else {
        None
    }
}

/// Server type from a legacy-layout character code: 'D', 'L' or 'P'.
pub open spec fn server_from_legacy(b: u8) -> Option<Server> {
    if b == 68 {
        Some(Server::Dedicated)
    } else if b == 76 {
        Some(Server::NonDedicated)
    } else if b == 80 {
        Some(Server::TV)
    } else {
        None
    }
}

/// Environment from a legacy-layout character code: 'L' or 'W'.
pub open spec fn env_from_legacy(b: u8) -> Option<Environment> {
    if b == 76 {
        Some(Environment::Linux)
    } else if b == 87 {
        Some(Environment::Windows)
    } else {
        None
    }
}

/// An optional little-endian 16-bit read: skipped when its flag is clear.
pub open spec fn sp_opt_u16(cond: bool, d: Seq<u8>, p: int) -> Result<(Option<u16>, int), ReadFail> {
    if !cond {
        Ok((None, p))
    } else {
        match sp_u16(d, p) {
            Err(k) => Err(k),
            Ok(v) => Ok((Some(v.0), v.1)),
        }
    }
}

/// An optional little-endian 64-bit read: skipped when its flag is clear.
pub open spec fn sp_opt_u64(cond: bool, d: Seq<u8>, p: int) -> Result<(Option<u64>, int), ReadFail> {
    if !cond {
        Ok((None, p))
    } else {
        match sp_u64(d, p) {
            Err(k) => Err(k),
            Ok(v) => Ok((Some(v.0), v.1)),
        }
    }
}

/// An optional string read: skipped when its flag is clear.
pub open spec fn sp_opt_string(cond: bool, d: Seq<u8>, p: int) -> Result<
    (Option<Seq<u8>>, int),
    ReadFail,
> {
    if !cond {
        Ok((None, p))
    } else {
        match sp_string(d, p) {
            Err(k) => Err(k),
            Ok(v) => Ok((Some(v.0), v.1)),
        }
    }
}

/// The wire-level content of the flag-gated extra-data block.
pub ghost struct ExtraModel {
    pub flags: u8,
    pub port: Option<u16>,
    pub steam_id: Option<u64>,
    pub tv_port: Option<u16>,
    pub tv_name: Option<Seq<u8>>,
    pub keywords: Option<Seq<u8>>,
    pub game_id: Option<u64>,
}

/// Parsing the extra-data block from its flags byte onward. Each field is
/// read exactly when its flag bit is set, in the wire's fixed order: port
/// (0x80), Steam id (0x10), spectator port and name (0x40), keywords (0x20),
/// game id (0x01).
pub open spec fn sp_extra(d: Seq<u8>, p: int) -> Result<(ExtraModel, int), ReadFail> {
    match sp_u8(d, p) {
        Err(k) => Err(k),
        Ok(f) => match sp_opt_u16((f.0 & 0x80) > 0, d, f.1) {
            Err(k) => Err(k),
            Ok(port) => match sp_opt_u64((f.0 & 0x10) > 0, d, port.1) {
                Err(k) => Err(k),
                Ok(sid) => match sp_opt_u16((f.0 & 0x40) > 0, d, sid.1) {
                    Err(k) => Err(k),
                    Ok(tvp) => match sp_opt_string((f.0 & 0x40) > 0, d, tvp.1) {
                        Err(k) => Err(k),
                        Ok(tvn) => match sp_opt_string((f.0 & 0x20) > 0, d, tvn.1) {
                            Err(k) => Err(k),
                            Ok(kw) => match sp_opt_u64((f.0 & 0x01) > 0, d, kw.1) {
                                Err(k) => Err(k),
                                Ok(gid) => Ok((
                                    ExtraModel {
                                        flags: f.0,
                                        port: port.0,
                                        steam_id: sid.0,
                                        tv_port: tvp.0,
                                        tv_name: tvn.0,
                                        keywords: kw.0,
                                        game_id: gid.0,
                                    },
                                    gid.1,
                                )),
                            },
                        },
                    },
                },
            },
        },
    }
}

/// The wire-level content of a current-layout info body.
pub ghost struct InfoModel {
    pub protocol: u8,
    pub name: Seq<u8>,
    pub map: Seq<u8>,
    pub folder: Seq<u8>,
    pub game: Seq<u8>,
    pub appid16: u16,
    pub players: u8,
    pub max_players: u8,
    pub bots: u8,
    pub type_byte: u8,
    pub env_byte: u8,
    pub password_byte: u8,
    pub vac_byte: u8,
    pub ship: Option<(u8, u8, u8)>,
    pub version: Seq<u8>,
    pub extra: Option<ExtraModel>,
}

/// The app id a current-layout body resolves to: the low 24 bits of the
/// 64-bit game id when the extra-data block carries one, the 16-bit app id
/// field otherwise.
pub open spec fn spec_resolved_appid(m: InfoModel) -> u32 {
    match m.extra {
        Some(e) => match e.game_id {
            Some(g) => (g % 0x1000000) as u32,
            None => m.appid16 as u32,
        },
        None => m.appid16 as u32,
    }
}

/// Parsing a current-layout info body. The Ship block is present exactly for
/// that app identity; a body that ends right after the version string has no
/// extra data, which is not an error.
pub open spec fn sp_info_current(ship: bool, d: Seq<u8>) -> Result<(InfoModel, int), ReadFail> {
    match sp_u8(d, 0) {
        Err(k) => Err(k),
        Ok(pr) => match sp_string(d, pr.1) {
            Err(k) => Err(k),
            Ok(nm) => match sp_string(d, nm.1) {
                Err(k) => Err(k),
                Ok(mp) => match sp_string(d, mp.1) {
                    Err(k) => Err(k),
                    Ok(fl) => match sp_string(d, fl.1) {
                        Err(k) => Err(k),
                        Ok(gm) => match sp_u16(d, gm.1) {
                            Err(k) => Err(k),
                            Ok(ap) => match sp_u8(d, ap.1) {
                                Err(k) => Err(k),
                                Ok(pl) => match sp_u8(d, pl.1) {
                                    Err(k) => Err(k),
                                    Ok(mx) => match sp_u8(d, mx.1) {
                                        Err(k) => Err(k),
                                        Ok(bt) => match sp_u8(d, bt.1) {
                                            Err(k) => Err(k),
                                            Ok(ty) => {
                                                if server_from_current(ty.0) is None {
                                                    Err(ReadFail::UnknownEnum)
                                                } else {
                                                    sp_info_tail(ship, d, InfoModel {
                                                        protocol: pr.0,
                                                        name: nm.0,
                                                        map: mp.0,
                                                        folder: fl.0,
                                                        game: gm.0,
                                                        appid16: ap.0,
                                                        players: pl.0,
                                                        max_players: mx.0,
                                                        bots: bt.0,
                                                        type_byte: ty.0,
                                                        env_byte: 0,
                                                        password_byte: 0,
                                                        vac_byte: 0,
                                                        ship: None,
                                                        version: Seq::empty(),
                                                        extra: None,
                                                    }, ty.1)
                                                }
                                            },
                                        },
                                    },
                                },
                            },
                        },
                    },
                },
            },
        },
    }
}

/// Parsing the rest of a current-layout info body, from the environment code
/// onward.
pub open spec fn sp_info_tail(ship: bool, d: Seq<u8>, head: InfoModel, p: int) -> Result<
    (InfoModel, int),
    ReadFail,
> {
    match sp_u8(d, p) {
        Err(k) => Err(k),
        Ok(en) => {
            if env_from_current(en.0) is None {
                Err(ReadFail::UnknownEnum)
            } else {
                match sp_u8(d, en.1) {
                    Err(k) => Err(k),
                    Ok(pw) => match sp_u8(d, pw.1) {
                        Err(k) => Err(k),
                        Ok(vc) => {
                            let shipres = if ship {
                                match sp_u8(d, vc.1) {
                                    Err(k) => Err(k),
                                    Ok(a) => match sp_u8(d, a.1) {
                                        Err(k) => Err(k),
                                        Ok(b) => match sp_u8(d, b.1) {
                                            Err(k) => Err(k),
                                            Ok(c) => Ok((Some((a.0, b.0, c.0)), c.1)),
                                        },
                                    },
                                }
                            } else {
                                Ok((None, vc.1))
                            };
                            match shipres {
                                Err(k) => Err(k),
                                Ok(sh) => match sp_string(d, sh.1) {
                                    Err(k) => Err(k),
                                    Ok(vs) => {
                                        if vs.1 == d.len() {
                                            Ok((InfoModel {
                                                env_byte: en.0,
                                                password_byte: pw.0,
                                                vac_byte: vc.0,
                                                ship: sh.0,
                                                version: vs.0,
                                                extra: None,
                                                ..head
                                            }, vs.1))
                                        } else {
                                            match sp_extra(d, vs.1) {
                                                Err(k) => Err(k),
                                                Ok(ex) => Ok((InfoModel {
                                                    env_byte: en.0,
                                                    password_byte: pw.0,
                                                    vac_byte: vc.0,
                                                    ship: sh.0,
                                                    version: vs.0,
                                                    extra: Some(ex.0),
                                                    ..head
                                                }, ex.1)),
                                            }
                                        }
                                    },
                                },
                            }
                        },
                    },
                }
            }
        },
    }
}

/// Whether a typed extra-data block equals its wire model.
pub open spec fn extra_matches(e: ExtraData, m: ExtraModel) -> bool {
    &&& e.port == m.port
    &&& e.steam_id == m.steam_id
    &&& e.tv_port == m.tv_port
    &&& (match (e.tv_name, m.tv_name) {
        (Some(s), Some(b)) => bytes_of(s) == b,
        (None, None) => true,
        _ => false,
    })
    &&& (match (e.keywords, m.keywords) {
        (Some(s), Some(b)) => bytes_of(s) == b,
        (None, None) => true,
        _ => false,
    })
    &&& e.game_id == m.game_id
}

/// Whether a typed info record equals a current-layout wire model.
pub open spec fn info_matches(info: ServerInfo, m: InfoModel) -> bool {
    &&& info.protocol == m.protocol
    &&& bytes_of(info.name) == m.name
    &&& bytes_of(info.map) == m.map
    &&& bytes_of(info.folder) == m.folder
    &&& bytes_of(info.game) == m.game
    &&& info.appid == spec_resolved_appid(m)
    &&& info.players == m.players
    &&& info.max_players == m.max_players
    &&& info.bots == m.bots
    &&& Some(info.server_type) == server_from_current(m.type_byte)
    &&& Some(info.environment_type) == env_from_current(m.env_byte)
    &&& info.has_password == (m.password_byte == 1)
    &&& info.vac_secured == (m.vac_byte == 1)
    &&& (match (info.the_ship, m.ship) {
        (Some(t), Some(w)) => t.mode == w.0 && t.witnesses == w.1 && t.duration == w.2,
        (None, None) => true,
        _ => false,
    })
    &&& bytes_of(info.version) == m.version
    &&& (match (info.extra_data, m.extra) {
        (Some(e), Some(em)) => extra_matches(e, em),
        (None, None) => true,
        _ => false,
    })
    &&& info.is_mod == false
    &&& info.mod_data is None
}

/// The wire-level content of the obsolete GoldSrc mod block.
pub ghost struct ModModel {
    pub link: Seq<u8>,
    pub download_link: Seq<u8>,
    pub version: u32,
    pub size: u32,
    pub multiplayer_only_byte: u8,
    pub has_own_dll_byte: u8,
}

/// The wire-level content of an obsolete-layout info body.
pub ghost struct LegacyModel {
    pub hdr: u8,
    pub addr: Seq<u8>,
    pub name: Seq<u8>,
    pub map: Seq<u8>,
    pub folder: Seq<u8>,
    pub game: Seq<u8>,
    pub players: u8,
    pub max_players: u8,
    pub protocol: u8,
    pub type_byte: u8,
    pub env_byte: u8,
    pub password_byte: u8,
    pub is_mod_byte: u8,
    pub moddata: Option<ModModel>,
    pub vac_byte: u8,
    pub bots: u8,
}

/// Parsing the obsolete fixed layout: a discarded header byte, the server's
/// address, the fixed fields with uppercase character codes, and a mod block
/// present exactly when the mod flag byte is one.
pub open spec fn sp_info_legacy(d: Seq<u8>) -> Result<(LegacyModel, int), ReadFail> {
    match sp_u8(d, 0) {
        Err(k) => Err(k),
        Ok(hd) => match sp_string(d, hd.1) {
            Err(k) => Err(k),
            Ok(ad) => match sp_string(d, ad.1) {
                Err(k) => Err(k),
                Ok(nm) => match sp_string(d, nm.1) {
                    Err(k) => Err(k),
                    Ok(mp) => match sp_string(d, mp.1) {
                        Err(k) => Err(k),
                        Ok(fl) => match sp_string(d, fl.1) {
                            Err(k) => Err(k),
                            Ok(gm) => match sp_u8(d, gm.1) {
                                Err(k) => Err(k),
                                Ok(pl) => match sp_u8(d, pl.1) {
                                    Err(k) => Err(k),
                                    Ok(mx) => match sp_u8(d, mx.1) {
                                        Err(k) => Err(k),
                                        Ok(pr) => match sp_u8(d, pr.1) {
                                            Err(k) => Err(k),
                                            Ok(ty) => {
                                                if server_from_legacy(ty.0) is None {
                                                    Err(ReadFail::UnknownEnum)
                                                } else {
                                                    sp_legacy_tail(d, LegacyModel {
                                                        hdr: hd.0,
                                                        addr: ad.0,
                                                        name: nm.0,
                                                        map: mp.0,
                                                        folder: fl.0,
                                                        game: gm.0,
                                                        players: pl.0,
                                                        max_players: mx.0,
                                                        protocol: pr.0,
                                                        type_byte: ty.0,
                                                        env_byte: 0,
                                                        password_byte: 0,
                                                        is_mod_byte: 0,
                                                        moddata: None,
                                                        vac_byte: 0,
                                                        bots: 0,
                                                    }, ty.1)
                                                }
                                            },
                                        },
                                    },
                                },
                            },
                        },
                    },
                },
            },
        },
    }
}

/// Parsing the rest of an obsolete-layout body, from the environment code
/// onward.
pub open spec fn sp_legacy_tail(d: Seq<u8>, head: LegacyModel, p: int) -> Result<
    (LegacyModel, int),
    ReadFail,
> {
    match sp_u8(d, p) {
        Err(k) => Err(k),
        Ok(en) => {
            if env_from_legacy(en.0) is None {
                Err(ReadFail::UnknownEnum)
            } else {
                match sp_u8(d, en.1) {
                    Err(k) => Err(k),
                    Ok(pw) => match sp_u8(d, pw.1) {
                        Err(k) => Err(k),
                        Ok(im) => {
                            let modres = if im.0 == 1 {
                                match sp_string(d, im.1) {
                                    Err(k) => Err(k),
                                    Ok(lk) => match sp_string(d, lk.1) {
                                        Err(k) => Err(k),
                                        Ok(dl) => match sp_u32(d, dl.1) {
                                            Err(k) => Err(k),
                                            Ok(vr) => match sp_u32(d, vr.1) {
                                                Err(k) => Err(k),
                                                Ok(sz) => match sp_u8(d, sz.1) {
                                                    Err(k) => Err(k),
                                                    Ok(mo) => match sp_u8(d, mo.1) {
                                                        Err(k) => Err(k),
                                                        Ok(dll) => Ok((Some(ModModel {
                                                            link: lk.0,
                                                            download_link: dl.0,
                                                            version: vr.0,
                                                            size: sz.0,
                                                            multiplayer_only_byte: mo.0,
                                                            has_own_dll_byte: dll.0,
                                                        }), dll.1)),
                                                    },
                                                },
                                            },
                                        },
                                    },
                                }
                            } else {
                                Ok((None, im.1))
                            };
                            match modres {
                                Err(k) => Err(k),
                                Ok(md) => match sp_u8(d, md.1) {
                                    Err(k) => Err(k),
                                    Ok(vc) => match sp_u8(d, vc.1) {
                                        Err(k) => Err(k),
                                        Ok(bt) => Ok((LegacyModel {
                                            env_byte: en.0,
                                            password_byte: pw.0,
                                            is_mod_byte: im.0,
                                            moddata: md.0,
                                            vac_byte: vc.0,
                                            bots: bt.0,
                                            ..head
                                        }, bt.1)),
                                    },
                                },
                            }
                        },
                    },
                }
            }
        },
    }
}

/// Whether a typed info record equals an obsolete-layout wire model: the
/// fields the layout never carries are defaulted (app id zero, empty version,
/// no Ship block, no extra data).
pub open spec fn legacy_info_matches(info: ServerInfo, m: LegacyModel) -> bool {
    &&& info.protocol == m.protocol
    &&& bytes_of(info.name) == m.name
    &&& bytes_of(info.map) == m.map
    &&& bytes_of(info.folder) == m.folder
    &&& bytes_of(info.game) == m.game
    &&& info.appid == 0
    &&& info.players == m.players
    &&& info.max_players == m.max_players
    &&& info.bots == m.bots
    &&& Some(info.server_type) == server_from_legacy(m.type_byte)
    &&& Some(info.environment_type) == env_from_legacy(m.env_byte)
    &&& info.has_password == (m.password_byte == 1)
    &&& info.vac_secured == (m.vac_byte == 1)
    &&& info.the_ship is None
    &&& bytes_of(info.version) == Seq::<u8>::empty()
    &&& info.extra_data is None
    &&& info.is_mod == (m.is_mod_byte == 1)
    &&& (match (info.mod_data, m.moddata) {
        (Some(md), Some(mm)) => {
            &&& bytes_of(md.link) == mm.link
            &&& bytes_of(md.download_link) == mm.download_link
            &&& md.version == mm.version
            &&& md.size == mm.size
            &&& md.multiplayer_only == (mm.multiplayer_only_byte == 1)
            &&& md.has_own_dll == (mm.has_own_dll_byte == 1)
        },
        (None, None) => true,
        _ => false,
    })
}

/// One player record on the wire.
pub ghost struct PlayerModel {
    pub index_byte: u8,
    pub name: Seq<u8>,
    pub score: u32,
    pub duration_bits: u32,
    pub deaths: Option<u32>,
    pub money: Option<u32>,
}

/// Parsing one player entry: a skipped index byte, the name, the score, the
/// raw bits of the 32-bit float duration, and for The Ship two more fields.
pub open spec fn sp_player(ship: bool, d: Seq<u8>, p: int) -> Result<(PlayerModel, int), ReadFail> {
    match sp_u8(d, p) {
        Err(k) => Err(k),
        Ok(ix) => match sp_string(d, ix.1) {
            Err(k) => Err(k),
            Ok(nm) => match sp_u32(d, nm.1) {
                Err(k) => Err(k),
                Ok(sc) => match sp_u32(d, sc.1) {
                    Err(k) => Err(k),
                    Ok(du) => {
                        if ship {
                            match sp_u32(d, du.1) {
                                Err(k) => Err(k),
                                Ok(de) => match sp_u32(d, de.1) {
                                    Err(k) => Err(k),
                                    Ok(mo) => Ok((PlayerModel {
                                        index_byte: ix.0,
                                        name: nm.0,
                                        score: sc.0,
                                        duration_bits: du.0,
                                        deaths: Some(de.0),
                                        money: Some(mo.0),
                                    }, mo.1)),
                                },
                            }
                        } else {
                            Ok((PlayerModel {
                                index_byte: ix.0,
                                name: nm.0,
                                score: sc.0,
                                duration_bits: du.0,
                                deaths: None,
                                money: None,
                            }, du.1))
                        }
                    },
                },
            },
        },
    }
}

/// Parsing `n` consecutive player entries from `p`.
pub open spec fn sp_players(ship: bool, d: Seq<u8>, p: int, n: nat) -> Result<
    (Seq<PlayerModel>, int),
    ReadFail,
>
    decreases n,
{
    if n == 0 {
        Ok((Seq::empty(), p))
    } else {
        match sp_player(ship, d, p) {
            Err(k) => Err(k),
            Ok(m) => match sp_players(ship, d, m.1, (n - 1) as nat) {
                Err(k) => Err(k),
                Ok(rest) => Ok((seq![m.0] + rest.0, rest.1)),
            },
        }
    }
}

/// Parsing a whole player response body: a one-byte count, then that many
/// entries.
pub open spec fn sp_players_all(ship: bool, d: Seq<u8>) -> Result<Seq<PlayerModel>, ReadFail> {
    match sp_u8(d, 0) {
        Err(k) => Err(k),
        Ok(c) => match sp_players(ship, d, c.1, c.0 as nat) {
            Err(k) => Err(k),
            Ok(ms) => Ok(ms.0),
        },
    }
}

/// Whether a typed player equals its wire model.
pub open spec fn player_matches(p: ServerPlayer, m: PlayerModel) -> bool {
    &&& bytes_of(p.name) == m.name
    &&& p.score == m.score
    &&& p.duration_bits == m.duration_bits
    &&& p.deaths == m.deaths
    &&& p.money == m.money
}

/// One rule record on the wire.
pub ghost struct RuleModel {
    pub name: Seq<u8>,
    pub value: Seq<u8>,
}

/// Parsing one rule entry: a name string then a value string.
pub open spec fn sp_rule(d: Seq<u8>, p: int) -> Result<(RuleModel, int), ReadFail> {
    match sp_string(d, p) {
        Err(k) => Err(k),
        Ok(nm) => match sp_string(d, nm.1) {
            Err(k) => Err(k),
            Ok(vl) => Ok((RuleModel { name: nm.0, value: vl.0 }, vl.1)),
        },
    }
}

/// Parsing `n` consecutive rule entries from `p`.
pub open spec fn sp_rules(d: Seq<u8>, p: int, n: nat) -> Result<(Seq<RuleModel>, int), ReadFail>
    decreases n,
{
    if n == 0 {
        Ok((Seq::empty(), p))
    } else {
        match sp_rule(d, p) {
            Err(k) => Err(k),
            Ok(m) => match sp_rules(d, m.1, (n - 1) as nat) {
                Err(k) => Err(k),
                Ok(rest) => Ok((seq![m.0] + rest.0, rest.1)),
            },
        }
    }
}

/// Parsing a whole rule response body: a two-byte count, then that many
/// entries.
pub open spec fn sp_rules_all(d: Seq<u8>) -> Result<Seq<RuleModel>, ReadFail> {
    match sp_u16(d, 0) {
        Err(k) => Err(k),
        Ok(c) => match sp_rules(d, c.1, c.0 as nat) {
            Err(k) => Err(k),
            Ok(ms) => Ok(ms.0),
        },
    }
}

/// Whether a typed rule equals its wire model.
pub open spec fn rule_matches(r: ServerRule, m: RuleModel) -> bool {
    &&& bytes_of(r.name) == m.name
    &&& bytes_of(r.value) == m.value
}


/// Parse the extra-data block from the buffer's position onward.
fn parse_extra(buffer: &mut Bufferer) -> (r: GDResult<ExtraData>)
    requires
        old(buffer).wf(),
    ensures
        final(buffer).wf(),
        final(buffer).sdata() == old(buffer).sdata(),
        match sp_extra(old(buffer).sdata(), old(buffer).spos()) {
            Ok(pair) => (r matches Ok(e) && extra_matches(e, pair.0))
                && final(buffer).spos() == pair.1,
            Err(k) => r matches Err(e) && err_matches(e, k),
        },
{
    let flags = buffer.get_u8()?;
    let port = if flags & 0x80 > 0 { Some(buffer.get_u16()?) } else { None };
    let steam_id = if flags & 0x10 > 0 { Some(buffer.get_u64()?) } else { None };
    let tv_port = if flags & 0x40 > 0 { Some(buffer.get_u16()?) } else { None };
    let tv_name = if flags & 0x40 > 0 { Some(buffer.get_string_utf8()?) } else { None };
    let keywords = if flags & 0x20 > 0 { Some(buffer.get_string_utf8()?) } else { None };
    let game_id = if flags & 0x01 > 0 { Some(buffer.get_u64()?) } else { None };
    Ok(ExtraData { port, steam_id, tv_port, tv_name, keywords, game_id })
}

/// Parse a current-layout info body from a flat INFO response payload.
#[verifier::rlimit(100)]
pub fn parse_current_info(ship: bool, data: Vec<u8>) -> (r: GDResult<ServerInfo>)
    ensures
        match sp_info_current(ship, data@) {
            Ok(pair) => r matches Ok(info) && info_matches(info, pair.0),
            Err(k) => r matches Err(e) && err_matches(e, k),
        },
{
    let mut buffer = Bufferer::new_with_data(data);
    let protocol = buffer.get_u8()?;
    let name = buffer.get_string_utf8()?;
    let map = buffer.get_string_utf8()?;
    let folder = buffer.get_string_utf8()?;
    let game = buffer.get_string_utf8()?;
    let appid16 = buffer.get_u16()?;
    let players = buffer.get_u8()?;
    let max_players = buffer.get_u8()?;
    let bots = buffer.get_u8()?;
    let server_type = match buffer.get_u8()? {
        100 => Server::Dedicated,
        108 => Server::NonDedicated,
        112 => Server::TV,
        _ => {
            return Err(GDError::UnknownEnumCast);
        },
    };
    let environment_type = match buffer.get_u8()? {
        108 => Environment::Linux,
        119 => Environment::Windows,
        109 | 111 => Environment::Mac,
        _ => {
            return Err(GDError::UnknownEnumCast);
        },
    };
    let password_byte = buffer.get_u8()?;
    let vac_byte = buffer.get_u8()?;
    let the_ship = if ship {
        Some(TheShip {
            mode: buffer.get_u8()?,
            witnesses: buffer.get_u8()?,
            duration: buffer.get_u8()?,
        })
    } else {
        None
    };
    let version = buffer.get_string_utf8()?;
    let extra_data = if buffer.is_at_end() {
        None
    } else {
        Some(parse_extra(&mut buffer)?)
    };
    let appid: u32 = match &extra_data {
        Some(e) => match e.game_id {
            Some(g) => (g % 0x1000000) as u32,
            None => appid16 as u32,
        },
        None => appid16 as u32,
    };
    Ok(ServerInfo {
        protocol,
        name,
        map,
        folder,
        game,
        appid,
        players,
        max_players,
        bots,
        server_type,
        environment_type,
        has_password: password_byte == 1,
        vac_secured: vac_byte == 1,
        the_ship,
        version,
        extra_data,
        is_mod: false,
        mod_data: None,
    })
}

/// Parse an obsolete-layout info body. The fields the layout never carries
/// come out defaulted: app id zero, empty version, no extra data.
pub fn parse_legacy_info(data: Vec<u8>) -> (r: GDResult<ServerInfo>)
    ensures
        match sp_info_legacy(data@) {
            Ok(pair) => r matches Ok(info) && legacy_info_matches(info, pair.0),
            Err(k) => r matches Err(e) && err_matches(e, k),
        },
{
    let mut buffer = Bufferer::new_with_data(data);
    let _header = buffer.get_u8()?;
    let _address = buffer.get_string_utf8()?;
    let name = buffer.get_string_utf8()?;
    let map = buffer.get_string_utf8()?;
    let folder = buffer.get_string_utf8()?;
    let game = buffer.get_string_utf8()?;
    let players = buffer.get_u8()?;
    let max_players = buffer.get_u8()?;
    let protocol = buffer.get_u8()?;
    let server_type = match buffer.get_u8()? {
        68 => Server::Dedicated,
        76 => Server::NonDedicated,
        80 => Server::TV,
        _ => {
            return Err(GDError::UnknownEnumCast);
        },
    };
    let environment_type = match buffer.get_u8()? {
        76 => Environment::Linux,
        87 => Environment::Windows,
        _ => {
            return Err(GDError::UnknownEnumCast);
        },
    };
    let password_byte = buffer.get_u8()?;
    let is_mod_byte = buffer.get_u8()?;
    let mod_data = if is_mod_byte == 1 {
        Some(ModData {
            link: buffer.get_string_utf8()?,
            download_link: buffer.get_string_utf8()?,
            version: buffer.get_u32()?,
            size: buffer.get_u32()?,
            multiplayer_only: buffer.get_u8()? == 1,
            has_own_dll: buffer.get_u8()? == 1,
        })
    } else {
        None
    };
    let vac_byte = buffer.get_u8()?;
    let bots = buffer.get_u8()?;
    Ok(ServerInfo {
        protocol,
        name,
        map,
        folder,
        game,
        appid: 0,
        players,
        max_players,
        bots,
        server_type,
        environment_type,
        has_password: password_byte == 1,
        vac_secured: vac_byte == 1,
        the_ship: None,
        version: String::new(),
        extra_data: None,
        is_mod: is_mod_byte == 1,
        mod_data,
    })
}

/// Which info layout a response is parsed with: the obsolete one when the
/// caller forces it for GoldSrc or when the response carries the obsolete
/// kind byte, the current one otherwise.
pub open spec fn spec_uses_legacy(app: App, kind: u8) -> bool {
    (app matches App::GoldSrc(f) && f) || kind == KIND_INFO_OBSOLETE
}

/// Parse an INFO response body, dispatching on the app identity and the
/// response's kind byte.
pub fn parse_server_info(app: &App, kind: u8, data: Vec<u8>) -> (r: GDResult<ServerInfo>)
    ensures
        spec_uses_legacy(*app, kind) ==> match sp_info_legacy(data@) {
            Ok(pair) => r matches Ok(info) && legacy_info_matches(info, pair.0),
            Err(k) => r matches Err(e) && err_matches(e, k),
        },
        !spec_uses_legacy(*app, kind) ==> match sp_info_current(spec_is_the_ship(*app), data@) {
            Ok(pair) => r matches Ok(info) && info_matches(info, pair.0),
            Err(k) => r matches Err(e) && err_matches(e, k),
        },
{
    let forced = match app {
        App::GoldSrc(force) => *force,
        App::Source(_) => false,
    };
    if forced || kind == KIND_INFO_OBSOLETE {
        parse_legacy_info(data)
    } else {
        parse_current_info(app.is_the_ship(), data)
    }
}

/// Parse one player entry from the buffer's position onward.
fn parse_player(ship: bool, buffer: &mut Bufferer) -> (r: GDResult<ServerPlayer>)
    requires
        old(buffer).wf(),
    ensures
        final(buffer).wf(),
        final(buffer).sdata() == old(buffer).sdata(),
        match sp_player(ship, old(buffer).sdata(), old(buffer).spos()) {
            Ok(pair) => (r matches Ok(p) && player_matches(p, pair.0))
                && final(buffer).spos() == pair.1,
            Err(k) => r matches Err(e) && err_matches(e, k),
        },
{
    buffer.skip(1)?;
    let name = buffer.get_string_utf8()?;
    let score = buffer.get_u32()?;
    let duration_bits = buffer.get_u32()?;
    let (deaths, money) = if ship {
        (Some(buffer.get_u32()?), Some(buffer.get_u32()?))
    } else {
        (None, None)
    };
    Ok(ServerPlayer { name, score, duration_bits, deaths, money })
}

/// Parse a whole PLAYERS response body: the count byte, then exactly that
/// many entries in wire order.
#[verifier::loop_isolation(false)]
pub fn parse_server_players(app: &App, data: Vec<u8>) -> (r: GDResult<Vec<ServerPlayer>>)
    ensures
        match sp_players_all(spec_is_the_ship(*app), data@) {
            Ok(ms) => r matches Ok(ps) && ps@.len() == ms.len() && (forall|j: int|
                0 <= j < ms.len() ==> player_matches(ps@[j], ms[j])),
            Err(k) => r matches Err(e) && err_matches(e, k),
        },
{
    let ship = app.is_the_ship();
    let ghost d = data@;
    let mut buffer = Bufferer::new_with_data(data);
    let count = buffer.get_u8()?;
    let ghost start = buffer.spos();
    let mut players: Vec<ServerPlayer> = Vec::new();
    let ghost mut models: Seq<PlayerModel> = Seq::empty();
    let mut i: usize = 0;
    while i < count as usize
        invariant
            buffer.wf(),
            buffer.sdata() == d,
            players@.len() == i as int,
            models.len() == i as int,
            i <= count as usize,
            forall|j: int| 0 <= j < i as int ==> player_matches(players@[j], models[j]),
            match sp_players(ship, d, buffer.spos(), (count as usize - i) as nat) {
                Ok(rest) => sp_players(ship, d, start, count as nat) == Ok::<
                    (Seq<PlayerModel>, int),
                    ReadFail,
                >((models + rest.0, rest.1)),
                Err(k) => sp_players(ship, d, start, count as nat) == Err::<
                    (Seq<PlayerModel>, int),
                    ReadFail,
                >(k),
            },
        decreases count as int - i as int,
    {
        let ghost prev = buffer.spos();
        let pl = match parse_player(ship, &mut buffer) {
            Ok(p) => p,
            Err(e) => {
                return Err(e);
            },
        };
        players.push(pl);
        proof {
            let pair = sp_player(ship, d, prev)->Ok_0;
            let head = models;
            models = models + seq![pair.0];
            let sub = sp_players(ship, d, buffer.spos(), (count as usize - i - 1) as nat);
            if sub is Ok {
                let rest = sub->Ok_0;
                assert(head + (seq![pair.0] + rest.0) =~= models + rest.0);
            }
        }
        i = i + 1;
    }
    proof {
        assert(models + Seq::<PlayerModel>::empty() =~= models);
    }
    Ok(players)
}

/// Parse one rule entry from the buffer's position onward.
fn parse_rule(buffer: &mut Bufferer) -> (r: GDResult<ServerRule>)
    requires
        old(buffer).wf(),
    ensures
        final(buffer).wf(),
        final(buffer).sdata() == old(buffer).sdata(),
        match sp_rule(old(buffer).sdata(), old(buffer).spos()) {
            Ok(pair) => (r matches Ok(rl) && rule_matches(rl, pair.0))
                && final(buffer).spos() == pair.1,
            Err(k) => r matches Err(e) && err_matches(e, k),
        },
{
    let name = buffer.get_string_utf8()?;
    let value = buffer.get_string_utf8()?;
    Ok(ServerRule { name, value })
}

/// Parse a whole RULES response body: the two-byte count, then exactly that
/// many name/value pairs in wire order.
#[verifier::loop_isolation(false)]
pub fn parse_server_rules(data: Vec<u8>) -> (r: GDResult<Vec<ServerRule>>)
    ensures
        match sp_rules_all(data@) {
            Ok(ms) => r matches Ok(rs) && rs@.len() == ms.len() && (forall|j: int|
                0 <= j < ms.len() ==> rule_matches(rs@[j], ms[j])),
            Err(k) => r matches Err(e) && err_matches(e, k),
        },
{
    let ghost d = data@;
    let mut buffer = Bufferer::new_with_data(data);
    let count = buffer.get_u16()?;
    let ghost start = buffer.spos();
    let mut rules: Vec<ServerRule> = Vec::new();
    let ghost mut models: Seq<RuleModel> = Seq::empty();
    let mut i: usize = 0;
    while i < count as usize
        invariant
            buffer.wf(),
            buffer.sdata() == d,
            rules@.len() == i as int,
            models.len() == i as int,
            i <= count as usize,
            forall|j: int| 0 <= j < i as int ==> rule_matches(rules@[j], models[j]),
            match sp_rules(d, buffer.spos(), (count as usize - i) as nat) {
                Ok(rest) => sp_rules(d, start, count as nat) == Ok::<
                    (Seq<RuleModel>, int),
                    ReadFail,
                >((models + rest.0, rest.1)),
                Err(k) => sp_rules(d, start, count as nat) == Err::<
                    (Seq<RuleModel>, int),
                    ReadFail,
                >(k),
            },
        decreases count as int - i as int,
    {
        let ghost prev = buffer.spos();
        let rl = match parse_rule(&mut buffer) {
            Ok(p) => p,
            Err(e) => {
                return Err(e);
            },
        };
        rules.push(rl);
        proof {
            let pair = sp_rule(d, prev)->Ok_0;
            let head = models;
            models = models + seq![pair.0];
            let sub = sp_rules(d, buffer.spos(), (count as usize - i - 1) as nat);
            if sub is Ok {
                let rest = sub->Ok_0;
                assert(head + (seq![pair.0] + rest.0) =~= models + rest.0);
            }
        }
        i = i + 1;
    }
    proof {
        assert(models + Seq::<RuleModel>::empty() =~= models);
    }
    Ok(rules)
}


/// The little-endian bytes of a 16-bit value.
pub open spec fn enc_le16(v: u16) -> Seq<u8> {
    seq![(v % 0x100) as u8, (v / 0x100) as u8]
}

/// The little-endian bytes of a 32-bit value.
pub open spec fn enc_le32(v: u32) -> Seq<u8> {
    enc_le16((v % 0x10000) as u16) + enc_le16((v / 0x10000) as u16)
}

/// The little-endian bytes of a 64-bit value.
pub open spec fn enc_le64(v: u64) -> Seq<u8> {
    enc_le32((v % 0x100000000) as u32) + enc_le32((v / 0x100000000) as u32)
}

/// A string field's bytes followed by its NUL terminator.
pub open spec fn enc_str(s: Seq<u8>) -> Seq<u8> {
    s + seq![0u8]
}

/// The wire bytes of an extra-data block: the flags byte, then exactly the
/// fields whose flag bits are set, in the wire's fixed order.
pub open spec fn spec_encode_extra(m: ExtraModel) -> Seq<u8> {
    seq![m.flags] + (if (m.flags & 0x80) > 0 {
        enc_le16(m.port->Some_0)
    } else {
        Seq::empty()
    }) + (if (m.flags & 0x10) > 0 {
        enc_le64(m.steam_id->Some_0)
    } else {
        Seq::empty()
    }) + (if (m.flags & 0x40) > 0 {
        enc_le16(m.tv_port->Some_0)
    } else {
        Seq::empty()
    }) + (if (m.flags & 0x40) > 0 {
        enc_str(m.tv_name->Some_0)
    } else {
        Seq::empty()
    }) + (if (m.flags & 0x20) > 0 {
        enc_str(m.keywords->Some_0)
    } else {
        Seq::empty()
    }) + (if (m.flags & 0x01) > 0 {
        enc_le64(m.game_id->Some_0)
    } else {
        Seq::empty()
    })
}

/// The wire bytes of a current-layout info body built back from its model.
pub open spec fn spec_encode_info(m: InfoModel) -> Seq<u8> {
    seq![m.protocol] + enc_str(m.name) + enc_str(m.map) + enc_str(m.folder) + enc_str(m.game)
        + enc_le16(m.appid16)
        + seq![m.players, m.max_players, m.bots, m.type_byte, m.env_byte, m.password_byte, m.vac_byte]
        + (match m.ship {
        Some(t) => seq![t.0, t.1, t.2],
        None => Seq::empty(),
    }) + enc_str(m.version) + (match m.extra {
        Some(e) => spec_encode_extra(e),
        None => Seq::empty(),
    })
}

/// Re-encoding a parsed 16-bit field restores its two wire bytes.
pub proof fn lemma_u16_rt(d: Seq<u8>, p: int)
    requires
        0 <= p,
        sp_u16(d, p) is Ok,
    ensures
        enc_le16(sp_u16(d, p)->Ok_0.0) == d.subrange(p, p + 2),
{
    let a = d[p] as int;
    let b = d[p + 1] as int;
    assert((a + 0x100 * b) % 0x100 == a && (a + 0x100 * b) / 0x100 == b) by (nonlinear_arith)
        requires
            0 <= a < 0x100,
            0 <= b < 0x100,
    ;
    assert(enc_le16(sp_u16(d, p)->Ok_0.0) =~= d.subrange(p, p + 2));
}

/// Re-encoding a parsed 32-bit field restores its four wire bytes.
pub proof fn lemma_u32_rt(d: Seq<u8>, p: int)
    requires
        0 <= p,
        sp_u32(d, p) is Ok,
    ensures
        enc_le32(sp_u32(d, p)->Ok_0.0) == d.subrange(p, p + 4),
{
    let lo = le16_at(d, p);
    let hi = le16_at(d, p + 2);
    let v = le32_at(d, p);
    assert(v == lo + 0x10000 * hi);
    assert((lo + 0x10000 * hi) % 0x10000 == lo && (lo + 0x10000 * hi) / 0x10000 == hi)
        by (nonlinear_arith)
        requires
            0 <= lo < 0x10000,
            0 <= hi < 0x10000,
    ;
    lemma_u16_rt(d, p);
    lemma_u16_rt(d, p + 2);
    assert(enc_le32(sp_u32(d, p)->Ok_0.0) =~= d.subrange(p, p + 4));
}

/// Re-encoding a parsed 64-bit field restores its eight wire bytes.
pub proof fn lemma_u64_rt(d: Seq<u8>, p: int)
    requires
        0 <= p,
        sp_u64(d, p) is Ok,
    ensures
        enc_le64(sp_u64(d, p)->Ok_0.0) == d.subrange(p, p + 8),
{
    let lo = le32_at(d, p);
    let hi = le32_at(d, p + 4);
    let v = le64_at(d, p);
    assert(v == lo + 0x100000000 * hi);
    assert((lo + 0x100000000 * hi) % 0x100000000 == lo && (lo + 0x100000000 * hi)
        / 0x100000000 == hi) by (nonlinear_arith)
        requires
            0 <= lo < 0x100000000,
            0 <= hi < 0x100000000,
    ;
    lemma_u32_rt(d, p);
    lemma_u32_rt(d, p + 4);
    assert(enc_le64(sp_u64(d, p)->Ok_0.0) =~= d.subrange(p, p + 8));
}

/// The index the NUL scan finds holds a NUL and lies inside the buffer.
pub proof fn lemma_find_nul_props(d: Seq<u8>, p: int)
    requires
        find_nul(d, p) is Some,
    ensures
        p <= find_nul(d, p)->Some_0 < d.len(),
        d[find_nul(d, p)->Some_0] == 0,
    decreases d.len() - p,
{
    if p < 0 || p >= d.len() {
    } else if d[p] == 0 {
    } else {
        lemma_find_nul_props(d, p + 1);
    }
}

/// Re-encoding a parsed string field restores its bytes and terminator.
pub proof fn lemma_string_rt(d: Seq<u8>, p: int)
    requires
        0 <= p,
        sp_string(d, p) is Ok,
    ensures
        enc_str(sp_string(d, p)->Ok_0.0) == d.subrange(p, sp_string(d, p)->Ok_0.1),
        p < sp_string(d, p)->Ok_0.1 <= d.len(),
{
    lemma_find_nul_props(d, p);
    let i = find_nul(d, p)->Some_0;
    assert(enc_str(d.subrange(p, i)) =~= d.subrange(p, i + 1));
}

/// Adjacent subranges of one buffer concatenate to the enclosing subrange.
pub proof fn lemma_join(d: Seq<u8>, a: int, b: int, c: int, y: Seq<u8>)
    requires
        0 <= a <= b <= c <= d.len(),
        y == d.subrange(b, c),
    ensures
        d.subrange(a, b) + y == d.subrange(a, c),
{
    assert(d.subrange(a, b) + y =~= d.subrange(a, c));
}

/// Law: re-encoding a parsed extra-data block restores exactly the wire
/// bytes it was parsed from.
#[verifier::rlimit(100)]
pub proof fn lemma_extra_round_trip(d: Seq<u8>, p: int)
    requires
        0 <= p,
        sp_extra(d, p) is Ok,
    ensures
        spec_encode_extra(sp_extra(d, p)->Ok_0.0) == d.subrange(p, sp_extra(d, p)->Ok_0.1),
        p < sp_extra(d, p)->Ok_0.1 <= d.len(),
{
    let f = sp_u8(d, p)->Ok_0;
    let port = sp_opt_u16((f.0 & 0x80) > 0, d, f.1)->Ok_0;
    let sid = sp_opt_u64((f.0 & 0x10) > 0, d, port.1)->Ok_0;
    let tvp = sp_opt_u16((f.0 & 0x40) > 0, d, sid.1)->Ok_0;
    let tvn = sp_opt_string((f.0 & 0x40) > 0, d, tvp.1)->Ok_0;
    let kw = sp_opt_string((f.0 & 0x20) > 0, d, tvn.1)->Ok_0;
    let gid = sp_opt_u64((f.0 & 0x01) > 0, d, kw.1)->Ok_0;
    let m = sp_extra(d, p)->Ok_0.0;
    assert(seq![m.flags] =~= d.subrange(p, f.1));
    let c1 = (if (m.flags & 0x80) > 0 {
        enc_le16(m.port->Some_0)
    } else {
        Seq::<u8>::empty()
    });
    if (f.0 & 0x80) > 0 {
        lemma_u16_rt(d, f.1);
    } else {
        assert(c1 =~= d.subrange(f.1, port.1));
    }
    lemma_join(d, p, f.1, port.1, c1);
    let c2 = (if (m.flags & 0x10) > 0 {
        enc_le64(m.steam_id->Some_0)
    } else {
        Seq::<u8>::empty()
    });
    if (f.0 & 0x10) > 0 {
        lemma_u64_rt(d, port.1);
    } else {
        assert(c2 =~= d.subrange(port.1, sid.1));
    }
    lemma_join(d, p, port.1, sid.1, c2);
    let c3 = (if (m.flags & 0x40) > 0 {
        enc_le16(m.tv_port->Some_0)
    } else {
        Seq::<u8>::empty()
    });
    if (f.0 & 0x40) > 0 {
        lemma_u16_rt(d, sid.1);
    } else {
        assert(c3 =~= d.subrange(sid.1, tvp.1));
    }
    lemma_join(d, p, sid.1, tvp.1, c3);
    let c4 = (if (m.flags & 0x40) > 0 {
        enc_str(m.tv_name->Some_0)
    } else {
        Seq::<u8>::empty()
    });
    if (f.0 & 0x40) > 0 {
        lemma_string_rt(d, tvp.1);
    } else {
        assert(c4 =~= d.subrange(tvp.1, tvn.1));
    }
    lemma_join(d, p, tvp.1, tvn.1, c4);
    let c5 = (if (m.flags & 0x20) > 0 {
        enc_str(m.keywords->Some_0)
    } else {
        Seq::<u8>::empty()
    });
    if (f.0 & 0x20) > 0 {
        lemma_string_rt(d, tvn.1);
    } else {
        assert(c5 =~= d.subrange(tvn.1, kw.1));
    }
    lemma_join(d, p, tvn.1, kw.1, c5);
    let c6 = (if (m.flags & 0x01) > 0 {
        enc_le64(m.game_id->Some_0)
    } else {
        Seq::<u8>::empty()
    });
    if (f.0 & 0x01) > 0 {
        lemma_u64_rt(d, kw.1);
    } else {
        assert(c6 =~= d.subrange(kw.1, gid.1));
    }
    lemma_join(d, p, kw.1, gid.1, c6);
    assert(spec_encode_extra(m) == d.subrange(p, gid.1));
}

/// Whether decode-then-reencode is lossless on a body: whenever the
/// current-layout parse succeeds, the encoder rebuilds exactly the bytes the
/// parser consumed.
pub open spec fn info_round_trips(ship: bool, d: Seq<u8>) -> bool {
    match sp_info_current(ship, d) {
        Ok(pair) => spec_encode_info(pair.0) == d.subrange(0, pair.1),
        Err(_) => true,
    }
}

/// Law: for every valid single-fragment INFO body in the current layout,
/// decoding and re-encoding the fields is lossless: the encoder rebuilds
/// exactly the bytes the parser consumed.
#[verifier::rlimit(100)]
pub proof fn lemma_info_round_trip(d: Seq<u8>, ship: bool)
    ensures
        info_round_trips(ship, d),
{
    if sp_info_current(ship, d) is Ok {
        let pr = sp_u8(d, 0)->Ok_0;
        let nm = sp_string(d, pr.1)->Ok_0;
        let mp = sp_string(d, nm.1)->Ok_0;
        let fl = sp_string(d, mp.1)->Ok_0;
        let gm = sp_string(d, fl.1)->Ok_0;
        let ap = sp_u16(d, gm.1)->Ok_0;
        let pl = sp_u8(d, ap.1)->Ok_0;
        let mx = sp_u8(d, pl.1)->Ok_0;
        let bt = sp_u8(d, mx.1)->Ok_0;
        let ty = sp_u8(d, bt.1)->Ok_0;
        let en = sp_u8(d, ty.1)->Ok_0;
        let pw = sp_u8(d, en.1)->Ok_0;
        let vc = sp_u8(d, pw.1)->Ok_0;
        let m = sp_info_current(ship, d)->Ok_0.0;
        let end = sp_info_current(ship, d)->Ok_0.1;
        assert(seq![m.protocol] =~= d.subrange(0, pr.1));
        lemma_string_rt(d, pr.1);
        lemma_join(d, 0, pr.1, nm.1, enc_str(m.name));
        lemma_string_rt(d, nm.1);
        lemma_join(d, 0, nm.1, mp.1, enc_str(m.map));
        lemma_string_rt(d, mp.1);
        lemma_join(d, 0, mp.1, fl.1, enc_str(m.folder));
        lemma_string_rt(d, fl.1);
        lemma_join(d, 0, fl.1, gm.1, enc_str(m.game));
        lemma_u16_rt(d, gm.1);
        lemma_join(d, 0, gm.1, ap.1, enc_le16(m.appid16));
        let fixed = seq![m.players, m.max_players, m.bots, m.type_byte, m.env_byte, m.password_byte, m.vac_byte];
        assert(fixed =~= d.subrange(ap.1, vc.1));
        lemma_join(d, 0, ap.1, vc.1, fixed);
        let shipend: int = (if ship {
            sp_u8(d, sp_u8(d, sp_u8(d, vc.1)->Ok_0.1)->Ok_0.1)->Ok_0.1
        } else {
            vc.1
        });
        let shipbytes = (match m.ship {
            Some(t) => seq![t.0, t.1, t.2],
            None => Seq::<u8>::empty(),
        });
        assert(shipbytes =~= d.subrange(vc.1, shipend));
        lemma_join(d, 0, vc.1, shipend, shipbytes);
        let vs = sp_string(d, shipend)->Ok_0;
        lemma_string_rt(d, shipend);
        lemma_join(d, 0, shipend, vs.1, enc_str(m.version));
        let tail = (match m.extra {
            Some(e) => spec_encode_extra(e),
            None => Seq::<u8>::empty(),
        });
        if vs.1 == d.len() {
            assert(tail =~= d.subrange(vs.1, end));
        } else {
            lemma_extra_round_trip(d, vs.1);
        }
        lemma_join(d, 0, vs.1, end, tail);
        assert(spec_encode_info(m) == d.subrange(0, end));
    }
}

} // verus!\n