//! The request-flow decisions and the query facade's rules.
//!
//! The socket work of a query lives outside the library; what is decided
//! here is everything else: which bytes each request sends, when the
//! challenge handshake demands a second round trip, how a response body
//! becomes a typed result, and that a queried app id must match the
//! caller's expected one before any partial data is surfaced.

use vstd::prelude::*;
use vstd::slice::slice_to_vec;
use crate::buffer::err_matches;
use crate::errors::{GDError, GDResult};
use crate::packet::{KIND_CHALLENGE, Packet, spec_challenge_payload, HEADER_SINGLE};
use crate::parse::{
    PlayerModel, RuleModel, info_matches, legacy_info_matches, player_matches, rule_matches,
    parse_server_info, parse_server_players, parse_server_rules, sp_info_current, sp_info_legacy,
    sp_players_all, sp_rules_all, spec_resolved_appid, spec_uses_legacy,
};
use crate::settings::GatheringSettings;
use crate::types::{App, Request, Response, ServerPlayer, ServerRule, spec_is_the_ship};

verus! {

/// Whether a response's resolved app id contradicts the caller's expected
/// one. Only a Source identity with an expected id can mismatch.
pub open spec fn spec_id_mismatch(app: App, found: u32) -> bool {
    app matches App::Source(Some(expected)) && expected != found
}

/// The two-phase handshake decision: a first response whose kind is the
/// challenge tag is answered with the challenge packet echoing its payload;
/// any other first response is the answer itself and nothing more is sent.
pub fn challenge_response(kind: Request, first: &Packet) -> (r: Option<Packet>)
    ensures
        first.kind == KIND_CHALLENGE ==> (r matches Some(p) && p.header == HEADER_SINGLE
            && p.kind == kind.spec_code() && p.payload@ == spec_challenge_payload(
            kind,
            first.payload@,
        )),
        first.kind != KIND_CHALLENGE ==> r is None,
{
    if first.kind == KIND_CHALLENGE {
        Some(Packet::challenge(kind, slice_to_vec(first.payload.as_slice())))
    } else {
        None
    }
}

/// Fail with a game mismatch when the caller expected a specific app id and
/// the response resolved to a different one.
pub fn check_app_id(app: &App, found: u32) -> (r: GDResult<()>)
    ensures
        spec_id_mismatch(*app, found) ==> (r matches Err(e) && e is BadGame),
        !spec_id_mismatch(*app, found) ==> r is Ok,
{
    match app {
        App::Source(Some(expected)) => {
            if *expected != found {
                Err(GDError::BadGame(
                    "The response's app id differs from the expected one.".to_string(),
                ))
            } else {
                Ok(())
            }
        },
        _ => Ok(()),
    }
}

/// Whether a typed player list equals a sequence of wire models, entry by
/// entry and in order.
pub open spec fn players_match_seq(ps: Vec<ServerPlayer>, ms: Seq<PlayerModel>) -> bool {
    ps@.len() == ms.len() && forall|j: int| 0 <= j < ms.len() ==> player_matches(ps@[j], ms[j])
}

/// Whether a typed rule list equals a sequence of wire models, entry by
/// entry and in order.
pub open spec fn rules_match_seq(rs: Vec<ServerRule>, ms: Seq<RuleModel>) -> bool {
    rs@.len() == ms.len() && forall|j: int| 0 <= j < ms.len() ==> rule_matches(rs@[j], ms[j])
}

/// What a query returns once the info body parsed and resolved to `found`:
/// a mismatch against the expected app id fails with a game mismatch before
/// any player or rule data is surfaced; otherwise the gathered bodies parse
/// in turn, each failure propagating, and the result carries exactly the
/// requested lists.
pub open spec fn spec_tail_outcome(
    app: App,
    gather: GatheringSettings,
    found: u32,
    players_data: Option<Vec<u8>>,
    rules_data: Option<Vec<u8>>,
    r: GDResult<Response>,
) -> bool {
    if spec_id_mismatch(app, found) {
        r matches Err(e) && e is BadGame
    } else {
        if gather.players {
            match sp_players_all(spec_is_the_ship(app), players_data->Some_0@) {
                Err(k) => r matches Err(e) && err_matches(e, k),
                Ok(pms) => {
                    if gather.rules {
                        match sp_rules_all(rules_data->Some_0@) {
                            Err(k) => r matches Err(e) && err_matches(e, k),
                            Ok(rms) => r matches Ok(resp)
                                && (resp.players matches Some(ps) && players_match_seq(ps, pms))
                                && (resp.rules matches Some(rs) && rules_match_seq(rs, rms)),
                        }
                    } else {
                        r matches Ok(resp) && (resp.players matches Some(ps)
                            && players_match_seq(ps, pms)) && resp.rules is None
                    }
                },
            }
        } else {
            if gather.rules {
                match sp_rules_all(rules_data->Some_0@) {
                    Err(k) => r matches Err(e) && err_matches(e, k),
                    Ok(rms) => r matches Ok(resp) && resp.players is None
                        && (resp.rules matches Some(rs) && rules_match_seq(rs, rms)),
                }
            } else {
                r matches Ok(resp) && resp.players is None && resp.rules is None
            }
        }
    }
}

/// Compose a query's result from the already-received response bodies: the
/// INFO packet's kind byte and payload, and, for each body the gathering
/// settings request, that body's flat payload.
///
/// The info body decides first: its parse failure is the query's failure,
/// and a resolved app id that contradicts the expected one fails with a game
/// mismatch before any player or rule data is touched.
pub fn build_response(
    app: &App,
    gather: GatheringSettings,
    info_kind: u8,
    info_data: Vec<u8>,
    players_data: Option<Vec<u8>>,
    rules_data: Option<Vec<u8>>,
) -> (r: GDResult<Response>)
    requires
        gather.players ==> players_data is Some,
        gather.rules ==> rules_data is Some,
    ensures
        spec_uses_legacy(*app, info_kind) ==> match sp_info_legacy(info_data@) {
            Err(k) => r matches Err(e) && err_matches(e, k),
            Ok(pair) => spec_tail_outcome(*app, gather, 0, players_data, rules_data, r) && (
            r matches Ok(resp) ==> legacy_info_matches(resp.info, pair.0)),
        },
        !spec_uses_legacy(*app, info_kind) ==> match sp_info_current(
            spec_is_the_ship(*app),
            info_data@,
        ) {
            Err(k) => r matches Err(e) && err_matches(e, k),
            Ok(pair) => spec_tail_outcome(
                *app,
                gather,
                spec_resolved_appid(pair.0),
                players_data,
                rules_data,
                r,
            ) && (r matches Ok(resp) ==> info_matches(resp.info, pair.0)),
        },
{
    let info = parse_server_info(app, info_kind, info_data)?;
    check_app_id(app, info.appid)?;
    let players = match (gather.players, players_data) {
        (true, Some(pd)) => Some(parse_server_players(app, pd)?),
        _ => None,
    };
    let rules = match (gather.rules, rules_data) {
        (true, Some(rd)) => Some(parse_server_rules(rd)?),
        _ => None,
    };
    Ok(Response { info, players, rules })
}

} // verus!
