use gamedig::buffer::Bufferer;
use gamedig::engine::{build_response, challenge_response, check_app_id};
use gamedig::errors::GDError;
use gamedig::packet::Packet;
use gamedig::parse::{parse_server_info, parse_server_players, parse_server_rules};
use gamedig::settings::{Duration, GatheringSettings, TimeoutSettings};
use gamedig::split::{assemble_packets, decompress_checked, SplitPacket};
use gamedig::types::{App, Environment, Request, Server};

fn le16(v: u16) -> Vec<u8> {
    v.to_le_bytes().to_vec()
}

fn le32(v: u32) -> Vec<u8> {
    v.to_le_bytes().to_vec()
}

fn le64(v: u64) -> Vec<u8> {
    v.to_le_bytes().to_vec()
}

/// A current-layout INFO body with fixed strings and the given appid, type
/// and environment codes; `tail` is appended after the version terminator.
fn current_body(appid16: u16, type_byte: u8, env_byte: u8, tail: &[u8]) -> Vec<u8> {
    let mut b = vec![17u8];
    b.extend_from_slice(b"name\0map\0folder\0game\0");
    b.extend_from_slice(&appid16.to_le_bytes());
    b.extend_from_slice(&[3, 16, 1, type_byte, env_byte, 1, 1]);
    b.extend_from_slice(b"1.2.3\0");
    b.extend_from_slice(tail);
    b
}

/// An obsolete-layout INFO body: header byte, address, strings, counts,
/// uppercase codes, no mod block.
fn legacy_body(type_byte: u8, env_byte: u8) -> Vec<u8> {
    let mut b = vec![0u8];
    b.extend_from_slice(b"1.2.3.4:27015\0name\0map\0folder\0game\0");
    b.extend_from_slice(&[3, 16, 47, type_byte, env_byte, 1, 0, 1, 2]);
    b
}

const COMP: [u8; 86] = [
    66, 90, 104, 57, 49, 65, 89, 38, 83, 89, 157, 211, 119, 118, 0, 0, 21, 125, 128, 232, 0, 96,
    0, 0, 1, 56, 0, 0, 32, 39, 135, 208, 0, 64, 0, 160, 0, 33, 170, 109, 76, 212, 192, 158, 163,
    30, 144, 160, 3, 17, 166, 154, 52, 46, 95, 225, 141, 78, 180, 171, 122, 202, 193, 78, 205,
    149, 6, 212, 65, 208, 130, 233, 152, 158, 161, 193, 119, 36, 83, 133, 9, 9, 221, 55, 119, 96,
];

const FLAT: [u8; 42] = [
    255, 255, 255, 255, 73, 17, 110, 97, 109, 101, 0, 109, 97, 112, 0, 102, 111, 108, 100, 101,
    114, 0, 103, 97, 109, 101, 0, 240, 0, 3, 16, 1, 100, 108, 1, 1, 49, 46, 50, 46, 51, 0,
];

const FLAT_CRC: u32 = 0x7e0af0cb;

#[test]
fn timeout_zero_read_rejected() {
    let r = TimeoutSettings::new(Some(Duration::from_secs(0)), None);
    assert!(matches!(r, Err(GDError::InvalidInput(_))));
}

#[test]
fn timeout_zero_write_rejected() {
    let r = TimeoutSettings::new(None, Some(Duration::new(0, 0)));
    assert!(matches!(r, Err(GDError::InvalidInput(_))));
}

#[test]
fn timeout_default_finite_nonzero() {
    let t = TimeoutSettings::default();
    let read = t.get_read().unwrap();
    let write = t.get_write().unwrap();
    assert_eq!((read.secs, read.nanos), (4, 0));
    assert_eq!((write.secs, write.nanos), (4, 0));
}

#[test]
fn timeout_new_keeps_values() {
    let t = TimeoutSettings::new(Some(Duration::from_secs(2)), Some(Duration::new(3, 5))).unwrap();
    assert_eq!(t.get_read(), Some(Duration::new(2, 0)));
    assert_eq!(t.get_write(), Some(Duration::new(3, 5)));
}

#[test]
fn initial_info_bytes() {
    let bytes = Packet::initial(Request::INFO).to_bytes();
    let mut expected = vec![0xFFu8, 0xFF, 0xFF, 0xFF, 0x54];
    expected.extend_from_slice(b"Source Engine Query\0");
    assert_eq!(bytes, expected);
}

#[test]
fn initial_players_bytes() {
    let bytes = Packet::initial(Request::PLAYERS).to_bytes();
    assert_eq!(bytes, vec![0xFF, 0xFF, 0xFF, 0xFF, 0x55, 0xFF, 0xFF, 0xFF, 0xFF]);
}

#[test]
fn challenge_info_repeats_preamble() {
    let p = Packet::challenge(Request::INFO, vec![9, 8, 7, 6]);
    let mut expected = b"Source Engine Query\0".to_vec();
    expected.extend_from_slice(&[9, 8, 7, 6]);
    assert_eq!(p.payload, expected);
    assert_eq!(p.kind, 0x54);
}

#[test]
fn challenge_rules_token_alone() {
    let p = Packet::challenge(Request::RULES, vec![9, 8, 7, 6]);
    assert_eq!(p.payload, vec![9, 8, 7, 6]);
    assert_eq!(p.kind, 0x56);
}

#[test]
fn decode_single_packet() {
    let mut data = le32(0xFFFFFFFF);
    data.push(0x49);
    data.extend_from_slice(&[1, 2, 3]);
    let mut buf = Bufferer::new_with_data(data);
    let p = Packet::decode(&mut buf).unwrap();
    assert_eq!(p.header, 0xFFFFFFFF);
    assert_eq!(p.kind, 0x49);
    assert_eq!(p.payload, vec![1, 2, 3]);
}

#[test]
fn decode_short_packet_underflows() {
    let mut buf = Bufferer::new_with_data(vec![0xFF, 0xFF, 0xFF, 0xFF]);
    assert!(matches!(Packet::decode(&mut buf), Err(GDError::PacketUnderflow(_))));
}

#[test]
fn split_goldsrc_nibbles() {
    let mut data = le32(0xFFFFFFFE);
    data.extend_from_slice(&le32(99));
    data.push(0x23);
    data.extend_from_slice(&[10, 11]);
    let mut buf = Bufferer::new_with_data(data);
    let sp = SplitPacket::decode(&App::GoldSrc(false), 0, &mut buf).unwrap();
    assert_eq!(sp.total, 3);
    assert_eq!(sp.number, 2);
    assert!(!sp.compressed);
    assert_eq!(sp.payload, vec![10, 11]);
}

#[test]
fn split_source_reads_size() {
    let mut data = le32(0xFFFFFFFE);
    data.extend_from_slice(&le32(7));
    data.extend_from_slice(&[2, 0]);
    data.extend_from_slice(&le16(1260));
    data.extend_from_slice(&[10, 11, 12]);
    let mut buf = Bufferer::new_with_data(data);
    let sp = SplitPacket::decode(&App::Source(None), 0, &mut buf).unwrap();
    assert_eq!((sp.total, sp.number, sp.size), (2, 0, 1260));
    assert!(!sp.compressed);
    assert_eq!(sp.payload, vec![10, 11, 12]);
}

#[test]
fn split_css_protocol7_fixed_size() {
    let mut data = le32(0xFFFFFFFE);
    data.extend_from_slice(&le32(7));
    data.extend_from_slice(&[2, 0]);
    data.extend_from_slice(&[10, 11, 12]);
    let mut buf = Bufferer::new_with_data(data);
    let sp = SplitPacket::decode(&App::Source(Some(240)), 7, &mut buf).unwrap();
    assert_eq!(sp.size, 1248);
    assert_eq!(sp.payload, vec![10, 11, 12]);
}

#[test]
fn split_compressed_reads_integrity_fields() {
    let mut data = le32(0xFFFFFFFE);
    data.extend_from_slice(&le32(0x80000001));
    data.extend_from_slice(&[1, 0]);
    data.extend_from_slice(&le16(1260));
    data.extend_from_slice(&le32(42));
    data.extend_from_slice(&le32(0xDEADBEEF));
    data.extend_from_slice(&[10]);
    let mut buf = Bufferer::new_with_data(data);
    let sp = SplitPacket::decode(&App::Source(None), 0, &mut buf).unwrap();
    assert!(sp.compressed);
    assert_eq!(sp.decompressed_size, Some(42));
    assert_eq!(sp.uncompressed_crc32, Some(0xDEADBEEF));
    assert_eq!(sp.payload, vec![10]);
}

fn split_fragment(id: u32, total: u8, number: u8, payload: &[u8]) -> Vec<u8> {
    let mut d = le32(0xFFFFFFFE);
    d.extend_from_slice(&le32(id));
    d.push(total);
    d.push(number);
    d.extend_from_slice(&le16(1248));
    d.extend_from_slice(payload);
    d
}

#[test]
fn assemble_single_datagram() {
    let mut data = le32(0xFFFFFFFF);
    data.push(0x41);
    data.extend_from_slice(&[5, 6]);
    let (p, consumed) = assemble_packets(&App::Source(None), 0, &vec![data]).unwrap();
    assert_eq!(consumed, 1);
    assert_eq!(p.kind, 0x41);
    assert_eq!(p.payload, vec![5, 6]);
}

#[test]
fn assemble_three_fragments_in_order() {
    let flat = FLAT.to_vec();
    let dgs = vec![
        split_fragment(5, 3, 0, &flat[..20]),
        split_fragment(5, 3, 1, &flat[20..30]),
        split_fragment(5, 3, 2, &flat[30..]),
    ];
    let (p, consumed) = assemble_packets(&App::Source(None), 0, &dgs).unwrap();
    assert_eq!(consumed, 3);
    assert_eq!(p.header, 0xFFFFFFFF);
    assert_eq!(p.kind, 0x49);
    assert_eq!(p.payload, flat[5..].to_vec());
}

#[test]
fn assemble_missing_fragment_fails() {
    let dgs = vec![split_fragment(5, 3, 0, &[1, 2]), split_fragment(5, 3, 1, &[3])];
    let r = assemble_packets(&App::Source(None), 0, &dgs);
    assert!(matches!(r, Err(GDError::PacketReceive(_))));
}

fn compressed_fragment(decompressed_size: u32, crc: u32, payload: &[u8]) -> Vec<u8> {
    let mut d = le32(0xFFFFFFFE);
    d.extend_from_slice(&le32(0x80000005));
    d.push(1);
    d.push(0);
    d.extend_from_slice(&le16(1248));
    d.extend_from_slice(&le32(decompressed_size));
    d.extend_from_slice(&le32(crc));
    d.extend_from_slice(payload);
    d
}

#[test]
fn assemble_compressed_response() {
    let dgs = vec![compressed_fragment(42, FLAT_CRC, &COMP)];
    let (p, consumed) = assemble_packets(&App::Source(None), 0, &dgs).unwrap();
    assert_eq!(consumed, 1);
    assert_eq!(p.kind, 0x49);
    assert_eq!(p.payload, FLAT[5..].to_vec());
}

#[test]
fn assemble_compressed_wrong_size_fails() {
    let dgs = vec![compressed_fragment(41, FLAT_CRC, &COMP)];
    let r = assemble_packets(&App::Source(None), 0, &dgs);
    assert!(matches!(r, Err(GDError::Decompress(_))));
}

#[test]
fn assemble_compressed_wrong_crc_fails() {
    let dgs = vec![compressed_fragment(42, FLAT_CRC ^ 1, &COMP)];
    let r = assemble_packets(&App::Source(None), 0, &dgs);
    assert!(matches!(r, Err(GDError::Decompress(_))));
}

#[test]
fn decompress_checked_round_trip() {
    let out = decompress_checked(&COMP.to_vec(), 42, FLAT_CRC).unwrap();
    assert_eq!(out, FLAT.to_vec());
    assert_eq!(crc32fast::hash(&out), FLAT_CRC);
}

#[test]
fn decompress_checked_rejects_garbage() {
    let r = decompress_checked(&vec![1, 2, 3, 4], 4, 0);
    assert!(matches!(r, Err(GDError::Decompress(_))));
}

#[test]
fn info_current_dedicated_lowercase() {
    let info = parse_server_info(&App::Source(None), 0x49, current_body(240, 0x64, 0x6C, &[]))
        .unwrap();
    assert_eq!(info.server_type, Server::Dedicated);
    assert_eq!(info.environment_type, Environment::Linux);
    assert_eq!(info.name, "name");
    assert_eq!(info.map, "map");
    assert_eq!(info.folder, "folder");
    assert_eq!(info.game, "game");
    assert_eq!(info.appid, 240);
    assert_eq!((info.players, info.max_players, info.bots), (3, 16, 1));
    assert!(info.has_password);
    assert!(info.vac_secured);
    assert_eq!(info.version, "1.2.3");
    assert!(info.extra_data.is_none());
    assert!(info.the_ship.is_none());
}

#[test]
fn info_current_type_zero_fails() {
    let r = parse_server_info(&App::Source(None), 0x49, current_body(240, 0x00, 0x6C, &[]));
    assert!(matches!(r, Err(GDError::UnknownEnumCast)));
}

#[test]
fn info_legacy_dedicated_uppercase() {
    let info = parse_server_info(&App::GoldSrc(true), 0x49, legacy_body(0x44, 0x4C)).unwrap();
    assert_eq!(info.server_type, Server::Dedicated);
    assert_eq!(info.environment_type, Environment::Linux);
    assert_eq!(info.appid, 0);
    assert_eq!(info.version, "");
    assert!(info.extra_data.is_none());
    assert!(!info.is_mod);
    assert_eq!((info.players, info.max_players, info.protocol, info.bots), (3, 16, 47, 2));
}

#[test]
fn info_legacy_type_zero_fails() {
    let r = parse_server_info(&App::GoldSrc(true), 0x49, legacy_body(0x00, 0x4C));
    assert!(matches!(r, Err(GDError::UnknownEnumCast)));
}

#[test]
fn extra_flags_zero_all_absent() {
    let info = parse_server_info(&App::Source(None), 0x49, current_body(240, 0x64, 0x77, &[0x00]))
        .unwrap();
    let e = info.extra_data.unwrap();
    assert!(e.port.is_none());
    assert!(e.steam_id.is_none());
    assert!(e.tv_port.is_none());
    assert!(e.tv_name.is_none());
    assert!(e.keywords.is_none());
    assert!(e.game_id.is_none());
}

#[test]
fn extra_flag_port_only() {
    let mut tail = vec![0x80u8];
    tail.extend_from_slice(&le16(27015));
    let info = parse_server_info(&App::Source(None), 0x49, current_body(240, 0x64, 0x77, &tail))
        .unwrap();
    let e = info.extra_data.unwrap();
    assert_eq!(e.port, Some(27015));
    assert!(e.steam_id.is_none() && e.tv_port.is_none() && e.tv_name.is_none());
    assert!(e.keywords.is_none() && e.game_id.is_none());
}

#[test]
fn extra_flag_steam_id_only() {
    let mut tail = vec![0x10u8];
    tail.extend_from_slice(&le64(76561198000000000));
    let info = parse_server_info(&App::Source(None), 0x49, current_body(240, 0x64, 0x77, &tail))
        .unwrap();
    let e = info.extra_data.unwrap();
    assert_eq!(e.steam_id, Some(76561198000000000));
    assert!(e.port.is_none() && e.tv_port.is_none() && e.tv_name.is_none());
    assert!(e.keywords.is_none() && e.game_id.is_none());
}

#[test]
fn extra_flag_spectator_pair() {
    let mut tail = vec![0x40u8];
    tail.extend_from_slice(&le16(27020));
    tail.extend_from_slice(b"tv\0");
    let info = parse_server_info(&App::Source(None), 0x49, current_body(240, 0x64, 0x77, &tail))
        .unwrap();
    let e = info.extra_data.unwrap();
    assert_eq!(e.tv_port, Some(27020));
    assert_eq!(e.tv_name.as_deref(), Some("tv"));
    assert!(e.port.is_none() && e.steam_id.is_none());
    assert!(e.keywords.is_none() && e.game_id.is_none());
}

#[test]
fn extra_flag_keywords_only() {
    let mut tail = vec![0x20u8];
    tail.extend_from_slice(b"fast,eu\0");
    let info = parse_server_info(&App::Source(None), 0x49, current_body(240, 0x64, 0x77, &tail))
        .unwrap();
    let e = info.extra_data.unwrap();
    assert_eq!(e.keywords.as_deref(), Some("fast,eu"));
    assert!(e.port.is_none() && e.steam_id.is_none());
    assert!(e.tv_port.is_none() && e.tv_name.is_none() && e.game_id.is_none());
}

#[test]
fn extra_flag_game_id_overrides_appid() {
    let mut tail = vec![0x01u8];
    let gid: u64 = 4000 | (7 << 24);
    tail.extend_from_slice(&le64(gid));
    let info = parse_server_info(&App::Source(None), 0x49, current_body(240, 0x64, 0x77, &tail))
        .unwrap();
    let e = info.extra_data.clone().unwrap();
    assert_eq!(e.game_id, Some(gid));
    assert_eq!(info.appid, 4000);
    assert!(e.port.is_none() && e.steam_id.is_none());
    assert!(e.tv_port.is_none() && e.tv_name.is_none() && e.keywords.is_none());
}

#[test]
fn ship_block_present_for_the_ship() {
    let mut body = vec![17u8];
    body.extend_from_slice(b"name\0map\0folder\0game\0");
    body.extend_from_slice(&(2400u16).to_le_bytes());
    body.extend_from_slice(&[3, 16, 1, 0x64, 0x6C, 0, 0]);
    body.extend_from_slice(&[1, 2, 3]);
    body.extend_from_slice(b"1.0\0");
    let info = parse_server_info(&App::Source(Some(2400)), 0x49, body).unwrap();
    let ship = info.the_ship.unwrap();
    assert_eq!((ship.mode, ship.witnesses, ship.duration), (1, 2, 3));
}

fn player_entry(name: &str, score: u32, duration: f32) -> Vec<u8> {
    let mut b = vec![0u8];
    b.extend_from_slice(name.as_bytes());
    b.push(0);
    b.extend_from_slice(&score.to_le_bytes());
    b.extend_from_slice(&duration.to_bits().to_le_bytes());
    b
}

#[test]
fn players_parse_basic() {
    let mut data = vec![2u8];
    data.extend_from_slice(&player_entry("alpha", 7, 60.5));
    data.extend_from_slice(&player_entry("beta", 3, 0.25));
    let ps = parse_server_players(&App::Source(None), data).unwrap();
    assert_eq!(ps.len(), 2);
    assert_eq!(ps[0].name, "alpha");
    assert_eq!(ps[0].score, 7);
    assert_eq!(f32::from_bits(ps[0].duration_bits), 60.5);
    assert!(ps[0].deaths.is_none() && ps[0].money.is_none());
    assert_eq!(ps[1].name, "beta");
    assert_eq!(f32::from_bits(ps[1].duration_bits), 0.25);
}

#[test]
fn players_parse_ship_fields() {
    let mut data = vec![1u8];
    let mut entry = player_entry("cap", 1, 2.0);
    entry.extend_from_slice(&9u32.to_le_bytes());
    entry.extend_from_slice(&4500u32.to_le_bytes());
    data.extend_from_slice(&entry);
    let ps = parse_server_players(&App::Source(Some(2400)), data).unwrap();
    assert_eq!(ps[0].deaths, Some(9));
    assert_eq!(ps[0].money, Some(4500));
}

#[test]
fn players_truncated_underflows() {
    let data = vec![2u8, 0, b'a', 0, 1, 0, 0, 0];
    let r = parse_server_players(&App::Source(None), data);
    assert!(matches!(r, Err(GDError::PacketUnderflow(_))));
}

#[test]
fn rules_parse_basic() {
    let mut data = 2u16.to_le_bytes().to_vec();
    data.extend_from_slice(b"mp_friendlyfire\0");
    data.extend_from_slice(b"1\0");
    data.extend_from_slice(b"sv_gravity\0");
    data.extend_from_slice(b"800\0");
    let rs = parse_server_rules(data).unwrap();
    assert_eq!(rs.len(), 2);
    assert_eq!(rs[0].name, "mp_friendlyfire");
    assert_eq!(rs[0].value, "1");
    assert_eq!(rs[1].name, "sv_gravity");
    assert_eq!(rs[1].value, "800");
}

#[test]
fn rules_bad_utf8_fails() {
    let mut data = 1u16.to_le_bytes().to_vec();
    data.extend_from_slice(b"name\0");
    data.extend_from_slice(&[0xFF, 0xFE, 0x00]);
    let r = parse_server_rules(data);
    assert!(matches!(r, Err(GDError::PacketBad(_))));
}

#[test]
fn string_missing_terminator_fails() {
    let data = vec![1u8, 0, b'a', b'b'];
    let r = parse_server_rules(data);
    assert!(matches!(r, Err(GDError::PacketBad(_))));
}

#[test]
fn challenge_flow_decisions() {
    let first = Packet { header: 0xFFFFFFFF, kind: 0x41, payload: vec![1, 2, 3, 4] };
    let second = challenge_response(Request::PLAYERS, &first).unwrap();
    assert_eq!(second.kind, 0x55);
    assert_eq!(second.payload, vec![1, 2, 3, 4]);
    let answered = Packet { header: 0xFFFFFFFF, kind: 0x44, payload: vec![0] };
    assert!(challenge_response(Request::PLAYERS, &answered).is_none());
}

#[test]
fn app_id_check() {
    assert!(check_app_id(&App::Source(Some(240)), 240).is_ok());
    assert!(check_app_id(&App::Source(None), 4000).is_ok());
    assert!(check_app_id(&App::GoldSrc(false), 4000).is_ok());
    assert!(matches!(check_app_id(&App::Source(Some(240)), 4000), Err(GDError::BadGame(_))));
}

#[test]
fn mismatch_blocks_partial_data() {
    let body = current_body(4000, 0x64, 0x6C, &[]);
    let mut players = vec![1u8];
    players.extend_from_slice(&player_entry("alpha", 7, 1.0));
    let rules = 0u16.to_le_bytes().to_vec();
    let r = build_response(
        &App::Source(Some(240)),
        GatheringSettings { players: true, rules: true },
        0x49,
        body,
        Some(players),
        Some(rules),
    );
    assert!(matches!(r, Err(GDError::BadGame(_))));
}

#[test]
fn goldsrc_obsolete_layout_autodetected() {
    let r = build_response(
        &App::GoldSrc(false),
        GatheringSettings { players: false, rules: false },
        0x6D,
        legacy_body(0x44, 0x4C),
        None,
        None,
    )
    .unwrap();
    assert_eq!(r.info.appid, 0);
    assert_eq!(r.info.version, "");
    assert!(r.info.extra_data.is_none());
    assert!(r.players.is_none() && r.rules.is_none());
}

#[test]
fn full_response_gathers_requested_bodies() {
    let body = current_body(240, 0x64, 0x6C, &[]);
    let mut players = vec![1u8];
    players.extend_from_slice(&player_entry("alpha", 7, 1.0));
    let mut rules = 1u16.to_le_bytes().to_vec();
    rules.extend_from_slice(b"sv_cheats\0");
    rules.extend_from_slice(b"0\0");
    let r = build_response(
        &App::Source(Some(240)),
        GatheringSettings { players: true, rules: true },
        0x49,
        body,
        Some(players),
        Some(rules),
    )
    .unwrap();
    assert_eq!(r.players.unwrap()[0].name, "alpha");
    assert_eq!(r.rules.unwrap()[0].name, "sv_cheats");
}

#[test]
fn legacy_mod_block_parsed() {
    let mut b = vec![0u8];
    b.extend_from_slice(b"addr\0name\0map\0folder\0game\0");
    b.extend_from_slice(&[3, 16, 47, 0x4C, 0x57, 0, 1]);
    b.extend_from_slice(b"link\0dl\0");
    b.extend_from_slice(&2u32.to_le_bytes());
    b.extend_from_slice(&1024u32.to_le_bytes());
    b.extend_from_slice(&[1, 0]);
    b.extend_from_slice(&[1, 5]);
    let info = parse_server_info(&App::GoldSrc(true), 0x49, b).unwrap();
    assert!(info.is_mod);
    let md = info.mod_data.unwrap();
    assert_eq!(md.link, "link");
    assert_eq!(md.download_link, "dl");
    assert_eq!((md.version, md.size), (2, 1024));
    assert!(md.multiplayer_only && !md.has_own_dll);
    assert_eq!(info.server_type, Server::NonDedicated);
    assert_eq!(info.environment_type, Environment::Windows);
    assert!(info.vac_secured);
    assert_eq!(info.bots, 5);
}

#[test]
fn extra_all_flags_combined() {
    let mut tail = vec![0xF1u8];
    tail.extend_from_slice(&27015u16.to_le_bytes());
    tail.extend_from_slice(&90071996842u64.to_le_bytes());
    tail.extend_from_slice(&27020u16.to_le_bytes());
    tail.extend_from_slice(b"tv\0");
    tail.extend_from_slice(b"fast\0");
    tail.extend_from_slice(&(4000u64 | (1 << 24)).to_le_bytes());
    let info = parse_server_info(&App::Source(None), 0x49, current_body(240, 0x70, 0x6F, &tail))
        .unwrap();
    assert_eq!(info.server_type, Server::TV);
    assert_eq!(info.environment_type, Environment::Mac);
    let e = info.extra_data.unwrap();
    assert_eq!(e.port, Some(27015));
    assert_eq!(e.steam_id, Some(90071996842));
    assert_eq!(e.tv_port, Some(27020));
    assert_eq!(e.tv_name.as_deref(), Some("tv"));
    assert_eq!(e.keywords.as_deref(), Some("fast"));
    assert_eq!(e.game_id, Some(4000 | (1 << 24)));
    assert_eq!(info.appid, 4000);
}

#[test]
fn error_message_text() {
    let e = GDError::Decompress("bad".to_string());
    assert_eq!(e.message(), "Couldn't decompress data: bad");
    assert_eq!(GDError::UnknownEnumCast.message(), "Unknown enum cast encountered.");
}
