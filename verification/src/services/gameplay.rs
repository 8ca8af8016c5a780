//! Gameplay over the Hot lane.
//!
//! Opcode 1 carries a move: `[room_len][room][seq u32][keys u16][mx i16]
//! [my i16]`, integers little-endian. The service answers the room with
//! opcode 2: `[2][seq u32][keys u16][mx i16][my i16]`.

use vstd::prelude::*;
use vstd::string::{StrSliceExecFns, StringExecFns};
use vstd::utf8::{encode_utf8, encode_utf8_decode_utf8, encode_utf8_valid_utf8, valid_utf8};
use crate::error::{fails_bad_request, WsPrismError};
use crate::ids::RoomId;
use crate::protocol::hot::{bytes_from_vec, le_byte, le_u32};
use crate::protocol::text::{compact, json_compact, json_quoted, quote, Envelope, EnvelopeView};
use crate::strings::{decimal_repr, decimal_text, str_eq};
use crate::realtime::egress::{covers, Broadcast, RealtimeCore};
use crate::realtime::types::{utf8_to_string, Outgoing, Payload, QoS, WireView};

verus! {

/// A decoded move.
#[derive(Debug, Clone)]
pub struct Move {
    pub room: RoomId,
    pub seq: u32,
    pub keys: u16,
    pub mx: i16,
    pub my: i16,
}

/// The value of two bytes read as a little-endian `u16`.
pub open spec fn le_u16(b0: u8, b1: u8) -> int {
    b0 as int + 256 * (b1 as int)
}

/// The value of two bytes read as a little-endian `i16`.
pub open spec fn le_i16(b0: u8, b1: u8) -> int {
    if le_u16(b0, b1) >= 32768 {
        le_u16(b0, b1) - 65536
    } else {
        le_u16(b0, b1)
    }
}

/// Outcome of decoding a payload as a move.
pub enum MoveDecoded {
    /// A move: the bytes of the room's name, then the four numbers.
    Move(Seq<u8>, int, int, int, int),
    /// The payload is empty.
    TooShort,
    /// The payload ends before the move does.
    Truncated,
    /// The room's name is not UTF-8.
    RoomNotUtf8,
}

/// The decoding of `p` as a move. Bytes after the move are ignored.
pub open spec fn move_decoded(p: Seq<u8>) -> MoveDecoded {
    if p.len() < 1 {
        MoveDecoded::TooShort
    } else {
        let n = p[0] as int;
        if p.len() < 1 + n + 10 {
            MoveDecoded::Truncated
        } else if !valid_utf8(p.subrange(1, 1 + n)) {
            MoveDecoded::RoomNotUtf8
        } else {
            MoveDecoded::Move(
                p.subrange(1, 1 + n),
                le_u32(p[1 + n], p[2 + n], p[3 + n], p[4 + n]),
                le_u16(p[5 + n], p[6 + n]),
                le_i16(p[7 + n], p[8 + n]),
                le_i16(p[9 + n], p[10 + n]),
            )
        }
    }
}

/// Read two bytes as a little-endian `u16`.
fn read_u16(b0: u8, b1: u8) -> (r: u16)
    ensures
        r == le_u16(b0, b1),
{
    b0 as u16 + 256 * (b1 as u16)
}

/// Read two bytes as a little-endian `i16`.
fn read_i16(b0: u8, b1: u8) -> (r: i16)
    ensures
        r == le_i16(b0, b1),
{
    let u: i32 = b0 as i32 + 256 * (b1 as i32);
    if u >= 32768 {
        (u - 65536) as i16
    } else {
        u as i16
    }
}

/// Decode the payload of opcode 1.
pub fn parse_opcode1(payload: &[u8]) -> (res: Result<Move, WsPrismError>)
    ensures
        match move_decoded(payload@) {
            MoveDecoded::Move(room, seq, keys, mx, my) => res matches Ok(m) && encode_utf8(m.room.0@)
                == room && m.seq == seq && m.keys == keys && m.mx == mx && m.my == my,
            MoveDecoded::TooShort => fails_bad_request(res, "payload too short"@),
            MoveDecoded::Truncated => fails_bad_request(res, "payload truncated"@),
            MoveDecoded::RoomNotUtf8 => fails_bad_request(res, "room not utf8"@),
        },
{
    if payload.len() < 1 {
        return Err(WsPrismError::BadRequest("payload too short".to_owned()));
    }
    let n: usize = payload[0] as usize;
    if payload.len() < 1 + n + 10 {
        return Err(WsPrismError::BadRequest("payload truncated".to_owned()));
    }
    let mut name: Vec<u8> = Vec::new();
    let mut k: usize = 0;
    while k < n
        invariant
            k <= n,
            1 + n + 10 <= payload.len(),
            name@ == payload@.subrange(1, 1 + k as int),
        decreases n - k,
    {
        name.push(payload[1 + k]);
        assert(name@ =~= payload@.subrange(1, 2 + k as int));
        k += 1;
    }
    let room = match utf8_to_string(name.as_slice()) {
        Some(t) => t,
        None => {
            return Err(WsPrismError::BadRequest("room not utf8".to_owned()));
        },
    };
    let b = 1 + n;
    let seq: u32 = payload[b] as u32 + 256 * (payload[b + 1] as u32) + 65536 * (payload[b + 2] as u32)
        + 16777216 * (payload[b + 3] as u32);
    let keys = read_u16(payload[b + 4], payload[b + 5]);
    let mx = read_i16(payload[b + 6], payload[b + 7]);
    let my = read_i16(payload[b + 8], payload[b + 9]);
    Ok(Move { room: RoomId(room), seq, keys, mx, my })
}

/// Byte `i` (0 is the least significant) of the two's complement of `x`.
pub open spec fn le_byte_i16(x: i16, i: int) -> u8 {
    let u: int = if x < 0 {
        x + 65536
    } else {
        x as int
    };
    if i == 0 {
        (u % 256) as u8
    } else {
        (u / 256) as u8
    }
}

/// The bytes of opcode 2.
pub open spec fn moved_bytes(seq: u32, keys: u16, mx: i16, my: i16) -> Seq<u8> {
    seq![
        2u8,
        le_byte(seq, 0),
        le_byte(seq, 1),
        le_byte(seq, 2),
        le_byte(seq, 3),
        (keys % 256) as u8,
        (keys / 256) as u8,
        le_byte_i16(mx, 0),
        le_byte_i16(mx, 1),
        le_byte_i16(my, 0),
        le_byte_i16(my, 1),
    ]
}

/// Append the two bytes of `x`, least significant first.
fn push_i16(out: &mut Vec<u8>, x: i16)
    ensures
        final(out)@ == old(out)@.push(le_byte_i16(x, 0)).push(le_byte_i16(x, 1)),
{
    let u: i32 = if x < 0 {
        x as i32 + 65536
    } else {
        x as i32
    };
    out.push((u % 256) as u8);
    out.push((u / 256) as u8);
}

/// Encode opcode 2, the broadcast of a move: eleven bytes.
pub fn build_opcode2_moved(seq: u32, keys: u16, mx: i16, my: i16) -> (out: Vec<u8>)
    ensures
        out@ == moved_bytes(seq, keys, mx, my),
{
    let mut out: Vec<u8> = Vec::new();
    out.push(2);
    out.push((seq % 256) as u8);
    out.push(((seq / 256) % 256) as u8);
    out.push(((seq / 65536) % 256) as u8);
    out.push(((seq / 16777216) % 256) as u8);
    out.push((keys % 256) as u8);
    out.push((keys / 256) as u8);
    push_i16(&mut out, mx);
    push_i16(&mut out, my);
    assert(out@ =~= moved_bytes(seq, keys, mx, my));
    out
}

/// What is wrong with an envelope sent to the gameplay service, if
/// anything.
pub open spec fn game_fault(env: EnvelopeView) -> Option<Seq<char>> {
    if env.msg_type == "join"@ {
        if env.room is None {
            Some("game.join requires room"@)
        } else {
            None
        }
    } else if env.msg_type == "input"@ {
        if env.room is None {
            Some("game.input requires room"@)
        } else {
            None
        }
    } else {
        Some("unknown game type: "@ + env.msg_type)
    }
}

/// The `data` relayed with an input: the compact form of what was sent,
/// or an empty object when nothing was sent or it is not JSON.
pub open spec fn relayed_data(data: Option<Seq<char>>) -> Seq<char> {
    match data {
        Some(raw) => match json_compact(raw) {
            Some(c) => c,
            None => "{}"@,
        },
        None => "{}"@,
    }
}

/// The text relayed to the room for an input: a `game.input` envelope
/// that names the sender and repeats the sequence number.
pub open spec fn input_text(room: Seq<char>, from: Seq<char>, seq: Option<u64>, data: Seq<char>) -> Seq<
    char,
> {
    "{\"svc\":\"game\",\"type\":\"input\",\"room\":"@ + json_quoted(room) + ",\"data\":{\"data\":"@
        + data + ",\"from\":"@ + json_quoted(from) + ",\"seq\":"@ + (match seq {
        Some(n) => decimal_repr(n as int),
        None => "null"@,
    }) + "}}"@
}

/// Whether `b` is the broadcast of the move `m`: opcode 2 with the move's
/// numbers, offered to the sessions of the room that the move names.
pub open spec fn relays_move(core: &RealtimeCore, m: MoveDecoded, b: Broadcast) -> bool {
    m matches MoveDecoded::Move(room_bytes, seq, keys, mx, my) && b.frame@ == WireView::Binary(
        moved_bytes(seq as u32, keys as u16, mx as i16, my as i16),
    ) && exists|room: Seq<char>|
        #![trigger core.presence@.sessions_in(room)]
        encode_utf8(room) == room_bytes && covers(
            b.deliveries@,
            core.presence@.sessions_in(room),
            &core.sessions,
        )
}

/// The gameplay service.
#[derive(Debug, Clone, Copy, Default)]
pub struct GameplayService;

impl GameplayService {
    /// The gameplay service.
    pub fn new() -> (s: GameplayService) {
        GameplayService
    }

    /// The name under which the service is registered on the Ext lane.
    pub fn name(&self) -> (n: &'static str)
        ensures
            n@ == "game"@,
    {
        "game"
    }

    /// The id under which the service is registered on the Hot lane.
    pub fn svc_id(&self) -> (id: u8)
        ensures
            id == 1,
    {
        1
    }

    /// Handle an envelope from `session_key` of `user_key`. `game.join`
    /// puts the session, which must be registered for that user, into the
    /// room it names, without regard to caps;
    /// `game.input` relays the input, lossy, to the room it names. Both
    /// need a room; any other type is a bad request.
    pub fn handle(
        &self,
        core: &mut RealtimeCore,
        tenant: &str,
        user_key: &str,
        session_key: &str,
        env: &Envelope,
    ) -> (res: Result<Option<Broadcast>, WsPrismError>)
        requires
            old(core).wf(),
        ensures
            final(core).wf(),
            final(core).sessions@ == old(core).sessions@,
            match game_fault(env@) {
                Some(msg) => fails_bad_request(res, msg) && final(core).presence@ == old(core).presence@,
                None => if env@.msg_type == "join"@ {
                    if old(core).registers(user_key@, session_key@) {
                        res matches Ok(None) && final(core).presence@ == old(core).presence@.joined(
                            tenant@,
                            env@.room->0,
                            user_key@,
                            session_key@,
                        )
                    } else {
                        fails_bad_request(res, "game.join requires a registered session"@)
                            && final(core).presence@ == old(core).presence@
                    }
                } else {
                    res matches Ok(Some(b)) && final(core).presence@ == old(core).presence@
                        && b.frame@ == WireView::Text(
                        input_text(env@.room->0, user_key@, env@.seq, relayed_data(env@.data)),
                    ) && covers(
                        b.deliveries@,
                        old(core).presence@.sessions_in(env@.room->0),
                        &old(core).sessions,
                    )
                },
            },
    {
        if str_eq(env.msg_type.as_str(), "join") {
            let room = match &env.room {
                Some(r) => r,
                None => {
                    return Err(WsPrismError::BadRequest("game.join requires room".to_owned()));
                },
            };
            if !core.is_registered(user_key, session_key) {
                return Err(
                    WsPrismError::BadRequest("game.join requires a registered session".to_owned()),
                );
            }
            core.presence.join(tenant, room.as_str(), user_key, session_key);
            Ok(None)
        } else if str_eq(env.msg_type.as_str(), "input") {
            let room = match &env.room {
                Some(r) => r,
                None => {
                    return Err(WsPrismError::BadRequest("game.input requires room".to_owned()));
                },
            };
            let data: String = match &env.data {
                Some(raw) => match compact(raw.as_str()) {
                    Some(c) => c,
                    None => "{}".to_owned(),
                },
                None => "{}".to_owned(),
            };
            let mut text = "{\"svc\":\"game\",\"type\":\"input\",\"room\":".to_owned();
            text.append(quote(room.as_str()).as_str());
            text.append(",\"data\":{\"data\":");
            text.append(data.as_str());
            text.append(",\"from\":");
            text.append(quote(user_key).as_str());
            text.append(",\"seq\":");
            match env.seq {
                Some(n) => {
                    text.append(decimal_text(n).as_str());
                },
                None => {
                    text.append("null");
                },
            }
            text.append("}}");
            let ghost want = input_text(room@, user_key@, env.seq, relayed_data(env@.data));
            assert(text@ =~= want);
            proof {
                encode_utf8_valid_utf8(want);
            }
            let raw = text.as_str().as_bytes_vec();
            let out = Outgoing { qos: QoS::Lossy, payload: Payload::Utf8Bytes(bytes_from_vec(raw)) };
            match core.publish_room_lossy(room.as_str(), &out) {
                Ok(b) => {
                    proof {
                        match b.frame@ {
                            WireView::Text(s) => {
                                encode_utf8_decode_utf8(s);
                                encode_utf8_decode_utf8(want);
                            },
                            _ => {},
                        }
                    }
                    Ok(Some(b))
                },
                Err(e) => Err(e),
            }
        } else {
            let mut m = "unknown game type: ".to_owned();
            m.append(env.msg_type.as_str());
            Err(WsPrismError::BadRequest(m))
        }
    }

    /// Handle a Hot frame. Opcode 1 is a move, which is broadcast, lossy,
    /// as opcode 2 to the room that the move names; any other opcode is a
    /// bad request.
    pub fn handle_binary(&self, core: &RealtimeCore, opcode: u8, payload: &[u8]) -> (res: Result<
        Broadcast,
        WsPrismError,
    >)
        requires
            core.wf(),
        ensures
            opcode != 1 ==> fails_bad_request(res, "unknown opcode"@),
            opcode == 1 ==> (res is Ok <==> move_decoded(payload@) is Move),
            res matches Ok(b) ==> relays_move(core, move_decoded(payload@), b),
    {
        if opcode != 1 {
            return Err(WsPrismError::BadRequest("unknown opcode".to_owned()));
        }
        let m = match parse_opcode1(payload) {
            Ok(m) => m,
            Err(e) => {
                return Err(e);
            },
        };
        let bytes = build_opcode2_moved(m.seq, m.keys, m.mx, m.my);
        let out = Outgoing { qos: QoS::Lossy, payload: Payload::Binary(bytes_from_vec(bytes)) };
        let res = core.publish_room_lossy(m.room.0.as_str(), &out);
        proof {
            if res is Ok {
                assert(covers(
                    res->Ok_0.deliveries@,
                    core.presence@.sessions_in(m.room.0@),
                    &core.sessions,
                ));
            }
        }
        res
    }
}

} // verus!
