use vstd::prelude::*;

use crate::error::{Error, Result};
use crate::header::{
    be16_at, be32_at, header_bytes, header_of, lemma_header_round_trip, read_be32, Header,
    PacketType, PacketVer,
};
use crate::json::{array_of, json_of, member, parse_json, str_of, u64_of, Json, JsonV};

verus! {

/// Fan-medal attached to a chat message.
#[derive(Debug)]
pub struct MedalInfo {
    pub name: String,
    pub level: u64,
    pub uname: String,
    pub room: u64,
}

/// Sender of a chat message.
#[derive(Debug)]
pub struct UserInfo {
    pub name: String,
    pub id: u64,
}

/// A chat ("danmu") message.
#[derive(Debug)]
pub struct DanmuPacket {
    pub text: String,
    pub user: UserInfo,
    pub medal: Option<MedalInfo>,
}

/// Presence marker of a viewer entering or following; its content is not read.
#[derive(Debug)]
pub struct InteractPacket {}

/// A gift sent by a viewer.
#[derive(Debug)]
pub struct GiftPacket {
    pub action: String,
    pub gift_name: String,
    pub uname: String,
    pub num: u64,
    pub price: u64,
}

/// A decoded event.
#[derive(Debug)]
pub enum Packet {
    Danmu(DanmuPacket),
    Interact(InteractPacket),
    Banner,
    Notice,
    /// A message whose command is not one of the known ones, kept whole.
    Other(Json),
    Gift(GiftPacket),
}

pub struct MedalV {
    pub name: Seq<char>,
    pub level: u64,
    pub uname: Seq<char>,
    pub room: u64,
}

pub struct DanmuV {
    pub text: Seq<char>,
    pub user_name: Seq<char>,
    pub user_id: u64,
    pub medal: Option<MedalV>,
}

pub struct GiftV {
    pub action: Seq<char>,
    pub gift_name: Seq<char>,
    pub uname: Seq<char>,
    pub num: u64,
    pub price: u64,
}

/// Model of a decoded event.
pub enum PacketV {
    Danmu(DanmuV),
    Interact,
    Banner,
    Notice,
    Other(JsonV),
    Gift(GiftV),
}

impl View for MedalInfo {
    type V = MedalV;

    open spec fn view(&self) -> MedalV {
        MedalV { name: self.name@, level: self.level, uname: self.uname@, room: self.room }
    }
}

impl View for DanmuPacket {
    type V = DanmuV;

    open spec fn view(&self) -> DanmuV {
        DanmuV {
            text: self.text@,
            user_name: self.user.name@,
            user_id: self.user.id,
            medal: match self.medal {
                Some(m) => Some(m@),
                None => None,
            },
        }
    }
}

impl View for GiftPacket {
    type V = GiftV;

    open spec fn view(&self) -> GiftV {
        GiftV {
            action: self.action@,
            gift_name: self.gift_name@,
            uname: self.uname@,
            num: self.num,
            price: self.price,
        }
    }
}

impl View for Packet {
    type V = PacketV;

    open spec fn view(&self) -> PacketV {
        match self {
            Packet::Danmu(d) => PacketV::Danmu(d@),
            Packet::Interact(_) => PacketV::Interact,
            Packet::Banner => PacketV::Banner,
            Packet::Notice => PacketV::Notice,
            Packet::Other(v) => PacketV::Other(v@),
            Packet::Gift(g) => PacketV::Gift(g@),
        }
    }
}

/// The medal that a medal array describes: none for an empty array, else
/// level, name, owner name and owner room at positions 0 to 3. `None` when
/// the array is neither empty nor holds those four fields.
pub open spec fn medal_of(m: Seq<JsonV>) -> Option<Option<MedalV>> {
    if m.len() == 0 {
        Some(None)
    } else if m.len() < 4 {
        None
    } else {
        match (u64_of(m[0]), str_of(m[1]), str_of(m[2]), u64_of(m[3])) {
            (Some(level), Some(name), Some(uname), Some(room)) => Some(
                Some(MedalV { name, level, uname, room }),
            ),
            _ => None,
        }
    }
}

/// The chat message that the positional `info` array of a `DANMU_MSG`
/// describes: position 0 an array, 1 the text, 2 `[user id, user name, ..]`,
/// 3 the medal array. `None` when a field is missing or of another type.
pub open spec fn danmu_of(info: JsonV) -> Option<DanmuV> {
    match array_of(info) {
        Some(a) => if a.len() < 4 || array_of(a[0]) is None {
            None
        } else {
            match (str_of(a[1]), array_of(a[2]), array_of(a[3])) {
                (Some(text), Some(u), Some(m)) => if u.len() < 2 {
                    None
                } else {
                    match (u64_of(u[0]), str_of(u[1]), medal_of(m)) {
                        (Some(user_id), Some(user_name), Some(medal)) => Some(
                            DanmuV { text, user_name, user_id, medal },
                        ),
                        _ => None,
                    }
                },
                _ => None,
            }
        },
        None => None,
    }
}

/// The text of the member `key` of `v`, when it is a string.
pub open spec fn member_str(v: JsonV, key: Seq<char>) -> Option<Seq<char>> {
    match member(v, key) {
        Some(x) => str_of(x),
        None => None,
    }
}

/// The value of the member `key` of `v`, when it is an integer within `u64`.
pub open spec fn member_u64(v: JsonV, key: Seq<char>) -> Option<u64> {
    match member(v, key) {
        Some(x) => u64_of(x),
        None => None,
    }
}

/// The gift that the `data` object of a `SEND_GIFT` describes, read by the
/// keys `action`, `giftName`, `uname`, `num` and `price`.
pub open spec fn gift_of(data: JsonV) -> Option<GiftV> {
    match (
        member_str(data, "action"@),
        member_str(data, "giftName"@),
        member_str(data, "uname"@),
        member_u64(data, "num"@),
        member_u64(data, "price"@),
    ) {
        (Some(action), Some(gift_name), Some(uname), Some(num), Some(price)) => Some(
            GiftV { action, gift_name, uname, num, price },
        ),
        _ => None,
    }
}

/// The event that a parsed message describes, selected by its string member
/// `cmd`. `None` (no event) when `cmd` is missing or not a string, or when a
/// known command's required fields are missing or mistyped; an unknown
/// command keeps the whole message.
pub open spec fn packet_of(v: JsonV) -> Option<PacketV> {
    match member(v, "cmd"@) {
        Some(JsonV::Str(c)) => if c == "DANMU_MSG"@ {
            match member(v, "info"@) {
                Some(info) => match danmu_of(info) {
                    Some(d) => Some(PacketV::Danmu(d)),
                    None => None,
                },
                None => None,
            }
        } else if c == "INTERACT_WORD"@ {
            match member(v, "data"@) {
                Some(JsonV::Object(_)) => Some(PacketV::Interact),
                _ => None,
            }
        } else if c == "ROOM_BANNER"@ {
            Some(PacketV::Banner)
        } else if c == "NOTICE_MSG"@ {
            Some(PacketV::Notice)
        } else if c == "SEND_GIFT"@ {
            match member(v, "data"@) {
                Some(data) => match gift_of(data) {
                    Some(g) => Some(PacketV::Gift(g)),
                    None => None,
                },
                None => None,
            }
        } else {
            Some(PacketV::Other(v))
        },
        _ => None,
    }
}

/// Whether `s` holds exactly the text `lit`.
fn text_is(s: &String, lit: &str) -> (r: bool)
    ensures
        r == (s@ == lit@),
{
    let l = lit.to_owned();
    *s == l
}

impl MedalInfo {
    /// Reads a medal array; see `medal_of`.
    fn from_array(m: &Vec<Json>) -> (r: Option<Option<MedalInfo>>)
        ensures
            forall|s: Seq<JsonV>|
                s.len() == m.len() && (forall|i: int| 0 <= i < m.len() ==> s[i] == #[trigger] m[i]@)
                    ==> match r {
                    Some(Some(x)) => medal_of(s) == Some(Some(x@)),
                    Some(None) => medal_of(s) == Some(None::<MedalV>),
                    None => medal_of(s) is None,
                },
    {
        if m.len() == 0 {
            return Some(None);
        }
        if m.len() < 4 {
            return None;
        }
        let level = match m[0].as_u64() {
            Some(x) => x,
            None => return None,
        };
        let name = match m[1].as_str() {
            Some(x) => x,
            None => return None,
        };
        let uname = match m[2].as_str() {
            Some(x) => x,
            None => return None,
        };
        let room = match m[3].as_u64() {
            Some(x) => x,
            None => return None,
        };
        Some(Some(MedalInfo { name: name.clone(), level, uname: uname.clone(), room }))
    }
}

impl DanmuPacket {
    /// Reads the positional `info` array of a chat message; see `danmu_of`.
    pub fn from_value(v: &Json) -> (r: Option<DanmuPacket>)
        ensures
            match r {
                Some(d) => danmu_of(v@) == Some(d@),
                None => danmu_of(v@) is None,
            },
    {
        let arr = match v.as_array() {
            Some(a) => a,
            None => return None,
        };
        let ghost sa = array_of(v@)->Some_0;
        if arr.len() < 4 {
            return None;
        }
        assert(sa[0] == arr[0]@ && sa[1] == arr[1]@ && sa[2] == arr[2]@ && sa[3] == arr[3]@);
        match arr[0].as_array() {
            Some(_) => {},
            None => return None,
        }
        let text = match arr[1].as_str() {
            Some(x) => x,
            None => return None,
        };
        let user_info = match arr[2].as_array() {
            Some(x) => x,
            None => return None,
        };
        let medal_info = match arr[3].as_array() {
            Some(x) => x,
            None => return None,
        };
        let ghost su = array_of(sa[2])->Some_0;
        let ghost sm = array_of(sa[3])->Some_0;
        if user_info.len() < 2 {
            return None;
        }
        assert(su[0] == user_info[0]@ && su[1] == user_info[1]@);
        let id = match user_info[0].as_u64() {
            Some(x) => x,
            None => return None,
        };
        let name = match user_info[1].as_str() {
            Some(x) => x,
            None => return None,
        };
        let medal = match MedalInfo::from_array(medal_info) {
            Some(m) => m,
            None => return None,
        };
        assert(sm.len() == medal_info.len());
        let r = DanmuPacket { text: text.clone(), user: UserInfo { name: name.clone(), id }, medal };
        assert(medal_of(sm) == Some(r@.medal));
        Some(r)
    }
}

impl GiftPacket {
    /// Reads the `data` object of a gift message; see `gift_of`.
    pub fn from_value(v: &Json) -> (r: Option<GiftPacket>)
        ensures
            match r {
                Some(g) => gift_of(v@) == Some(g@),
                None => gift_of(v@) is None,
            },
    {
        let action = match v.get("action") {
            Some(x) => match x.as_str() {
                Some(s) => s.clone(),
                None => return None,
            },
            None => return None,
        };
        let gift_name = match v.get("giftName") {
            Some(x) => match x.as_str() {
                Some(s) => s.clone(),
                None => return None,
            },
            None => return None,
        };
        let uname = match v.get("uname") {
            Some(x) => match x.as_str() {
                Some(s) => s.clone(),
                None => return None,
            },
            None => return None,
        };
        let num = match v.get("num") {
            Some(x) => match x.as_u64() {
                Some(n) => n,
                None => return None,
            },
            None => return None,
        };
        let price = match v.get("price") {
            Some(x) => match x.as_u64() {
                Some(n) => n,
                None => return None,
            },
            None => return None,
        };
        Some(GiftPacket { action, gift_name, uname, num, price })
    }
}

impl Packet {
    /// The event that a parsed message describes; see `packet_of`.
    pub fn from_value(v: Json) -> (r: Option<Packet>)
        ensures
            match r {
                Some(p) => packet_of(v@) == Some(p@),
                None => packet_of(v@) is None,
            },
    {
        // `Some(None)` stands for an unknown command, which keeps `v` whole.
        let decoded: Option<Option<Packet>> = match v.get("cmd") {
            Some(c) => match c.as_str() {
                Some(cmd) => {
                    if text_is(cmd, "DANMU_MSG") {
                        match v.get("info") {
                            Some(info) => match DanmuPacket::from_value(info) {
                                Some(d) => Some(Some(Packet::Danmu(d))),
                                None => None,
                            },
                            None => None,
                        }
                    } else if text_is(cmd, "INTERACT_WORD") {
                        match v.get("data") {
                            Some(data) => if data.is_object() {
                                Some(Some(Packet::Interact(InteractPacket {})))
                            } else {
                                None
                            },
                            None => None,
                        }
                    } else if text_is(cmd, "ROOM_BANNER") {
                        Some(Some(Packet::Banner))
                    } else if text_is(cmd, "NOTICE_MSG") {
                        Some(Some(Packet::Notice))
                    } else if text_is(cmd, "SEND_GIFT") {
                        match v.get("data") {
                            Some(data) => match GiftPacket::from_value(data) {
                                Some(g) => Some(Some(Packet::Gift(g))),
                                None => None,
                            },
                            None => None,
                        }
                    } else {
                        Some(None)
                    }
                },
                None => None,
            },
            None => None,
        };
        match decoded {
            Some(Some(p)) => Some(p),
            Some(None) => Some(Packet::Other(v)),
            None => None,
        }
    }
}

/// What `miniz_oxide::inflate::decompress_to_vec_zlib` makes of the bytes
/// `b`: the inflated bytes, or `None` where `b` is not a valid zlib stream.
pub uninterp spec fn zlib_inflated(b: Seq<u8>) -> Option<Seq<u8>>;

/// Relies on miniz_oxide::inflate::decompress_to_vec_zlib: inflates a zlib
/// stream with no limit on the output size; the result depends on the bytes
/// alone.
#[verifier::external_body]
fn inflate_zlib(b: &[u8]) -> (r: Option<Vec<u8>>)
    ensures
        match r {
            Some(v) => zlib_inflated(b@) == Some(v@),
            None => zlib_inflated(b@) is None,
        },
{
    miniz_oxide::inflate::decompress_to_vec_zlib(b).ok()
}

/// The header of the frame at the start of `msg` and its logical body: the
/// `len - 16` bytes after the header, inflated when the frame is compressed.
/// Bytes after the frame are not part of it.
pub open spec fn frame_body(msg: Seq<u8>) -> Result<(Header, Seq<u8>)> {
    match header_of(msg) {
        None => Err(Error::InvalidHeader),
        Some(h) => if msg.len() < h.len {
            Err(Error::IncompleteBody)
        } else {
            let raw = msg.subrange(16, h.len as int);
            if h.ver == PacketVer::Compressed {
                match zlib_inflated(raw) {
                    Some(b) => Ok((h, b)),
                    None => Err(Error::DecompressionFailed),
                }
            } else {
                Ok((h, raw))
            }
        },
    }
}

/// The event that one JSON body describes, if any.
pub open spec fn body_event(body: Seq<u8>) -> Option<PacketV> {
    match json_of(body) {
        Some(j) => packet_of(j),
        None => None,
    }
}

/// The event that one sub-frame describes: none where its header or body
/// cannot be decoded.
pub open spec fn sub_frame_event(frame: Seq<u8>) -> Option<PacketV> {
    match frame_body(frame) {
        Ok((_, body)) => body_event(body),
        Err(_) => None,
    }
}

/// The events of a batch of concatenated sub-frames, in order. Each step
/// reads the declared length of the sub-frame at the front, skips a
/// sub-frame that yields no event, and goes on after it. The batch ends where
/// fewer than 4 bytes are left, or where the declared length is below 16 or
/// runs past the end.
pub open spec fn batch_events(rest: Seq<u8>) -> Seq<PacketV>
    decreases rest.len(),
{
    if rest.len() < 4 {
        Seq::empty()
    } else {
        let n = be32_at(rest, 0) as int;
        if n < 16 || n > rest.len() {
            Seq::empty()
        } else {
            let tail = batch_events(rest.subrange(n, rest.len() as int));
            match sub_frame_event(rest.subrange(0, n)) {
                Some(p) => seq![p] + tail,
                None => tail,
            }
        }
    }
}

/// The events of one inbound message: none for a frame that is not a
/// notification; the events of its sub-frames for a compressed one; the event
/// of its JSON body, if any, for another.
pub open spec fn message_events(msg: Seq<u8>) -> Result<Seq<PacketV>> {
    match frame_body(msg) {
        Err(e) => Err(e),
        Ok((h, body)) => if h.typ != PacketType::Notification {
            Ok(Seq::empty())
        } else if h.ver == PacketVer::Compressed {
            Ok(batch_events(body))
        } else {
            Ok(
                match body_event(body) {
                    Some(p) => seq![p],
                    None => Seq::empty(),
                },
            )
        },
    }
}

/// Decodes the frame at the start of `msg` into its header and logical body;
/// see `frame_body`.
pub fn parse_single_packet(msg: &[u8]) -> (r: Result<(Header, Vec<u8>)>)
    ensures
        match r {
            Ok((h, body)) => frame_body(msg@) == Ok::<(Header, Seq<u8>), Error>((h, body@)),
            Err(e) => frame_body(msg@) == Err::<(Header, Seq<u8>), Error>(e),
        },
{
    let (header, _) = match Header::parse(msg) {
        Ok(x) => x,
        Err(e) => return Err(e),
    };
    if msg.len() < header.len {
        return Err(Error::IncompleteBody);
    }
    let raw = vstd::slice::slice_subrange(msg, 16, header.len);
    if header.ver == PacketVer::Compressed {
        match inflate_zlib(raw) {
            Some(body) => Ok((header, body)),
            None => Err(Error::DecompressionFailed),
        }
    } else {
        Ok((header, vstd::slice::slice_to_vec(raw)))
    }
}

/// The events of one inbound message, handed out one at a time.
///
/// A plain frame holds at most one event; a compressed container frame holds
/// its inflated body and a cursor to the next sub-frame.
#[derive(Debug)]
pub enum Packets {
    Single(Option<Packet>),
    Multiple { buf: Vec<u8>, pos: usize },
}

impl Packets {
    /// The cursor stays within the buffer.
    pub open spec fn wf(&self) -> bool {
        match self {
            Packets::Single(_) => true,
            Packets::Multiple { buf, pos } => *pos <= buf.len(),
        }
    }
}

impl View for Packets {
    type V = Seq<PacketV>;

    /// The events not yet handed out, in order.
    open spec fn view(&self) -> Seq<PacketV> {
        match self {
            Packets::Single(Some(p)) => seq![p@],
            Packets::Single(None) => Seq::empty(),
            Packets::Multiple { buf, pos } => batch_events(buf@.subrange(*pos as int, buf.len() as int)),
        }
    }
}

/// The event of one sub-frame, decoded through the frame, JSON and message
/// layers.
fn decode_sub_frame(frame: &[u8]) -> (r: Option<Packet>)
    ensures
        match r {
            Some(p) => sub_frame_event(frame@) == Some(p@),
            None => sub_frame_event(frame@) is None,
        },
{
    match parse_single_packet(frame) {
        Ok((_, body)) => match parse_json(body.as_slice()) {
            Some(j) => Packet::from_value(j),
            None => None,
        },
        Err(_) => None,
    }
}

proof fn lemma_batch_step(buf: Seq<u8>, pos: int, n: int)
    requires
        0 <= pos,
        pos + 4 <= buf.len(),
        n == be32_at(buf.subrange(pos, buf.len() as int), 0),
        16 <= n,
        pos + n <= buf.len(),
    ensures
        batch_events(buf.subrange(pos, buf.len() as int)) == match sub_frame_event(
            buf.subrange(pos, pos + n),
        ) {
            Some(p) => seq![p] + batch_events(buf.subrange(pos + n, buf.len() as int)),
            None => batch_events(buf.subrange(pos + n, buf.len() as int)),
        },
{
    let rest = buf.subrange(pos, buf.len() as int);
    assert(rest.subrange(0, n) =~= buf.subrange(pos, pos + n));
    assert(rest.subrange(n, rest.len() as int) =~= buf.subrange(pos + n, buf.len() as int));
}

impl Packets {
    /// Hands out the next event, or `None` once there is none left. Sub-frames
    /// that yield no event are passed over.
    pub fn next(&mut self) -> (r: Option<Packet>)
        requires
            old(self).wf(),
        ensures
            final(self).wf(),
            match r {
                Some(p) => old(self)@.len() > 0 && p@ == old(self)@[0] && final(self)@ == old(
                    self,
                )@.drop_first(),
                None => old(self)@.len() == 0 && final(self)@.len() == 0,
            },
    {
        match self {
            Packets::Single(s) => {
                let r = s.take();
                r
            },
            Packets::Multiple { buf, pos } => {
                let (r, next_pos) = next_in_batch(buf, *pos);
                *pos = next_pos;
                r
            },
        }
    }
}

/// The next event of the batch `buf` from the cursor `pos`, and the cursor
/// after it.
fn next_in_batch(buf: &Vec<u8>, pos: usize) -> (r: (Option<Packet>, usize))
    requires
        pos <= buf.len(),
    ensures
        r.1 <= buf.len(),
        match r.0 {
            Some(p) => batch_events(buf@.subrange(pos as int, buf.len() as int)) == seq![p@]
                + batch_events(buf@.subrange(r.1 as int, buf.len() as int)),
            None => batch_events(buf@.subrange(pos as int, buf.len() as int)).len() == 0
                && batch_events(buf@.subrange(r.1 as int, buf.len() as int)).len() == 0,
        },
{
    let ghost events = batch_events(buf@.subrange(pos as int, buf.len() as int));
    let mut cur = pos;
    while cur < buf.len()
        invariant
            cur <= buf.len(),
            batch_events(buf@.subrange(cur as int, buf.len() as int)) == events,
            events == batch_events(buf@.subrange(pos as int, buf.len() as int)),
        decreases buf.len() - cur,
    {
        if buf.len() - cur < 4 {
            assert(batch_events(buf@.subrange(cur as int, buf.len() as int)).len() == 0);
            return (None, cur);
        }
        let rest = vstd::slice::slice_subrange(buf.as_slice(), cur, buf.len());
        let n = read_be32(rest, 0) as usize;
        if n < 16 || n > rest.len() {
            assert(rest@ == buf@.subrange(cur as int, buf.len() as int));
            assert(batch_events(rest@).len() == 0);
            return (None, cur);
        }
        proof { lemma_batch_step(buf@, cur as int, n as int); }
        let frame = vstd::slice::slice_subrange(rest, 0, n);
        assert(frame@ =~= buf@.subrange(cur as int, cur + n));
        cur = cur + n;
        match decode_sub_frame(frame) {
            Some(p) => return (Some(p), cur),
            None => {},
        }
    }
    assert(buf@.subrange(cur as int, buf.len() as int).len() == 0);
    (None, cur)
}

/// Decodes one inbound message into the sequence of its events; see
/// `message_events`. A header or decompression failure of the outer frame is
/// returned as the error.
pub fn parse_packet(msg: &[u8]) -> (r: Result<Packets>)
    ensures
        match r {
            Ok(p) => p.wf() && message_events(msg@) == Ok::<Seq<PacketV>, Error>(p@),
            Err(e) => message_events(msg@) == Err::<Seq<PacketV>, Error>(e),
        },
{
    let (header, body) = match parse_single_packet(msg) {
        Ok(x) => x,
        Err(e) => return Err(e),
    };
    if header.typ != PacketType::Notification {
        return Ok(Packets::Single(None));
    }
    if header.ver == PacketVer::Compressed {
        let r = Packets::Multiple { buf: body, pos: 0 };
        assert(body@.subrange(0, body@.len() as int) =~= body@);
        Ok(r)
    } else {
        let event = match parse_json(body.as_slice()) {
            Some(j) => Packet::from_value(j),
            None => None,
        };
        let r = Packets::Single(event);
        assert(r@ =~= match body_event(body@) {
            Some(p) => seq![p],
            None => Seq::<PacketV>::empty(),
        });
        Ok(r)
    }
}

/// Contents of the client authentication frame's JSON body.
#[derive(Debug)]
pub struct ClientAuth {
    pub roomid: u64,
    pub protover: u8,
    pub platform: String,
    pub clientver: String,
    /// Sent under the key `type`.
    pub typ: u8,
    /// Sent as `key`; left out when absent.
    pub key: Option<String>,
}

impl ClientAuth {
    /// Authentication for joining room `room_id`, with the token `key` when
    /// there is one: protocol version 2, platform `web`, client version
    /// `2.4.11`, type 2.
    pub fn new(room_id: u64, key: Option<&str>) -> (r: ClientAuth)
        ensures
            r.roomid == room_id,
            r.protover == 2,
            r.platform@ == "web"@,
            r.clientver@ == "2.4.11"@,
            r.typ == 2,
            match key {
                Some(k) => r.key matches Some(rk) && rk@ == k@,
                None => r.key is None,
            },
    {
        ClientAuth {
            roomid: room_id,
            protover: 2,
            platform: "web".to_owned(),
            clientver: "2.4.11".to_owned(),
            typ: 2,
            key: match key {
                Some(k) => Some(k.to_owned()),
                None => None,
            },
        }
    }
}

/// The wire bytes of a frame of type `typ` and version `ver` around `body`.
pub open spec fn frame_bytes(body: Seq<u8>, typ: PacketType, ver: PacketVer) -> Seq<u8> {
    header_bytes(Header { len: (body.len() + 16) as usize, header_len: 16, ver, typ }) + body
}

/// Frames `body` as one frame of type `typ` and version `ver`. Fails with
/// `InvalidHeader` when the total length would not fit the 32-bit field.
pub fn encode_frame(body: &[u8], typ: PacketType, ver: PacketVer) -> (r: Result<Vec<u8>>)
    ensures
        match r {
            Ok(v) => body@.len() + 16 <= u32::MAX && v@ == frame_bytes(body@, typ, ver),
            Err(e) => body@.len() + 16 > u32::MAX && e == Error::InvalidHeader,
        },
{
    if body.len() > 4294967279 {
        return Err(Error::InvalidHeader);
    }
    let mut out = match Header::new(body.len(), typ, ver).to_vec() {
        Ok(v) => v,
        Err(e) => return Err(e),
    };
    let ghost head = out@;
    let mut i: usize = 0;
    while i < body.len()
        invariant
            i <= body@.len(),
            out@ == head + body@.subrange(0, i as int),
        decreases body.len() - i,
    {
        out.push(body[i]);
        assert(body@.subrange(0, i + 1) =~= body@.subrange(0, i as int).push(body@[i as int]));
        i = i + 1;
    }
    assert(body@.subrange(0, body@.len() as int) =~= body@);
    Ok(out)
}

/// Body of the keep-alive frame: the text `[object Object]`.
pub open spec fn heartbeat_body() -> Seq<u8> {
    seq![91, 111, 98, 106, 101, 99, 116, 32, 79, 98, 106, 101, 99, 116, 93]
}

/// The fixed keep-alive frame: a heartbeat-version heartbeat frame carrying
/// `[object Object]`, 31 bytes in all.
pub fn heartbeat_frame() -> (r: Vec<u8>)
    ensures
        r@ == frame_bytes(heartbeat_body(), PacketType::Heartbeat, PacketVer::Heartbeat),
        r@.len() == 31,
{
    // "[object Object]"
    let body: Vec<u8> = vec![91, 111, 98, 106, 101, 99, 116, 32, 79, 98, 106, 101, 99, 116, 93];
    assert(body@ =~= heartbeat_body());
    match encode_frame(body.as_slice(), PacketType::Heartbeat, PacketVer::Heartbeat) {
        Ok(v) => v,
        Err(_) => Vec::new(),
    }
}

/// The events that an optional event stands for: none or one.
pub open spec fn opt_events(e: Option<PacketV>) -> Seq<PacketV> {
    match e {
        Some(p) => seq![p],
        None => Seq::empty(),
    }
}

proof fn lemma_header_of_prefix(a: Seq<u8>, b: Seq<u8>)
    requires
        a.len() >= 16,
        b.len() >= 16,
        forall|i: int| 0 <= i < 16 ==> a[i] == b[i],
    ensures
        header_of(a) == header_of(b),
        be32_at(a, 0) == be32_at(b, 0),
{
    assert(be32_at(a, 0) == be32_at(b, 0));
    assert(be16_at(a, 4) == be16_at(b, 4));
    assert(be16_at(a, 6) == be16_at(b, 6));
    assert(be32_at(a, 8) == be32_at(b, 8));
}

/// A plain frame at the front of a batch contributes the event of its JSON
/// body, if any, and the batch goes on with the bytes after it: whatever its
/// type, and whatever follows it.
pub proof fn lemma_batch_front_frame(body: Seq<u8>, typ: PacketType, rest: Seq<u8>)
    requires
        body.len() + 16 <= u32::MAX,
    ensures
        batch_events(frame_bytes(body, typ, PacketVer::Plain) + rest) == opt_events(
            body_event(body),
        ) + batch_events(rest),
{
    let h = Header { len: (body.len() + 16) as usize, header_len: 16, ver: PacketVer::Plain, typ };
    lemma_header_round_trip(body.len(), PacketVer::Plain, typ);
    let hb = header_bytes(h);
    let f = frame_bytes(body, typ, PacketVer::Plain);
    let all = f + rest;
    let n = body.len() as int + 16;
    assert(f.len() == n);
    lemma_header_of_prefix(all, hb);
    lemma_header_of_prefix(f, hb);
    assert(be32_at(hb, 0) == n);
    assert(all.subrange(0, n) =~= f);
    assert(all.subrange(n, all.len() as int) =~= rest);
    assert(f.subrange(16, n) =~= body);
    assert(frame_body(f) == Ok::<(Header, Seq<u8>), Error>((h, body)));
    assert(sub_frame_event(f) == body_event(body));
    assert(batch_events(all) == opt_events(body_event(body)) + batch_events(rest)) by {
        match body_event(body) {
            Some(p) => {},
            None => {
                assert(opt_events(body_event(body)) + batch_events(rest) =~= batch_events(rest));
            },
        }
    }
}

/// A batch of two plain sub-frames yields the event of the first body, then
/// that of the second, and nothing else.
pub proof fn lemma_batch_two_frames(
    b1: Seq<u8>,
    t1: PacketType,
    b2: Seq<u8>,
    t2: PacketType,
)
    requires
        b1.len() + 16 <= u32::MAX,
        b2.len() + 16 <= u32::MAX,
    ensures
        batch_events(
            frame_bytes(b1, t1, PacketVer::Plain) + frame_bytes(b2, t2, PacketVer::Plain),
        ) == opt_events(body_event(b1)) + opt_events(body_event(b2)),
{
    let f2 = frame_bytes(b2, t2, PacketVer::Plain);
    lemma_batch_front_frame(b1, t1, f2);
    lemma_batch_front_frame(b2, t2, Seq::empty());
    assert(f2 + Seq::<u8>::empty() =~= f2);
    assert(batch_events(Seq::<u8>::empty()) =~= Seq::<PacketV>::empty());
    assert(opt_events(body_event(b2)) + Seq::<PacketV>::empty() =~= opt_events(body_event(b2)));
}

/// A compressed notification frame whose inflated body is two plain
/// sub-frames, a chat message and a message of unknown command, yields
/// exactly those two events, in that order.
pub proof fn lemma_container_two_events(
    msg: Seq<u8>,
    b1: Seq<u8>,
    t1: PacketType,
    b2: Seq<u8>,
    t2: PacketType,
)
    requires
        b1.len() + 16 <= u32::MAX,
        b2.len() + 16 <= u32::MAX,
        header_of(msg) matches Some(h) && h.typ == PacketType::Notification && h.ver
            == PacketVer::Compressed && h.len <= msg.len() && zlib_inflated(
            msg.subrange(16, h.len as int),
        ) == Some(frame_bytes(b1, t1, PacketVer::Plain) + frame_bytes(b2, t2, PacketVer::Plain)),
        body_event(b1) matches Some(PacketV::Danmu(_)),
        body_event(b2) matches Some(PacketV::Other(_)),
    ensures
        message_events(msg) matches Ok(events) && events.len() == 2 && events[0]
            == body_event(b1)->Some_0 && events[1] == body_event(b2)->Some_0
            && events[0] is Danmu && events[1] is Other,
{
    lemma_batch_two_frames(b1, t1, b2, t2);
}

/// A sub-frame whose body is not valid JSON is passed over: the batch goes
/// on with the sub-frames after it as if it were not there.
pub proof fn lemma_malformed_sub_frame_skipped(body: Seq<u8>, typ: PacketType, rest: Seq<u8>)
    requires
        body.len() + 16 <= u32::MAX,
        json_of(body) is None,
    ensures
        batch_events(frame_bytes(body, typ, PacketVer::Plain) + rest) == batch_events(rest),
{
    lemma_batch_front_frame(body, typ, rest);
    assert(opt_events(body_event(body)) + batch_events(rest) =~= batch_events(rest));
}

/// In a chat message that decodes, an empty medal array gives no medal and a
/// medal array of four or more elements gives a medal.
pub proof fn lemma_medal_presence(info: JsonV)
    requires
        danmu_of(info) is Some,
    ensures
        array_of(array_of(info)->Some_0[3]) matches Some(m) && (m.len() == 0 ==> danmu_of(
            info,
        )->Some_0.medal is None) && (m.len() >= 4 ==> danmu_of(info)->Some_0.medal is Some),
{
}

} // verus!
