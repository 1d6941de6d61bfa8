//! HTTP/3 settings (RFC 9114, section 7.2.4): the payload of the SETTINGS
//! frame, a list of (identifier, value) varint pairs, and the settings
//! WebTransport relies on.
use crate::buffers::{
    bytes_contents, bytes_has_remaining, bytes_mut_contents, bytes_mut_freeze, bytes_mut_len,
    bytes_mut_new, bytes_split_to,
};
use crate::coding::{
    decode_varint, encode_varint, lemma_varint_roundtrip, varint_size, CodingError, VarInt,
    VarIntExt, VarIntMutExt, VARINT_BOUND,
};
use crate::h3::frame::{encode_frame, is_grease_type, lemma_frame_roundtrip, Frame};
use crate::h3::streams::UniStream;
use crate::h3::H3Error;
use crate::text::{decimal_string, digits, hex_string};
use bytes::Bytes;
use std::collections::HashMap;
use vstd::prelude::*;
use vstd::string::StringExecFns;
use vstd::std_specs::hash::spec_hash_map_iter;
use vstd::std_specs::iter::IteratorSpec;

verus! {

broadcast use vstd::std_specs::hash::group_hash_axioms;

/// `SETTINGS_ENABLE_CONNECT_PROTOCOL` (RFC 8441).
pub const ENABLE_CONNECT_PROTOCOL: u32 = 0x8;

/// `SETTINGS_WEBTRANSPORT_MAX_SESSIONS`.
pub const WEBTRANSPORT_MAX_SESSIONS: u32 = 0xc671706a;

/// `SETTINGS_QPACK_MAX_TABLE_CAPACITY`.
pub const QPACK_MAX_TABLE_CAPACITY: u32 = 0x1;

/// `SETTINGS_MAX_FIELD_SECTION_SIZE`.
pub const MAX_FIELD_SECTION_SIZE: u32 = 0x6;

/// `SETTINGS_QPACK_BLOCKED_STREAMS`.
pub const QPACK_BLOCKED_STREAMS: u32 = 0x7;

/// `SETTINGS_H3_DATAGRAM`.
pub const ENABLE_DATAGRAM: u32 = 0x33;

/// The draft identifier of `SETTINGS_H3_DATAGRAM`.
pub const ENABLE_DATAGRAM_DEPRECATED: u32 = 0xFFD277;

/// The draft `SETTINGS_ENABLE_WEBTRANSPORT`.
pub const WEBTRANSPORT_ENABLE_DEPRECATED: u32 = 0x2b603742;

/// The draft identifier of `SETTINGS_WEBTRANSPORT_MAX_SESSIONS`.
pub const WEBTRANSPORT_MAX_SESSIONS_DEPRECATED: u32 = 0x2b603743;

/// The grease identifier (`0x1f * 1 + 0x21`) that every local `Settings`
/// carries.
pub const GREASE_SETTING: u32 = 0x40;

/// The value sent with the grease identifier.
pub const GREASE_VALUE: u32 = 0x6429;

/// The name under which a setting identifier is shown in logs.
pub open spec fn setting_debug_name(id: u64) -> Seq<char> {
    if id == ENABLE_CONNECT_PROTOCOL {
        "ENABLE_CONNECT"@
    } else if id == WEBTRANSPORT_MAX_SESSIONS {
        "MAX_WEBTRANSPORT_SESSIONS"@
    } else if id == QPACK_MAX_TABLE_CAPACITY {
        "QPACK_MAX_TABLE_CAPACITY"@
    } else if id == MAX_FIELD_SECTION_SIZE {
        "MAX_FIELD_SECTION_SIZE"@
    } else if id == QPACK_BLOCKED_STREAMS {
        "QPACK_BLOCKED_STREAMS"@
    } else if id == ENABLE_DATAGRAM {
        "ENABLE_DATAGRAM"@
    } else if id == ENABLE_DATAGRAM_DEPRECATED {
        "ENABLE_DATAGRAM_DEPRECATED"@
    } else if id == WEBTRANSPORT_ENABLE_DEPRECATED {
        "WEBTRANSPORT_ENABLE_DEPRECATED"@
    } else if id == WEBTRANSPORT_MAX_SESSIONS_DEPRECATED {
        "WEBTRANSPORT_MAX_SESSIONS_DEPRECATED"@
    } else if is_grease_type(id) {
        "GREASE ["@ + seq!['0', 'x'] + digits(id as nat, 16) + "]"@
    } else {
        seq!['0', 'x'] + digits(id as nat, 16)
    }
}

/// The log text of a list of settings: each entry as `  NAME - value`,
/// all within brackets.
pub open spec fn entries_debug_text(p: Seq<(u64, u64)>) -> Seq<char>
    decreases p.len(),
{
    if p.len() == 0 {
        Seq::empty()
    } else {
        entries_debug_text(p.drop_last()) + "  "@ + setting_debug_name(p.last().0) + " - "@
            + digits(p.last().1 as nat, 10)
    }
}

/// A setting identifier.
#[derive(PartialEq, Eq, Hash, Clone)]
pub struct Setting(pub VarInt);

impl Setting {
    /// Whether the identifier is reserved for greasing; such settings are
    /// ignored.
    pub fn is_grease(&self) -> (r: bool)
        ensures
            r == is_grease_type(self.0@),
    {
        let val = self.0.into_inner();
        if val < 0x21 {
            return false;
        }
        (val - 0x21) % 0x1f == 0
    }

    /// The name of the setting for logs: its name if known, `GREASE [0x..]`
    /// for a grease identifier, else the identifier in hexadecimal.
    pub fn debug_name(&self) -> (r: String)
        ensures
            r@ == setting_debug_name(self.0@),
    {
        let id = self.0.into_inner();
        if id == ENABLE_CONNECT_PROTOCOL as u64 {
            String::from_str("ENABLE_CONNECT")
        } else if id == WEBTRANSPORT_MAX_SESSIONS as u64 {
            String::from_str("MAX_WEBTRANSPORT_SESSIONS")
        } else if id == QPACK_MAX_TABLE_CAPACITY as u64 {
            String::from_str("QPACK_MAX_TABLE_CAPACITY")
        } else if id == MAX_FIELD_SECTION_SIZE as u64 {
            String::from_str("MAX_FIELD_SECTION_SIZE")
        } else if id == QPACK_BLOCKED_STREAMS as u64 {
            String::from_str("QPACK_BLOCKED_STREAMS")
        } else if id == ENABLE_DATAGRAM as u64 {
            String::from_str("ENABLE_DATAGRAM")
        } else if id == ENABLE_DATAGRAM_DEPRECATED as u64 {
            String::from_str("ENABLE_DATAGRAM_DEPRECATED")
        } else if id == WEBTRANSPORT_ENABLE_DEPRECATED as u64 {
            String::from_str("WEBTRANSPORT_ENABLE_DEPRECATED")
        } else if id == WEBTRANSPORT_MAX_SESSIONS_DEPRECATED as u64 {
            String::from_str("WEBTRANSPORT_MAX_SESSIONS_DEPRECATED")
        } else if self.is_grease() {
            let mut name = String::from_str("GREASE [");
            let hex = hex_string(id);
            name.append(hex.as_str());
            name.append("]");
            name
        } else {
            hex_string(id)
        }
    }

    pub fn enable_connect_protocol() -> (r: Setting)
        ensures
            r.0@ == ENABLE_CONNECT_PROTOCOL,
    {
        Setting(VarInt::from_u32(ENABLE_CONNECT_PROTOCOL))
    }

    pub fn webtransport_max_sessions() -> (r: Setting)
        ensures
            r.0@ == WEBTRANSPORT_MAX_SESSIONS,
    {
        Setting(VarInt::from_u32(WEBTRANSPORT_MAX_SESSIONS))
    }

    pub fn qpack_max_table_capacity() -> (r: Setting)
        ensures
            r.0@ == QPACK_MAX_TABLE_CAPACITY,
    {
        Setting(VarInt::from_u32(QPACK_MAX_TABLE_CAPACITY))
    }

    pub fn max_field_section_size() -> (r: Setting)
        ensures
            r.0@ == MAX_FIELD_SECTION_SIZE,
    {
        Setting(VarInt::from_u32(MAX_FIELD_SECTION_SIZE))
    }

    pub fn qpack_blocked_streams() -> (r: Setting)
        ensures
            r.0@ == QPACK_BLOCKED_STREAMS,
    {
        Setting(VarInt::from_u32(QPACK_BLOCKED_STREAMS))
    }

    pub fn enable_datagram() -> (r: Setting)
        ensures
            r.0@ == ENABLE_DATAGRAM,
    {
        Setting(VarInt::from_u32(ENABLE_DATAGRAM))
    }

    pub fn enable_datagram_deprecated() -> (r: Setting)
        ensures
            r.0@ == ENABLE_DATAGRAM_DEPRECATED,
    {
        Setting(VarInt::from_u32(ENABLE_DATAGRAM_DEPRECATED))
    }

    pub fn webtransport_enable_deprecated() -> (r: Setting)
        ensures
            r.0@ == WEBTRANSPORT_ENABLE_DEPRECATED,
    {
        Setting(VarInt::from_u32(WEBTRANSPORT_ENABLE_DEPRECATED))
    }

    pub fn webtransport_max_sessions_deprecated() -> (r: Setting)
        ensures
            r.0@ == WEBTRANSPORT_MAX_SESSIONS_DEPRECATED,
    {
        Setting(VarInt::from_u32(WEBTRANSPORT_MAX_SESSIONS_DEPRECATED))
    }
}

/// A set of settings: each identifier with its value.
pub struct Settings {
    inner: HashMap<u64, u64>,
}

/// What every settings map holds: identifiers that fit a varint, values
/// that fit a `u32` (every value enters through a `u32`).
pub open spec fn settings_map_wf(m: Map<u64, u64>) -> bool {
    forall|k: u64| #[trigger]
        m.contains_key(k) ==> k < VARINT_BOUND && m[k] <= u32::MAX
}

/// The map that a list of (identifier, value) pairs sets up when inserted
/// front to back: a later pair overrides an earlier one with the same
/// identifier.
pub open spec fn pairs_to_map(p: Seq<(u64, u64)>) -> Map<u64, u64>
    decreases p.len(),
{
    if p.len() == 0 {
        Map::empty()
    } else {
        pairs_to_map(p.drop_last()).insert(p.last().0, p.last().1)
    }
}

/// The encoding of a list of pairs: each identifier then its value, as
/// varints.
pub open spec fn encode_pairs(p: Seq<(u64, u64)>) -> Seq<u8>
    decreases p.len(),
{
    if p.len() == 0 {
        Seq::empty()
    } else {
        encode_varint(p[0].0) + encode_varint(p[0].1) + encode_pairs(p.drop_first())
    }
}

/// `order` lists the entries of `m`: every entry exactly once, identifiers
/// distinct.
pub open spec fn lists_entries(order: Seq<(u64, u64)>, m: Map<u64, u64>) -> bool {
    &&& forall|i: int, j: int| 0 <= i < j < order.len() ==> order[i].0 != order[j].0
    &&& forall|i: int|
        0 <= i < order.len() ==> m.contains_key(#[trigger] order[i].0) && m[order[i].0]
            == order[i].1
    &&& forall|k: u64| #[trigger]
        m.contains_key(k) ==> exists|i: int| 0 <= i < order.len() && order[i].0 == k
}

/// The pairs that a SETTINGS payload decodes to, front to back, each value
/// cut to its low 32 bits; `None` when a varint is cut short.
pub open spec fn settings_decode(s: Seq<u8>) -> Option<Seq<(u64, u64)>>
    decreases s.len(),
{
    if s.len() == 0 {
        Some(Seq::empty())
    } else {
        match decode_varint(s) {
            None => None,
            Some((k, n)) => {
                let r = s.skip(n as int);
                match decode_varint(r) {
                    None => None,
                    Some((v, m)) => {
                        if n >= 1 && m >= 1 && r.len() >= m {
                            match settings_decode(r.skip(m as int)) {
                                None => None,
                                Some(l) => Some(seq![(k, v % 0x1_0000_0000u64)] + l),
                            }
                        } else {
                            None
                        }
                    },
                }
            },
        }
    }
}

/// The settings that announce WebTransport support with at most `n`
/// sessions, added to `m`.
pub open spec fn enable_webtransport_map(m: Map<u64, u64>, n: u32) -> Map<u64, u64> {
    m.insert(ENABLE_CONNECT_PROTOCOL as u64, 1).insert(ENABLE_DATAGRAM as u64, 1).insert(
        ENABLE_DATAGRAM_DEPRECATED as u64,
        1,
    ).insert(WEBTRANSPORT_MAX_SESSIONS as u64, n as u64).insert(
        WEBTRANSPORT_MAX_SESSIONS_DEPRECATED as u64,
        n as u64,
    ).insert(WEBTRANSPORT_ENABLE_DEPRECATED as u64, 1)
}

/// Whether a peer's settings announce WebTransport: the first of the draft
/// enable setting, the session limit and the draft session limit that is
/// present decides, by being at least 1.
pub open spec fn supports_webtransport_map(m: Map<u64, u64>) -> bool {
    if m.contains_key(WEBTRANSPORT_ENABLE_DEPRECATED as u64) {
        m[WEBTRANSPORT_ENABLE_DEPRECATED as u64] >= 1
    } else if m.contains_key(WEBTRANSPORT_MAX_SESSIONS as u64) {
        m[WEBTRANSPORT_MAX_SESSIONS as u64] >= 1
    } else if m.contains_key(WEBTRANSPORT_MAX_SESSIONS_DEPRECATED as u64) {
        m[WEBTRANSPORT_MAX_SESSIONS_DEPRECATED as u64] >= 1
    } else {
        false
    }
}

impl View for Settings {
    type V = Map<u64, u64>;

    closed spec fn view(&self) -> Map<u64, u64> {
        self.inner@
    }
}

impl Default for Settings {
    /// No settings.
    fn default() -> (r: Settings)
        ensures
            r@ == Map::<u64, u64>::empty(),
    {
        Settings { inner: HashMap::new() }
    }
}

impl Clone for Settings {
    fn clone(&self) -> (r: Settings)
        ensures
            r@ == self@,
    {
        proof {
            use_type_invariant(self);
        }
        Settings { inner: self.inner.clone() }
    }
}

impl Settings {
    #[verifier::type_invariant]
    closed spec fn wf(self) -> bool {
        settings_map_wf(self.inner@)
    }

    /// Local settings: a single grease setting, since an endpoint must send
    /// at least one.
    pub fn new() -> (r: Settings)
        ensures
            r@ == Map::<u64, u64>::empty().insert(GREASE_SETTING as u64, GREASE_VALUE as u64),
    {
        let mut inner: HashMap<u64, u64> = HashMap::new();
        let grease = VarInt::from_u32(0x1f + 0x21);
        let randomvalue = VarInt::from_u32(0x6429);
        inner.insert(grease.into_inner(), randomvalue.into_inner());
        Settings { inner }
    }

    /// Sets `setting` to `value`.
    fn insert(&mut self, setting: Setting, value: u32)
        ensures
            final(self)@ == old(self)@.insert(setting.0@, value as u64),
    {
        proof {
            use_type_invariant(&*self);
        }
        let key = setting.0.into_inner();
        let v = VarInt::from_u32(value).into_inner();
        let mut inner: HashMap<u64, u64> = HashMap::new();
        std::mem::swap(&mut inner, &mut self.inner);
        inner.insert(key, v);
        self.inner = inner;
    }

    /// The number of settings held.
    pub fn len(&self) -> (r: usize)
        ensures
            r == self@.len(),
    {
        self.inner.len()
    }

    /// Decodes the SETTINGS payload held in the first `len` bytes of `data`,
    /// which are split off `data` whatever the outcome. A later value for an
    /// identifier overrides an earlier one, and values keep their low 32
    /// bits. A varint cut short, or an identifier without a value, gives
    /// `UnexpectedEnd`. `len` must not exceed the bytes held (splitting off
    /// more panics).
    pub fn decode(data: &mut Bytes, len: usize) -> (r: Result<Settings, H3Error>)
        requires
            len <= bytes_contents(*old(data)).len(),
        ensures
            bytes_contents(*final(data)) == bytes_contents(*old(data)).skip(len as int),
            match settings_decode(bytes_contents(*old(data)).take(len as int)) {
                Some(l) => r matches Ok(s) && s@ == pairs_to_map(l),
                None => r matches Err(H3Error::CodingError(CodingError::UnexpectedEnd)),
            },
    {
        let ghost whole = bytes_contents(*data).take(len as int);
        let mut settings = Settings::default();
        let mut payload = bytes_split_to(data, len);
        let ghost mut prefix: Seq<(u64, u64)> = Seq::empty();
        while bytes_has_remaining(&payload)
            invariant
                bytes_contents(*data) == bytes_contents(*old(data)).skip(len as int),
                whole == bytes_contents(*old(data)).take(len as int),
                settings@ == pairs_to_map(prefix),
                match settings_decode(whole) {
                    Some(l) => settings_decode(bytes_contents(payload)) matches Some(l2) && l
                        == prefix + l2,
                    None => settings_decode(bytes_contents(payload)) is None,
                },
            decreases bytes_contents(payload).len(),
        {
            let ghost s = bytes_contents(payload);
            let setting = match payload.read_varint() {
                Ok(v) => Setting(v),
                Err(e) => {
                    return Err(H3Error::CodingError(e));
                },
            };
            let value = match payload.read_varint() {
                Ok(v) => #[verifier::truncate] (v.into_inner() as u32),
                Err(e) => {
                    return Err(H3Error::CodingError(e));
                },
            };
            proof {
                let (k, n) = decode_varint(s).unwrap();
                let r = s.skip(n as int);
                let (v, m) = decode_varint(r).unwrap();
                assert(bytes_contents(payload) == r.skip(m as int));
                let vv = v;
                assert((vv as u32) as u64 == vv % 0x1_0000_0000u64) by (bit_vector);
                assert(value == v % 0x1_0000_0000u64);
                let ghost e = (k, v % 0x1_0000_0000u64);
                assert(pairs_to_map(prefix.push(e)) == pairs_to_map(prefix).insert(k, value as u64))
                    by {
                    assert(prefix.push(e).drop_last() == prefix);
                }
                if let Some(l) = settings_decode(whole) {
                    let l2 = settings_decode(s).unwrap();
                    let l3 = settings_decode(r.skip(m as int)).unwrap();
                    assert(l2 == seq![e] + l3);
                    assert(l == prefix.push(e) + l3);
                }
                prefix = prefix.push(e);
            }
            settings.insert(setting, value);
        }
        proof {
            if let Some(l) = settings_decode(whole) {
                assert(l == prefix + Seq::<(u64, u64)>::empty());
                assert(l == prefix);
            }
        }
        Ok(settings)
    }

    /// Encodes the settings as a SETTINGS payload: each identifier followed
    /// by its value, as varints, in the order in which the map yields them
    /// (which the map does not fix). Returns the payload with its length.
    pub fn encode(&self) -> (r: (usize, Bytes))
        requires
            16 * self@.len() <= isize::MAX,
        ensures
            r.0 == bytes_contents(r.1).len(),
            settings_map_wf(self@),
            exists|order: Seq<(u64, u64)>|
                lists_entries(order, self@) && bytes_contents(r.1) == encode_pairs(order),
    {
        proof {
            use_type_invariant(self);
        }
        let ghost m = self.inner@;
        let mut data = bytes_mut_new();
        let ghost mut order: Seq<(u64, u64)> = Seq::empty();
        for kv in it: self.inner.iter()
            invariant
                m == self.inner@,
                settings_map_wf(m),
                16 * m.len() <= isize::MAX,
                it.seq() == spec_hash_map_iter(&self.inner).remaining(),
                it.seq().no_duplicates(),
                order.len() == it.index(),
                forall|i: int|
                    0 <= i < order.len() ==> #[trigger] order[i] == (*it.seq()[i].0, *it.seq()[
                        i
                    ].1),
                bytes_mut_contents(data) == encode_pairs(order),
                bytes_mut_contents(data).len() <= 16 * order.len(),
        {
            let (k, v) = kv;
            proof {
                assert(it.seq().len() == m.dom().len());
                assert(order.len() < it.seq().len());
                assert(m.contains_key(*k) && m[*k] == *v);
                lemma_varint_roundtrip(*k, Seq::empty());
                lemma_varint_roundtrip(*v, Seq::empty());
                lemma_encode_pairs_push(order, (*k, *v));
            }
            data.write_varint(*k);
            data.write_varint(*v);
            proof {
                order = order.push((*k, *v));
            }
        }
        proof {
            lemma_iter_lists_entries(&self.inner, order);
        }
        let len = bytes_mut_len(&data);
        (len, bytes_mut_freeze(data))
    }

    /// The settings as log text: `[`, then `  NAME - value` for each entry
    /// in the order in which the map yields them, then `]`.
    pub fn debug_string(&self) -> (r: String)
        ensures
            exists|order: Seq<(u64, u64)>|
                lists_entries(order, self@) && r@ == "["@ + entries_debug_text(order) + "]"@,
    {
        proof {
            use_type_invariant(self);
        }
        let ghost m = self.inner@;
        let mut text = String::from_str("[");
        let ghost mut order: Seq<(u64, u64)> = Seq::empty();
        for kv in it: self.inner.iter()
            invariant
                m == self.inner@,
                settings_map_wf(m),
                it.seq() == spec_hash_map_iter(&self.inner).remaining(),
                it.seq().no_duplicates(),
                order.len() == it.index(),
                forall|i: int|
                    0 <= i < order.len() ==> #[trigger] order[i] == (*it.seq()[i].0, *it.seq()[
                        i
                    ].1),
                text@ == "["@ + entries_debug_text(order),
        {
            let (k, v) = kv;
            proof {
                assert(m.contains_key(*k) && m[*k] == *v);
            }
            let setting = Setting(VarInt::from_bounded(*k));
            let name = setting.debug_name();
            let value = decimal_string(*v);
            text.append("  ");
            text.append(name.as_str());
            text.append(" - ");
            text.append(value.as_str());
            proof {
                let e = (*k, *v);
                assert(order.push(e).drop_last() == order);
                order = order.push(e);
                assert(text@ =~= "["@ + entries_debug_text(order));
            }
        }
        text.append("]");
        proof {
            lemma_iter_lists_entries(&self.inner, order);
            assert(lists_entries(order, self@) && text@ == "["@ + entries_debug_text(order) + "]"@);
        }
        text
    }

    /// Adds the settings that announce WebTransport support with at most
    /// `max_sessions` sessions (current and draft identifiers alike).
    pub fn enable_webtransport(&mut self, max_sessions: u32)
        ensures
            final(self)@ == enable_webtransport_map(old(self)@, max_sessions),
    {
        self.insert(Setting::enable_connect_protocol(), 1);
        self.insert(Setting::enable_datagram(), 1);
        self.insert(Setting::enable_datagram_deprecated(), 1);
        self.insert(Setting::webtransport_max_sessions(), max_sessions);
        self.insert(Setting::webtransport_max_sessions_deprecated(), max_sessions);
        self.insert(Setting::webtransport_enable_deprecated(), 1);
    }

    /// Whether these (peer) settings announce WebTransport support.
    pub fn supports_webtransport(&self) -> (r: bool)
        ensures
            r == supports_webtransport_map(self@),
    {
        if let Some(n) = self.inner.get(&(WEBTRANSPORT_ENABLE_DEPRECATED as u64)) {
            return *n >= 1;
        }
        if let Some(n) = self.inner.get(&(WEBTRANSPORT_MAX_SESSIONS as u64)) {
            return *n >= 1;
        }
        if let Some(n) = self.inner.get(&(WEBTRANSPORT_MAX_SESSIONS_DEPRECATED as u64)) {
            return *n >= 1;
        }
        false
    }

    /// What accepting the peer's settings decides once the first
    /// unidirectional stream is read: it must be the control stream.
    pub fn check_control_stream(stype: &UniStream) -> (r: Result<(), H3Error>)
        ensures
            r is Ok <==> stype.0@ == 0x00,
            r is Err ==> r == Err::<(), H3Error>(H3Error::SettingsError),
    {
        if stype.0.into_inner() != UniStream::control().0.into_inner() {
            return Err(H3Error::SettingsError);
        }
        Ok(())
    }

    /// What accepting the peer's settings decides once the first frame of
    /// the control stream is read: it must be a SETTINGS frame, whose
    /// payload (the first `len` bytes of `data`) is then decoded.
    pub fn from_frame(ftype: &Frame, len: usize, data: &mut Bytes) -> (r: Result<
        Settings,
        H3Error,
    >)
        requires
            ftype.0@ == 0x04 ==> len <= bytes_contents(*old(data)).len(),
        ensures
            ftype.0@ != 0x04 ==> r == Err::<Settings, H3Error>(H3Error::SettingsError)
                && bytes_contents(*final(data)) == bytes_contents(*old(data)),
            ftype.0@ == 0x04 ==> bytes_contents(*final(data)) == bytes_contents(*old(data)).skip(
                len as int,
            ) && match settings_decode(bytes_contents(*old(data)).take(len as int)) {
                Some(l) => r matches Ok(s) && s@ == pairs_to_map(l),
                None => r matches Err(H3Error::CodingError(CodingError::UnexpectedEnd)),
            },
    {
        if ftype.0.into_inner() != Frame::settings().0.into_inner() {
            return Err(H3Error::SettingsError);
        }
        Settings::decode(data, len)
    }
}

/// The control stream that the settings exchange writes reads back as sent:
/// its first varint is the control-stream type, the next frame is a SETTINGS
/// frame (not a grease frame, so a frame reader does not skip it) whose
/// length is that of the payload, and the payload decodes, without error, to
/// exactly the settings map that was encoded, in whatever order `encode`
/// listed it.
pub proof fn lemma_control_stream_roundtrip(
    m: Map<u64, u64>,
    order: Seq<(u64, u64)>,
    rest: Seq<u8>,
)
    requires
        settings_map_wf(m),
        lists_entries(order, m),
        encode_pairs(order).len() < VARINT_BOUND,
    ensures
        ({
            let p = encode_pairs(order);
            let s = encode_varint(0) + encode_frame(0x04, p) + rest;
            let s1 = s.skip(1);
            let n = varint_size(0x04);
            let k = varint_size(p.len() as u64);
            &&& decode_varint(s) == Some((0u64, 1nat))
            &&& decode_varint(s1) == Some((0x04u64, n))
            &&& !is_grease_type(0x04)
            &&& decode_varint(s1.skip(n as int)) == Some((p.len() as u64, k))
            &&& s1.skip(n as int).skip(k as int).take(p.len() as int) == p
            &&& settings_decode(p) matches Some(l) && pairs_to_map(l) == m
        }),
{
    let p = encode_pairs(order);
    let f = encode_frame(0x04, p);
    let s = encode_varint(0) + f + rest;
    lemma_varint_roundtrip(0, f + rest);
    assert(s =~= encode_varint(0) + (f + rest));
    assert(s.skip(1) =~= f + rest);
    lemma_frame_roundtrip(0x04, p, rest);
    let n = varint_size(0x04);
    let k = varint_size(p.len() as u64);
    assert((f + rest).skip(n as int).skip(k as int).take(p.len() as int) =~= p);
    lemma_settings_roundtrip(m, order);
}

/// The identifiers of the settings, as registered: extended CONNECT 0x8,
/// QPACK table capacity 0x1, field section size 0x6, QPACK blocked streams
/// 0x7, HTTP/3 datagrams 0x33 (draft 0xFFD277), WebTransport session limit
/// 0xc671706a (draft 0x2b603743) and the draft WebTransport enable
/// 0x2b603742; the grease identifier 0x40 is reserved for greasing.
pub proof fn lemma_setting_identifiers()
    ensures
        ENABLE_CONNECT_PROTOCOL == 0x8,
        QPACK_MAX_TABLE_CAPACITY == 0x1,
        MAX_FIELD_SECTION_SIZE == 0x6,
        QPACK_BLOCKED_STREAMS == 0x7,
        ENABLE_DATAGRAM == 0x33,
        ENABLE_DATAGRAM_DEPRECATED == 0xFFD277,
        WEBTRANSPORT_MAX_SESSIONS == 0xc671706a,
        WEBTRANSPORT_MAX_SESSIONS_DEPRECATED == 0x2b603743,
        WEBTRANSPORT_ENABLE_DEPRECATED == 0x2b603742,
        GREASE_SETTING == 0x40,
        is_grease_type(GREASE_SETTING as u64),
{
}

/// Which settings announce WebTransport, by priority: the draft enable
/// setting (0x2b603742) decides when present; without it the session limit
/// (0xc671706a) decides; without both the draft session limit (0x2b603743)
/// decides; each announces support by a value of at least 1, and without
/// any of the three there is no support.
pub proof fn lemma_supports_webtransport_priority(m: Map<u64, u64>)
    ensures
        m.contains_key(0x2b603742) ==> (supports_webtransport_map(m) <==> m[0x2b603742] >= 1),
        !m.contains_key(0x2b603742) && m.contains_key(0xc671706a) ==> (supports_webtransport_map(m)
            <==> m[0xc671706a] >= 1),
        !m.contains_key(0x2b603742) && !m.contains_key(0xc671706a) ==> (supports_webtransport_map(
            m,
        ) <==> (m.contains_key(0x2b603743) && m[0x2b603743] >= 1)),
{
}

/// Enabling WebTransport with at most `n` sessions sets extended CONNECT
/// (0x8), HTTP/3 datagrams (0x33), draft datagrams (0xFFD277) and the draft
/// WebTransport enable (0x2b603742) to 1, and the session limit (0xc671706a)
/// and draft session limit (0x2b603743) to `n`; every other setting keeps
/// its value, and no other setting appears.
pub proof fn lemma_enable_webtransport_values(m: Map<u64, u64>, n: u32)
    ensures
        ({
            let e = enable_webtransport_map(m, n);
            &&& e.contains_key(0x8) && e[0x8] == 1
            &&& e.contains_key(0x33) && e[0x33] == 1
            &&& e.contains_key(0xFFD277) && e[0xFFD277] == 1
            &&& e.contains_key(0x2b603742) && e[0x2b603742] == 1
            &&& e.contains_key(0xc671706a) && e[0xc671706a] == n
            &&& e.contains_key(0x2b603743) && e[0x2b603743] == n
            &&& e.dom() == m.dom() + set![0x8u64, 0x33u64, 0xFFD277u64, 0x2b603742u64, 0xc671706au64, 0x2b603743u64]
            &&& forall|k: u64|
                k != 0x8 && k != 0x33 && k != 0xFFD277 && k != 0x2b603742 && k != 0xc671706a && k
                    != 0x2b603743 && #[trigger] m.contains_key(k) ==> e[k] == m[k]
        }),
{
    let e = enable_webtransport_map(m, n);
    assert(e.dom() =~= m.dom() + set![0x8u64, 0x33u64, 0xFFD277u64, 0x2b603742u64, 0xc671706au64, 0x2b603743u64]);
}

/// Enabling WebTransport makes the settings announce it: after
/// `enable_webtransport(n)`, `supports_webtransport` holds, whatever `n` and
/// whatever the settings held before.
pub proof fn lemma_enabled_settings_support_webtransport(m: Map<u64, u64>, n: u32)
    ensures
        supports_webtransport_map(enable_webtransport_map(m, n)),
{
}

/// The settings that `Settings::new` makes hold a grease setting, as every
/// endpoint's settings must.
pub proof fn lemma_new_settings_hold_grease()
    ensures
        exists|k: u64|
            #![trigger is_grease_type(k)]
            Map::<u64, u64>::empty().insert(GREASE_SETTING as u64, GREASE_VALUE as u64).contains_key(
                k,
            ) && is_grease_type(k),
{
    assert(is_grease_type(GREASE_SETTING as u64));
}

proof fn lemma_decode_encode_pairs(p: Seq<(u64, u64)>)
    requires
        forall|i: int| 0 <= i < p.len() ==> #[trigger] p[i].0 < VARINT_BOUND && p[i].1 <= u32::MAX,
    ensures
        settings_decode(encode_pairs(p)) == Some(p),
    decreases p.len(),
{
    if p.len() == 0 {
        assert(encode_pairs(p) =~= Seq::<u8>::empty());
        assert(p =~= Seq::<(u64, u64)>::empty());
    } else {
        let (k, v) = p[0];
        assert(p[0].0 < VARINT_BOUND && p[0].1 <= u32::MAX);
        let tail = p.drop_first();
        assert forall|i: int| 0 <= i < tail.len() implies #[trigger] tail[i].0 < VARINT_BOUND
            && tail[i].1 <= u32::MAX by {
            assert(tail[i] == p[i + 1]);
            assert(p[i + 1].0 < VARINT_BOUND && p[i + 1].1 <= u32::MAX);
        }
        lemma_decode_encode_pairs(tail);
        let rest = encode_pairs(tail);
        let s = encode_pairs(p);
        lemma_varint_roundtrip(k, encode_varint(v) + rest);
        lemma_varint_roundtrip(v, rest);
        assert(s =~= encode_varint(k) + (encode_varint(v) + rest));
        let n = varint_size(k);
        let r = s.skip(n as int);
        assert(r =~= encode_varint(v) + rest);
        let m = varint_size(v);
        assert(r.skip(m as int) =~= rest);
        assert(v % 0x1_0000_0000u64 == v);
        assert(seq![(k, v)] + tail =~= p);
    }
}

proof fn lemma_pairs_to_map(p: Seq<(u64, u64)>)
    requires
        forall|i: int, j: int| 0 <= i < j < p.len() ==> p[i].0 != p[j].0,
    ensures
        forall|i: int|
            0 <= i < p.len() ==> #[trigger] pairs_to_map(p).contains_key(p[i].0) && pairs_to_map(
                p,
            )[p[i].0] == p[i].1,
        forall|k: u64| #[trigger]
            pairs_to_map(p).contains_key(k) ==> exists|i: int| 0 <= i < p.len() && p[i].0 == k,
    decreases p.len(),
{
    if p.len() > 0 {
        let g = p.drop_last();
        lemma_pairs_to_map(g);
        assert forall|i: int| 0 <= i < p.len() implies #[trigger] pairs_to_map(p).contains_key(
            p[i].0,
        ) && pairs_to_map(p)[p[i].0] == p[i].1 by {
            if i < p.len() - 1 {
                assert(g[i] == p[i]);
                assert(p[i].0 != p[p.len() - 1].0);
                assert(pairs_to_map(g).contains_key(g[i].0));
            }
        }
        assert forall|k: u64| #[trigger] pairs_to_map(p).contains_key(k) implies exists|i: int|
            0 <= i < p.len() && p[i].0 == k by {
            if k != p.last().0 {
                assert(pairs_to_map(g).contains_key(k));
                let i = choose|i: int| 0 <= i < g.len() && g[i].0 == k;
                assert(p[i] == g[i]);
            } else {
                assert(p[p.len() - 1].0 == k);
            }
        }
    }
}

/// Settings read back as they were written: the payload that
/// `Settings::encode` produces for a settings map `m`, in whatever order it
/// lists the entries, decodes without error to the entries of `m`, and the
/// map they set up is `m` itself.
pub proof fn lemma_settings_roundtrip(m: Map<u64, u64>, order: Seq<(u64, u64)>)
    requires
        settings_map_wf(m),
        lists_entries(order, m),
    ensures
        settings_decode(encode_pairs(order)) == Some(order),
        pairs_to_map(order) == m,
{
    assert forall|i: int| 0 <= i < order.len() implies #[trigger] order[i].0 < VARINT_BOUND
        && order[i].1 <= u32::MAX by {
        assert(m.contains_key(order[i].0));
    }
    lemma_decode_encode_pairs(order);
    lemma_pairs_to_map(order);
    assert forall|k: u64| #[trigger] pairs_to_map(order).contains_key(k) <==> m.contains_key(k) by {
        if m.contains_key(k) {
            let i = choose|i: int| 0 <= i < order.len() && order[i].0 == k;
            assert(pairs_to_map(order).contains_key(order[i].0));
        }
        if pairs_to_map(order).contains_key(k) {
            let i = choose|i: int| 0 <= i < order.len() && order[i].0 == k;
            assert(m.contains_key(order[i].0));
        }
    }
    assert forall|k: u64| #[trigger] pairs_to_map(order).contains_key(k) implies pairs_to_map(
        order,
    )[k] == m[k] by {
        let i = choose|i: int| 0 <= i < order.len() && order[i].0 == k;
        assert(m.contains_key(order[i].0));
    }
    assert(pairs_to_map(order) =~= m);
}

proof fn lemma_encode_pairs_push(p: Seq<(u64, u64)>, e: (u64, u64))
    ensures
        encode_pairs(p.push(e)) == encode_pairs(p) + encode_varint(e.0) + encode_varint(e.1),
    decreases p.len(),
{
    if p.len() == 0 {
        assert(p.push(e).drop_first() =~= Seq::<(u64, u64)>::empty());
        assert(encode_pairs(p.push(e).drop_first()) == Seq::<u8>::empty());
        assert(encode_pairs(p) == Seq::<u8>::empty());
        assert(encode_pairs(p.push(e)) =~= encode_varint(e.0) + encode_varint(e.1));
    } else {
        lemma_encode_pairs_push(p.drop_first(), e);
        assert(p.push(e).drop_first() =~= p.drop_first().push(e));
        assert(encode_pairs(p.push(e)) =~= encode_pairs(p) + encode_varint(e.0) + encode_varint(
            e.1,
        ));
    }
}

proof fn lemma_iter_lists_entries(hm: &HashMap<u64, u64>, order: Seq<(u64, u64)>)
    requires
        spec_hash_map_iter(hm).remaining().no_duplicates(),
        order.len() == spec_hash_map_iter(hm).remaining().len(),
        forall|i: int|
            0 <= i < order.len() ==> #[trigger] order[i] == (
                *spec_hash_map_iter(hm).remaining()[i].0,
                *spec_hash_map_iter(hm).remaining()[i].1,
            ),
    ensures
        lists_entries(order, hm@),
{
    let v = spec_hash_map_iter(hm).remaining();
    let m = hm@;
    assert forall|i: int| 0 <= i < order.len() implies m.contains_key(#[trigger] order[i].0)
        && m[order[i].0] == order[i].1 by {
        assert(m.contains_key(*v[i].0));
    }
    assert forall|i: int, j: int| 0 <= i < j < order.len() implies order[i].0 != order[j].0 by {
        assert(m.contains_key(*v[i].0));
        assert(m.contains_key(*v[j].0));
        if order[i].0 == order[j].0 {
            assert(v[i] == v[j]);
        }
    }
    assert forall|k: u64| #[trigger] m.contains_key(k) implies exists|i: int|
        0 <= i < order.len() && order[i].0 == k by {
        assert(v.contains((&k, &m[k])));
        let i = choose|i: int| 0 <= i < v.len() && v[i] == (&k, &m[k]);
        assert(order[i].0 == k);
    }
}

} // verus!
