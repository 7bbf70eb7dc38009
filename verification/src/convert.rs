//! Timeline keys and the conversion of decoded messages into named
//! attribute lists.

use vstd::prelude::*;
use vstd::string::*;

use crate::message::{
    Argument, ArgumentV, ControlKind, ExtendedHeader, ExtendedHeaderV, LogLevel, Message,
    MessageKind, MessageV, NetworkKind, PayloadV, Payload, TraceKind, Value, ValueV,
};
use crate::CommonConfig;

verus! {

/// An attribute value as the ingestion sink understands it.
#[derive(Debug, Clone, PartialEq)]
pub enum AttrVal {
    Text(String),
    Int(i64),
    BigInt(i128),
    Bool(bool),
    /// A point in time, in nanoseconds.
    TimestampNs(u64),
}

/// Spec-level image of an [`AttrVal`].
pub enum AttrValV {
    Text(Seq<char>),
    Int(i64),
    BigInt(i128),
    Bool(bool),
    TimestampNs(u64),
}

impl View for AttrVal {
    type V = AttrValV;

    open spec fn view(&self) -> AttrValV {
        match self {
            AttrVal::Text(s) => AttrValV::Text(s@),
            AttrVal::Int(v) => AttrValV::Int(*v),
            AttrVal::BigInt(v) => AttrValV::BigInt(*v),
            AttrVal::Bool(b) => AttrValV::Bool(*b),
            AttrVal::TimestampNs(v) => AttrValV::TimestampNs(*v),
        }
    }
}

/// Spec-level image of an attribute list: each name as its character
/// sequence, each value as its spec image.
pub open spec fn attrs_view(s: Seq<(String, AttrVal)>) -> Seq<(Seq<char>, AttrValV)> {
    s.map_values(|p: (String, AttrVal)| (p.0@, p.1@))
}

/// The decimal digit character for `d`.
pub open spec fn spec_digit_char(d: int) -> char
    recommends
        0 <= d <= 9,
{
    if d == 0 {
        '0'
    } else if d == 1 {
        '1'
    } else if d == 2 {
        '2'
    } else if d == 3 {
        '3'
    } else if d == 4 {
        '4'
    } else if d == 5 {
        '5'
    } else if d == 6 {
        '6'
    } else if d == 7 {
        '7'
    } else if d == 8 {
        '8'
    } else {
        '9'
    }
}

/// The decimal rendering of a non-negative integer, most significant
/// digit first, with no leading zeros (except for zero itself).
pub open spec fn spec_dec_rep(n: int) -> Seq<char>
    recommends
        n >= 0,
    decreases n,
{
    if n < 10 {
        seq![spec_digit_char(n)]
    } else {
        spec_dec_rep(n / 10).push(spec_digit_char(n % 10))
    }
}

fn digit_str(d: u64) -> (s: &'static str)
    requires
        d <= 9,
    ensures
        s@ == seq![spec_digit_char(d as int)],
{
    if d == 0 {
        proof {
            reveal_strlit("0");
            assert("0"@ =~= seq![spec_digit_char(0)]);
        }
        "0"
    } else if d == 1 {
        proof {
            reveal_strlit("1");
            assert("1"@ =~= seq![spec_digit_char(1)]);
        }
        "1"
    } else if d == 2 {
        proof {
            reveal_strlit("2");
            assert("2"@ =~= seq![spec_digit_char(2)]);
        }
        "2"
    } else if d == 3 {
        proof {
            reveal_strlit("3");
            assert("3"@ =~= seq![spec_digit_char(3)]);
        }
        "3"
    } else if d == 4 {
        proof {
            reveal_strlit("4");
            assert("4"@ =~= seq![spec_digit_char(4)]);
        }
        "4"
    } else if d == 5 {
        proof {
            reveal_strlit("5");
            assert("5"@ =~= seq![spec_digit_char(5)]);
        }
        "5"
    } else if d == 6 {
        proof {
            reveal_strlit("6");
            assert("6"@ =~= seq![spec_digit_char(6)]);
        }
        "6"
    } else if d == 7 {
        proof {
            reveal_strlit("7");
            assert("7"@ =~= seq![spec_digit_char(7)]);
        }
        "7"
    } else if d == 8 {
        proof {
            reveal_strlit("8");
            assert("8"@ =~= seq![spec_digit_char(8)]);
        }
        "8"
    } else {
        proof {
            reveal_strlit("9");
            assert("9"@ =~= seq![spec_digit_char(9)]);
        }
        "9"
    }
}

/// Render `n` in decimal.
fn u64_to_dec(n: u64) -> (s: String)
    ensures
        s@ == spec_dec_rep(n as int),
    decreases n,
{
    if n < 10 {
        String::from_str(digit_str(n))
    } else {
        let mut s = u64_to_dec(n / 10);
        s.append(digit_str(n % 10));
        proof {
            assert(s@ =~= spec_dec_rep(n as int));
        }
        s
    }
}

/// How one payload value maps to an attribute value, if at all: integers
/// up to 64 bits and signed 128-bit integers map directly, an unsigned
/// 128-bit value above the signed maximum is omitted, and raw bytes are
/// never representable.
pub open spec fn spec_attr_of_value(v: ValueV) -> Option<AttrValV> {
    match v {
        ValueV::Bool(b) => Some(AttrValV::Bool(b)),
        ValueV::U8(x) => Some(AttrValV::Int(x as i64)),
        ValueV::U16(x) => Some(AttrValV::Int(x as i64)),
        ValueV::U32(x) => Some(AttrValV::Int(x as i64)),
        ValueV::U64(x) => if x <= i64::MAX as u64 {
            Some(AttrValV::Int(x as i64))
        } else {
            Some(AttrValV::BigInt(x as i128))
        },
        ValueV::U128(x) => if x <= i128::MAX as u128 {
            Some(AttrValV::BigInt(x as i128))
        } else {
            None
        },
        ValueV::I8(x) => Some(AttrValV::Int(x as i64)),
        ValueV::I16(x) => Some(AttrValV::Int(x as i64)),
        ValueV::I32(x) => Some(AttrValV::Int(x as i64)),
        ValueV::I64(x) => Some(AttrValV::Int(x)),
        ValueV::I128(x) => Some(AttrValV::BigInt(x)),
        ValueV::Text(s) => Some(AttrValV::Text(s)),
        ValueV::Raw(_) => None,
    }
}

/// Convert one payload value into an attribute value, or report that it
/// has no representation and must be omitted.
pub fn attr_of_value(v: &Value) -> (r: Option<AttrVal>)
    ensures
        match r {
            Some(a) => spec_attr_of_value(v@) == Some(a@),
            None => spec_attr_of_value(v@) is None,
        },
{
    match v {
        Value::Bool(b) => Some(AttrVal::Bool(*b)),
        Value::U8(x) => Some(AttrVal::Int(*x as i64)),
        Value::U16(x) => Some(AttrVal::Int(*x as i64)),
        Value::U32(x) => Some(AttrVal::Int(*x as i64)),
        Value::U64(x) => {
            if *x <= i64::MAX as u64 {
                Some(AttrVal::Int(*x as i64))
            } else {
                Some(AttrVal::BigInt(*x as i128))
            }
        },
        Value::U128(x) => {
            if *x <= i128::MAX as u128 {
                Some(AttrVal::BigInt(*x as i128))
            } else {
                None
            }
        },
        Value::I8(x) => Some(AttrVal::Int(*x as i64)),
        Value::I16(x) => Some(AttrVal::Int(*x as i64)),
        Value::I32(x) => Some(AttrVal::Int(*x as i64)),
        Value::I64(x) => Some(AttrVal::Int(*x)),
        Value::I128(x) => Some(AttrVal::BigInt(*x)),
        Value::Text(s) => Some(AttrVal::Text(s.clone())),
        Value::Raw(_) => None,
    }
}

/// Spec-level image of an optional string.
pub open spec fn opt_str_view(o: Option<String>) -> Option<Seq<char>> {
    match o {
        Some(s) => Some(s@),
        None => None,
    }
}

fn clone_opt_string(o: &Option<String>) -> (r: Option<String>)
    ensures
        opt_str_view(r) == opt_str_view(*o),
{
    match o {
        Some(s) => Some(s.clone()),
        None => None,
    }
}

fn opt_string_eq(a: &Option<String>, b: &Option<String>) -> (r: bool)
    ensures
        r == (opt_str_view(*a) == opt_str_view(*b)),
{
    match (a, b) {
        (Some(x), Some(y)) => *x == *y,
        (None, None) => true,
        _ => false,
    }
}

fn opt_u32_eq(a: &Option<u32>, b: &Option<u32>) -> (r: bool)
    ensures
        r == (*a == *b),
{
    match (a, b) {
        (Some(x), Some(y)) => *x == *y,
        (None, None) => true,
        _ => false,
    }
}

/// The composite identity key that groups messages into timelines: each
/// component is present only when its configuration switch is on and the
/// message carries the field.
#[derive(Debug, Clone)]
pub struct TimelineKey {
    pub ecu_id: Option<String>,
    pub session_id: Option<u32>,
    pub application_id: Option<String>,
    pub context_id: Option<String>,
}

/// Spec-level image of a [`TimelineKey`].
pub struct TimelineKeyV {
    pub ecu_id: Option<Seq<char>>,
    pub session_id: Option<u32>,
    pub application_id: Option<Seq<char>>,
    pub context_id: Option<Seq<char>>,
}

impl View for TimelineKey {
    type V = TimelineKeyV;

    open spec fn view(&self) -> TimelineKeyV {
        TimelineKeyV {
            ecu_id: opt_str_view(self.ecu_id),
            session_id: self.session_id,
            application_id: opt_str_view(self.application_id),
            context_id: opt_str_view(self.context_id),
        }
    }
}

/// The key that a message resolves to under a configuration: the ecu id
/// and session id of the standard header and the application and context
/// ids of the extended header, each included only when its switch is on.
pub open spec fn spec_key_of(m: MessageV, cfg: CommonConfig) -> TimelineKeyV {
    TimelineKeyV {
        ecu_id: if cfg.spec_use_ecu_id() {
            m.ecu_id
        } else {
            None
        },
        session_id: if cfg.spec_use_session_id() {
            m.session_id
        } else {
            None
        },
        application_id: if cfg.spec_use_application_id() {
            match m.extended_header {
                Some(e) => Some(e.application_id),
                None => None,
            }
        } else {
            None
        },
        context_id: if cfg.spec_use_context_id() {
            match m.extended_header {
                Some(e) => Some(e.context_id),
                None => None,
            }
        } else {
            None
        },
    }
}

impl TimelineKey {
    /// Derive the timeline key of `msg` under `config`.
    pub fn for_message(msg: &Message, config: &CommonConfig) -> (k: TimelineKey)
        ensures
            k@ == spec_key_of(msg@, *config),
    {
        let ecu_id = if config.use_ecu_id() {
            clone_opt_string(&msg.ecu_id)
        } else {
            None
        };
        let session_id = if config.use_session_id() {
            msg.session_id
        } else {
            None
        };
        let application_id = if config.use_application_id() {
            match &msg.extended_header {
                Some(e) => Some(e.application_id.clone()),
                None => None,
            }
        } else {
            None
        };
        let context_id = if config.use_context_id() {
            match &msg.extended_header {
                Some(e) => Some(e.context_id.clone()),
                None => None,
            }
        } else {
            None
        };
        TimelineKey { ecu_id, session_id, application_id, context_id }
    }

    /// Structural equality of two keys: component for component, an absent
    /// component equal only to an absent one.
    pub fn key_eq(&self, other: &TimelineKey) -> (r: bool)
        ensures
            r == (self@ == other@),
    {
        let r = opt_string_eq(&self.ecu_id, &other.ecu_id) && opt_u32_eq(
            &self.session_id,
            &other.session_id,
        ) && opt_string_eq(&self.application_id, &other.application_id) && opt_string_eq(
            &self.context_id,
            &other.context_id,
        );
        proof {
            if r {
                assert(self@ =~= other@);
            }
        }
        r
    }
}

/// The name components of a key, in fixed order: ecu id, application id,
/// context id. The session id never contributes to the name.
pub open spec fn spec_name_parts(k: TimelineKeyV) -> Seq<Seq<char>> {
    (match k.ecu_id {
        Some(e) => seq![e],
        None => Seq::<Seq<char>>::empty(),
    }) + (match k.application_id {
        Some(a) => seq![a],
        None => Seq::<Seq<char>>::empty(),
    }) + (match k.context_id {
        Some(c) => seq![c],
        None => Seq::<Seq<char>>::empty(),
    })
}

/// The given parts joined with `.` between neighbours.
pub open spec fn spec_join_dot(parts: Seq<Seq<char>>) -> Seq<char>
    decreases parts.len(),
{
    if parts.len() == 0 {
        Seq::<char>::empty()
    } else if parts.len() == 1 {
        parts[0]
    } else {
        spec_join_dot(parts.drop_last()) + seq!['.'] + parts.last()
    }
}

/// The display name of a timeline: its present name components dot-joined,
/// or `unnamed` when none is present.
pub open spec fn spec_timeline_name(k: TimelineKeyV) -> Seq<char> {
    if spec_name_parts(k).len() == 0 {
        "unnamed"@
    } else {
        spec_join_dot(spec_name_parts(k))
    }
}

fn join_dot(parts: &Vec<String>) -> (r: String)
    ensures
        r@ == spec_join_dot(parts@.map_values(|s: String| s@)),
{
    let ghost v = parts@.map_values(|s: String| s@);
    let mut r = String::new();
    let mut i: usize = 0;
    while i < parts.len()
        invariant
            i <= parts.len(),
            v == parts@.map_values(|s: String| s@),
            r@ == spec_join_dot(v.take(i as int)),
        decreases parts.len() - i,
    {
        if i > 0 {
            r.append(".");
        }
        r.append(parts[i].as_str());
        proof {
            reveal_strlit(".");
            assert(v.take(i + 1 as int).drop_last() =~= v.take(i as int));
            assert(v.take(i + 1 as int).last() == v[i as int]);
            assert(r@ =~= spec_join_dot(v.take(i + 1 as int)));
        }
        i += 1;
    }
    proof {
        assert(v.take(parts@.len() as int) =~= v);
    }
    r
}

/// The attribute list announced for a new timeline: one entry per present
/// key component, in fixed order, each under a `timeline.` name.
pub open spec fn spec_timeline_attrs(k: TimelineKeyV) -> Seq<(Seq<char>, AttrValV)> {
    (match k.ecu_id {
        Some(e) => seq![("timeline.ecu_id"@, AttrValV::Text(e))],
        None => Seq::<(Seq<char>, AttrValV)>::empty(),
    }) + (match k.session_id {
        Some(s) => seq![("timeline.session_id"@, AttrValV::Int(s as i64))],
        None => Seq::<(Seq<char>, AttrValV)>::empty(),
    }) + (match k.application_id {
        Some(a) => seq![("timeline.application_id"@, AttrValV::Text(a))],
        None => Seq::<(Seq<char>, AttrValV)>::empty(),
    }) + (match k.context_id {
        Some(c) => seq![("timeline.context_id"@, AttrValV::Text(c))],
        None => Seq::<(Seq<char>, AttrValV)>::empty(),
    })
}

impl TimelineKey {
    /// The display name of this key's timeline.
    pub fn timeline_name(&self) -> (r: String)
        ensures
            r@ == spec_timeline_name(self@),
    {
        let mut parts: Vec<String> = Vec::new();
        if let Some(e) = &self.ecu_id {
            parts.push(e.clone());
        }
        if let Some(a) = &self.application_id {
            parts.push(a.clone());
        }
        if let Some(c) = &self.context_id {
            parts.push(c.clone());
        }
        proof {
            assert(parts@.map_values(|s: String| s@) =~= spec_name_parts(self@));
        }
        if parts.len() == 0 {
            String::from_str("unnamed")
        } else {
            join_dot(&parts)
        }
    }

    /// The attribute list announced when this key's timeline is declared.
    pub fn timeline_attrs(&self) -> (r: Vec<(String, AttrVal)>)
        ensures
            attrs_view(r@) == spec_timeline_attrs(self@),
    {
        let mut attrs: Vec<(String, AttrVal)> = Vec::new();
        if let Some(e) = &self.ecu_id {
            attrs.push((String::from_str("timeline.ecu_id"), AttrVal::Text(e.clone())));
        }
        if let Some(s) = &self.session_id {
            attrs.push((String::from_str("timeline.session_id"), AttrVal::Int(*s as i64)));
        }
        if let Some(a) = &self.application_id {
            attrs.push((String::from_str("timeline.application_id"), AttrVal::Text(a.clone())));
        }
        if let Some(c) = &self.context_id {
            attrs.push((String::from_str("timeline.context_id"), AttrVal::Text(c.clone())));
        }
        proof {
            assert(attrs_view(attrs@) =~= spec_timeline_attrs(self@));
        }
        attrs
    }
}

/// The short kind name of an event: from the extended header's message
/// type when one is present, else from the payload's shape.
pub open spec fn spec_event_kind_name(m: MessageV) -> Seq<char> {
    match m.extended_header {
        Some(e) => match e.message_type {
            MessageKind::Log(_) => "log"@,
            MessageKind::ApplicationTrace(_) => "application_trace"@,
            MessageKind::NetworkTrace(_) => "network_trace"@,
            MessageKind::Control(_) => "control"@,
            MessageKind::Unknown => "unknown"@,
        },
        None => match m.payload {
            PayloadV::Verbose(_) => "verbose"@,
            PayloadV::NonVerbose(_, _) => "non_verbose"@,
            PayloadV::Control(_, _) => "control"@,
        },
    }
}

/// The short kind name of the event that `msg` becomes.
pub fn dlt_message_to_event_name(msg: &Message) -> (r: String)
    ensures
        r@ == spec_event_kind_name(msg@),
{
    match &msg.extended_header {
        Some(e) => match e.message_type {
            MessageKind::Log(_) => String::from_str("log"),
            MessageKind::ApplicationTrace(_) => String::from_str("application_trace"),
            MessageKind::NetworkTrace(_) => String::from_str("network_trace"),
            MessageKind::Control(_) => String::from_str("control"),
            MessageKind::Unknown => String::from_str("unknown"),
        },
        None => match &msg.payload {
            Payload::Verbose(_) => String::from_str("verbose"),
            Payload::NonVerbose(_, _) => String::from_str("non_verbose"),
            Payload::Control(_, _) => String::from_str("control"),
        },
    }
}

/// The lower-cased rendering of a log level.
pub open spec fn spec_log_level_str(l: LogLevel) -> Seq<char> {
    match l {
        LogLevel::Fatal => "fatal"@,
        LogLevel::Error => "error"@,
        LogLevel::Warn => "warn"@,
        LogLevel::Info => "info"@,
        LogLevel::Debug => "debug"@,
        LogLevel::Verbose => "verbose"@,
        LogLevel::Invalid => "invalid"@,
    }
}

/// The lower-cased rendering of an application-trace sub-type.
pub open spec fn spec_trace_kind_str(t: TraceKind) -> Seq<char> {
    match t {
        TraceKind::Variable => "variable"@,
        TraceKind::FunctionIn => "function_in"@,
        TraceKind::FunctionOut => "function_out"@,
        TraceKind::State => "state"@,
        TraceKind::Vfb => "vfb"@,
        TraceKind::Invalid => "invalid"@,
    }
}

/// The lower-cased rendering of a network-trace sub-type.
pub open spec fn spec_network_kind_str(n: NetworkKind) -> Seq<char> {
    match n {
        NetworkKind::Ipc => "ipc"@,
        NetworkKind::Can => "can"@,
        NetworkKind::Flexray => "flexray"@,
        NetworkKind::Most => "most"@,
        NetworkKind::Ethernet => "ethernet"@,
        NetworkKind::Someip => "someip"@,
        NetworkKind::Invalid => "invalid"@,
        NetworkKind::UserDefined => "user_defined"@,
    }
}

/// The lower-cased rendering of a control direction.
pub open spec fn spec_control_str(c: ControlKind) -> Seq<char> {
    match c {
        ControlKind::Request => "request"@,
        ControlKind::Response => "response"@,
        ControlKind::Unknown => "unknown"@,
    }
}

fn log_level_str(l: LogLevel) -> (r: String)
    ensures
        r@ == spec_log_level_str(l),
{
    match l {
        LogLevel::Fatal => String::from_str("fatal"),
        LogLevel::Error => String::from_str("error"),
        LogLevel::Warn => String::from_str("warn"),
        LogLevel::Info => String::from_str("info"),
        LogLevel::Debug => String::from_str("debug"),
        LogLevel::Verbose => String::from_str("verbose"),
        LogLevel::Invalid => String::from_str("invalid"),
    }
}

fn trace_kind_str(t: TraceKind) -> (r: String)
    ensures
        r@ == spec_trace_kind_str(t),
{
    match t {
        TraceKind::Variable => String::from_str("variable"),
        TraceKind::FunctionIn => String::from_str("function_in"),
        TraceKind::FunctionOut => String::from_str("function_out"),
        TraceKind::State => String::from_str("state"),
        TraceKind::Vfb => String::from_str("vfb"),
        TraceKind::Invalid => String::from_str("invalid"),
    }
}

fn network_kind_str(n: NetworkKind) -> (r: String)
    ensures
        r@ == spec_network_kind_str(n),
{
    match n {
        NetworkKind::Ipc => String::from_str("ipc"),
        NetworkKind::Can => String::from_str("can"),
        NetworkKind::Flexray => String::from_str("flexray"),
        NetworkKind::Most => String::from_str("most"),
        NetworkKind::Ethernet => String::from_str("ethernet"),
        NetworkKind::Someip => String::from_str("someip"),
        NetworkKind::Invalid => String::from_str("invalid"),
        NetworkKind::UserDefined => String::from_str("user_defined"),
    }
}

fn control_str(c: ControlKind) -> (r: String)
    ensures
        r@ == spec_control_str(c),
{
    match c {
        ControlKind::Request => String::from_str("request"),
        ControlKind::Response => String::from_str("response"),
        ControlKind::Unknown => String::from_str("unknown"),
    }
}

/// The attributes taken from the standard header, in fixed order, each
/// present only when the header carries the field. The timestamp is
/// converted from tenths of a millisecond to nanoseconds.
pub open spec fn spec_header_attrs(m: MessageV) -> Seq<(Seq<char>, AttrValV)> {
    (match m.ecu_id {
        Some(e) => seq![("event.ecu_id"@, AttrValV::Text(e))],
        None => Seq::<(Seq<char>, AttrValV)>::empty(),
    }) + (match m.session_id {
        Some(s) => seq![("event.session_id"@, AttrValV::Int(s as i64))],
        None => Seq::<(Seq<char>, AttrValV)>::empty(),
    }) + (match m.timestamp {
        Some(t) => seq![("event.timestamp"@, AttrValV::TimestampNs((t * 100000) as u64))],
        None => Seq::<(Seq<char>, AttrValV)>::empty(),
    })
}

/// The attributes taken from the extended header: its two scope
/// identifiers, then one attribute specific to the message type.
pub open spec fn spec_ext_attrs(e: ExtendedHeaderV) -> Seq<(Seq<char>, AttrValV)> {
    seq![
        ("event.application_id"@, AttrValV::Text(e.application_id)),
        ("event.context_id"@, AttrValV::Text(e.context_id)),
    ] + (match e.message_type {
        MessageKind::Log(l) => seq![("event.log_level"@, AttrValV::Text(spec_log_level_str(l)))],
        MessageKind::ApplicationTrace(t) => seq![
            ("event.trace_type"@, AttrValV::Text(spec_trace_kind_str(t))),
        ],
        MessageKind::NetworkTrace(n) => seq![
            ("event.trace_type"@, AttrValV::Text(spec_network_kind_str(n))),
        ],
        MessageKind::Control(c) => seq![
            ("event.control_direction"@, AttrValV::Text(spec_control_str(c))),
        ],
        MessageKind::Unknown => Seq::<(Seq<char>, AttrValV)>::empty(),
    })
}

/// An argument counts as unnamed when it has no name or an empty one.
pub open spec fn spec_arg_is_unnamed(a: ArgumentV) -> bool {
    match a.name {
        Some(n) => n.len() == 0,
        None => true,
    }
}

/// The attribute name of one verbose argument: its own name when it has a
/// non-empty one, else its zero-based position, under `event.payload.`.
pub open spec fn spec_payload_key(a: ArgumentV, i: int) -> Seq<char> {
    if !spec_arg_is_unnamed(a) {
        "event.payload."@ + (match a.name {
            Some(n) => n,
            None => Seq::<char>::empty(),
        })
    } else {
        "event.payload."@ + spec_dec_rep(i)
    }
}

/// The attribute entries of the arguments of a verbose payload, in
/// argument order; an argument whose value has no representation
/// contributes nothing.
pub open spec fn spec_verbose_attrs(args: Seq<ArgumentV>) -> Seq<(Seq<char>, AttrValV)>
    decreases args.len(),
{
    if args.len() == 0 {
        Seq::<(Seq<char>, AttrValV)>::empty()
    } else {
        spec_verbose_attrs(args.drop_last()) + (match spec_attr_of_value(args.last().value) {
            Some(v) => seq![(spec_payload_key(args.last(), args.len() - 1), v)],
            None => Seq::<(Seq<char>, AttrValV)>::empty(),
        })
    }
}

/// The attributes taken from the payload. A verbose payload with exactly
/// one unnamed argument flattens into a single `event.payload` attribute;
/// any other verbose payload gets one attribute per argument.
pub open spec fn spec_payload_attrs(p: PayloadV) -> Seq<(Seq<char>, AttrValV)> {
    match p {
        PayloadV::Verbose(args) => if args.len() == 1 && spec_arg_is_unnamed(args[0]) {
            match spec_attr_of_value(args[0].value) {
                Some(v) => seq![("event.payload"@, v)],
                None => Seq::<(Seq<char>, AttrValV)>::empty(),
            }
        } else {
            spec_verbose_attrs(args)
        },
        PayloadV::NonVerbose(id, _) => seq![
            ("event.payload_type"@, AttrValV::Text("non_verbose"@)),
            ("event.message_id"@, AttrValV::Int(id as i64)),
        ],
        PayloadV::Control(c, _) => seq![
            ("event.payload_type"@, AttrValV::Text("control"@)),
            ("event.control_direction"@, AttrValV::Text(spec_control_str(c))),
        ],
    }
}

/// All attribute entries of a message before duplicate names are dropped.
pub open spec fn spec_raw_event_attrs(m: MessageV) -> Seq<(Seq<char>, AttrValV)> {
    spec_header_attrs(m) + (match m.extended_header {
        Some(e) => spec_ext_attrs(e),
        None => Seq::<(Seq<char>, AttrValV)>::empty(),
    }) + spec_payload_attrs(m.payload)
}

/// Whether some entry of `s` carries the name `k`.
pub open spec fn spec_contains_key(s: Seq<(Seq<char>, AttrValV)>, k: Seq<char>) -> bool {
    exists|i: int| 0 <= i < s.len() && s[i].0 == k
}

/// Keep the first entry of each name and drop every later duplicate.
pub open spec fn spec_dedup_keys(s: Seq<(Seq<char>, AttrValV)>) -> Seq<(Seq<char>, AttrValV)>
    decreases s.len(),
{
    if s.len() == 0 {
        s
    } else {
        let p = spec_dedup_keys(s.drop_last());
        if spec_contains_key(p, s.last().0) {
            p
        } else {
            p.push(s.last())
        }
    }
}

/// The full attribute list of the event that a message becomes: header,
/// extended-header and payload attributes in order, uniquely keyed.
pub open spec fn spec_event_attrs(m: MessageV) -> Seq<(Seq<char>, AttrValV)> {
    spec_dedup_keys(spec_raw_event_attrs(m))
}

proof fn lemma_attrs_view_push(s: Seq<(String, AttrVal)>, p: (String, AttrVal))
    ensures
        attrs_view(s.push(p)) =~= attrs_view(s).push((p.0@, p.1@)),
{
    assert forall|j: int| 0 <= j < s.len() + 1 implies attrs_view(s.push(p))[j] == attrs_view(
        s,
    ).push((p.0@, p.1@))[j] by {
        if j < s.len() {
            assert(s.push(p)[j] == s[j]);
        } else {
            assert(s.push(p)[j] == p);
        }
    }
}

fn arg_is_unnamed(a: &Argument) -> (r: bool)
    ensures
        r == spec_arg_is_unnamed(a@),
{
    match &a.name {
        Some(n) => n.as_str().unicode_len() == 0,
        None => true,
    }
}

fn contains_attr_key(attrs: &Vec<(String, AttrVal)>, key: &String) -> (r: bool)
    ensures
        r == spec_contains_key(attrs_view(attrs@), key@),
{
    let mut i: usize = 0;
    while i < attrs.len()
        invariant
            i <= attrs.len(),
            forall|j: int| 0 <= j < i ==> attrs_view(attrs@)[j].0 != key@,
        decreases attrs.len() - i,
    {
        if attrs[i].0 == *key {
            assert(attrs_view(attrs@)[i as int].0 == key@);
            return true;
        }
        i += 1;
    }
    false
}

fn dedup_attrs(raw: Vec<(String, AttrVal)>) -> (r: Vec<(String, AttrVal)>)
    ensures
        attrs_view(r@) == spec_dedup_keys(attrs_view(raw@)),
{
    let ghost full = attrs_view(raw@);
    let mut rest = raw;
    let mut out: Vec<(String, AttrVal)> = Vec::new();
    while rest.len() > 0
        invariant
            rest@.len() <= full.len(),
            attrs_view(rest@) =~= full.skip(full.len() - rest@.len()),
            attrs_view(out@) =~= spec_dedup_keys(full.take(full.len() - rest@.len())),
        decreases rest.len(),
    {
        let ghost k = full.len() - rest@.len();
        let ghost oldrest = rest@;
        let p = rest.remove(0);
        proof {
            assert(attrs_view(oldrest)[0] == (oldrest[0].0@, oldrest[0].1@));
            assert(attrs_view(oldrest)[0] == full.skip(k as int)[0]);
            assert(full.skip(k as int)[0] == full[k as int]);
            assert((p.0@, p.1@) == full[k as int]);
            assert forall|j: int| 0 <= j < rest@.len() implies attrs_view(rest@)[j] == full.skip(
                k + 1,
            )[j] by {
                assert(attrs_view(rest@)[j] == (rest@[j].0@, rest@[j].1@));
                assert(rest@[j] == oldrest[j + 1]);
                assert(attrs_view(oldrest)[j + 1] == (oldrest[j + 1].0@, oldrest[j + 1].1@));
                assert(attrs_view(oldrest)[j + 1] == full.skip(k as int)[j + 1]);
            }
            assert(attrs_view(rest@) =~= full.skip(k + 1));
            assert(full.take(k + 1).drop_last() =~= full.take(k as int));
            assert(full.take(k + 1).last() == full[k as int]);
        }
        if !contains_attr_key(&out, &p.0) {
            out.push(p);
        }
        proof {
            assert(attrs_view(out@) =~= spec_dedup_keys(full.take(k + 1)));
        }
    }
    proof {
        assert(full.take(full.len() as int) =~= full);
    }
    out
}

fn header_attrs(msg: &Message) -> (r: Vec<(String, AttrVal)>)
    ensures
        attrs_view(r@) == spec_header_attrs(msg@),
{
    let mut attrs: Vec<(String, AttrVal)> = Vec::new();
    if let Some(e) = &msg.ecu_id {
        attrs.push((String::from_str("event.ecu_id"), AttrVal::Text(e.clone())));
    }
    if let Some(s) = &msg.session_id {
        attrs.push((String::from_str("event.session_id"), AttrVal::Int(*s as i64)));
    }
    if let Some(t) = &msg.timestamp {
        attrs.push(
            (String::from_str("event.timestamp"), AttrVal::TimestampNs((*t as u64) * 100000)),
        );
    }
    proof {
        assert(attrs_view(attrs@) =~= spec_header_attrs(msg@));
    }
    attrs
}

fn push_ext_attrs(attrs: &mut Vec<(String, AttrVal)>, e: &ExtendedHeader)
    ensures
        attrs_view(final(attrs)@) == attrs_view(old(attrs)@) + spec_ext_attrs(e@),
{
    attrs.push((String::from_str("event.application_id"), AttrVal::Text(e.application_id.clone())));
    attrs.push((String::from_str("event.context_id"), AttrVal::Text(e.context_id.clone())));
    match e.message_type {
        MessageKind::Log(l) => {
            attrs.push((String::from_str("event.log_level"), AttrVal::Text(log_level_str(l))));
        },
        MessageKind::ApplicationTrace(t) => {
            attrs.push((String::from_str("event.trace_type"), AttrVal::Text(trace_kind_str(t))));
        },
        MessageKind::NetworkTrace(n) => {
            attrs.push((String::from_str("event.trace_type"), AttrVal::Text(network_kind_str(n))));
        },
        MessageKind::Control(c) => {
            attrs.push(
                (String::from_str("event.control_direction"), AttrVal::Text(control_str(c))),
            );
        },
        MessageKind::Unknown => {},
    }
    proof {
        assert(attrs_view(attrs@) =~= attrs_view(old(attrs)@) + spec_ext_attrs(e@));
    }
}

fn push_verbose_attrs(attrs: &mut Vec<(String, AttrVal)>, args: &Vec<Argument>)
    ensures
        attrs_view(final(attrs)@) == attrs_view(old(attrs)@) + spec_verbose_attrs(
            args@.map_values(|a: Argument| a@),
        ),
{
    let ghost argsv = args@.map_values(|a: Argument| a@);
    let ghost base = attrs_view(attrs@);
    let mut i: usize = 0;
    while i < args.len()
        invariant
            i <= args.len(),
            argsv == args@.map_values(|a: Argument| a@),
            base == attrs_view(old(attrs)@),
            attrs_view(attrs@) =~= base + spec_verbose_attrs(argsv.take(i as int)),
        decreases args.len() - i,
    {
        let a = &args[i];
        proof {
            assert(argsv[i as int] == args@[i as int]@);
        }
        let mut key = String::from_str("event.payload.");
        if !arg_is_unnamed(a) {
            match &a.name {
                Some(n) => key.append(n.as_str()),
                None => {},
            }
            proof {
                assert(key@ == spec_payload_key(argsv[i as int], i as int));
            }
        } else {
            let idx = u64_to_dec(i as u64);
            key.append(idx.as_str());
            proof {
                assert(key@ == spec_payload_key(argsv[i as int], i as int));
            }
        }
        let ghost prev = attrs@;
        match attr_of_value(&a.value) {
            Some(v) => {
                proof {
                    lemma_attrs_view_push(prev, (key, v));
                }
                attrs.push((key, v));
            },
            None => {},
        }
        proof {
            assert(argsv.take(i + 1 as int).drop_last() =~= argsv.take(i as int));
            assert(argsv.take(i + 1 as int).last() == argsv[i as int]);
            assert(attrs_view(attrs@) =~= base + spec_verbose_attrs(argsv.take(i + 1 as int)));
        }
        i += 1;
    }
    proof {
        assert(argsv.take(args@.len() as int) =~= argsv);
    }
}

fn push_payload_attrs(attrs: &mut Vec<(String, AttrVal)>, payload: &Payload)
    ensures
        attrs_view(final(attrs)@) == attrs_view(old(attrs)@) + spec_payload_attrs(payload@),
{
    match payload {
        Payload::Verbose(args) => {
            let single = args.len() == 1 && arg_is_unnamed(&args[0]);
            proof {
                assert(args@.map_values(|a: Argument| a@).len() == args@.len());
                if args@.len() == 1 {
                    assert(args@.map_values(|a: Argument| a@)[0] == args@[0]@);
                }
            }
            if single {
                match attr_of_value(&args[0].value) {
                    Some(v) => {
                        attrs.push((String::from_str("event.payload"), v));
                    },
                    None => {},
                }
                proof {
                    assert(attrs_view(attrs@) =~= attrs_view(old(attrs)@) + spec_payload_attrs(
                        payload@,
                    ));
                }
            } else {
                push_verbose_attrs(attrs, args);
            }
        },
        Payload::NonVerbose(id, _) => {
            attrs.push(
                (
                    String::from_str("event.payload_type"),
                    AttrVal::Text(String::from_str("non_verbose")),
                ),
            );
            attrs.push((String::from_str("event.message_id"), AttrVal::Int(*id as i64)));
            proof {
                assert(attrs_view(attrs@) =~= attrs_view(old(attrs)@) + spec_payload_attrs(
                    payload@,
                ));
            }
        },
        Payload::Control(c, _) => {
            attrs.push(
                (String::from_str("event.payload_type"), AttrVal::Text(String::from_str("control"))),
            );
            attrs.push(
                (String::from_str("event.control_direction"), AttrVal::Text(control_str(*c))),
            );
            proof {
                assert(attrs_view(attrs@) =~= attrs_view(old(attrs)@) + spec_payload_attrs(
                    payload@,
                ));
            }
        },
    }
}

fn raw_event_attrs(msg: &Message) -> (r: Vec<(String, AttrVal)>)
    ensures
        attrs_view(r@) == spec_raw_event_attrs(msg@),
{
    let mut attrs = header_attrs(msg);
    if let Some(e) = &msg.extended_header {
        push_ext_attrs(&mut attrs, e);
    }
    push_payload_attrs(&mut attrs, &msg.payload);
    proof {
        assert(attrs_view(attrs@) =~= spec_raw_event_attrs(msg@));
    }
    attrs
}

/// The ordered, uniquely-keyed attribute list of the event that `msg`
/// becomes.
pub fn dlt_message_to_event_attrs(msg: &Message) -> (r: Vec<(String, AttrVal)>)
    ensures
        attrs_view(r@) == spec_event_attrs(msg@),
{
    dedup_attrs(raw_event_attrs(msg))
}

/// The application id that a message's extended header offers as a scope
/// component, absent when there is no extended header.
pub open spec fn spec_scope_application_id(m: MessageV) -> Option<Seq<char>> {
    match m.extended_header {
        Some(e) => Some(e.application_id),
        None => None,
    }
}

/// The context id that a message's extended header offers as a scope
/// component, absent when there is no extended header.
pub open spec fn spec_scope_context_id(m: MessageV) -> Option<Seq<char>> {
    match m.extended_header {
        Some(e) => Some(e.context_id),
        None => None,
    }
}

/// Two messages resolve to the same timeline key exactly when every
/// configured key component agrees between them: components that the
/// configuration leaves out never part two messages, and a difference in
/// any configured component parts them.
pub proof fn lemma_key_of_configured_components(m1: MessageV, m2: MessageV, cfg: CommonConfig)
    ensures
        (spec_key_of(m1, cfg) == spec_key_of(m2, cfg)) <==> {
            &&& cfg.spec_use_ecu_id() ==> m1.ecu_id == m2.ecu_id
            &&& cfg.spec_use_session_id() ==> m1.session_id == m2.session_id
            &&& cfg.spec_use_application_id() ==> spec_scope_application_id(m1)
                == spec_scope_application_id(m2)
            &&& cfg.spec_use_context_id() ==> spec_scope_context_id(m1) == spec_scope_context_id(
                m2,
            )
        },
{
    if {
        &&& cfg.spec_use_ecu_id() ==> m1.ecu_id == m2.ecu_id
        &&& cfg.spec_use_session_id() ==> m1.session_id == m2.session_id
        &&& cfg.spec_use_application_id() ==> spec_scope_application_id(m1)
            == spec_scope_application_id(m2)
        &&& cfg.spec_use_context_id() ==> spec_scope_context_id(m1) == spec_scope_context_id(m2)
    } {
        assert(spec_key_of(m1, cfg) =~= spec_key_of(m2, cfg));
    }
}

proof fn lemma_dedup_keys_unique(s: Seq<(Seq<char>, AttrValV)>)
    ensures
        forall|i: int, j: int|
            0 <= i < j < spec_dedup_keys(s).len() ==> spec_dedup_keys(s)[i].0 != spec_dedup_keys(
                s,
            )[j].0,
    decreases s.len(),
{
    if s.len() > 0 {
        lemma_dedup_keys_unique(s.drop_last());
        let p = spec_dedup_keys(s.drop_last());
        if !spec_contains_key(p, s.last().0) {
            assert forall|i: int, j: int|
                0 <= i < j < spec_dedup_keys(s).len() implies spec_dedup_keys(s)[i].0
                != spec_dedup_keys(s)[j].0 by {
                if j < p.len() {
                    assert(spec_dedup_keys(s)[i] == p[i]);
                    assert(spec_dedup_keys(s)[j] == p[j]);
                } else {
                    assert(spec_dedup_keys(s)[i] == p[i]);
                    assert(spec_dedup_keys(s)[j] == s.last());
                    assert(!(0 <= i < p.len() && p[i].0 == s.last().0));
                }
            }
        }
    }
}

/// Every event's kind name is one of the fixed short vocabulary: the five
/// names an extended header can yield, or the three a payload shape can.
pub proof fn lemma_event_kind_vocabulary(m: MessageV)
    ensures
        spec_event_kind_name(m) == "log"@ || spec_event_kind_name(m) == "application_trace"@
            || spec_event_kind_name(m) == "network_trace"@ || spec_event_kind_name(m)
            == "control"@ || spec_event_kind_name(m) == "unknown"@ || spec_event_kind_name(m)
            == "verbose"@ || spec_event_kind_name(m) == "non_verbose"@,
{
}

/// An event's attribute list is uniquely keyed: no attribute name appears
/// twice in it.
pub proof fn lemma_event_attr_keys_unique(m: MessageV)
    ensures
        forall|i: int, j: int|
            0 <= i < j < spec_event_attrs(m).len() ==> spec_event_attrs(m)[i].0 != spec_event_attrs(
                m,
            )[j].0,
{
    lemma_dedup_keys_unique(spec_raw_event_attrs(m));
}

} // verus!
