//! The decoded-message model that the conversion and routing logic works on.
//!
//! A decoder turns one framed byte span into a value of [`Message`]; the
//! types here hold, as plain values, exactly the fields that the timeline
//! key resolver and the attribute converter read.

use vstd::prelude::*;

verus! {

/// Severity of a log message.
#[derive(Debug, Clone, Copy, PartialEq, Eq, Structural)]
pub enum LogLevel {
    Fatal,
    Error,
    Warn,
    Info,
    Debug,
    Verbose,
    Invalid,
}

/// Sub-type of an application-trace message.
#[derive(Debug, Clone, Copy, PartialEq, Eq, Structural)]
pub enum TraceKind {
    Variable,
    FunctionIn,
    FunctionOut,
    State,
    Vfb,
    Invalid,
}

/// Sub-type of a network-trace message.
#[derive(Debug, Clone, Copy, PartialEq, Eq, Structural)]
pub enum NetworkKind {
    Ipc,
    Can,
    Flexray,
    Most,
    Ethernet,
    Someip,
    Invalid,
    UserDefined,
}

/// Direction of a control message.
#[derive(Debug, Clone, Copy, PartialEq, Eq, Structural)]
pub enum ControlKind {
    Request,
    Response,
    Unknown,
}

/// The message type carried in the extended header.
#[derive(Debug, Clone, Copy, PartialEq, Eq, Structural)]
pub enum MessageKind {
    Log(LogLevel),
    ApplicationTrace(TraceKind),
    NetworkTrace(NetworkKind),
    Control(ControlKind),
    Unknown,
}

/// One typed value of a verbose payload argument.
#[derive(Debug, Clone, PartialEq)]
pub enum Value {
    Bool(bool),
    U8(u8),
    U16(u16),
    U32(u32),
    U64(u64),
    U128(u128),
    I8(i8),
    I16(i16),
    I32(i32),
    I64(i64),
    I128(i128),
    Text(String),
    Raw(Vec<u8>),
}

/// Spec-level image of a [`Value`].
pub enum ValueV {
    Bool(bool),
    U8(u8),
    U16(u16),
    U32(u32),
    U64(u64),
    U128(u128),
    I8(i8),
    I16(i16),
    I32(i32),
    I64(i64),
    I128(i128),
    Text(Seq<char>),
    Raw(Seq<u8>),
}

impl View for Value {
    type V = ValueV;

    open spec fn view(&self) -> ValueV {
        match self {
            Value::Bool(b) => ValueV::Bool(*b),
            Value::U8(v) => ValueV::U8(*v),
            Value::U16(v) => ValueV::U16(*v),
            Value::U32(v) => ValueV::U32(*v),
            Value::U64(v) => ValueV::U64(*v),
            Value::U128(v) => ValueV::U128(*v),
            Value::I8(v) => ValueV::I8(*v),
            Value::I16(v) => ValueV::I16(*v),
            Value::I32(v) => ValueV::I32(*v),
            Value::I64(v) => ValueV::I64(*v),
            Value::I128(v) => ValueV::I128(*v),
            Value::Text(s) => ValueV::Text(s@),
            Value::Raw(b) => ValueV::Raw(b@),
        }
    }
}

/// One argument of a verbose payload: an optional name and a typed value.
#[derive(Debug, Clone, PartialEq)]
pub struct Argument {
    pub name: Option<String>,
    pub value: Value,
}

/// Spec-level image of an [`Argument`].
pub struct ArgumentV {
    pub name: Option<Seq<char>>,
    pub value: ValueV,
}

impl View for Argument {
    type V = ArgumentV;

    open spec fn view(&self) -> ArgumentV {
        ArgumentV {
            name: match self.name {
                Some(s) => Some(s@),
                None => None,
            },
            value: self.value@,
        }
    }
}

/// The payload of a message, branching on its shape.
#[derive(Debug, Clone, PartialEq)]
pub enum Payload {
    /// Self-describing arguments.
    Verbose(Vec<Argument>),
    /// A message id plus opaque bytes that only an external catalog could
    /// interpret.
    NonVerbose(u32, Vec<u8>),
    /// A control message's direction plus its raw parameters.
    Control(ControlKind, Vec<u8>),
}

/// Spec-level image of a [`Payload`].
pub enum PayloadV {
    Verbose(Seq<ArgumentV>),
    NonVerbose(u32, Seq<u8>),
    Control(ControlKind, Seq<u8>),
}

impl View for Payload {
    type V = PayloadV;

    open spec fn view(&self) -> PayloadV {
        match self {
            Payload::Verbose(args) => PayloadV::Verbose(
                args@.map_values(|a: Argument| a@),
            ),
            Payload::NonVerbose(id, bytes) => PayloadV::NonVerbose(*id, bytes@),
            Payload::Control(c, bytes) => PayloadV::Control(*c, bytes@),
        }
    }
}

/// The extended header: scope identifiers and the message type.
#[derive(Debug, Clone, PartialEq)]
pub struct ExtendedHeader {
    pub application_id: String,
    pub context_id: String,
    pub message_type: MessageKind,
}

/// Spec-level image of an [`ExtendedHeader`].
pub struct ExtendedHeaderV {
    pub application_id: Seq<char>,
    pub context_id: Seq<char>,
    pub message_type: MessageKind,
}

impl View for ExtendedHeader {
    type V = ExtendedHeaderV;

    open spec fn view(&self) -> ExtendedHeaderV {
        ExtendedHeaderV {
            application_id: self.application_id@,
            context_id: self.context_id@,
            message_type: self.message_type,
        }
    }
}

/// A decoded DLT message: the standard header fields the pipeline reads,
/// the optional extended header, and the payload.
#[derive(Debug, Clone, PartialEq)]
pub struct Message {
    pub ecu_id: Option<String>,
    pub session_id: Option<u32>,
    /// Time since ECU startup, in tenths of a millisecond.
    pub timestamp: Option<u32>,
    pub extended_header: Option<ExtendedHeader>,
    pub payload: Payload,
}

/// Spec-level image of a [`Message`].
pub struct MessageV {
    pub ecu_id: Option<Seq<char>>,
    pub session_id: Option<u32>,
    pub timestamp: Option<u32>,
    pub extended_header: Option<ExtendedHeaderV>,
    pub payload: PayloadV,
}

impl View for Message {
    type V = MessageV;

    open spec fn view(&self) -> MessageV {
        MessageV {
            ecu_id: match self.ecu_id {
                Some(s) => Some(s@),
                None => None,
            },
            session_id: self.session_id,
            timestamp: self.timestamp,
            extended_header: match self.extended_header {
                Some(e) => Some(e@),
                None => None,
            },
            payload: self.payload@,
        }
    }
}

/// What the decoder reported for one framed byte span.
#[derive(Debug, Clone, PartialEq)]
pub enum DecodedMessage {
    /// The span decoded to a message.
    Item(Message),
    /// The span was frame-correct but not semantically decodable.
    Invalid,
    /// A decoder-internal filtering rule excluded the message.
    FilteredOut,
}

} // verus!
