//! The library's possible errors.

use vstd::prelude::*;

verus! {

/// Result of a type and `GDError`.
pub type GDResult<T> = Result<T, GDError>;

/// The failure kinds a query can surface.
#[derive(Debug, Clone)]
pub enum GDError {
    /// The received packet was bigger than the buffer size.
    PacketOverflow(String),
    /// The received packet was shorter than the expected one.
    PacketUnderflow(String),
    /// The received packet was badly formatted.
    PacketBad(String),
    /// Couldn't send the packet.
    PacketSend(String),
    /// Couldn't receive the packet.
    PacketReceive(String),
    /// Couldn't decompress data.
    Decompress(String),
    /// Unknown cast while translating a value to an enum.
    UnknownEnumCast,
    /// The server queried is not from the queried game.
    BadGame(String),
    /// Couldn't bind a socket.
    SocketBind(String),
    /// Invalid input.
    InvalidInput(String),
    /// Couldn't create a socket connection.
    SocketConnect(String),
    /// Couldn't parse a json string.
    JsonParse(String),
    /// Couldn't automatically query.
    AutoQuery,
    /// A protocol-defined expected format was not met.
    ProtocolFormat(String),
    /// Couldn't parse a value.
    TypeParse(String),
}

/// The fixed text each failure kind is described with.
pub open spec fn spec_kind_text(e: GDError) -> Seq<char> {
    match e {
        GDError::PacketOverflow(_) => "Packet overflow: "@,
        GDError::PacketUnderflow(_) => "Packet underflow: "@,
        GDError::PacketBad(_) => "Packet bad: "@,
        GDError::PacketSend(_) => "Couldn't send a packet: "@,
        GDError::PacketReceive(_) => "Couldn't receive a packet: "@,
        GDError::Decompress(_) => "Couldn't decompress data: "@,
        GDError::UnknownEnumCast => "Unknown enum cast encountered."@,
        GDError::BadGame(_) => "Queried another game that the supposed one: "@,
        GDError::SocketBind(_) => "Socket bind: "@,
        GDError::InvalidInput(_) => "Invalid input: "@,
        GDError::SocketConnect(_) => "Socket connect: "@,
        GDError::JsonParse(_) => "Json parse: "@,
        GDError::AutoQuery => "Auto query failed."@,
        GDError::ProtocolFormat(_) => "Protocol rule: "@,
        GDError::TypeParse(_) => "Type parse: "@,
    }
}

/// The detail string a failure carries, if any.
pub open spec fn spec_detail(e: GDError) -> Seq<char> {
    match e {
        GDError::PacketOverflow(d) => d@,
        GDError::PacketUnderflow(d) => d@,
        GDError::PacketBad(d) => d@,
        GDError::PacketSend(d) => d@,
        GDError::PacketReceive(d) => d@,
        GDError::Decompress(d) => d@,
        GDError::UnknownEnumCast => ""@,
        GDError::BadGame(d) => d@,
        GDError::SocketBind(d) => d@,
        GDError::InvalidInput(d) => d@,
        GDError::SocketConnect(d) => d@,
        GDError::JsonParse(d) => d@,
        GDError::AutoQuery => ""@,
        GDError::ProtocolFormat(d) => d@,
        GDError::TypeParse(d) => d@,
    }
}

impl GDError {
    /// A human-readable description: the kind's fixed text followed by the
    /// detail the failure carries.
    pub fn message(&self) -> (r: String)
        ensures
            r@ == spec_kind_text(*self) + spec_detail(*self),
    {
        let (head, detail): (&str, &str) = match self {
            GDError::PacketOverflow(d) => ("Packet overflow: ", d.as_str()),
            GDError::PacketUnderflow(d) => ("Packet underflow: ", d.as_str()),
            GDError::PacketBad(d) => ("Packet bad: ", d.as_str()),
            GDError::PacketSend(d) => ("Couldn't send a packet: ", d.as_str()),
            GDError::PacketReceive(d) => ("Couldn't receive a packet: ", d.as_str()),
            GDError::Decompress(d) => ("Couldn't decompress data: ", d.as_str()),
            GDError::UnknownEnumCast => ("Unknown enum cast encountered.", ""),
            GDError::BadGame(d) => ("Queried another game that the supposed one: ", d.as_str()),
            GDError::SocketBind(d) => ("Socket bind: ", d.as_str()),
            GDError::InvalidInput(d) => ("Invalid input: ", d.as_str()),
            GDError::SocketConnect(d) => ("Socket connect: ", d.as_str()),
            GDError::JsonParse(d) => ("Json parse: ", d.as_str()),
            GDError::AutoQuery => ("Auto query failed.", ""),
            GDError::ProtocolFormat(d) => ("Protocol rule: ", d.as_str()),
            GDError::TypeParse(d) => ("Type parse: ", d.as_str()),
        };
        let head_string: String = head.to_owned();
        head_string.concat(detail)
    }
}

} // verus!
