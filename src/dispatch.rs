use vstd::prelude::*;
use crate::address::{SocketAddress, SAM_PORT};
use crate::message::SamControlMessage;
use crate::named::NamedTable;

verus! {

/// Size of the buffer that a command is serialised into.
pub const COMMAND_MESSAGE_BUFFER_SIZE: usize = 1024;

/// Postcard's variable-length encoding of an unsigned integer: seven bits per
/// byte, least significant first, the high bit set on every byte but the last.
pub open spec fn varint(n: nat) -> Seq<u8>
    decreases n,
{
    if n < 128 {
        seq![n as u8]
    } else {
        seq![(n % 128 + 128) as u8] + varint(n / 128)
    }
}

/// Postcard's encoding of the triple `(tag, channel, flag)`: the two integers
/// as varints, then the flag as one byte.
pub open spec fn triple_bytes(tag: u32, channel: u32, flag: bool) -> Seq<u8> {
    varint(tag as nat) + varint(channel as nat) + seq![if flag { 1u8 } else { 0u8 }]
}

/// Relies on postcard::to_slice: serialises the triple `(tag, channel, flag)`
/// into a buffer of `capacity` bytes, and hands back the part it filled. Each
/// integer takes at most five bytes and the flag one, and the serialiser fails
/// only when the buffer is full.
#[verifier::external_body]
fn encode_triple(tag: u32, channel: u32, flag: bool, capacity: usize) -> (r: Option<Vec<u8>>)
    ensures
        r matches Some(bytes) ==> bytes@ == triple_bytes(tag, channel, flag) && bytes@.len()
            <= capacity,
        capacity >= 11 ==> r is Some,
{
    let mut buffer = vec![0u8; capacity];
    match postcard::to_slice(&(tag, channel, flag), &mut buffer) {
        Ok(used) => Some(used.to_vec()),
        Err(_) => None,
    }
}

/// The wire form of a command: the variant's index, then its channel and its
/// flag, as postcard writes an enum.
pub open spec fn command_bytes(message: SamControlMessage) -> Seq<u8> {
    match message {
        SamControlMessage::ActuateValve { channel, powered } => triple_bytes(0, channel, powered),
        SamControlMessage::SetLed { channel, on } => triple_bytes(1, channel, on),
    }
}

/// Serialises a command into its wire form, which always fits the command
/// buffer.
pub fn encode_command(message: &SamControlMessage) -> (r: Option<Vec<u8>>)
    ensures
        r is Some,
        r matches Some(bytes) ==> bytes@ == command_bytes(*message) && bytes@.len()
            <= COMMAND_MESSAGE_BUFFER_SIZE,
{
    match *message {
        SamControlMessage::ActuateValve { channel, powered } => encode_triple(
            0,
            channel,
            powered,
            COMMAND_MESSAGE_BUFFER_SIZE,
        ),
        SamControlMessage::SetLed { channel, on } => encode_triple(
            1,
            channel,
            on,
            COMMAND_MESSAGE_BUFFER_SIZE,
        ),
    }
}

/// Last known address of each board, by board identifier.
pub type AddressBook = NamedTable<SocketAddress>;

/// What the dispatcher does with one queued command.
#[derive(Debug)]
pub enum Dispatch {
    /// Send these bytes to this address.
    Send { bytes: Vec<u8>, address: SocketAddress },
    /// The board has no known address: drop the command and go on.
    UnknownBoard,
    /// The command could not be serialised: abort the flight program.
    Abort,
}

/// The address to which a board's commands go: its host, on the command port.
pub open spec fn command_address(a: SocketAddress) -> SocketAddress {
    SocketAddress { ip: a.ip, port: SAM_PORT }
}

/// Decides what becomes of a command for `board_id` whose serialised form is
/// `encoded` (`None` where serialising failed).
pub fn dispatch_encoded(book: &AddressBook, board_id: &str, encoded: Option<Vec<u8>>) -> (r:
    Dispatch)
    requires
        book.wf(),
    ensures
        match encoded {
            None => r is Abort,
            Some(bytes) => if book@.contains_key(board_id@) {
                r == (Dispatch::Send { bytes, address: command_address(book@[board_id@]) })
            } else {
                r is UnknownBoard
            },
        },
{
    match encoded {
        None => Dispatch::Abort,
        Some(bytes) => match book.lookup(board_id) {
            Some(a) => Dispatch::Send { bytes, address: SocketAddress { ip: a.ip, port: SAM_PORT } },
            None => Dispatch::UnknownBoard,
        },
    }
}

/// Serialises a command for `board_id` and decides what becomes of it.
pub fn dispatch_command(book: &AddressBook, board_id: &str, message: &SamControlMessage) -> (r:
    Dispatch)
    requires
        book.wf(),
    ensures
        match r {
            Dispatch::Send { bytes, address } => book@.contains_key(board_id@) && address
                == command_address(book@[board_id@]) && bytes@ == command_bytes(*message),
            Dispatch::UnknownBoard => !book@.contains_key(board_id@),
            Dispatch::Abort => false,
        },
{
    let encoded = encode_command(message);
    dispatch_encoded(book, board_id, encoded)
}

} // verus!
