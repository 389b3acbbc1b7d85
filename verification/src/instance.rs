//! Keeping the application to a single running instance.
//!
//! The first instance listens on a local socket; a later one connects to
//! it, sends the `show` signal so that the first one shows its window, and
//! exits.
use vstd::prelude::*;

verus! {

#[verifier::external_type_specification]
#[verifier::external_body]
pub struct ExIoError(std::io::Error);

/// Errors of the single-instance check.
#[derive(Debug)]
pub enum InstanceError {
    /// Failed to bind the socket.
    Bind(std::io::Error),
    /// Failed to connect to the running instance.
    Connect(std::io::Error),
    /// Failed to signal the running instance.
    Signal(std::io::Error),
}

/// Whether `text` is what the `Display` of `err` writes.
pub open spec fn io_error_text(err: &std::io::Error, text: Seq<char>) -> bool {
    exists|d: String|
        vstd::string::to_string_from_display_ensures::<std::io::Error>(err, d) && #[trigger] d@
            == text
}

/// The text of an I/O error with `prefix` before it.
pub fn describe_io_error(prefix: &str, err: &std::io::Error) -> (res: String)
    ensures
        exists|d: Seq<char>| io_error_text(err, d) && res@ == prefix@ + d,
{
    let detail = err.to_string();
    let mut text = prefix.to_owned();
    text.append(detail.as_str());
    assert(io_error_text(err, detail@));
    text
}

/// How the text of an error of the single-instance check begins.
pub open spec fn instance_error_prefix(err: &InstanceError) -> Seq<char> {
    match err {
        InstanceError::Bind(_) => "failed to bind ipc socket: "@,
        InstanceError::Connect(_) => "failed to connect to running instance: "@,
        InstanceError::Signal(_) => "failed to signal running instance: "@,
    }
}

/// The I/O error an error of the single-instance check holds.
pub open spec fn instance_io_error(err: &InstanceError) -> &std::io::Error {
    match err {
        InstanceError::Bind(e) => e,
        InstanceError::Connect(e) => e,
        InstanceError::Signal(e) => e,
    }
}

impl InstanceError {
    /// The text that describes the error: what failed, then the I/O error.
    pub fn message(&self) -> (res: String)
        ensures
            exists|d: Seq<char>|
                #[trigger] io_error_text(instance_io_error(self), d) && res@
                    == instance_error_prefix(self) + d,
    {
        let (prefix, err) = match self {
            InstanceError::Bind(e) => ("failed to bind ipc socket: ", e),
            InstanceError::Connect(e) => ("failed to connect to running instance: ", e),
            InstanceError::Signal(e) => ("failed to signal running instance: ", e),
        };
        let text = describe_io_error(prefix, err);
        proof {
            let d = choose|d: Seq<char>| io_error_text(err, d) && text@ == prefix@ + d;
            assert(io_error_text(instance_io_error(self), d));
        }
        text
    }
}

/// The part this process plays.
#[derive(Clone, Copy, Debug, PartialEq, Eq, Structural)]
pub enum Role {
    /// We are the first instance.
    Primary,
    /// Another instance is already running.
    Secondary,
}

/// The name of the socket the first instance listens on.
pub const SOCKET_NAME: &'static str = "orion-rpc-v1";

/// The bytes of the `show` signal: `b"show"`.
pub open spec fn show_signal() -> Seq<u8> {
    seq![115u8, 104u8, 111u8, 119u8]
}

/// The `show` signal, as sent by a later instance.
pub fn show_signal_bytes() -> (res: Vec<u8>)
    ensures
        res@ == show_signal(),
{
    let mut bytes: Vec<u8> = Vec::new();
    bytes.push(115u8);
    bytes.push(104u8);
    bytes.push(111u8);
    bytes.push(119u8);
    bytes
}

/// Whether the bytes read from a connection are the `show` signal.
pub fn is_show_signal(buf: &[u8]) -> (res: bool)
    ensures
        res == (buf@ == show_signal()),
{
    if buf.len() != 4 {
        return false;
    }
    let same = buf[0] == 115u8 && buf[1] == 104u8 && buf[2] == 111u8 && buf[3] == 119u8;
    if same {
        assert(buf@ =~= show_signal());
    }
    same
}

} // verus!
