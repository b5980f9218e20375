//! What the emulator is asked to do on its command line.
use vstd::prelude::*;

verus! {

/// The port the server listens on unless another is given.
pub const DEFAULT_SERVER_PORT: u16 = 44553;

/// The command line: the ROM to load, whether to start the WebSocket
/// server, and the port it uses.
pub struct Arguments {
    /// The path of the ROM file to load.
    pub file: String,
    /// Whether to start the WebSocket server.
    pub serve: bool,
    /// The port the server uses.
    pub server_port: u16,
}

} // verus!
