//! The server's configuration.

use bytes::BytesMut;
use crate::buffers::buffer_contents;
use crate::buffers::put_slice;
use crate::decimal::decimal;
use crate::decimal::lemma_decimal_len_u32;
use crate::decimal::push_decimal;
use vstd::prelude::*;
use vstd::string::StrSliceExecFns;
use vstd::string::StringSliceAdditionalSpecFns;

verus! {

/// The port that a server listens on unless it is configured otherwise.
pub const DEFAULT_PORT: u32 = 9736;

/// The configuration of a server.
#[derive(Debug)]
pub struct ServerConfig {
    pub port: u32,
}

/// The words that introduce the port in a report.
pub open spec fn port_label() -> Seq<u8> {
    "port: ".spec_bytes()
}

impl ServerConfig {
    /// The default configuration.
    pub fn new() -> (config: Self)
        ensures
            config.port == DEFAULT_PORT,
    {
        Self { port: DEFAULT_PORT }
    }

    /// The text that the configuration adds to a report: the label and the
    /// port in decimal.
    pub open spec fn spec_info(&self) -> Seq<u8> {
        port_label() + decimal(self.port as nat)
    }

    /// Appends the configuration's text to `info` and hands the buffer back.
    pub fn generate_info(&self, info: BytesMut) -> (out: BytesMut)
        requires
            buffer_contents(info).len() + self.spec_info().len() <= isize::MAX,
        ensures
            buffer_contents(out) == buffer_contents(info) + self.spec_info(),
    {
        let mut info = info;
        let mut port_info = "port: ".as_bytes_vec();
        push_decimal(self.port, &mut port_info);
        put_slice(&mut info, port_info.as_slice());
        info
    }
}

/// The configuration's text is short: the six bytes of the label and at most
/// ten digits.
pub proof fn lemma_config_info_len(config: ServerConfig)
    ensures
        7 <= config.spec_info().len() <= 16,
        port_label().len() == 6,
{
    reveal_strlit("port: ");
    vstd::string::is_ascii_spec_bytes("port: ");
    lemma_decimal_len_u32(config.port as nat);
}

} // verus!
