//! The server state and the execution of commands against it.

use bytes::Bytes;
use bytes::BytesMut;
use crate::buffers::buffer_contents;
use crate::buffers::bytes_contents;
use crate::decimal::decimal;
use crate::protocol::Command;
use crate::protocol::CommandView;
use crate::protocol::FlowResult;
use crate::protocol::FlowType;
use crate::protocol::FlowView;
use crate::protocol::Response;
use crate::protocol::ResponseView;
use crate::protocol::RetFlowType;
use crate::protocol::RetFlowView;
use crate::protocol::ServerError;
use crate::protocol::result_view;
use crate::server_state::machine_info::MachineInfo;
use crate::server_state::server_config::lemma_config_info_len;
use crate::server_state::server_config::port_label;
use crate::server_state::server_config::ServerConfig;
use crate::server_state::server_config::DEFAULT_PORT;
use crate::warehouse::data_info::DataInfo;
use crate::warehouse::db::Db;
use crate::warehouse::storage_map::found_contents;
use crate::warehouse::storage_map::law_unwritten_key_is_absent;
use crate::warehouse::storage_map::lookup;
use crate::warehouse::storage_map::replay;
use crate::warehouse::storage_map::StorageView;
use crate::warehouse::storage_map::Write;
use vstd::prelude::*;
use vstd::string::StringSliceAdditionalSpecFns;

verus! {

/// The message that answers a read of a key that holds nothing.
pub open spec fn not_found_message() -> Seq<u8> {
    "Key not found.".spec_bytes()
}

/// The message that acknowledges a write.
pub open spec fn ok_message() -> Seq<u8> {
    "Ok.".spec_bytes()
}

/// The flow that returns a valid response with `message` as its payload.
pub open spec fn valid_reply(message: Seq<u8>) -> RetFlowView {
    RetFlowView::ReturnResponse { response: ResponseView::Valid { message } }
}

/// The answer to a read that found `found`: the bytes found, or the
/// not-found message. Either way the response is valid, never an error.
pub open spec fn get_reply(found: Option<Seq<u8>>) -> RetFlowView {
    match found {
        Some(value) => valid_reply(value),
        None => valid_reply(not_found_message()),
    }
}

/// The answer to a write that the storage engine ended with `stored`: the
/// acknowledgement, or the engine's failure handed on.
pub open spec fn set_reply(stored: Result<(), ServerError>) -> Result<RetFlowView, ServerError> {
    match stored {
        Ok(_) => Ok(valid_reply(ok_message())),
        Err(e) => Err(e),
    }
}

/// The report on a server: the text of its configuration, then that of the
/// machine information, then that of the data statistics.
pub open spec fn info_report(config: ServerConfig, machine: MachineInfo, data: DataInfo) -> Seq<u8> {
    config.spec_info() + machine.spec_info() + data.spec_info()
}

/// The server state: the configuration, the machine information, the data
/// statistics and the storage engine.
pub struct Server {
    pub server_config: ServerConfig,
    pub machine_info: MachineInfo,
    pub data_info: DataInfo,
    pub db: Db,
}

impl Server {
    /// The configuration of the server.
    pub open spec fn config(&self) -> ServerConfig {
        self.server_config
    }

    /// What the server has stored: the bytes under each key.
    pub open spec fn storage(&self) -> StorageView {
        self.db@
    }

    /// The answer that the server gives to `cmd`.
    ///
    /// A read is answered with the bytes stored under its key, or with the
    /// not-found message where the key holds nothing. A write is
    /// acknowledged. A request for information is answered with the report
    /// on the server.
    pub open spec fn answer(&self, cmd: CommandView) -> Result<RetFlowView, ServerError> {
        match cmd {
            CommandView::Get { key } => Ok(get_reply(lookup(self.storage(), key))),
            CommandView::SetValue { .. } => set_reply(Ok(())),
            CommandView::Info => Ok(
                valid_reply(info_report(self.server_config, self.machine_info, self.data_info)),
            ),
        }
    }

    /// What the server has stored once it has executed `cmd`: a write puts
    /// its value under its key, and no other command stores anything.
    pub open spec fn storage_after(&self, cmd: CommandView) -> StorageView {
        match cmd {
            CommandView::SetValue { key, value } => self.storage().insert(key, value),
            _ => self.storage(),
        }
    }

    /// Whether `after` and `result` are the state and the outcome that
    /// executing `cmd` on this server leaves: the answer is the one owed,
    /// the storage is changed by a write only, and nothing else changes at
    /// all.
    pub open spec fn executes(
        &self,
        cmd: CommandView,
        after: Server,
        result: Result<RetFlowView, ServerError>,
    ) -> bool {
        &&& result == self.answer(cmd)
        &&& after.storage() == self.storage_after(cmd)
        &&& after.server_config == self.server_config
        &&& after.machine_info == self.machine_info
        &&& after.data_info == self.data_info
        &&& cmd !is SetValue ==> after == *self
    }

    /// A server with the default configuration and nothing stored.
    pub fn new() -> (server: Self)
        ensures
            server.config() == (ServerConfig { port: DEFAULT_PORT }),
            server.storage() == Map::<Seq<char>, Seq<u8>>::empty(),
            server.data_info.total_keys() == 0,
    {
        Server::with_config(ServerConfig::new())
    }

    /// A server with the given configuration and nothing stored.
    pub fn with_config(config: ServerConfig) -> (server: Self)
        ensures
            server.config() == config,
            server.storage() == Map::<Seq<char>, Seq<u8>>::empty(),
            server.data_info.total_keys() == 0,
    {
        let server_config = config;
        let machine_info = MachineInfo::new();
        let data_info = DataInfo::new();
        let db = Db::new();
        Self { server_config: server_config, machine_info: machine_info, data_info: data_info, db: db }
    }

    /// Executes a command and answers it.
    pub fn execute_command(&mut self, cmd: Command) -> (result: FlowResult)
        ensures
            old(self).executes(cmd@, *final(self), result_view(result)),
    {
        match cmd {
            Command::Get { key } => self._execute_get_cmd(key),
            Command::SetValue { key, value } => self._execute_set_cmd(key, value),
            Command::Info {  } => self._execute_info_cmd(),
        }
    }

    /// Answers a read that found `found`.
    pub fn reply_to_get(found: Option<Bytes>) -> (flow: RetFlowType)
        ensures
            flow@ == get_reply(found_contents(found)),
    {
        match found {
            Some(res) => {
                let response = Response::Valid { message: res };
                RetFlowType::ReturnResponse { response: response }
            },
            None => {
                let response = Response::Valid { message: Bytes::from("Key not found.") };
                RetFlowType::ReturnResponse { response: response }
            },
        }
    }

    /// Answers a write that the storage engine ended with `stored`.
    pub fn reply_to_set(stored: Result<(), ServerError>) -> (result: FlowResult)
        ensures
            result_view(result) == set_reply(stored),
    {
        match stored {
            Ok(_) => {
                let response = Response::Valid { message: Bytes::from("Ok.") };
                Ok(RetFlowType::ReturnResponse { response: response })
            },
            Err(e) => Err(e),
        }
    }

    /// Executes a read.
    fn _execute_get_cmd(&mut self, key: String) -> (result: FlowResult)
        ensures
            result_view(result) == Ok::<RetFlowView, ServerError>(
                get_reply(lookup(old(self).storage(), key@)),
            ),
            *final(self) == *old(self),
    {
        let found = self.db.get(key.as_str());
        Ok(Server::reply_to_get(found))
    }

    /// Executes a write.
    fn _execute_set_cmd(&mut self, key: String, value: Bytes) -> (result: FlowResult)
        ensures
            result_view(result) == set_reply(Ok(())),
            final(self).storage() == old(self).storage().insert(key@, bytes_contents(value)),
            final(self).server_config == old(self).server_config,
            final(self).machine_info == old(self).machine_info,
            final(self).data_info == old(self).data_info,
    {
        let stored = self.db.set(key.as_str(), value);
        Server::reply_to_set(stored)
    }

    /// Executes a request for information: the configuration, the machine
    /// information and the data statistics add their text to one buffer, in
    /// that order.
    fn _execute_info_cmd(&mut self) -> (result: FlowResult)
        ensures
            result_view(result) == Ok::<RetFlowView, ServerError>(
                valid_reply(
                    info_report(old(self).server_config, old(self).machine_info, old(self).data_info),
                ),
            ),
            *final(self) == *old(self),
    {
        let mut info = BytesMut::from("");
        proof {
            reveal_strlit("");
            vstd::string::is_ascii_spec_bytes("");
            lemma_config_info_len(self.server_config);
        }
        assert(buffer_contents(info) =~= Seq::<u8>::empty());
        info = self.server_config.generate_info(info);
        info = self.machine_info.generate_info(info);
        info = self.data_info.generate_info(info);
        assert(buffer_contents(info) =~= info_report(
            self.server_config,
            self.machine_info,
            self.data_info,
        ));
        let response = Response::Valid { message: info.freeze() };
        let ret_flow = RetFlowType::ReturnResponse { response: response };
        Ok(ret_flow)
    }

    /// Handles a flow routed to the server. Only the execution of a command
    /// is understood: it is executed as `execute_command` executes it. Any
    /// other flow is refused as invalid and changes nothing.
    pub fn handle_flow(&mut self, flow: FlowType) -> (result: FlowResult)
        ensures
            match flow@ {
                FlowView::ExecuteCommand { command } => old(self).executes(
                    command,
                    *final(self),
                    result_view(result),
                ),
                _ => result_view(result) == Err::<RetFlowView, ServerError>(
                    ServerError::InvalidFlow,
                ) && *final(self) == *old(self),
            },
    {
        match flow {
            FlowType::ExecuteCommand { command } => self.execute_command(command),
            _ => Err(ServerError::InvalidFlow),
        }
    }
}

/// A read of a key that was never written is answered with the not-found
/// message: whatever writes led to what the server holds, if none of them
/// went to the key.
pub proof fn law_get_of_unwritten_key_is_not_found(server: Server, writes: Seq<Write>, key: Seq<char>)
    requires
        server.storage() == replay(writes),
        forall|i: int| 0 <= i < writes.len() ==> (#[trigger] writes[i]).0 != key,
    ensures
        server.answer(CommandView::Get { key }) == Ok::<RetFlowView, ServerError>(
            valid_reply(not_found_message()),
        ),
{
    law_unwritten_key_is_absent(writes, key);
}

/// A read that follows a write to the same key is answered with the bytes
/// that were written.
pub proof fn law_get_after_set(before: Server, after: Server, key: Seq<char>, value: Seq<u8>)
    requires
        after.storage() == before.storage_after(CommandView::SetValue { key, value }),
    ensures
        after.answer(CommandView::Get { key }) == Ok::<RetFlowView, ServerError>(valid_reply(value)),
{
}

/// Of two writes to one key the second decides how a read that follows them
/// is answered.
pub proof fn law_get_after_overwrite(
    before: Server,
    between: Server,
    after: Server,
    key: Seq<char>,
    first: Seq<u8>,
    second: Seq<u8>,
)
    requires
        between.storage() == before.storage_after(CommandView::SetValue { key, value: first }),
        after.storage() == between.storage_after(CommandView::SetValue { key, value: second }),
    ensures
        after.answer(CommandView::Get { key }) == Ok::<RetFlowView, ServerError>(valid_reply(second)),
{
}

/// A write leaves the answer to a read of any other key as it was.
pub proof fn law_set_keeps_other_answers(
    before: Server,
    after: Server,
    key: Seq<char>,
    value: Seq<u8>,
    other: Seq<char>,
)
    requires
        after.storage() == before.storage_after(CommandView::SetValue { key, value }),
        other != key,
    ensures
        after.answer(CommandView::Get { key: other }) == before.answer(
            CommandView::Get { key: other },
        ),
{
}

/// The report on a server holds the configured port: it starts with the six
/// bytes of the label, and what follows are the port's decimal digits. The
/// three texts stand in the order configuration, machine, data.
pub proof fn law_report_holds_port(config: ServerConfig, machine: MachineInfo, data: DataInfo)
    ensures
        info_report(config, machine, data) == config.spec_info() + machine.spec_info()
            + data.spec_info(),
        info_report(config, machine, data).subrange(0, 6) == port_label(),
        info_report(config, machine, data).skip(6) == decimal(config.port as nat),
{
    lemma_config_info_len(config);
    let report = info_report(config, machine, data);
    assert(report =~= port_label() + decimal(config.port as nat));
    assert(report.subrange(0, 6) =~= port_label());
    assert(report.skip(6) =~= decimal(config.port as nat));
}

} // verus!
