//! Synchronous Modbus/TCP client: holding and input registers, coils and
//! discrete inputs, with a four-kind error taxonomy.

use vstd::prelude::*;

use crate::errors::ModbusError;
use modbus::Client;

verus! {

/// An open Modbus/TCP transport of the modbus crate; opaque to the verifier.
#[verifier::external_type_specification]
#[verifier::external_body]
pub struct ExTransport(modbus::Transport);

/// The modbus crate's error type; opaque to the verifier.
#[verifier::external_type_specification]
#[verifier::external_body]
pub struct ExModbusCrateError(modbus::Error);

/// Relies on the modbus crate's Error enum: folds each transport error into
/// the client's taxonomy. An expired socket timeout surfaces as a TimedOut
/// or WouldBlock I/O error; other I/O errors mean the connection failed;
/// the crate's InvalidData stays invalid data; everything else is a wire
/// protocol rejection.
#[verifier::external_body]
fn map_transport_error(e: modbus::Error) -> (r: ModbusError)
    ensures
        !(r is ConnectionFailed) ==> r is Timeout || r is ProtocolError || r is InvalidData,
{
    match e {
        modbus::Error::Io(io) if io.kind() == std::io::ErrorKind::TimedOut => ModbusError::Timeout,
        modbus::Error::Io(io) if io.kind() == std::io::ErrorKind::WouldBlock => ModbusError::Timeout,
        modbus::Error::Io(io) => ModbusError::ConnectionFailed(io.to_string()),
        modbus::Error::InvalidData(reason) => ModbusError::InvalidData(format!("{:?}", reason)),
        other => ModbusError::ProtocolError(format!("{:?}", other)),
    }
}

/// Relies on modbus's Transport::new_with_cfg to open a TCP connection to
/// `host` on `port`, with the unit identifier and socket read/write timeouts
/// from the arguments.
#[verifier::external_body]
fn transport_connect(host: &str, port: u16, timeout_ms: u64, unit_id: u8) -> (r: Result<
    modbus::Transport,
    ModbusError,
>)
    ensures
        r matches Err(e) ==> e is ConnectionFailed,
{
    let mut cfg = modbus::Config::default();
    cfg.tcp_port = port;
    cfg.modbus_uid = unit_id;
    cfg.tcp_read_timeout = Some(std::time::Duration::from_millis(timeout_ms));
    cfg.tcp_write_timeout = Some(std::time::Duration::from_millis(timeout_ms));
    match modbus::Transport::new_with_cfg(host, cfg) {
        Ok(t) => Ok(t),
        Err(e) => Err(ModbusError::ConnectionFailed(e.to_string())),
    }
}

/// Relies on modbus's Client::read_holding_registers for Transport: a
/// successful reply carries exactly `count` register words.
#[verifier::external_body]
fn tr_read_holding_registers(t: &mut modbus::Transport, address: u16, count: u16) -> (r: Result<
    Vec<u16>,
    ModbusError,
>)
    ensures
        r matches Ok(v) ==> v@.len() == count,
{
    t.read_holding_registers(address, count).map_err(map_transport_error)
}

/// Relies on modbus's Client::read_input_registers for Transport: a
/// successful reply carries exactly `count` register words.
#[verifier::external_body]
fn tr_read_input_registers(t: &mut modbus::Transport, address: u16, count: u16) -> (r: Result<
    Vec<u16>,
    ModbusError,
>)
    ensures
        r matches Ok(v) ==> v@.len() == count,
{
    t.read_input_registers(address, count).map_err(map_transport_error)
}

/// Relies on modbus's Client::write_single_register for Transport.
#[verifier::external_body]
fn tr_write_single_register(t: &mut modbus::Transport, address: u16, value: u16) -> (r: Result<
    (),
    ModbusError,
>)
{
    t.write_single_register(address, value).map_err(map_transport_error)
}

/// Relies on modbus's Client::write_multiple_registers for Transport.
#[verifier::external_body]
fn tr_write_multiple_registers(t: &mut modbus::Transport, address: u16, values: &[u16]) -> (r:
    Result<(), ModbusError>)
{
    t.write_multiple_registers(address, values).map_err(map_transport_error)
}

/// Relies on modbus's Client::read_coils for Transport: a successful reply
/// carries exactly `count` coil states. Converts each Coil to the bool it
/// stands for.
#[verifier::external_body]
fn tr_read_coils(t: &mut modbus::Transport, address: u16, count: u16) -> (r: Result<
    Vec<bool>,
    ModbusError,
>)
    ensures
        r matches Ok(v) ==> v@.len() == count,
{
    match t.read_coils(address, count) {
        Ok(coils) => Ok(coils.into_iter().map(|c| matches!(c, modbus::Coil::On)).collect()),
        Err(e) => Err(map_transport_error(e)),
    }
}

/// Relies on modbus's Client::read_discrete_inputs for Transport: a
/// successful reply carries exactly `count` input states. Converts each
/// Coil to the bool it stands for.
#[verifier::external_body]
fn tr_read_discrete_inputs(t: &mut modbus::Transport, address: u16, count: u16) -> (r: Result<
    Vec<bool>,
    ModbusError,
>)
    ensures
        r matches Ok(v) ==> v@.len() == count,
{
    match t.read_discrete_inputs(address, count) {
        Ok(coils) => Ok(coils.into_iter().map(|c| matches!(c, modbus::Coil::On)).collect()),
        Err(e) => Err(map_transport_error(e)),
    }
}

/// Relies on modbus's Client::write_single_coil for Transport. Converts the
/// bool to the Coil it stands for.
#[verifier::external_body]
fn tr_write_single_coil(t: &mut modbus::Transport, address: u16, value: bool) -> (r: Result<
    (),
    ModbusError,
>)
{
    t.write_single_coil(address, value.into()).map_err(map_transport_error)
}

/// Relies on modbus's Client::write_multiple_coils for Transport. Converts
/// each bool to the Coil it stands for.
#[verifier::external_body]
fn tr_write_multiple_coils(t: &mut modbus::Transport, address: u16, values: &[bool]) -> (r: Result<
    (),
    ModbusError,
>)
{
    let coils: Vec<modbus::Coil> = values.iter().map(|&v| v.into()).collect();
    t.write_multiple_coils(address, &coils).map_err(map_transport_error)
}

/// Synchronous Modbus/TCP client with lazy connection. Every operation on a
/// disconnected client returns `ConnectionFailed` without side effects.
pub struct ModbusClient {
    host: String,
    port: u16,
    timeout_ms: u64,
    unit_id: u8,
    client: Option<modbus::Transport>,
}

impl ModbusClient {
    /// Whether the client holds an open transport.
    pub closed spec fn connected(&self) -> bool {
        self.client is Some
    }

    /// Builds a client for `host:port` with a 5 s timeout and unit
    /// identifier 1; does not connect.
    pub fn new(host: &str, port: u16) -> (r: ModbusClient)
        ensures
            !r.connected(),
    {
        ModbusClient {
            host: String::from_str(host),
            port,
            timeout_ms: 5000,
            unit_id: 1,
            client: None,
        }
    }

    /// Builds a client with an explicit timeout and unit identifier; does
    /// not connect.
    pub fn with_config(host: &str, port: u16, timeout_ms: u64, unit_id: u8) -> (r: ModbusClient)
        ensures
            !r.connected(),
    {
        ModbusClient { host: String::from_str(host), port, timeout_ms, unit_id, client: None }
    }

    /// Opens the TCP connection.
    pub fn connect(&mut self) -> (r: Result<(), ModbusError>)
        ensures
            r is Ok ==> final(self).connected(),
            r matches Err(e) ==> (e is ConnectionFailed && final(self).connected() == old(
                self,
            ).connected()),
    {
        match transport_connect(self.host.as_str(), self.port, self.timeout_ms, self.unit_id) {
            Ok(t) => {
                self.client = Some(t);
                Ok(())
            }
            Err(e) => Err(e),
        }
    }

    /// Drops the connection, if any.
    pub fn disconnect(&mut self)
        ensures
            !final(self).connected(),
    {
        self.client = None;
    }

    /// Whether the client holds an open transport.
    pub fn is_connected(&self) -> (r: bool)
        ensures
            r == self.connected(),
    {
        self.client.is_some()
    }

    /// Reads `count` holding registers starting at `address`. A successful
    /// read returns exactly `count` register words.
    pub fn read_holding_registers(&mut self, address: u16, count: u16) -> (r: Result<
        Vec<u16>,
        ModbusError,
    >)
        ensures
            final(self).connected() == old(self).connected(),
            !old(self).connected() ==> (r matches Err(e) && e is ConnectionFailed),
            r matches Ok(v) ==> v@.len() == count,
    {
        match &mut self.client {
            Some(t) => tr_read_holding_registers(t, address, count),
            None => Err(ModbusError::ConnectionFailed(String::from_str("not connected"))),
        }
    }

    /// Reads `count` input registers starting at `address`. A successful
    /// read returns exactly `count` register words.
    pub fn read_input_registers(&mut self, address: u16, count: u16) -> (r: Result<
        Vec<u16>,
        ModbusError,
    >)
        ensures
            final(self).connected() == old(self).connected(),
            !old(self).connected() ==> (r matches Err(e) && e is ConnectionFailed),
            r matches Ok(v) ==> v@.len() == count,
    {
        match &mut self.client {
            Some(t) => tr_read_input_registers(t, address, count),
            None => Err(ModbusError::ConnectionFailed(String::from_str("not connected"))),
        }
    }

    /// Writes one holding register.
    pub fn write_single_register(&mut self, address: u16, value: u16) -> (r: Result<
        (),
        ModbusError,
    >)
        ensures
            final(self).connected() == old(self).connected(),
            !old(self).connected() ==> (r matches Err(e) && e is ConnectionFailed),
    {
        match &mut self.client {
            Some(t) => tr_write_single_register(t, address, value),
            None => Err(ModbusError::ConnectionFailed(String::from_str("not connected"))),
        }
    }

    /// Writes a block of holding registers starting at `address`.
    pub fn write_multiple_registers(&mut self, address: u16, values: &[u16]) -> (r: Result<
        (),
        ModbusError,
    >)
        ensures
            final(self).connected() == old(self).connected(),
            !old(self).connected() ==> (r matches Err(e) && e is ConnectionFailed),
    {
        match &mut self.client {
            Some(t) => tr_write_multiple_registers(t, address, values),
            None => Err(ModbusError::ConnectionFailed(String::from_str("not connected"))),
        }
    }

    /// Reads `count` coils starting at `address`. A successful read returns
    /// exactly `count` states.
    pub fn read_coils(&mut self, address: u16, count: u16) -> (r: Result<Vec<bool>, ModbusError>)
        ensures
            final(self).connected() == old(self).connected(),
            !old(self).connected() ==> (r matches Err(e) && e is ConnectionFailed),
            r matches Ok(v) ==> v@.len() == count,
    {
        match &mut self.client {
            Some(t) => tr_read_coils(t, address, count),
            None => Err(ModbusError::ConnectionFailed(String::from_str("not connected"))),
        }
    }

    /// Reads `count` discrete inputs starting at `address`. A successful
    /// read returns exactly `count` states.
    pub fn read_discrete_inputs(&mut self, address: u16, count: u16) -> (r: Result<
        Vec<bool>,
        ModbusError,
    >)
        ensures
            final(self).connected() == old(self).connected(),
            !old(self).connected() ==> (r matches Err(e) && e is ConnectionFailed),
            r matches Ok(v) ==> v@.len() == count,
    {
        match &mut self.client {
            Some(t) => tr_read_discrete_inputs(t, address, count),
            None => Err(ModbusError::ConnectionFailed(String::from_str("not connected"))),
        }
    }

    /// Writes one coil.
    pub fn write_single_coil(&mut self, address: u16, value: bool) -> (r: Result<(), ModbusError>)
        ensures
            final(self).connected() == old(self).connected(),
            !old(self).connected() ==> (r matches Err(e) && e is ConnectionFailed),
    {
        match &mut self.client {
            Some(t) => tr_write_single_coil(t, address, value),
            None => Err(ModbusError::ConnectionFailed(String::from_str("not connected"))),
        }
    }

    /// Writes a block of coils starting at `address`.
    pub fn write_multiple_coils(&mut self, address: u16, values: &[bool]) -> (r: Result<
        (),
        ModbusError,
    >)
        ensures
            final(self).connected() == old(self).connected(),
            !old(self).connected() ==> (r matches Err(e) && e is ConnectionFailed),
    {
        match &mut self.client {
            Some(t) => tr_write_multiple_coils(t, address, values),
            None => Err(ModbusError::ConnectionFailed(String::from_str("not connected"))),
        }
    }
}

/// Facade over the Modbus layer for the health-check surface; it owns no
/// connection of its own and therefore reports none.
pub struct ModbusDriver {}

impl ModbusDriver {
    pub fn new() -> (r: ModbusDriver) {
        ModbusDriver {  }
    }

    /// The facade holds no connection, so this is always false.
    pub fn is_connected(&self) -> (r: bool)
        ensures
            r == false,
    {
        false
    }
}

} // verus!
