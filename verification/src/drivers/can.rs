//! CAN bus driver: configuration, validation, and send/receive of
//! standard-ID data frames through a socketcan socket.

use vstd::prelude::*;

use crate::errors::CanError;
use socketcan::{EmbeddedFrame, Socket};

verus! {

/// An open CAN socket of the socketcan crate; opaque to the verifier.
#[verifier::external_type_specification]
#[verifier::external_body]
pub struct ExCanSocket(socketcan::CanSocket);

/// Configuration of a CAN interface.
#[derive(Debug, Clone, PartialEq, Eq)]
pub struct CanConfig {
    /// Interface name, such as "can0".
    pub interface: String,
    /// Bitrate in bit/s; informational, the actual bitrate is set out-of-band.
    pub bitrate: u32,
    /// Sample point position in thousandths (0..=1000 stands for 0.0..=1.0).
    pub sample_point_permille: u16,
    /// Loopback mode for testing.
    pub loopback: bool,
    /// Listen-only mode.
    pub listen_only: bool,
    /// Bus restart delay in milliseconds.
    pub restart_ms: u32,
    /// Per-receive timeout in milliseconds.
    pub timeout_ms: u64,
}

impl CanConfig {
    /// A configuration is valid when the interface is named, the bitrate is
    /// positive, and the sample point lies in [0, 1].
    pub open spec fn valid(&self) -> bool {
        &&& self.interface@.len() > 0
        &&& self.bitrate > 0
        &&& self.sample_point_permille <= 1000
    }

    /// Builds a configuration for the given interface and bitrate, with the
    /// remaining parameters at their defaults.
    pub fn new(interface: &str, bitrate: u32) -> (r: CanConfig)
        ensures
            r.interface@ == interface@,
            r.bitrate == bitrate,
            r.sample_point_permille == 875,
            r.loopback == false,
            r.listen_only == false,
            r.restart_ms == 100,
            r.timeout_ms == 5000,
    {
        let mut c = CanConfig::default();
        c.interface = String::from_str(interface);
        c.bitrate = bitrate;
        c
    }

    /// Checks the configuration before connecting.
    pub fn validate(&self) -> (r: Result<(), CanError>)
        ensures
            r is Ok <==> self.valid(),
            r matches Err(e) ==> e is ConfigError,
    {
        if self.interface.as_str().is_empty() {
            Err(CanError::ConfigError(String::from_str("interface cannot be empty")))
        } else if self.bitrate == 0 {
            Err(CanError::ConfigError(String::from_str("bitrate must be greater than 0")))
        } else if self.sample_point_permille > 1000 {
            Err(CanError::ConfigError(String::from_str("sample point must lie in [0, 1]")))
        } else {
            Ok(())
        }
    }
}

impl Default for CanConfig {
    /// The default configuration: "can0" at 500 kbit/s, 0.875 sample point,
    /// 100 ms restart delay, 5 s receive timeout.
    fn default() -> (r: CanConfig)
        ensures
            r.interface@ == "can0"@,
            r.bitrate == 500000,
            r.sample_point_permille == 875,
            r.loopback == false,
            r.listen_only == false,
            r.restart_ms == 100,
            r.timeout_ms == 5000,
            r.valid(),
    {
        proof {
            reveal_strlit("can0");
        }
        CanConfig {
            interface: String::from_str("can0"),
            bitrate: 500000,
            sample_point_permille: 875,
            loopback: false,
            listen_only: false,
            restart_ms: 100,
            timeout_ms: 5000,
        }
    }
}

/// One received CAN frame, reduced to what the devices read: either a data
/// frame with a standard identifier, or anything else (extended identifier,
/// remote request, error frame).
#[derive(Debug, Clone, PartialEq, Eq)]
pub enum CanRecv {
    Standard { id: u16, data: Vec<u8> },
    Other,
}

/// Relies on socketcan's CanSocket::open to bind a raw CAN socket to the
/// named interface.
#[verifier::external_body]
fn can_open(interface: &str) -> (r: Result<socketcan::CanSocket, CanError>)
    ensures
        r matches Err(e) ==> e is ConnectionFailed,
{
    match <socketcan::CanSocket as socketcan::Socket>::open(interface) {
        Ok(s) => Ok(s),
        Err(e) => Err(CanError::ConnectionFailed(e.to_string())),
    }
}

/// Relies on socketcan's Socket::write_frame_insist to send one data frame,
/// retrying while the kernel asks for a retry. StandardId::new accepts every
/// identifier up to 0x7FF and CanDataFrame::new every payload up to 8 bytes,
/// so the two constructors cannot fail for the admitted inputs.
#[verifier::external_body]
fn can_send(socket: &socketcan::CanSocket, id: u16, data: &[u8]) -> (r: Result<(), CanError>)
    requires
        id <= 0x7FF,
        data@.len() <= 8,
    ensures
        r matches Err(e) ==> e is ProtocolError,
{
    let sid = socketcan::StandardId::new(id).unwrap();
    let frame = socketcan::CanDataFrame::new(sid, data).unwrap();
    match socket.write_frame_insist(&frame) {
        Ok(()) => Ok(()),
        Err(e) => Err(CanError::ProtocolError(e.to_string())),
    }
}

/// Relies on socketcan's Socket::read_frame_timeout to receive one frame
/// within the timeout. A data frame's payload never exceeds 8 bytes and a
/// standard identifier never exceeds 0x7FF; an expired timeout surfaces as
/// a TimedOut or WouldBlock I/O error.
#[verifier::external_body]
fn can_recv(socket: &socketcan::CanSocket, timeout_ms: u64) -> (r: Result<CanRecv, CanError>)
    ensures
        r matches Ok(CanRecv::Standard { id, data }) ==> id <= 0x7FF && data@.len() <= 8,
        r matches Err(e) ==> e is Timeout || e is ProtocolError,
{
    let timeout = std::time::Duration::from_millis(timeout_ms);
    match socket.read_frame_timeout(timeout) {
        Ok(socketcan::CanFrame::Data(f)) => match f.id() {
            socketcan::Id::Standard(sid) => {
                Ok(CanRecv::Standard { id: sid.as_raw(), data: f.data().to_vec() })
            }
            socketcan::Id::Extended(_) => Ok(CanRecv::Other),
        },
        Ok(_) => Ok(CanRecv::Other),
        Err(e) if e.kind() == std::io::ErrorKind::TimedOut => Err(CanError::Timeout),
        Err(e) if e.kind() == std::io::ErrorKind::WouldBlock => Err(CanError::Timeout),
        Err(e) => Err(CanError::ProtocolError(e.to_string())),
    }
}

/// CAN bus driver holding the configuration and, once connected, the socket.
pub struct CanDriver {
    config: CanConfig,
    socket: Option<socketcan::CanSocket>,
}

impl CanDriver {
    /// Whether the driver holds an open socket.
    pub closed spec fn connected(&self) -> bool {
        self.socket is Some
    }

    /// The driver's configuration.
    pub closed spec fn config_spec(&self) -> CanConfig {
        self.config
    }

    /// Builds a driver for the given interface with the default
    /// configuration; does not connect.
    pub fn new(interface: &str) -> (r: CanDriver)
        ensures
            !r.connected(),
            r.config_spec().interface@ == interface@,
            r.config_spec().bitrate == 500000,
    {
        CanDriver::with_config(CanConfig::new(interface, 500000))
    }

    /// Builds a driver with the given configuration; does not connect.
    pub fn with_config(config: CanConfig) -> (r: CanDriver)
        ensures
            !r.connected(),
            r.config_spec() == config,
    {
        CanDriver { config, socket: None }
    }

    /// Validates the configuration and opens the socket. An invalid
    /// configuration is rejected before any socket is touched.
    pub fn connect(&mut self) -> (r: Result<(), CanError>)
        ensures
            final(self).config_spec() == old(self).config_spec(),
            r is Ok ==> final(self).connected(),
            r is Err ==> final(self).connected() == old(self).connected(),
            !old(self).config_spec().valid() ==> (r matches Err(e) && e is ConfigError),
    {
        match self.config.validate() {
            Ok(()) => {}
            Err(e) => {
                return Err(e);
            }
        }
        match can_open(self.config.interface.as_str()) {
            Ok(s) => {
                self.socket = Some(s);
                Ok(())
            }
            Err(e) => Err(e),
        }
    }

    /// Drops the socket, if any.
    pub fn disconnect(&mut self)
        ensures
            !final(self).connected(),
            final(self).config_spec() == old(self).config_spec(),
    {
        self.socket = None;
    }

    /// Whether the driver holds an open socket.
    pub fn is_connected(&self) -> (r: bool)
        ensures
            r == self.connected(),
    {
        self.socket.is_some()
    }

    /// The driver's configuration.
    pub fn config(&self) -> (r: &CanConfig)
        ensures
            r == self.config_spec(),
    {
        &self.config
    }

    /// Sends one standard-ID data frame. A disconnected driver refuses
    /// without side effects; an identifier above 0x7FF or a payload above
    /// 8 bytes is invalid data.
    pub fn send_frame(&self, id: u16, data: &[u8]) -> (r: Result<(), CanError>)
        ensures
            !self.connected() ==> (r matches Err(e) && e is ConnectionFailed),
            self.connected() && (id > 0x7FF || data@.len() > 8) ==> (r matches Err(e)
                && e is InvalidData),
            self.connected() && id <= 0x7FF && data@.len() <= 8 ==> (r matches Err(e)
                ==> e is ProtocolError),
    {
        let socket = match &self.socket {
            Some(s) => s,
            None => {
                return Err(CanError::ConnectionFailed(String::from_str("not connected")));
            }
        };
        if id > 0x7FF {
            return Err(CanError::InvalidData(String::from_str("identifier exceeds 11 bits")));
        }
        if data.len() > 8 {
            return Err(CanError::InvalidData(String::from_str("payload exceeds 8 bytes")));
        }
        can_send(socket, id, data)
    }

    /// Receives one frame, blocking up to the configured timeout. A
    /// disconnected driver refuses without side effects.
    pub fn recv_frame(&self) -> (r: Result<CanRecv, CanError>)
        ensures
            !self.connected() ==> (r matches Err(e) && e is ConnectionFailed),
            r matches Ok(CanRecv::Standard { id, data }) ==> id <= 0x7FF && data@.len() <= 8,
    {
        let socket = match &self.socket {
            Some(s) => s,
            None => {
                return Err(CanError::ConnectionFailed(String::from_str("not connected")));
            }
        };
        can_recv(socket, self.config.timeout_ms)
    }

    /// Receives one frame without blocking: an empty receive queue yields
    /// `None`, distinct from an error.
    pub fn try_recv_frame(&self) -> (r: Result<Option<CanRecv>, CanError>)
        ensures
            !self.connected() ==> (r matches Err(e) && e is ConnectionFailed),
            r matches Ok(Some(CanRecv::Standard { id, data })) ==> id <= 0x7FF && data@.len()
                <= 8,
    {
        let socket = match &self.socket {
            Some(s) => s,
            None => {
                return Err(CanError::ConnectionFailed(String::from_str("not connected")));
            }
        };
        match can_recv(socket, 0) {
            Ok(f) => Ok(Some(f)),
            Err(CanError::Timeout) => Ok(None),
            Err(e) => Err(e),
        }
    }
}

} // verus!
