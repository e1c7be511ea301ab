//! Configuration value types shared by the gateway services.
//!
//! Serial parameters are plain enums and integers so that the transport logic
//! can inspect them; durations are carried as integer milliseconds or seconds.

use vstd::prelude::*;

verus! {

/// Number of data bits per serial character.
#[derive(Clone, Copy, Debug, PartialEq, Eq, Structural)]
pub enum DataBits {
    Five,
    Six,
    Seven,
    Eight,
}

/// Number of stop bits per serial character.
#[derive(Clone, Copy, Debug, PartialEq, Eq, Structural)]
pub enum StopBits {
    One,
    Two,
}

/// Parity checking mode of a serial line.
#[derive(Clone, Copy, Debug, PartialEq, Eq, Structural)]
pub enum Parity {
    Off,
    Odd,
    Even,
}

/// Flow-control mode of a serial line.
#[derive(Clone, Copy, Debug, PartialEq, Eq, Structural)]
pub enum FlowControl {
    Off,
    Software,
    Hardware,
}

/// Settings of one physical serial port. The path identifies the port and is
/// the key under which a group stores its member links; a zero timeout means
/// writes on this port never wait for an acknowledgement.
#[derive(Debug)]
pub struct SerialPortConfig {
    pub path: String,
    pub baud_rate: u32,
    pub data_bits: DataBits,
    pub stop_bits: StopBits,
    pub parity: Parity,
    pub flow_control: FlowControl,
    pub timeout_ms: u64,
}

impl Clone for SerialPortConfig {
    fn clone(&self) -> (r: Self)
        ensures
            r == *self,
    {
        SerialPortConfig {
            path: self.path.clone(),
            baud_rate: self.baud_rate,
            data_bits: self.data_bits,
            stop_bits: self.stop_bits,
            parity: self.parity,
            flow_control: self.flow_control,
            timeout_ms: self.timeout_ms,
        }
    }
}

/// A member link takes part in acknowledgement waits only when its
/// configured timeout window is nonzero.
pub open spec fn spec_requires_ack(c: SerialPortConfig) -> bool {
    c.timeout_ms > 0
}

impl SerialPortConfig {
    /// Whether writes on a port with this config wait for an acknowledgement.
    pub fn requires_ack(&self) -> (r: bool)
        ensures
            r == spec_requires_ack(*self),
    {
        self.timeout_ms > 0
    }
}

/// Connection string of the relational database.
#[derive(Clone, Debug)]
pub struct DatabaseConfig {
    pub url: String,
}

/// Bind address of the HTTP server.
#[derive(Clone, Debug)]
pub struct WebConfig {
    pub host: String,
    pub port: u16,
}

/// Bind address and limits of the WebSocket server.
#[derive(Clone, Debug)]
pub struct WebSocketConfig {
    pub host: String,
    pub port: u16,
    pub max_connections: u32,
    pub heartbeat_interval_ms: u64,
}

/// Token signing secret and lifetime.
#[derive(Clone, Debug)]
pub struct JwtConfig {
    pub secret: String,
    pub expires_in_secs: u64,
}

/// Address of one Modbus/TCP endpoint.
#[derive(Clone, Debug)]
pub struct ModbusTCPConfig {
    pub host: String,
    pub port: u16,
}

/// Serial parameters of one Modbus/RTU endpoint.
#[derive(Clone, Debug)]
pub struct ModbusRTUConfig {
    pub path: String,
    pub baud_rate: u32,
    pub data_bits: DataBits,
    pub stop_bits: StopBits,
    pub parity: Parity,
    pub flow_control: FlowControl,
    pub timeout_ms: u64,
}

/// Delivery guarantee of an MQTT subscription.
#[derive(Clone, Copy, Debug, PartialEq, Eq, Structural)]
pub enum QoS {
    AtMostOnce,
    AtLeastOnce,
    ExactlyOnce,
}

/// One MQTT topic subscription.
#[derive(Clone, Debug)]
pub struct MqttTopic {
    pub topic: String,
    pub qos: QoS,
}

/// Connection settings of one MQTT broker.
#[derive(Clone, Debug)]
pub struct MqttConfig {
    pub host: String,
    pub port: u16,
    pub username: String,
    pub password: String,
    pub client_id: String,
    pub topic: Vec<MqttTopic>,
    pub keep_alive_secs: u64,
}

/// Platform settings: whether to accept time pushed by clients, and where the
/// real-time-clock chip sits on the I2C bus.
#[derive(Clone, Debug)]
pub struct Sys {
    pub sync_time_from_client: bool,
    pub rtc_i2c_dev: String,
    pub rtc_i2c_addr: u32,
}

impl Default for Sys {
    /// The stock platform: no client time sync, RTC at 0x68 on /dev/i2c-1.
    fn default() -> (r: Self)
        ensures
            !r.sync_time_from_client,
            r.rtc_i2c_dev@ == "/dev/i2c-1"@,
            r.rtc_i2c_addr == 0x68,
    {
        Sys {
            sync_time_from_client: false,
            rtc_i2c_dev: String::from_str("/dev/i2c-1"),
            rtc_i2c_addr: 0x68,
        }
    }
}

/// The whole configuration file of one gateway instance.
#[derive(Clone, Debug)]
pub struct ServerConfig {
    pub database: DatabaseConfig,
    pub web: WebConfig,
    pub jwt: JwtConfig,
    pub web_socket: WebSocketConfig,
    pub modbus_tcp: Vec<ModbusTCPConfig>,
    pub modbus_rtu: Vec<ModbusRTUConfig>,
    pub serialport: Vec<SerialPortConfig>,
    pub mqtt: Vec<MqttConfig>,
    pub sys: Sys,
}

} // verus!
