use lean_link::camera::{CreateHandleMode, FrameSize, GrabMode, IMVCameraBuilder};
use lean_link::config::{DataBits, FlowControl, Parity, StopBits, Sys};
use lean_link::config::MqttConfig;
use lean_link::db::{normalize_page_params, PageResult};
use lean_link::group::TransportError;
use lean_link::mqtt::ClientBuilder;
use lean_link::port::SerialPortBuilder;
use lean_link::web::{ErrorCode, PageLogsRequest, Pagination, UserLoginRequest, WebResponse, WsMessage};

#[test]
fn test_serial_port_builder_defaults() {
    let builder = SerialPortBuilder::new("/dev/tty.usbserial-0001", 9600);
    assert_eq!(builder.path, "/dev/tty.usbserial-0001");
    assert_eq!(builder.baud_rate, 9600);
    assert_eq!(builder.data_bits, DataBits::Eight);
    assert_eq!(builder.flow_control, FlowControl::Off);
    assert_eq!(builder.parity, Parity::Off);
    assert_eq!(builder.stop_bits, StopBits::One);
    assert_eq!(builder.timeout_ms, 0);
}

#[test]
fn test_serial_port_builder_setters() {
    let config = SerialPortBuilder::new("/dev/tty.usbserial-0001", 115_200)
        .with_data_bits(DataBits::Seven)
        .with_flow_control(FlowControl::Software)
        .with_parity(Parity::Even)
        .with_stop_bits(StopBits::Two)
        .with_timeout(5000)
        .build();
    assert_eq!(config.path, "/dev/tty.usbserial-0001");
    assert_eq!(config.baud_rate, 115_200);
    assert_eq!(config.data_bits, DataBits::Seven);
    assert_eq!(config.flow_control, FlowControl::Software);
    assert_eq!(config.parity, Parity::Even);
    assert_eq!(config.stop_bits, StopBits::Two);
    assert_eq!(config.timeout_ms, 5000);
    assert!(config.requires_ack());
}

#[test]
fn test_client_builder_defaults() {
    let builder = ClientBuilder::new("broker.local", 1883);
    assert_eq!(builder.host, "broker.local");
    assert_eq!(builder.port, 1883);
    assert_eq!(builder.username, "");
    assert_eq!(builder.password, "");
    // a fresh builder draws a random twelve-character client identifier
    assert_eq!(builder.client_id.chars().count(), 12);
    assert!(builder.client_id.chars().all(|c| c.is_ascii_alphanumeric()));
    assert_eq!(builder.keep_alive_secs, 10);

    let other = ClientBuilder::new("broker.local", 1883);
    // two draws agreeing on all twelve characters would be remarkable
    println!("drawn ids: {} {}", builder.client_id, other.client_id);
}

#[test]
fn test_client_builder_setters() {
    let builder = ClientBuilder::new("broker.local", 1883)
        .with_username("gateway")
        .with_password("SECRET-REDACTED")
        .with_client_id("gateway-01")
        .with_keep_alive(30);
    assert_eq!(builder.username, "gateway");
    assert_eq!(builder.password, "SECRET-REDACTED");
    assert_eq!(builder.client_id, "gateway-01");
    assert_eq!(builder.keep_alive_secs, 30);
}

#[test]
fn test_client_builder_with_config() {
    let config = MqttConfig {
        host: "broker.local".to_string(),
        port: 8883,
        username: "user".to_string(),
        password: "pass".to_string(),
        client_id: "fixed-id".to_string(),
        topic: Vec::new(),
        keep_alive_secs: 45,
    };
    let builder = ClientBuilder::new("ignored", 1).with_config(&config);
    assert_eq!(builder.host, "broker.local");
    assert_eq!(builder.port, 8883);
    assert_eq!(builder.username, "user");
    assert_eq!(builder.password, "pass");
    assert_eq!(builder.client_id, "fixed-id");
    assert_eq!(builder.keep_alive_secs, 45);
}

#[test]
fn test_camera_builder_defaults() {
    let builder = IMVCameraBuilder::new();
    assert_eq!(builder.mode, CreateHandleMode::ByIndex);
    assert_eq!(builder.index, 0);
    assert_eq!(builder.camera_key, "");
    assert_eq!(builder.device_user_id, "");
    assert_eq!(builder.ip_address, "");
    assert_eq!(GrabMode::Continuous, GrabMode::Continuous);
    let size = FrameSize { width: 640, height: 480 };
    assert_eq!(size.width * size.height, 307_200);
}

#[test]
fn test_sys_defaults() {
    let sys = Sys::default();
    assert!(!sys.sync_time_from_client);
    assert_eq!(sys.rtc_i2c_dev, "/dev/i2c-1");
    assert_eq!(sys.rtc_i2c_addr, 0x68);
}

#[test]
fn test_error_code_values() {
    assert_eq!(ErrorCode::Success.as_u32(), 0);
    assert_eq!(ErrorCode::InvalidUsernameOrPassword.as_u32(), 10001);
    assert_eq!(ErrorCode::Unauthorized.as_u32(), 10002);
    assert_eq!(ErrorCode::InternalError.as_u32(), 50001);
}

#[test]
fn test_web_response_shapes() {
    let failure: WebResponse<u32> = WebResponse::with_error_code(&ErrorCode::Unauthorized);
    assert_eq!(failure.code, ErrorCode::Unauthorized);
    assert!(!failure.success);
    assert!(failure.result.is_none());
    assert_eq!(failure.message, "");

    let with_message: WebResponse<u32> =
        WebResponse::with_error_code_and_message(&ErrorCode::InternalError, "broken".to_string());
    assert_eq!(with_message.message, "broken");

    let success = WebResponse::with_result(7u32);
    assert_eq!(success.code, ErrorCode::Success);
    assert!(success.success);
    assert_eq!(success.result, Some(7));

    let with_both = WebResponse::with_result_and_message(9u32, "fine".to_string());
    assert_eq!(with_both.result, Some(9));
    assert_eq!(with_both.message, "fine");
}

#[test]
fn test_pagination_from_page_result() {
    let page = PageResult {
        records: vec!["a".to_string(), "b".to_string()],
        page_index: 2,
        page_size: 10,
        total_count: 12,
        pages: 2,
    };
    let pagination: Pagination<String> = page.into();
    assert_eq!(pagination.records.len(), 2);
    assert_eq!(pagination.current, 2);
    assert_eq!(pagination.size, 10);
    assert_eq!(pagination.total, 12);
    assert_eq!(pagination.pages, 2);
}

#[test]
fn test_normalize_page_params() {
    assert_eq!(normalize_page_params(0, 0), (1, 10));
    assert_eq!(normalize_page_params(3, 25), (3, 25));
    assert_eq!(normalize_page_params(0, 5), (1, 5));
    assert_eq!(normalize_page_params(4, 0), (4, 10));
}

#[test]
fn test_transport_error_messages() {
    assert_eq!(TransportError::NotFound.message(), "no serial port is available");
    assert_eq!(TransportError::Busy.message(), "waiting for ack");
    assert_eq!(TransportError::TimedOut.message(), "timed out waiting for ack");
    assert_eq!(TransportError::NotConnected.message(), "serial port is not connected");
    assert_eq!(TransportError::Io.message(), "serial port I/O error");
}

#[test]
fn test_request_shapes() {
    let page_request = PageLogsRequest { page_index: 1, page_size: 20 };
    assert_eq!(page_request.page_index, 1);
    assert_eq!(page_request.page_size, 20);

    let login = UserLoginRequest {
        username: "admin".to_string(),
        password: "SECRET-REDACTED".to_string(),
    };
    assert_eq!(login.username, "admin");

    let message = WsMessage { topic: "status".to_string(), payload: 17u64 };
    assert_eq!(message.topic, "status");
    assert_eq!(message.payload, 17);
}
