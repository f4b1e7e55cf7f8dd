use tauri_plugin_websocket::{ConnectionConfig, Max, SocketConfig};

fn empty_config() -> ConnectionConfig {
    ConnectionConfig {
        read_buffer_size: None,
        write_buffer_size: None,
        max_write_buffer_size: None,
        max_message_size: None,
        max_frame_size: None,
        accept_unmasked_frames: false,
        headers: None,
    }
}

#[test]
fn defaults_of_the_socket() {
    assert_eq!(
        empty_config().websocket_config(),
        SocketConfig {
            read_buffer_size: 128 * 1024,
            write_buffer_size: 128 * 1024,
            max_write_buffer_size: usize::MAX,
            max_message_size: Some(64 << 20),
            max_frame_size: Some(16 << 20),
            accept_unmasked_frames: false,
        }
    );
}

#[test]
fn unmasked_frames_flag_is_taken() {
    let mut config = empty_config();
    config.accept_unmasked_frames = true;
    let c = config.websocket_config();
    assert!(c.accept_unmasked_frames);
    assert_eq!(c.read_buffer_size, 128 * 1024);
}

#[test]
fn given_settings_replace_defaults() {
    let config = ConnectionConfig {
        read_buffer_size: Some(1024),
        write_buffer_size: Some(2048),
        max_write_buffer_size: Some(4096),
        max_message_size: Some(Max::Number(10)),
        max_frame_size: Some(Max::Unlimited),
        accept_unmasked_frames: true,
        headers: None,
    };
    assert_eq!(
        config.websocket_config(),
        SocketConfig {
            read_buffer_size: 1024,
            write_buffer_size: 2048,
            max_write_buffer_size: 4096,
            max_message_size: Some(10),
            max_frame_size: None,
            accept_unmasked_frames: true,
        }
    );
}

#[test]
fn unlimited_message_size() {
    let mut config = empty_config();
    config.max_message_size = Some(Max::Unlimited);
    let c = config.websocket_config();
    assert_eq!(c.max_message_size, None);
    assert_eq!(c.max_frame_size, Some(16 << 20));
}

#[test]
fn max_limits() {
    assert_eq!(Max::Unlimited.to_limit(), None);
    assert_eq!(Max::Number(5).to_limit(), Some(5));
}
