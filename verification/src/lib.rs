//! Connection and server bookkeeping for a WebSocket bridge: message
//! conversion, connection settings, client request preparation, the
//! registries of servers and server-side connections, the decisions of a
//! connection's read loop, and the replies of the bridge's commands.

mod builder;
mod client;
mod command;
mod config;
mod decimal;
mod handler;
mod manager;
mod message;
mod types;

pub use builder::Builder;
pub use client::{
    accepts_client_url, client_request, client_url_request, fits_header_map, handshake_names,
    header_fault, header_key, header_names, header_texts, is_handshake_headers, lemma_requested_headers_are_configured, is_header_name,
    is_header_value, is_token_char, lower_char, pair_valid, request_headers, request_method,
    request_target, requested_headers, with_headers, HeaderFault,
};
pub use command::{
    failure_reply, new_server, send_server_conn_reply, stop_server, subscribe_server,
};
pub use config::{
    default_settings, lemma_each_setting_from_its_field, lemma_unset_config_keeps_base, limit_or, setting_or, ConnectionConfig, Max,
    SocketConfig,
};
pub use decimal::{append_decimal, decimal, digit_char};
pub use handler::{
    action_on, expects, lemma_finish_after_removal, lemma_no_read_after_close,
    lemma_read_after_publish, lemma_read_message_published, next_phase, read_failure_report, server_step, winding_down,
    ConnectionHandler, HandlerAction, HandlerEvent, Phase, ReadEvent, ServerAction, ServerEvent,
};
pub use manager::{
    disconnection, id_after, id_after_n, kept, lemma_added_server_stops, lemma_all_delivered_kept,
    lemma_failed_subscriber_dropped, lemma_ids_distinct, lemma_kept_len, lemma_next_id_differs,
    lemma_no_subscription_after_removal, lemma_other_servers_kept, lemma_remove_unknown_server,
    lemma_removed_at_most_once, lemma_stopped_at_most_once, lemma_successive_ids_distinct, removal, subscription,
    ServerConnectionManager, ServerManager, StopReceiver,
};
pub use message::{
    lemma_conversion_keeps_contents, lemma_message_round_trip, lemma_wire_round_trip, message_of_wire, wire_of_message, CloseFrame,
    WebSocketMessage, WireMessage,
};
pub use types::{Error, Id};
