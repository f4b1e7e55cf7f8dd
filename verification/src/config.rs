use vstd::prelude::*;

verus! {

/// A size limit as a listener gives it: `Unlimited` lifts the limit.
#[derive(Debug, Clone, Copy, PartialEq, Eq)]
pub enum Max {
    Unlimited,
    Number(usize),
}

impl Max {
    /// The limit this stands for; no value means no limit.
    pub open spec fn limit(self) -> Option<usize> {
        match self {
            Max::Unlimited => Option::None,
            Max::Number(n) => Option::Some(n),
        }
    }

    /// The limit this stands for; no value means no limit.
    pub fn to_limit(&self) -> (l: Option<usize>)
        ensures
            l == self.limit(),
    {
        match self {
            Max::Unlimited => Option::None,
            Max::Number(n) => Option::Some(*n),
        }
    }
}

/// The settings a listener may give for a client connection. An absent
/// setting keeps the socket's default.
#[derive(Debug, Clone, PartialEq, Eq)]
pub struct ConnectionConfig {
    pub read_buffer_size: Option<usize>,
    pub write_buffer_size: Option<usize>,
    pub max_write_buffer_size: Option<usize>,
    pub max_message_size: Option<Max>,
    pub max_frame_size: Option<Max>,
    pub accept_unmasked_frames: bool,
    /// Extra request headers, as name and value.
    pub headers: Option<Vec<(String, String)>>,
}

/// The settings of a WebSocket, field for field as `tungstenite`'s
/// `WebSocketConfig` holds them.
#[derive(Debug, Clone, Copy, PartialEq, Eq)]
pub struct SocketConfig {
    pub read_buffer_size: usize,
    pub write_buffer_size: usize,
    pub max_write_buffer_size: usize,
    pub max_message_size: Option<usize>,
    pub max_frame_size: Option<usize>,
    pub accept_unmasked_frames: bool,
}

/// The default socket settings of `tungstenite`: read and write buffers of
/// 128 KiB, an unlimited write buffer, messages up to 64 MiB, frames up to
/// 16 MiB, and masked frames required.
pub open spec fn default_settings() -> SocketConfig {
    SocketConfig {
        read_buffer_size: 131072,
        write_buffer_size: 131072,
        max_write_buffer_size: usize::MAX,
        max_message_size: Some(67108864),
        max_frame_size: Some(16777216),
        accept_unmasked_frames: false,
    }
}

/// Reads the fields of `tungstenite::protocol::WebSocketConfig::default()`;
/// its documentation and source give the values of `default_settings`.
#[verifier::external_body]
fn default_socket_config() -> (c: SocketConfig)
    ensures
        c == default_settings(),
{
    let d = tokio_tungstenite::tungstenite::protocol::WebSocketConfig::default();
    SocketConfig {
        read_buffer_size: d.read_buffer_size,
        write_buffer_size: d.write_buffer_size,
        max_write_buffer_size: d.max_write_buffer_size,
        max_message_size: d.max_message_size,
        max_frame_size: d.max_frame_size,
        accept_unmasked_frames: d.accept_unmasked_frames,
    }
}

/// The value a setting takes: the given one, or else the default.
pub open spec fn setting_or<T>(given: Option<T>, default: T) -> T {
    match given {
        Some(v) => v,
        None => default,
    }
}

/// The limit a setting takes: the given one, or else the default.
pub open spec fn limit_or(given: Option<Max>, default: Option<usize>) -> Option<usize> {
    match given {
        Some(m) => m.limit(),
        None => default,
    }
}

impl ConnectionConfig {
    /// The socket settings this configuration asks for, starting from `base`.
    pub open spec fn applied_to(self, base: SocketConfig) -> SocketConfig {
        SocketConfig {
            read_buffer_size: setting_or(self.read_buffer_size, base.read_buffer_size),
            write_buffer_size: setting_or(self.write_buffer_size, base.write_buffer_size),
            max_write_buffer_size: setting_or(
                self.max_write_buffer_size,
                base.max_write_buffer_size,
            ),
            max_message_size: limit_or(self.max_message_size, base.max_message_size),
            max_frame_size: limit_or(self.max_frame_size, base.max_frame_size),
            accept_unmasked_frames: self.accept_unmasked_frames,
        }
    }

    /// The socket settings for a connection made with this configuration:
    /// every given setting replaces the socket's default, and the unmasked
    /// frames flag is always taken from the configuration. Each setter of
    /// `WebSocketConfig` sets one field and nothing else, so the settings are
    /// applied here by assigning the fields of the plain `SocketConfig`.
    pub fn websocket_config(&self) -> (c: SocketConfig)
        ensures
            c == self.applied_to(default_settings()),
            c.read_buffer_size == (match self.read_buffer_size {
                Some(n) => n,
                None => 131072usize,
            }),
            c.write_buffer_size == (match self.write_buffer_size {
                Some(n) => n,
                None => 131072usize,
            }),
            c.max_write_buffer_size == (match self.max_write_buffer_size {
                Some(n) => n,
                None => usize::MAX,
            }),
            c.max_message_size == (match self.max_message_size {
                Some(Max::Unlimited) => None,
                Some(Max::Number(n)) => Some(n),
                None => Some(67108864usize),
            }),
            c.max_frame_size == (match self.max_frame_size {
                Some(Max::Unlimited) => None,
                Some(Max::Number(n)) => Some(n),
                None => Some(16777216usize),
            }),
            c.accept_unmasked_frames == self.accept_unmasked_frames,
    {
        let mut builder = default_socket_config();
        builder.accept_unmasked_frames = self.accept_unmasked_frames;
        if let Some(read_buffer_size) = self.read_buffer_size {
            builder.read_buffer_size = read_buffer_size;
        }
        if let Some(write_buffer_size) = self.write_buffer_size {
            builder.write_buffer_size = write_buffer_size;
        }
        if let Some(max_write_buffer_size) = self.max_write_buffer_size {
            builder.max_write_buffer_size = max_write_buffer_size;
        }
        if let Some(max_message_size) = &self.max_message_size {
            builder.max_message_size = max_message_size.to_limit();
        }
        if let Some(max_frame_size) = &self.max_frame_size {
            builder.max_frame_size = max_frame_size.to_limit();
        }
        builder
    }
}

/// A configuration that sets nothing leaves every socket setting at its
/// base value, except the unmasked frames flag, which it always gives.
pub proof fn lemma_unset_config_keeps_base(config: ConnectionConfig, base: SocketConfig)
    requires
        config.read_buffer_size is None,
        config.write_buffer_size is None,
        config.max_write_buffer_size is None,
        config.max_message_size is None,
        config.max_frame_size is None,
    ensures
        config.applied_to(base) == (SocketConfig {
            accept_unmasked_frames: config.accept_unmasked_frames,
            ..base
        }),
{
}

/// Each socket setting is its own field of the configuration when that
/// field is given, and otherwise the socket's default, whatever the other
/// fields hold: buffers of 131072 bytes, an unlimited write buffer, messages
/// up to 67108864 bytes and frames up to 16777216 bytes; `Unlimited` lifts a
/// limit, and the unmasked frames flag is the configuration's own.
pub proof fn lemma_each_setting_from_its_field(config: ConnectionConfig)
    ensures
        ({
            let c = config.applied_to(default_settings());
            &&& c.read_buffer_size == (match config.read_buffer_size {
                Some(n) => n,
                None => 131072usize,
            })
            &&& c.write_buffer_size == (match config.write_buffer_size {
                Some(n) => n,
                None => 131072usize,
            })
            &&& c.max_write_buffer_size == (match config.max_write_buffer_size {
                Some(n) => n,
                None => usize::MAX,
            })
            &&& c.max_message_size == (match config.max_message_size {
                Some(Max::Unlimited) => None,
                Some(Max::Number(n)) => Some(n),
                None => Some(67108864usize),
            })
            &&& c.max_frame_size == (match config.max_frame_size {
                Some(Max::Unlimited) => None,
                Some(Max::Number(n)) => Some(n),
                None => Some(16777216usize),
            })
            &&& c.accept_unmasked_frames == config.accept_unmasked_frames
        }),
{
}

} // verus!
