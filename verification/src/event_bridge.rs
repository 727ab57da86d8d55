//! The bridge through which notification messages arrive: the shape of a
//! decoded message, its conversion to a notification, and the health of the
//! connection.

use crate::notification::{
    is_generated_id, kind_named, Notification, NotificationBuilder, NotificationType, Priority,
    DEFAULT_TTL_MS,
};
use crate::text::{lowercase, push_text, same_text, to_lowercase};
use vstd::prelude::*;

verus! {

/// State of the connection to the sender of notifications.
#[derive(Debug, Clone, PartialEq)]
pub enum ConnectionState {
    /// Not connected.
    Disconnected,
    /// Connecting.
    Connecting,
    /// Connected and receiving.
    Connected,
    /// Failed, with the reason.
    Error(String),
}

impl Default for ConnectionState {
    fn default() -> (state: ConnectionState)
        ensures
            state is Disconnected,
    {
        ConnectionState::Disconnected
    }
}

/// A notification message as decoded from the wire. Every field may be
/// missing.
#[derive(Debug)]
pub struct NotificationMessage {
    /// Version of the protocol.
    pub version: Option<String>,
    /// Kind of the notification, by name.
    pub notification_type: Option<String>,
    /// The message.
    pub message: Option<String>,
    /// The title.
    pub title: Option<String>,
    /// Who sent it.
    pub source: Option<String>,
    /// The pane addressed.
    pub pane_id: Option<u32>,
    /// The tab addressed.
    pub tab_index: Option<usize>,
    /// Priority, by name.
    pub priority: Option<String>,
    /// Time of creation in milliseconds.
    pub timestamp: Option<u64>,
    /// Time-to-live in milliseconds.
    pub ttl_ms: Option<u64>,
    /// The command that triggered the notification.
    pub command: Option<String>,
    /// Its exit code.
    pub exit_code: Option<i32>,
    /// Its duration in milliseconds.
    pub duration_ms: Option<u64>,
}

/// What can go wrong at the bridge.
#[derive(Debug, Clone)]
pub enum EventBridgeError {
    /// The message could not be decoded.
    ParseError(String),
    /// The connection failed.
    ConnectionError(String),
    /// The sender speaks another version of the protocol.
    VersionMismatch(String),
    /// The message has the wrong shape.
    InvalidFormat(String),
}

impl EventBridgeError {
    /// The error in words: what kind it is, a colon, and its detail.
    pub open spec fn text(self) -> Seq<char> {
        match self {
            EventBridgeError::ParseError(e) => "Parse error: "@ + e@,
            EventBridgeError::ConnectionError(e) => "Connection error: "@ + e@,
            EventBridgeError::VersionMismatch(e) => "Version mismatch: "@ + e@,
            EventBridgeError::InvalidFormat(e) => "Invalid format: "@ + e@,
        }
    }

    /// The error in words.
    pub fn describe(&self) -> (text: String)
        ensures
            text@ == self.text(),
    {
        let mut text = String::new();
        match self {
            EventBridgeError::ParseError(e) => {
                push_text(&mut text, "Parse error: ");
                push_text(&mut text, e.as_str());
            },
            EventBridgeError::ConnectionError(e) => {
                push_text(&mut text, "Connection error: ");
                push_text(&mut text, e.as_str());
            },
            EventBridgeError::VersionMismatch(e) => {
                push_text(&mut text, "Version mismatch: ");
                push_text(&mut text, e.as_str());
            },
            EventBridgeError::InvalidFormat(e) => {
                push_text(&mut text, "Invalid format: ");
                push_text(&mut text, e.as_str());
            },
        }
        assert(text@ =~= self.text());
        text
    }
}

/// Health of the bridge, for observation.
#[derive(Debug, Clone)]
pub struct EventBridgeHealth {
    /// Whether the bridge is connected.
    pub connected: bool,
    /// Errors since the last success.
    pub error_count: u32,
    /// Timestamp of the last message.
    pub last_message_timestamp: u64,
    /// Version of the protocol spoken.
    pub protocol_version: String,
}

/// The text of an optional string, or `default` where it is missing.
pub open spec fn text_or(text: Option<String>, default: Seq<char>) -> Seq<char> {
    match text {
        Some(t) => t@,
        None => default,
    }
}

/// The priority that a lower-case name denotes, if it names one.
pub open spec fn priority_named(name: Seq<char>) -> Option<Priority> {
    if name == "low"@ {
        Some(Priority::Low)
    } else if name == "normal"@ {
        Some(Priority::Normal)
    } else if name == "high"@ {
        Some(Priority::High)
    } else if name == "critical"@ {
        Some(Priority::Critical)
    } else {
        None
    }
}

impl NotificationMessage {
    /// The kind of the notification: the kind named, or a request for
    /// attention where none is named.
    pub open spec fn kind(self) -> NotificationType {
        match self.notification_type {
            Some(name) => kind_named(lowercase(name@)),
            None => NotificationType::Attention,
        }
    }

    /// The priority of the notification: the priority named, or the default
    /// of its kind where none is named or the name is unknown.
    pub open spec fn resolved_priority(self) -> Priority {
        match self.priority {
            Some(name) => match priority_named(lowercase(name@)) {
                Some(priority) => priority,
                None => self.kind().default_priority(),
            },
            None => self.kind().default_priority(),
        }
    }

    /// Whether `n` is the notification that this message stands for.
    /// Missing fields take their defaults; command, exit code and duration
    /// are not carried over.
    pub open spec fn converts_to(self, n: Notification) -> bool {
        &&& is_generated_id(n.id@)
        &&& n.notification_type == self.kind()
        &&& n.message@ == text_or(self.message, "Waiting for input..."@)
        &&& n.title matches Some(title) && title@ == text_or(self.title, "Notification"@)
        &&& n.pane_id == self.pane_id
        &&& n.tab_index == self.tab_index
        &&& n.priority == self.resolved_priority()
        &&& n.timestamp == (match self.timestamp {
            Some(t) => t,
            None => 0,
        })
        &&& n.ttl_ms == (match self.ttl_ms {
            Some(t) => t,
            None => DEFAULT_TTL_MS,
        })
        &&& n.source@ == text_or(self.source, "notifications"@)
        &&& n.metadata.is_blank()
    }
}

/// Reads a priority from its lower-case name.
pub fn priority_from_name(name: &str) -> (priority: Option<Priority>)
    ensures
        priority == priority_named(name@),
{
    if same_text(name, "low") {
        Some(Priority::Low)
    } else if same_text(name, "normal") {
        Some(Priority::Normal)
    } else if same_text(name, "high") {
        Some(Priority::High)
    } else if same_text(name, "critical") {
        Some(Priority::Critical)
    } else {
        None
    }
}

/// Number of errors in a row after which a new bridge counts as failed.
pub const MAX_ERRORS: u32 = 5;

/// Receives notification messages and keeps track of the connection.
#[derive(Debug)]
pub struct EventBridge {
    connection_state: ConnectionState,
    protocol_version: String,
    last_message_timestamp: u64,
    error_count: u32,
    max_errors: u32,
}

impl EventBridge {
    /// State of the connection.
    pub closed spec fn state(&self) -> ConnectionState {
        self.connection_state
    }

    /// Version of the protocol spoken.
    pub closed spec fn version(&self) -> Seq<char> {
        self.protocol_version@
    }

    /// Timestamp of the last message.
    pub closed spec fn last_seen(&self) -> u64 {
        self.last_message_timestamp
    }

    /// Errors since the last success.
    pub closed spec fn errors(&self) -> u32 {
        self.error_count
    }

    /// Errors in a row after which the bridge counts as failed.
    pub closed spec fn error_limit(&self) -> u32 {
        self.max_errors
    }

    /// Whether `after` is this bridge after one more error with the given
    /// reason: the error is counted, and at the limit the bridge fails with
    /// the reason.
    pub open spec fn fails_into(&self, after: EventBridge, reason: Seq<char>) -> bool {
        &&& after.errors() == self.errors() + 1
        &&& after.error_limit() == self.error_limit()
        &&& after.version() == self.version()
        &&& after.last_seen() == self.last_seen()
        &&& if self.errors() + 1 >= self.error_limit() {
            after.state() matches ConnectionState::Error(r) && r@ == reason
        } else {
            after.state() == self.state()
        }
    }

    /// Whether `after` is this bridge after a message was received at the
    /// given time: connected, with no errors counted.
    pub open spec fn succeeds_into(&self, after: EventBridge, timestamp: u64) -> bool {
        &&& after.state() is Connected
        &&& after.errors() == 0
        &&& after.error_limit() == self.error_limit()
        &&& after.version() == self.version()
        &&& after.last_seen() == timestamp
    }

    /// A bridge that is not connected, speaks version 1.0 and fails after
    /// five errors in a row.
    pub fn new() -> (bridge: EventBridge)
        ensures
            bridge.state() is Disconnected,
            bridge.version() == "1.0"@,
            bridge.last_seen() == 0,
            bridge.errors() == 0,
            bridge.error_limit() == MAX_ERRORS,
    {
        EventBridge {
            connection_state: ConnectionState::Disconnected,
            protocol_version: "1.0".to_string(),
            last_message_timestamp: 0,
            error_count: 0,
            max_errors: MAX_ERRORS,
        }
    }

    /// State of the connection.
    pub fn connection_state(&self) -> (state: &ConnectionState)
        ensures
            *state == self.state(),
    {
        &self.connection_state
    }

    /// Whether the bridge is connected.
    pub fn is_connected(&self) -> (connected: bool)
        ensures
            connected == (self.state() is Connected),
    {
        matches!(self.connection_state, ConnectionState::Connected)
    }

    /// Takes in a payload that was decoded in both formats: `message` is the
    /// payload read as a full message, or the decoder's error; `legacy` is
    /// the message text of the payload read in the legacy format, if it
    /// has that format. The full format wins; the legacy format is the
    /// fallback; a payload in neither format is an error, counted towards
    /// the failure of the bridge.
    pub fn parse_notification(
        &mut self,
        message: Result<NotificationMessage, String>,
        legacy: Option<String>,
    ) -> (outcome: Result<Notification, EventBridgeError>)
        requires
            message is Err && legacy is None ==> old(self).errors() < u32::MAX,
        ensures
            match (message, legacy) {
                (Ok(msg), _) => outcome matches Ok(n) && msg.converts_to(n) && old(
                    self,
                ).succeeds_into(
                    *final(self),
                    match msg.timestamp {
                        Some(t) => t,
                        None => 0,
                    },
                ),
                (Err(_), Some(text)) => outcome matches Ok(n) && n.is_legacy(text@) && old(
                    self,
                ).succeeds_into(*final(self), old(self).last_seen()),
                (Err(e), None) => outcome matches Err(EventBridgeError::ParseError(detail))
                    && detail == e && old(self).fails_into(*final(self), "Too many parse errors"@),
            },
    {
        match message {
            Ok(msg) => {
                self.connection_state = ConnectionState::Connected;
                self.error_count = 0;
                self.last_message_timestamp = match msg.timestamp {
                    Some(t) => t,
                    None => 0,
                };
                Ok(self.convert_message_to_notification(msg))
            },
            Err(e) => {
                if let Some(text) = legacy {
                    self.connection_state = ConnectionState::Connected;
                    self.error_count = 0;
                    return Ok(self.convert_legacy_to_notification(text.as_str()));
                }
                self.error_count += 1;
                if self.error_count >= self.max_errors {
                    self.connection_state = ConnectionState::Error(
                        "Too many parse errors".to_string(),
                    );
                }
                Err(EventBridgeError::ParseError(e))
            },
        }
    }

    /// The notification that a message stands for.
    pub fn convert_message_to_notification(&self, msg: NotificationMessage) -> (n: Notification)
        ensures
            msg.converts_to(n),
    {
        let notification_type = match &msg.notification_type {
            Some(name) => NotificationType::from_str(name.as_str()),
            None => NotificationType::Attention,
        };
        let priority = match &msg.priority {
            Some(name) => {
                let lower = to_lowercase(name.as_str());
                match priority_from_name(lower.as_str()) {
                    Some(priority) => priority,
                    None => Priority::from(&notification_type),
                }
            },
            None => Priority::from(&notification_type),
        };
        let message = match &msg.message {
            Some(text) => text.as_str(),
            None => "Waiting for input...",
        };
        let title = match &msg.title {
            Some(text) => text.as_str(),
            None => "Notification",
        };
        let source = match &msg.source {
            Some(text) => text.as_str(),
            None => "notifications",
        };
        let mut builder = NotificationBuilder::new().notification_type(notification_type).message(
            message,
        ).title(title).source(source).priority(priority).timestamp(
            match msg.timestamp {
                Some(t) => t,
                None => 0,
            },
        ).ttl(
            match msg.ttl_ms {
                Some(t) => t,
                None => DEFAULT_TTL_MS,
            },
        );
        if let Some(pane_id) = msg.pane_id {
            builder = builder.pane_id(pane_id);
        }
        if let Some(tab_index) = msg.tab_index {
            builder = builder.tab_index(tab_index);
        }
        builder.build()
    }

    /// The notification that a legacy message stands for: a request for
    /// attention with the message's text.
    pub fn convert_legacy_to_notification(&self, message: &str) -> (n: Notification)
        ensures
            n.is_legacy(message@),
    {
        Notification::attention(message).from_source("notifications-legacy")
    }

    /// Records that the connection stands.
    pub fn on_connected(&mut self)
        ensures
            old(self).succeeds_into(*final(self), old(self).last_seen()),
    {
        self.connection_state = ConnectionState::Connected;
        self.error_count = 0;
    }

    /// Records an error of the connection. At the limit the bridge fails with
    /// the error as its reason.
    pub fn on_error(&mut self, error: &str)
        requires
            old(self).errors() < u32::MAX,
        ensures
            old(self).fails_into(*final(self), error@),
    {
        self.error_count += 1;
        if self.error_count >= self.max_errors {
            self.connection_state = ConnectionState::Error(error.to_string());
        }
    }

    /// Records that the connection was lost. The count of errors stays.
    pub fn on_disconnected(&mut self)
        ensures
            final(self).state() is Disconnected,
            final(self).errors() == old(self).errors(),
            final(self).error_limit() == old(self).error_limit(),
            final(self).version() == old(self).version(),
            final(self).last_seen() == old(self).last_seen(),
    {
        self.connection_state = ConnectionState::Disconnected;
    }

    /// The health of the bridge.
    pub fn health_status(&self) -> (health: EventBridgeHealth)
        ensures
            health.connected == (self.state() is Connected),
            health.error_count == self.errors(),
            health.last_message_timestamp == self.last_seen(),
            health.protocol_version@ == self.version(),
    {
        EventBridgeHealth {
            connected: self.is_connected(),
            error_count: self.error_count,
            last_message_timestamp: self.last_message_timestamp,
            protocol_version: self.protocol_version.clone(),
        }
    }

    /// Forgets the errors counted. A failed bridge becomes disconnected; any
    /// other state stays.
    pub fn reset_errors(&mut self)
        ensures
            final(self).errors() == 0,
            final(self).error_limit() == old(self).error_limit(),
            final(self).version() == old(self).version(),
            final(self).last_seen() == old(self).last_seen(),
            old(self).state() is Error ==> final(self).state() is Disconnected,
            !(old(self).state() is Error) ==> final(self).state() == old(self).state(),
    {
        self.error_count = 0;
        if matches!(self.connection_state, ConnectionState::Error(_)) {
            self.connection_state = ConnectionState::Disconnected;
        }
    }
}

impl Default for EventBridge {
    /// A bridge with every field at its zero: no version, and a limit of no
    /// errors, so that the first error fails it.
    fn default() -> (bridge: EventBridge)
        ensures
            bridge.state() is Disconnected,
            bridge.version() == Seq::<char>::empty(),
            bridge.last_seen() == 0,
            bridge.errors() == 0,
            bridge.error_limit() == 0,
    {
        EventBridge {
            connection_state: ConnectionState::Disconnected,
            protocol_version: String::new(),
            last_message_timestamp: 0,
            error_count: 0,
            max_errors: 0,
        }
    }
}

} // verus!
