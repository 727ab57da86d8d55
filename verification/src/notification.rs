//! Notifications: their kind, priority, target and lifetime.

use crate::text::{decimal, lowercase, push_decimal, push_text, same_text, to_lowercase};
use crate::clock::unix_nanos;
use vstd::prelude::*;

verus! {

/// What a notification reports.
#[derive(Debug, Clone, Copy, PartialEq, Eq, Structural)]
pub enum NotificationType {
    /// A command completed successfully.
    Success,
    /// A command failed.
    Error,
    /// Something deserves a look.
    Warning,
    /// For information only.
    Info,
    /// Work is under way.
    Progress,
    /// Input is awaited.
    Attention,
}

/// The kind that a lower-case word denotes. Unknown words denote `Info`.
pub open spec fn kind_named(word: Seq<char>) -> NotificationType {
    if word == "success"@ || word == "ok"@ || word == "done"@ || word == "complete"@ || word
        == "completed"@ {
        NotificationType::Success
    } else if word == "error"@ || word == "fail"@ || word == "failed"@ || word == "failure"@ {
        NotificationType::Error
    } else if word == "warning"@ || word == "warn"@ {
        NotificationType::Warning
    } else if word == "info"@ || word == "information"@ {
        NotificationType::Info
    } else if word == "progress"@ || word == "running"@ || word == "working"@ {
        NotificationType::Progress
    } else if word == "attention"@ || word == "waiting"@ || word == "input"@ || word
        == "input_needed"@ {
        NotificationType::Attention
    } else {
        NotificationType::Info
    }
}

impl NotificationType {
    /// The badge symbol of the kind.
    pub open spec fn icon_text(self) -> Seq<char> {
        match self {
            NotificationType::Success => "\u{2714}"@,
            NotificationType::Error => "\u{2718}"@,
            NotificationType::Warning => "\u{26A0}"@,
            NotificationType::Info => "\u{2139}"@,
            NotificationType::Progress => "\u{21BB}"@,
            NotificationType::Attention => "\u{2757}"@,
        }
    }

    /// The lower-case name of the kind.
    pub open spec fn name_text(self) -> Seq<char> {
        match self {
            NotificationType::Success => "success"@,
            NotificationType::Error => "error"@,
            NotificationType::Warning => "warning"@,
            NotificationType::Info => "info"@,
            NotificationType::Progress => "progress"@,
            NotificationType::Attention => "attention"@,
        }
    }

    /// Urgency from 0 (low) to 3 (critical).
    pub open spec fn urgency_level(self) -> int {
        match self {
            NotificationType::Info => 0,
            NotificationType::Progress => 0,
            NotificationType::Success => 1,
            NotificationType::Warning => 2,
            NotificationType::Error => 3,
            NotificationType::Attention => 3,
        }
    }

    /// The priority that a notification of this kind has unless it is given
    /// another.
    pub open spec fn default_priority(self) -> Priority {
        match self {
            NotificationType::Info => Priority::Low,
            NotificationType::Progress => Priority::Low,
            NotificationType::Success => Priority::Normal,
            NotificationType::Warning => Priority::High,
            NotificationType::Error => Priority::Critical,
            NotificationType::Attention => Priority::Critical,
        }
    }

    /// The badge symbol of the kind; every kind has one.
    pub fn icon(&self) -> (icon: Option<String>)
        ensures
            icon matches Some(s) && s@ == self.icon_text(),
    {
        Some(
            match self {
                NotificationType::Success => "\u{2714}".to_string(),
                NotificationType::Error => "\u{2718}".to_string(),
                NotificationType::Warning => "\u{26A0}".to_string(),
                NotificationType::Info => "\u{2139}".to_string(),
                NotificationType::Progress => "\u{21BB}".to_string(),
                NotificationType::Attention => "\u{2757}".to_string(),
            },
        )
    }

    /// The lower-case name of the kind.
    pub fn name(&self) -> (name: &'static str)
        ensures
            name@ == self.name_text(),
    {
        match self {
            NotificationType::Success => "success",
            NotificationType::Error => "error",
            NotificationType::Warning => "warning",
            NotificationType::Info => "info",
            NotificationType::Progress => "progress",
            NotificationType::Attention => "attention",
        }
    }

    /// Urgency from 0 (low) to 3 (critical).
    pub fn urgency(&self) -> (level: u8)
        ensures
            level == self.urgency_level(),
            level == self.default_priority().level(),
    {
        match self {
            NotificationType::Info => 0,
            NotificationType::Progress => 0,
            NotificationType::Success => 1,
            NotificationType::Warning => 2,
            NotificationType::Error => 3,
            NotificationType::Attention => 3,
        }
    }

    /// Reads a kind from a word, in any case.
    pub fn from_str(s: &str) -> (kind: NotificationType)
        ensures
            kind == kind_named(lowercase(s@)),
    {
        let lower = to_lowercase(s);
        NotificationType::from_word(lower.as_str())
    }

    /// Reads a kind from a lower-case word. Each kind has its name and a few
    /// synonyms; any other word gives `Info`.
    pub fn from_word(word: &str) -> (kind: NotificationType)
        ensures
            kind == kind_named(word@),
    {
        if same_text(word, "success") || same_text(word, "ok") || same_text(word, "done")
            || same_text(word, "complete") || same_text(word, "completed") {
            NotificationType::Success
        } else if same_text(word, "error") || same_text(word, "fail") || same_text(word, "failed")
            || same_text(word, "failure") {
            NotificationType::Error
        } else if same_text(word, "warning") || same_text(word, "warn") {
            NotificationType::Warning
        } else if same_text(word, "info") || same_text(word, "information") {
            NotificationType::Info
        } else if same_text(word, "progress") || same_text(word, "running") || same_text(
            word,
            "working",
        ) {
            NotificationType::Progress
        } else if same_text(word, "attention") || same_text(word, "waiting") || same_text(
            word,
            "input",
        ) || same_text(word, "input_needed") {
            NotificationType::Attention
        } else {
            NotificationType::Info
        }
    }

    /// Whether the kind calls for the urgent animation: errors and requests
    /// for attention.
    pub fn is_urgent(&self) -> (urgent: bool)
        ensures
            urgent == (*self == NotificationType::Error || *self == NotificationType::Attention),
    {
        match self {
            NotificationType::Error => true,
            NotificationType::Attention => true,
            _ => false,
        }
    }
}

impl Default for NotificationType {
    fn default() -> (kind: NotificationType)
        ensures
            kind == NotificationType::Info,
    {
        NotificationType::Info
    }
}

/// Priority of a notification; the queue serves higher priorities first.
#[derive(Debug, Clone, Copy, PartialEq, Eq, Structural, PartialOrd, Ord)]
pub enum Priority {
    /// May wait behind everything else.
    Low,
    /// Standard.
    Normal,
    /// Served before normal ones.
    High,
    /// Served first.
    Critical,
}

impl Priority {
    /// The rank of the priority, from 0 (`Low`) to 3 (`Critical`).
    pub open spec fn level(self) -> int {
        match self {
            Priority::Low => 0,
            Priority::Normal => 1,
            Priority::High => 2,
            Priority::Critical => 3,
        }
    }
}

impl Default for Priority {
    fn default() -> (priority: Priority)
        ensures
            priority == Priority::Normal,
    {
        Priority::Normal
    }
}

impl From<&NotificationType> for Priority {
    /// The default priority of a kind.
    fn from(kind: &NotificationType) -> (priority: Priority) {
        match kind {
            NotificationType::Info => Priority::Low,
            NotificationType::Progress => Priority::Low,
            NotificationType::Success => Priority::Normal,
            NotificationType::Warning => Priority::High,
            NotificationType::Error => Priority::Critical,
            NotificationType::Attention => Priority::Critical,
        }
    }
}

impl vstd::std_specs::convert::FromSpecImpl<&NotificationType> for Priority {
    open spec fn obeys_from_spec() -> bool {
        true
    }

    open spec fn from_spec(kind: &NotificationType) -> Priority {
        kind.default_priority()
    }
}

/// `serde_json::Value`: a parsed JSON value. The engine carries it through
/// without looking inside.
#[verifier::external_type_specification]
#[verifier::external_body]
pub struct ExJsonValue(serde_json::Value);

/// Free-form annotations of a notification. The engine carries them through
/// and never reads them.
#[derive(Debug, Clone)]
pub struct NotificationMetadata {
    /// The command that triggered the notification.
    pub command: Option<String>,
    /// Its exit code.
    pub exit_code: Option<i32>,
    /// Its duration in milliseconds.
    pub duration_ms: Option<u64>,
    /// Anything else.
    pub custom: Option<serde_json::Value>,
}

impl Default for NotificationMetadata {
    fn default() -> (metadata: NotificationMetadata)
        ensures
            metadata.command is None,
            metadata.exit_code is None,
            metadata.duration_ms is None,
            metadata.custom is None,
    {
        NotificationMetadata { command: None, exit_code: None, duration_ms: None, custom: None }
    }
}

/// One notification event.
#[derive(Debug, Clone)]
pub struct Notification {
    /// Unique identifier.
    pub id: String,
    /// What the notification reports.
    pub notification_type: NotificationType,
    /// The message.
    pub message: String,
    /// An optional title.
    pub title: Option<String>,
    /// The pane it is addressed to, if any.
    pub pane_id: Option<u32>,
    /// The tab it is addressed to, if any.
    pub tab_index: Option<usize>,
    /// Its priority.
    pub priority: Priority,
    /// When it was created, in milliseconds; 0 if not yet stamped.
    pub timestamp: u64,
    /// Milliseconds until it expires; 0 for never.
    pub ttl_ms: u64,
    /// Where it came from.
    pub source: String,
    /// Free-form annotations.
    pub metadata: NotificationMetadata,
}

/// Time-to-live of a notification that is given none: five minutes.
pub const DEFAULT_TTL_MS: u64 = 300_000;

/// The identifier made from a clock reading in milliseconds and a salt:
/// `notif-<millis>-<salt>`.
pub open spec fn id_text(millis: nat, salt: nat) -> Seq<char> {
    "notif-"@ + decimal(millis) + "-"@ + decimal(salt)
}

/// One step of the linear congruential generator that salts identifiers:
/// `seed * 1103515245 + 12345`, wrapped at 32 bits.
pub open spec fn scrambled(seed: u32) -> u32 {
    ((seed * 1103515245 + 12345) % 0x1_0000_0000) as u32
}

/// Whether `id` is an identifier that [`generate_id`] can produce.
pub open spec fn is_generated_id(id: Seq<char>) -> bool {
    exists|millis: nat, salt: u32| id == id_text(millis, salt as nat)
}

/// The identifier for a clock reading in milliseconds and a salt.
pub fn format_id(millis: u128, salt: u32) -> (id: String)
    ensures
        id@ == id_text(millis as nat, salt as nat),
{
    let mut id = String::new();
    push_text(&mut id, "notif-");
    push_decimal(&mut id, millis);
    push_text(&mut id, "-");
    push_decimal(&mut id, salt as u128);
    assert(id@ =~= id_text(millis as nat, salt as nat));
    id
}

/// Scrambles a seed by one step of a linear congruential generator,
/// wrapping at 32 bits.
pub fn scramble(seed: u32) -> (salt: u32)
    ensures
        salt == scrambled(seed),
{
    (((seed as u64) * 1103515245 + 12345) % 0x1_0000_0000) as u32
}

/// A salt drawn from the nanoseconds of the system clock.
fn rand_u32() -> (salt: u32)
    ensures
        exists|seed: u32| salt == scrambled(seed),
{
    let nanos = unix_nanos();
    scramble((nanos % 0x1_0000_0000) as u32)
}

/// A fresh identifier, made from the system clock.
pub fn generate_id() -> (id: String)
    ensures
        is_generated_id(id@),
{
    let millis: u128 = unix_nanos() / 1_000_000;
    let salt = rand_u32();
    format_id(millis, salt)
}

impl NotificationMetadata {
    /// Whether no annotation is set.
    pub open spec fn is_blank(self) -> bool {
        &&& self.command is None
        &&& self.exit_code is None
        &&& self.duration_ms is None
        &&& self.custom is None
    }
}

impl Notification {
    /// Whether this is a notification as [`Notification::new`] makes it for
    /// the given kind and message: the kind's default priority, no target, no
    /// title, not yet stamped, the default time-to-live.
    pub open spec fn is_new(self, kind: NotificationType, message: Seq<char>) -> bool {
        &&& is_generated_id(self.id@)
        &&& self.notification_type == kind
        &&& self.message@ == message
        &&& self.title is None
        &&& self.pane_id is None
        &&& self.tab_index is None
        &&& self.priority == kind.default_priority()
        &&& self.timestamp == 0
        &&& self.ttl_ms == DEFAULT_TTL_MS
        &&& self.source@ == "unknown"@
        &&& self.metadata.is_blank()
    }

    /// Whether this is the notification made for a message in the legacy
    /// format: a request for attention from the legacy source.
    pub open spec fn is_legacy(self, message: Seq<char>) -> bool {
        &&& is_generated_id(self.id@)
        &&& self.notification_type == NotificationType::Attention
        &&& self.message@ == message
        &&& self.title is None
        &&& self.pane_id is None
        &&& self.tab_index is None
        &&& self.priority == Priority::Critical
        &&& self.timestamp == 0
        &&& self.ttl_ms == DEFAULT_TTL_MS
        &&& self.source@ == "notifications-legacy"@
        &&& self.metadata.is_blank()
    }

    /// Whether the notification has expired at `current_time`: it has a
    /// time-to-live, and more than that has passed since its creation.
    pub open spec fn expired_at(self, current_time: int) -> bool {
        self.ttl_ms != 0 && current_time > self.timestamp + self.ttl_ms
    }

    /// The text shown for the notification: the message, with the title and a
    /// colon in front if there is a title.
    pub open spec fn display(self) -> Seq<char> {
        match self.title {
            Some(title) => title@ + ": "@ + self.message@,
            None => self.message@,
        }
    }

    /// A notification of the given kind, with the kind's default priority and
    /// a fresh identifier.
    pub fn new(notification_type: NotificationType, message: &str) -> (n: Notification)
        ensures
            n.is_new(notification_type, message@),
    {
        Notification {
            id: generate_id(),
            notification_type,
            message: message.to_string(),
            title: None,
            pane_id: None,
            tab_index: None,
            priority: Priority::from(&notification_type),
            timestamp: 0,
            ttl_ms: DEFAULT_TTL_MS,
            source: "unknown".to_string(),
            metadata: NotificationMetadata::default(),
        }
    }

    /// A success notification.
    pub fn success(message: &str) -> (n: Notification)
        ensures
            n.is_new(NotificationType::Success, message@),
    {
        Notification::new(NotificationType::Success, message)
    }

    /// An error notification.
    pub fn error(message: &str) -> (n: Notification)
        ensures
            n.is_new(NotificationType::Error, message@),
    {
        Notification::new(NotificationType::Error, message)
    }

    /// A warning notification.
    pub fn warning(message: &str) -> (n: Notification)
        ensures
            n.is_new(NotificationType::Warning, message@),
    {
        Notification::new(NotificationType::Warning, message)
    }

    /// An informational notification.
    pub fn info(message: &str) -> (n: Notification)
        ensures
            n.is_new(NotificationType::Info, message@),
    {
        Notification::new(NotificationType::Info, message)
    }

    /// A notification that asks for attention.
    pub fn attention(message: &str) -> (n: Notification)
        ensures
            n.is_new(NotificationType::Attention, message@),
    {
        Notification::new(NotificationType::Attention, message)
    }

    /// A progress notification.
    pub fn progress(message: &str) -> (n: Notification)
        ensures
            n.is_new(NotificationType::Progress, message@),
    {
        Notification::new(NotificationType::Progress, message)
    }

    /// Sets the title.
    pub fn with_title(self, title: &str) -> (n: Notification)
        ensures
            n == (Notification { title: n.title, ..self }),
            n.title matches Some(t) && t@ == title@,
    {
        let mut n = self;
        n.title = Some(title.to_string());
        n
    }

    /// Addresses the notification to a pane.
    pub fn for_pane(self, pane_id: u32) -> (n: Notification)
        ensures
            n == (Notification { pane_id: Some(pane_id), ..self }),
    {
        let mut n = self;
        n.pane_id = Some(pane_id);
        n
    }

    /// Addresses the notification to a tab.
    pub fn for_tab(self, tab_index: usize) -> (n: Notification)
        ensures
            n == (Notification { tab_index: Some(tab_index), ..self }),
    {
        let mut n = self;
        n.tab_index = Some(tab_index);
        n
    }

    /// Sets the source.
    pub fn from_source(self, source: &str) -> (n: Notification)
        ensures
            n == (Notification { source: n.source, ..self }),
            n.source@ == source@,
    {
        let mut n = self;
        n.source = source.to_string();
        n
    }

    /// Sets the time-to-live in milliseconds; 0 stands for none.
    pub fn with_ttl(self, ttl_ms: u64) -> (n: Notification)
        ensures
            n == (Notification { ttl_ms, ..self }),
    {
        let mut n = self;
        n.ttl_ms = ttl_ms;
        n
    }

    /// Sets the time of creation.
    pub fn at_time(self, timestamp: u64) -> (n: Notification)
        ensures
            n == (Notification { timestamp, ..self }),
    {
        let mut n = self;
        n.timestamp = timestamp;
        n
    }

    /// Overrides the priority.
    pub fn with_priority(self, priority: Priority) -> (n: Notification)
        ensures
            n == (Notification { priority, ..self }),
    {
        let mut n = self;
        n.priority = priority;
        n
    }

    /// Whether the notification has expired at `current_time`. A
    /// time-to-live of 0 never expires.
    pub fn is_expired(&self, current_time: u64) -> (expired: bool)
        ensures
            expired == self.expired_at(current_time as int),
    {
        if self.ttl_ms == 0 {
            return false;
        }
        (current_time as u128) > (self.timestamp as u128) + (self.ttl_ms as u128)
    }

    /// The badge symbol of the notification's kind.
    pub fn icon(&self) -> (icon: Option<String>)
        ensures
            icon matches Some(s) && s@ == self.notification_type.icon_text(),
    {
        self.notification_type.icon()
    }

    /// The text to show: `title: message`, or the message alone.
    pub fn display_text(&self) -> (text: String)
        ensures
            text@ == self.display(),
    {
        match &self.title {
            Some(title) => {
                let mut text = String::new();
                push_text(&mut text, title.as_str());
                push_text(&mut text, ": ");
                push_text(&mut text, self.message.as_str());
                assert(text@ =~= title@ + ": "@ + self.message@);
                text
            },
            None => self.message.clone(),
        }
    }
}

impl Default for Notification {
    /// An informational notification of normal priority with an empty
    /// message and a fresh identifier.
    fn default() -> (n: Notification)
        ensures
            is_generated_id(n.id@),
            n.notification_type == NotificationType::Info,
            n.message@ == Seq::<char>::empty(),
            n.title is None,
            n.pane_id is None,
            n.tab_index is None,
            n.priority == Priority::Normal,
            n.timestamp == 0,
            n.ttl_ms == DEFAULT_TTL_MS,
            n.source@ == "unknown"@,
            n.metadata.is_blank(),
    {
        Notification {
            id: generate_id(),
            notification_type: NotificationType::Info,
            message: String::new(),
            title: None,
            pane_id: None,
            tab_index: None,
            priority: Priority::Normal,
            timestamp: 0,
            ttl_ms: DEFAULT_TTL_MS,
            source: "unknown".to_string(),
            metadata: NotificationMetadata::default(),
        }
    }
}

/// Builds a notification field by field, starting from the default one.
pub struct NotificationBuilder {
    notification: Notification,
}

impl NotificationBuilder {
    /// The notification as built so far.
    pub closed spec fn draft(self) -> Notification {
        self.notification
    }

    /// A builder that holds the default notification.
    pub fn new() -> (builder: NotificationBuilder)
        ensures
            is_generated_id(builder.draft().id@),
            builder.draft().notification_type == NotificationType::Info,
            builder.draft().message@ == Seq::<char>::empty(),
            builder.draft().title is None,
            builder.draft().pane_id is None,
            builder.draft().tab_index is None,
            builder.draft().priority == Priority::Normal,
            builder.draft().timestamp == 0,
            builder.draft().ttl_ms == DEFAULT_TTL_MS,
            builder.draft().source@ == "unknown"@,
            builder.draft().metadata.is_blank(),
    {
        NotificationBuilder { notification: Notification::default() }
    }

    /// Sets the kind, and the priority to the kind's default.
    pub fn notification_type(self, t: NotificationType) -> (builder: NotificationBuilder)
        ensures
            builder.draft() == (Notification {
                notification_type: t,
                priority: t.default_priority(),
                ..self.draft()
            }),
    {
        let mut b = self;
        b.notification.notification_type = t;
        b.notification.priority = Priority::from(&t);
        b
    }

    /// Sets the message.
    pub fn message(self, msg: &str) -> (builder: NotificationBuilder)
        ensures
            builder.draft() == (Notification { message: builder.draft().message, ..self.draft() }),
            builder.draft().message@ == msg@,
    {
        let mut b = self;
        b.notification.message = msg.to_string();
        b
    }

    /// Sets the title.
    pub fn title(self, title: &str) -> (builder: NotificationBuilder)
        ensures
            builder.draft() == (Notification { title: builder.draft().title, ..self.draft() }),
            builder.draft().title matches Some(t) && t@ == title@,
    {
        let mut b = self;
        b.notification.title = Some(title.to_string());
        b
    }

    /// Addresses the notification to a pane.
    pub fn pane_id(self, id: u32) -> (builder: NotificationBuilder)
        ensures
            builder.draft() == (Notification { pane_id: Some(id), ..self.draft() }),
    {
        let mut b = self;
        b.notification.pane_id = Some(id);
        b
    }

    /// Addresses the notification to a tab.
    pub fn tab_index(self, index: usize) -> (builder: NotificationBuilder)
        ensures
            builder.draft() == (Notification { tab_index: Some(index), ..self.draft() }),
    {
        let mut b = self;
        b.notification.tab_index = Some(index);
        b
    }

    /// Sets the source.
    pub fn source(self, source: &str) -> (builder: NotificationBuilder)
        ensures
            builder.draft() == (Notification { source: builder.draft().source, ..self.draft() }),
            builder.draft().source@ == source@,
    {
        let mut b = self;
        b.notification.source = source.to_string();
        b
    }

    /// Sets the time-to-live in milliseconds.
    pub fn ttl(self, ttl_ms: u64) -> (builder: NotificationBuilder)
        ensures
            builder.draft() == (Notification { ttl_ms, ..self.draft() }),
    {
        let mut b = self;
        b.notification.ttl_ms = ttl_ms;
        b
    }

    /// Sets the time of creation.
    pub fn timestamp(self, ts: u64) -> (builder: NotificationBuilder)
        ensures
            builder.draft() == (Notification { timestamp: ts, ..self.draft() }),
    {
        let mut b = self;
        b.notification.timestamp = ts;
        b
    }

    /// Overrides the priority.
    pub fn priority(self, p: Priority) -> (builder: NotificationBuilder)
        ensures
            builder.draft() == (Notification { priority: p, ..self.draft() }),
    {
        let mut b = self;
        b.notification.priority = p;
        b
    }

    /// Records the command that triggered the notification.
    pub fn command(self, cmd: &str) -> (builder: NotificationBuilder)
        ensures
            builder.draft() == (Notification {
                metadata: NotificationMetadata {
                    command: builder.draft().metadata.command,
                    ..self.draft().metadata
                },
                ..self.draft()
            }),
            builder.draft().metadata.command matches Some(c) && c@ == cmd@,
    {
        let mut b = self;
        b.notification.metadata.command = Some(cmd.to_string());
        b
    }

    /// Records the exit code of the command.
    pub fn exit_code(self, code: i32) -> (builder: NotificationBuilder)
        ensures
            builder.draft() == (Notification {
                metadata: NotificationMetadata { exit_code: Some(code), ..self.draft().metadata },
                ..self.draft()
            }),
    {
        let mut b = self;
        b.notification.metadata.exit_code = Some(code);
        b
    }

    /// Records the duration of the command in milliseconds.
    pub fn duration(self, duration_ms: u64) -> (builder: NotificationBuilder)
        ensures
            builder.draft() == (Notification {
                metadata: NotificationMetadata {
                    duration_ms: Some(duration_ms),
                    ..self.draft().metadata
                },
                ..self.draft()
            }),
    {
        let mut b = self;
        b.notification.metadata.duration_ms = Some(duration_ms);
        b
    }

    /// The notification that was built.
    pub fn build(self) -> (n: Notification)
        ensures
            n == self.draft(),
    {
        self.notification
    }
}

impl Default for NotificationBuilder {
    fn default() -> (builder: NotificationBuilder)
        ensures
            is_generated_id(builder.draft().id@),
            builder.draft().notification_type == NotificationType::Info,
            builder.draft().message@ == Seq::<char>::empty(),
            builder.draft().title is None,
            builder.draft().pane_id is None,
            builder.draft().tab_index is None,
            builder.draft().priority == Priority::Normal,
            builder.draft().timestamp == 0,
            builder.draft().ttl_ms == DEFAULT_TTL_MS,
            builder.draft().source@ == "unknown"@,
            builder.draft().metadata.is_blank(),
    {
        NotificationBuilder::new()
    }
}

} // verus!
