//! Error types of the library, their messages, and the HTTP answer each
//! one gets.

use vstd::prelude::*;

verus! {

/// The text `prefix` followed by `rest`.
fn joined(prefix: &str, rest: &str) -> (r: String)
    ensures
        r@ == prefix@ + rest@,
{
    String::from_str(prefix).concat(rest)
}

/// Failure of a repository operation.
#[derive(Debug, PartialEq, Eq)]
pub enum RepositoryError {
    Conflict(String),
    Database(String),
}

impl RepositoryError {
    pub open spec fn message_spec(&self) -> Seq<char> {
        match self {
            RepositoryError::Conflict(m) => "conflict: "@ + m@,
            RepositoryError::Database(m) => "database error: "@ + m@,
        }
    }

    /// The error's message.
    pub fn message(&self) -> (r: String)
        ensures
            r@ == self.message_spec(),
    {
        match self {
            RepositoryError::Conflict(m) => joined("conflict: ", m.as_str()),
            RepositoryError::Database(m) => joined("database error: ", m.as_str()),
        }
    }
}

/// Failure of an admin-management operation.
#[derive(Debug)]
pub enum AdminServiceError {
    AdminNotFound,
    AlreadyAdmin,
    CannotRemoveLastRoot,
    CannotRemoveSelf,
    Repo(RepositoryError),
}

impl AdminServiceError {
    pub open spec fn message_spec(&self) -> Seq<char> {
        match self {
            AdminServiceError::AdminNotFound => "admin not found"@,
            AdminServiceError::AlreadyAdmin => "admin already exists"@,
            AdminServiceError::CannotRemoveLastRoot => "cannot remove the last root admin"@,
            AdminServiceError::CannotRemoveSelf => "cannot remove your own account"@,
            AdminServiceError::Repo(e) => e.message_spec(),
        }
    }

    pub fn message(&self) -> (r: String)
        ensures
            r@ == self.message_spec(),
    {
        match self {
            AdminServiceError::AdminNotFound => String::from_str("admin not found"),
            AdminServiceError::AlreadyAdmin => String::from_str("admin already exists"),
            AdminServiceError::CannotRemoveLastRoot => String::from_str(
                "cannot remove the last root admin",
            ),
            AdminServiceError::CannotRemoveSelf => String::from_str(
                "cannot remove your own account",
            ),
            AdminServiceError::Repo(e) => e.message(),
        }
    }
}

/// Invalid configuration, or a failure to store it.
#[derive(Debug)]
pub enum ConfigError {
    MissingField { field: &'static str },
    InvalidCsrfTtl,
    InvalidWidgetAccessKey,
    InvalidValue { field: &'static str },
    Repo(RepositoryError),
}

impl ConfigError {
    pub open spec fn message_spec(&self) -> Seq<char> {
        match self {
            ConfigError::MissingField { field } => "twitch config field `"@ + field@
                + "` is required"@,
            ConfigError::InvalidCsrfTtl => "twitch config `csrf_ttl_secs` must be greater than zero"@,
            ConfigError::InvalidWidgetAccessKey => "runtime config widget access key must not be empty"@,
            ConfigError::InvalidValue { field } => "runtime config field `"@ + field@
                + "` must be greater than zero"@,
            ConfigError::Repo(e) => "config repository: "@ + e.message_spec(),
        }
    }

    pub fn message(&self) -> (r: String)
        ensures
            r@ == self.message_spec(),
    {
        match self {
            ConfigError::MissingField { field } => joined("twitch config field `", field).concat(
                "` is required",
            ),
            ConfigError::InvalidCsrfTtl => String::from_str(
                "twitch config `csrf_ttl_secs` must be greater than zero",
            ),
            ConfigError::InvalidWidgetAccessKey => String::from_str(
                "runtime config widget access key must not be empty",
            ),
            ConfigError::InvalidValue { field } => joined("runtime config field `", field).concat(
                "` must be greater than zero",
            ),
            ConfigError::Repo(e) => {
                let m = e.message();
                joined("config repository: ", m.as_str())
            },
        }
    }
}

/// Failure of an action-management operation.
#[derive(Debug)]
pub enum ActionServiceError {
    ActionNotFound,
    Repo(RepositoryError),
}

impl ActionServiceError {
    pub open spec fn message_spec(&self) -> Seq<char> {
        match self {
            ActionServiceError::ActionNotFound => "action not found"@,
            ActionServiceError::Repo(e) => e.message_spec(),
        }
    }

    pub fn message(&self) -> (r: String)
        ensures
            r@ == self.message_spec(),
    {
        match self {
            ActionServiceError::ActionNotFound => String::from_str("action not found"),
            ActionServiceError::Repo(e) => e.message(),
        }
    }
}

/// Failure of a rule-management operation.
#[derive(Debug)]
pub enum RuleServiceError {
    RuleNotFound,
    ActionNotFound,
    MissingPattern(String),
    Repo(RepositoryError),
}

impl RuleServiceError {
    pub open spec fn message_spec(&self) -> Seq<char> {
        match self {
            RuleServiceError::RuleNotFound => "rule not found"@,
            RuleServiceError::ActionNotFound => "action not found"@,
            RuleServiceError::MissingPattern(m) => "pattern is required for matcher "@ + m@,
            RuleServiceError::Repo(e) => e.message_spec(),
        }
    }

    pub fn message(&self) -> (r: String)
        ensures
            r@ == self.message_spec(),
    {
        match self {
            RuleServiceError::RuleNotFound => String::from_str("rule not found"),
            RuleServiceError::ActionNotFound => String::from_str("action not found"),
            RuleServiceError::MissingPattern(m) => joined(
                "pattern is required for matcher ",
                m.as_str(),
            ),
            RuleServiceError::Repo(e) => e.message(),
        }
    }

    /// The rule error an action error becomes.
    pub fn from_action_error(e: ActionServiceError) -> (r: Self)
        ensures
            match e {
                ActionServiceError::ActionNotFound => r is ActionNotFound,
                ActionServiceError::Repo(re) => r == RuleServiceError::Repo(re),
            },
    {
        match e {
            ActionServiceError::ActionNotFound => RuleServiceError::ActionNotFound,
            ActionServiceError::Repo(re) => RuleServiceError::Repo(re),
        }
    }
}

/// Failure of a queue operation.
#[derive(Debug)]
pub enum QueueServiceError {
    NotFound,
    QueueEmpty,
    AlreadyActive,
    NotSpinning,
    NotCancellable,
    NoSlots,
    UserNotFound,
    RarityNotFound,
    Repo(RepositoryError),
}

impl QueueServiceError {
    pub open spec fn message_spec(&self) -> Seq<char> {
        match self {
            QueueServiceError::NotFound => "queue entry not found"@,
            QueueServiceError::QueueEmpty => "no pending or error entries"@,
            QueueServiceError::AlreadyActive => "a spin or error is already active"@,
            QueueServiceError::NotSpinning => "entry is not in spinning state"@,
            QueueServiceError::NotCancellable => "only pending or error entries can be cancelled"@,
            QueueServiceError::NoSlots => "no roulette slots configured"@,
            QueueServiceError::UserNotFound => "user not found"@,
            QueueServiceError::RarityNotFound => "rarity not found"@,
            QueueServiceError::Repo(e) => e.message_spec(),
        }
    }

    pub fn message(&self) -> (r: String)
        ensures
            r@ == self.message_spec(),
    {
        match self {
            QueueServiceError::NotFound => String::from_str("queue entry not found"),
            QueueServiceError::QueueEmpty => String::from_str("no pending or error entries"),
            QueueServiceError::AlreadyActive => String::from_str(
                "a spin or error is already active",
            ),
            QueueServiceError::NotSpinning => String::from_str("entry is not in spinning state"),
            QueueServiceError::NotCancellable => String::from_str(
                "only pending or error entries can be cancelled",
            ),
            QueueServiceError::NoSlots => String::from_str("no roulette slots configured"),
            QueueServiceError::UserNotFound => String::from_str("user not found"),
            QueueServiceError::RarityNotFound => String::from_str("rarity not found"),
            QueueServiceError::Repo(e) => e.message(),
        }
    }
}

/// Failure of a session operation.
#[derive(Debug)]
pub enum SessionServiceError {
    InvalidTicket,
    SessionNotFound,
    SessionExpired,
    Repo(RepositoryError),
}

impl SessionServiceError {
    pub open spec fn message_spec(&self) -> Seq<char> {
        match self {
            SessionServiceError::InvalidTicket => "invalid or expired login ticket"@,
            SessionServiceError::SessionNotFound => "session not found"@,
            SessionServiceError::SessionExpired => "session expired"@,
            SessionServiceError::Repo(e) => e.message_spec(),
        }
    }

    pub fn message(&self) -> (r: String)
        ensures
            r@ == self.message_spec(),
    {
        match self {
            SessionServiceError::InvalidTicket => String::from_str(
                "invalid or expired login ticket",
            ),
            SessionServiceError::SessionNotFound => String::from_str("session not found"),
            SessionServiceError::SessionExpired => String::from_str("session expired"),
            SessionServiceError::Repo(e) => e.message(),
        }
    }
}

/// Failure of a user-management operation.
#[derive(Debug)]
pub enum UserServiceError {
    UserNotFound,
    PlatformLinkNotFound,
    UnknownPlatform(String),
    Repo(RepositoryError),
}

impl UserServiceError {
    pub open spec fn message_spec(&self) -> Seq<char> {
        match self {
            UserServiceError::UserNotFound => "user not found"@,
            UserServiceError::PlatformLinkNotFound => "platform link not found"@,
            UserServiceError::UnknownPlatform(p) => "unknown platform: "@ + p@,
            UserServiceError::Repo(e) => e.message_spec(),
        }
    }

    pub fn message(&self) -> (r: String)
        ensures
            r@ == self.message_spec(),
    {
        match self {
            UserServiceError::UserNotFound => String::from_str("user not found"),
            UserServiceError::PlatformLinkNotFound => String::from_str("platform link not found"),
            UserServiceError::UnknownPlatform(p) => joined("unknown platform: ", p.as_str()),
            UserServiceError::Repo(e) => e.message(),
        }
    }
}

/// Failure to publish an event.
#[derive(Debug)]
pub enum EventError {
    Publish(String),
}

impl EventError {
    pub open spec fn message_spec(&self) -> Seq<char> {
        match self {
            EventError::Publish(m) => "publish failed: "@ + m@,
        }
    }

    pub fn message(&self) -> (r: String)
        ensures
            r@ == self.message_spec(),
    {
        match self {
            EventError::Publish(m) => joined("publish failed: ", m.as_str()),
        }
    }
}

/// Failure of an action while it is carried out.
#[derive(Debug)]
pub enum ExecutorError {
    User(UserServiceError),
    Queue(QueueServiceError),
    Chat(String),
}

impl ExecutorError {
    pub open spec fn message_spec(&self) -> Seq<char> {
        match self {
            ExecutorError::User(e) => e.message_spec(),
            ExecutorError::Queue(e) => e.message_spec(),
            ExecutorError::Chat(m) => "twitch chat error: "@ + m@,
        }
    }

    pub fn message(&self) -> (r: String)
        ensures
            r@ == self.message_spec(),
    {
        match self {
            ExecutorError::User(e) => e.message(),
            ExecutorError::Queue(e) => e.message(),
            ExecutorError::Chat(m) => joined("twitch chat error: ", m.as_str()),
        }
    }
}

/// Failure of a platform connection.
#[derive(Debug)]
pub enum PlatformError {
    WebSocket(String),
    Parse(String),
    Auth(String),
    Subscription(String),
    Disconnected,
    SinkClosed,
    Publish(String),
    TwitchApi(String),
}

impl PlatformError {
    pub open spec fn message_spec(&self) -> Seq<char> {
        match self {
            PlatformError::WebSocket(m) => "websocket error: "@ + m@,
            PlatformError::Parse(m) => "failed to parse eventsub frame: "@ + m@,
            PlatformError::Auth(m) => "authentication failed: "@ + m@,
            PlatformError::Subscription(m) => "eventsub subscription failed: "@ + m@,
            PlatformError::Disconnected => "connection dropped"@,
            PlatformError::SinkClosed => "event sink closed"@,
            PlatformError::Publish(m) => "publish failed: "@ + m@,
            PlatformError::TwitchApi(m) => "twitch api request failed: "@ + m@,
        }
    }

    pub fn message(&self) -> (r: String)
        ensures
            r@ == self.message_spec(),
    {
        match self {
            PlatformError::WebSocket(m) => joined("websocket error: ", m.as_str()),
            PlatformError::Parse(m) => joined("failed to parse eventsub frame: ", m.as_str()),
            PlatformError::Auth(m) => joined("authentication failed: ", m.as_str()),
            PlatformError::Subscription(m) => joined("eventsub subscription failed: ", m.as_str()),
            PlatformError::Disconnected => String::from_str("connection dropped"),
            PlatformError::SinkClosed => String::from_str("event sink closed"),
            PlatformError::Publish(m) => joined("publish failed: ", m.as_str()),
            PlatformError::TwitchApi(m) => joined("twitch api request failed: ", m.as_str()),
        }
    }

    /// The HTTP status the error is answered with: 401 for a failed
    /// authentication, 502 otherwise.
    pub fn status_code(&self) -> (r: u16)
        ensures
            r == (if self is Auth {
                401u16
            } else {
                502u16
            }),
    {
        match self {
            PlatformError::Auth(_) => 401,
            _ => 502,
        }
    }
}

/// The JSON body of an error answer.
#[derive(Debug)]
pub struct ErrorResponse {
    pub error: String,
}

impl ErrorResponse {
    pub fn new(error: String) -> (r: Self)
        ensures
            r.error == error,
    {
        ErrorResponse { error }
    }
}

/// An HTTP error answer: a status and a JSON body.
#[derive(Debug)]
pub struct ApiError {
    pub status: u16,
    pub body: ErrorResponse,
}

impl ApiError {
    pub fn new(status: u16, error: String) -> (r: Self)
        ensures
            r.status == status,
            r.body.error == error,
    {
        ApiError { status, body: ErrorResponse::new(error) }
    }

    /// A conflict answers 409 and a database failure 500, each with the
    /// bare detail as its message.
    pub fn from_repository(e: RepositoryError) -> (r: Self)
        ensures
            match e {
                RepositoryError::Conflict(m) => r.status == 409 && r.body.error == m,
                RepositoryError::Database(m) => r.status == 500 && r.body.error == m,
            },
    {
        match e {
            RepositoryError::Conflict(m) => ApiError::new(409, m),
            RepositoryError::Database(m) => ApiError::new(500, m),
        }
    }

    pub fn from_admin(e: AdminServiceError) -> (r: Self)
        ensures
            match e {
                AdminServiceError::Repo(re) => r == ApiError::from_repository_spec(re),
                _ => r.body.error@ == e.message_spec() && r.status == match e {
                    AdminServiceError::AdminNotFound => 404u16,
                    AdminServiceError::AlreadyAdmin | AdminServiceError::CannotRemoveSelf => 409u16,
                    _ => 403u16,
                },
            },
    {
        let status: u16 = match &e {
            AdminServiceError::AdminNotFound => 404,
            AdminServiceError::AlreadyAdmin => 409,
            AdminServiceError::CannotRemoveLastRoot => 403,
            AdminServiceError::CannotRemoveSelf => 409,
            AdminServiceError::Repo(_) => 500,
        };
        match e {
            AdminServiceError::Repo(re) => ApiError::from_repository(re),
            _ => ApiError::new(status, e.message()),
        }
    }

    /// The answer a repository error gets.
    pub open spec fn from_repository_spec(e: RepositoryError) -> ApiError {
        match e {
            RepositoryError::Conflict(m) => ApiError { status: 409, body: ErrorResponse { error: m } },
            RepositoryError::Database(m) => ApiError { status: 500, body: ErrorResponse { error: m } },
        }
    }

    pub fn from_config(e: ConfigError) -> (r: Self)
        ensures
            match e {
                ConfigError::Repo(re) => r == ApiError::from_repository_spec(re),
                _ => r.status == 400 && r.body.error@ == e.message_spec(),
            },
    {
        match e {
            ConfigError::Repo(re) => ApiError::from_repository(re),
            _ => ApiError::new(400, e.message()),
        }
    }

    pub fn from_action(e: ActionServiceError) -> (r: Self)
        ensures
            match e {
                ActionServiceError::Repo(re) => r == ApiError::from_repository_spec(re),
                _ => r.status == 404 && r.body.error@ == e.message_spec(),
            },
    {
        match e {
            ActionServiceError::Repo(re) => ApiError::from_repository(re),
            _ => ApiError::new(404, e.message()),
        }
    }

    pub fn from_rule(e: RuleServiceError) -> (r: Self)
        ensures
            match e {
                RuleServiceError::Repo(re) => r == ApiError::from_repository_spec(re),
                RuleServiceError::RuleNotFound => r.status == 404 && r.body.error@
                    == e.message_spec(),
                _ => r.status == 400 && r.body.error@ == e.message_spec(),
            },
    {
        let status: u16 = match &e {
            RuleServiceError::RuleNotFound => 404,
            _ => 400,
        };
        match e {
            RuleServiceError::Repo(re) => ApiError::from_repository(re),
            _ => ApiError::new(status, e.message()),
        }
    }

    pub fn from_queue(e: QueueServiceError) -> (r: Self)
        ensures
            match e {
                QueueServiceError::Repo(re) => r == ApiError::from_repository_spec(re),
                _ => r.body.error@ == e.message_spec() && r.status == match e {
                    QueueServiceError::NotFound | QueueServiceError::QueueEmpty => 404u16,
                    QueueServiceError::AlreadyActive
                    | QueueServiceError::NotSpinning
                    | QueueServiceError::NotCancellable => 409u16,
                    _ => 422u16,
                },
            },
    {
        let status: u16 = match &e {
            QueueServiceError::NotFound | QueueServiceError::QueueEmpty => 404,
            QueueServiceError::AlreadyActive
            | QueueServiceError::NotSpinning
            | QueueServiceError::NotCancellable => 409,
            _ => 422,
        };
        match e {
            QueueServiceError::Repo(re) => ApiError::from_repository(re),
            _ => ApiError::new(status, e.message()),
        }
    }

    pub fn from_session(e: SessionServiceError) -> (r: Self)
        ensures
            match e {
                SessionServiceError::Repo(re) => r == ApiError::from_repository_spec(re),
                SessionServiceError::InvalidTicket => r.status == 400 && r.body.error@
                    == e.message_spec(),
                _ => r.status == 401 && r.body.error@ == e.message_spec(),
            },
    {
        let status: u16 = match &e {
            SessionServiceError::InvalidTicket => 400,
            _ => 401,
        };
        match e {
            SessionServiceError::Repo(re) => ApiError::from_repository(re),
            _ => ApiError::new(status, e.message()),
        }
    }

    pub fn from_user(e: UserServiceError) -> (r: Self)
        ensures
            match e {
                UserServiceError::Repo(re) => r == ApiError::from_repository_spec(re),
                UserServiceError::UnknownPlatform(_) => r.status == 400 && r.body.error@
                    == e.message_spec(),
                _ => r.status == 404 && r.body.error@ == e.message_spec(),
            },
    {
        let status: u16 = match &e {
            UserServiceError::UnknownPlatform(_) => 400,
            _ => 404,
        };
        match e {
            UserServiceError::Repo(re) => ApiError::from_repository(re),
            _ => ApiError::new(status, e.message()),
        }
    }
}

} // verus!
