//! The bodies of the requests and of the answers.

use vstd::prelude::*;

verus! {

/// A request to take a lock for `time_to_live` seconds.
#[derive(Debug)]
pub struct AcquireRequest {
    pub lock_id: String,
    pub client_id: String,
    pub time_to_live: u64,
}

/// The answer to an [`AcquireRequest`]. Times are RFC 3339 texts, waits are
/// whole seconds.
#[derive(Debug)]
pub enum AcquireResponse {
    Granted { lease_id: String, expires_at: String },
    Queued { position: usize, estimated_wait: u64 },
    Error { error_type: String, message: String },
}

/// A request to give a lock back.
#[derive(Debug)]
pub struct ReleaseRequest {
    pub lock_id: String,
    pub lease_id: String,
    pub client_id: String,
}

/// The answer to a [`ReleaseRequest`].
#[derive(Debug)]
pub enum ReleaseResponse {
    Success,
    Error { error_type: String, message: String },
}

/// A request to extend a lease to `time_to_live` seconds from now.
#[derive(Debug)]
pub struct RenewRequest {
    pub lock_id: String,
    pub client_id: String,
    pub lease_id: String,
    pub time_to_live: u64,
}

/// The answer to a [`RenewRequest`]. The time is an RFC 3339 text.
#[derive(Debug)]
pub enum RenewResponse {
    Success { new_expiry: String },
    Error { error_type: String, message: String },
}

/// The answer to a question about a lock. Times are RFC 3339 texts.
#[derive(Debug)]
pub enum StatusResponse {
    InUse {
        client_id: String,
        expires_at: String,
        lease_id: String,
        queue_length: usize,
        created_at: String,
    },
    Free,
    NotFound,
}

/// An error as the service reports it.
#[derive(Debug)]
pub struct ApiError {
    pub error: String,
    pub message: String,
    pub details: Option<String>,
}

/// An [`AcquireResponse`] as plain values.
pub enum AcquireBody {
    Granted { lease_id: Seq<char>, expires_at: Seq<char> },
    Queued { position: nat, estimated_wait: nat },
    Error { error_type: Seq<char>, message: Seq<char> },
}

/// A [`ReleaseResponse`] as plain values.
pub enum ReleaseBody {
    Success,
    Error { error_type: Seq<char>, message: Seq<char> },
}

/// A [`RenewResponse`] as plain values.
pub enum RenewBody {
    Success { new_expiry: Seq<char> },
    Error { error_type: Seq<char>, message: Seq<char> },
}

/// A [`StatusResponse`] as plain values.
pub enum StatusBody {
    InUse {
        client_id: Seq<char>,
        expires_at: Seq<char>,
        lease_id: Seq<char>,
        queue_length: nat,
        created_at: Seq<char>,
    },
    Free,
    NotFound,
}

impl View for AcquireResponse {
    type V = AcquireBody;

    open spec fn view(&self) -> AcquireBody {
        match self {
            AcquireResponse::Granted { lease_id, expires_at } => AcquireBody::Granted {
                lease_id: lease_id@,
                expires_at: expires_at@,
            },
            AcquireResponse::Queued { position, estimated_wait } => AcquireBody::Queued {
                position: *position as nat,
                estimated_wait: *estimated_wait as nat,
            },
            AcquireResponse::Error { error_type, message } => AcquireBody::Error {
                error_type: error_type@,
                message: message@,
            },
        }
    }
}

impl View for ReleaseResponse {
    type V = ReleaseBody;

    open spec fn view(&self) -> ReleaseBody {
        match self {
            ReleaseResponse::Success => ReleaseBody::Success,
            ReleaseResponse::Error { error_type, message } => ReleaseBody::Error {
                error_type: error_type@,
                message: message@,
            },
        }
    }
}

impl View for RenewResponse {
    type V = RenewBody;

    open spec fn view(&self) -> RenewBody {
        match self {
            RenewResponse::Success { new_expiry } => RenewBody::Success { new_expiry: new_expiry@ },
            RenewResponse::Error { error_type, message } => RenewBody::Error {
                error_type: error_type@,
                message: message@,
            },
        }
    }
}

impl View for StatusResponse {
    type V = StatusBody;

    open spec fn view(&self) -> StatusBody {
        match self {
            StatusResponse::InUse { client_id, expires_at, lease_id, queue_length, created_at } => {
                StatusBody::InUse {
                    client_id: client_id@,
                    expires_at: expires_at@,
                    lease_id: lease_id@,
                    queue_length: *queue_length as nat,
                    created_at: created_at@,
                }
            },
            StatusResponse::Free => StatusBody::Free,
            StatusResponse::NotFound => StatusBody::NotFound,
        }
    }
}

impl ApiError {
    /// The error that something asked for does not exist.
    pub fn not_found(message: &str) -> (error: Self)
        ensures
            error.error@ == "NotFound"@,
            error.message@ == message@,
            error.details is None,
    {
        ApiError { error: "NotFound".to_owned(), message: message.to_owned(), details: None }
    }

    /// The error that a request is at odds with what is recorded.
    pub fn conflict(message: &str) -> (error: Self)
        ensures
            error.error@ == "Conflict"@,
            error.message@ == message@,
            error.details is None,
    {
        ApiError { error: "Conflict".to_owned(), message: message.to_owned(), details: None }
    }
}

} // verus!
