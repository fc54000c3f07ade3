use vstd::prelude::*;

verus! {

/// The kinds of failure that the API reports, each with a number, an HTTP status
/// and a message.
#[derive(Debug, Clone, Copy, PartialEq, Eq, Structural)]
pub enum Code {
    RateLimited,
    Internal,
    UnknownUser,
    UnknownInvite,
    UnknownGroup,
    UserAlreadyExists,
    Validation,
    AlreadyMember,
    UnknownMessage,
    InvalidToken,
    InsufficientPermissions,
    InvalidCredentials,
}

impl Code {
    /// The number that identifies the code to clients.
    pub open spec fn number(self) -> u32 {
        match self {
            Code::RateLimited => 3000,
            Code::Internal => 4000,
            Code::UnknownUser => 5000,
            Code::UnknownInvite => 5001,
            Code::UnknownGroup => 5002,
            Code::UserAlreadyExists => 5003,
            Code::Validation => 5004,
            Code::AlreadyMember => 5005,
            Code::UnknownMessage => 5006,
            Code::InvalidToken => 6000,
            Code::InsufficientPermissions => 6001,
            Code::InvalidCredentials => 6002,
        }
    }

    /// The HTTP status that a response with this code carries.
    pub open spec fn status(self) -> u16 {
        match self {
            Code::RateLimited => 429,
            Code::Internal => 500,
            Code::UnknownUser | Code::UnknownInvite | Code::UnknownGroup | Code::UnknownMessage => 404,
            Code::UserAlreadyExists | Code::AlreadyMember => 409,
            Code::Validation => 422,
            Code::InvalidToken | Code::InsufficientPermissions | Code::InvalidCredentials => 401,
        }
    }

    /// The message that goes with the code.
    pub open spec fn text(self) -> &'static str {
        match self {
            Code::RateLimited => "you are being rate limited",
            Code::Internal => "internal server error",
            Code::UnknownUser => "unknown user",
            Code::UnknownInvite => "unknown invite",
            Code::UnknownGroup => "unknown group",
            Code::UserAlreadyExists => "user with this username already exists",
            Code::Validation => "validation error",
            Code::AlreadyMember => "already a member",
            Code::UnknownMessage => "unknown message",
            Code::InvalidToken => "invalid token",
            Code::InsufficientPermissions => "insufficient permissions",
            Code::InvalidCredentials => "invalid credentials",
        }
    }

    pub fn code(&self) -> (r: u32)
        ensures
            r == self.number(),
    {
        match self {
            Code::RateLimited => 3000,
            Code::Internal => 4000,
            Code::UnknownUser => 5000,
            Code::UnknownInvite => 5001,
            Code::UnknownGroup => 5002,
            Code::UserAlreadyExists => 5003,
            Code::Validation => 5004,
            Code::AlreadyMember => 5005,
            Code::UnknownMessage => 5006,
            Code::InvalidToken => 6000,
            Code::InsufficientPermissions => 6001,
            Code::InvalidCredentials => 6002,
        }
    }

    pub fn status_code(&self) -> (r: u16)
        ensures
            r == self.status(),
    {
        match self {
            Code::RateLimited => 429,
            Code::Internal => 500,
            Code::UnknownUser | Code::UnknownInvite | Code::UnknownGroup | Code::UnknownMessage => 404,
            Code::UserAlreadyExists | Code::AlreadyMember => 409,
            Code::Validation => 422,
            Code::InvalidToken | Code::InsufficientPermissions | Code::InvalidCredentials => 401,
        }
    }

    pub fn message(&self) -> (r: &'static str)
        ensures
            r == self.text(),
    {
        match self {
            Code::RateLimited => "you are being rate limited",
            Code::Internal => "internal server error",
            Code::UnknownUser => "unknown user",
            Code::UnknownInvite => "unknown invite",
            Code::UnknownGroup => "unknown group",
            Code::UserAlreadyExists => "user with this username already exists",
            Code::Validation => "validation error",
            Code::AlreadyMember => "already a member",
            Code::UnknownMessage => "unknown message",
            Code::InvalidToken => "invalid token",
            Code::InsufficientPermissions => "insufficient permissions",
            Code::InvalidCredentials => "invalid credentials",
        }
    }
}

/// One failed check of a validated request: where, and what.
#[derive(Debug, Clone)]
pub struct Entry {
    pub path: String,
    pub message: String,
}

/// What an error says beyond its code.
#[derive(Debug, Clone)]
pub enum Details {
    Message(&'static str),
    Report(Vec<Entry>),
}

impl Details {
    pub fn new_static(message: &'static str) -> (r: Details)
        ensures
            r == Details::Message(message),
    {
        Details::Message(message)
    }
}

/// An error as the API reports it.
#[derive(Debug, Clone)]
pub struct Error {
    pub code: Code,
    pub details: Details,
}

impl Error {
    pub fn new_static(message: &'static str, code: Code) -> (r: Error)
        ensures
            r.code == code,
            r.details == Details::Message(message),
    {
        Error { code, details: Details::new_static(message) }
    }

    /// The error of `code` with the code's own message.
    pub fn of(code: Code) -> (r: Error)
        ensures
            r.code == code,
            r.details == Details::Message(code.text()),
    {
        Error::new_static(code.message(), code)
    }

    /// A validation error that lists the failed checks.
    pub fn validation(entries: Vec<Entry>) -> (r: Error)
        ensures
            r.code == Code::Validation,
            r.details == Details::Report(entries),
    {
        Error { code: Code::Validation, details: Details::Report(entries) }
    }
}

} // verus!
