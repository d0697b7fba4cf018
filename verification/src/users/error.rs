//! Errors of the user operations.

use vstd::prelude::*;

verus! {

/// Why a user operation failed. Database and cache failures carry the text
/// of the underlying error.
#[derive(Debug)]
pub enum Error {
    SqlxError { message: String },
    RedisError { message: String },
    InvalidData { msg: &'static str },
    OperationFailed { msg: &'static str },
}

/// Why a user could not be added.
#[derive(Debug)]
pub enum ErrorAddUser {
    InternalError { msg: String },
    SqlxError { message: String },
    InvalidName { name: String },
    NameIsTaken { name: String },
    InvalidNickname { nickname: String },
    InvalidEMail { email: String },
    EMailIsTaken { email: String },
    InvalidPassword,
}

/// `ErrorAddUser` with its texts as sequences of characters.
pub enum AddUserFailure {
    InternalError { msg: Seq<char> },
    SqlxError { message: Seq<char> },
    InvalidName { name: Seq<char> },
    NameIsTaken { name: Seq<char> },
    InvalidNickname { nickname: Seq<char> },
    InvalidEMail { email: Seq<char> },
    EMailIsTaken { email: Seq<char> },
    InvalidPassword,
}

impl View for ErrorAddUser {
    type V = AddUserFailure;

    open spec fn view(&self) -> AddUserFailure {
        match self {
            ErrorAddUser::InternalError { msg } => AddUserFailure::InternalError { msg: msg@ },
            ErrorAddUser::SqlxError { message } => AddUserFailure::SqlxError { message: message@ },
            ErrorAddUser::InvalidName { name } => AddUserFailure::InvalidName { name: name@ },
            ErrorAddUser::NameIsTaken { name } => AddUserFailure::NameIsTaken { name: name@ },
            ErrorAddUser::InvalidNickname { nickname } => AddUserFailure::InvalidNickname {
                nickname: nickname@,
            },
            ErrorAddUser::InvalidEMail { email } => AddUserFailure::InvalidEMail { email: email@ },
            ErrorAddUser::EMailIsTaken { email } => AddUserFailure::EMailIsTaken { email: email@ },
            ErrorAddUser::InvalidPassword => AddUserFailure::InvalidPassword,
        }
    }
}

} // verus!
