use vstd::prelude::*;
use vstd::string::StringExecFns;

verus! {

/// Why a request to the platform fails.
#[derive(Debug)]
pub enum ServiceError {
    InternalServerError,
    InternalServerErrorWithHint(String),
    BadRequest(String),
    Unauthorized,
    UnauthorizedWithHint(String),
    UnableToConnectToDb,
}

/// Outcome of a service of the platform.
pub type ServiceResult<V> = Result<V, ServiceError>;

impl ServiceError {
    /// The text that describes the error.
    pub open spec fn message_view(self) -> Seq<char> {
        match self {
            ServiceError::InternalServerError => "Internal Server Error"@,
            ServiceError::InternalServerErrorWithHint(hint) => "Internal Server Error: "@ + hint@,
            ServiceError::BadRequest(hint) => "BadRequest: "@ + hint@,
            ServiceError::Unauthorized => "Unauthorized"@,
            ServiceError::UnauthorizedWithHint(hint) => "Unauthorized: "@ + hint@,
            ServiceError::UnableToConnectToDb => "Unable to connect to DB"@,
        }
    }

    /// The HTTP status of the answer to a request that fails with the error:
    /// 500 for an internal error, 400 for a bad request, 401 for a request
    /// without authority.
    pub open spec fn status_view(self) -> u16 {
        match self {
            ServiceError::InternalServerError => 500,
            ServiceError::InternalServerErrorWithHint(_) => 500,
            ServiceError::UnableToConnectToDb => 500,
            ServiceError::BadRequest(_) => 400,
            ServiceError::UnauthorizedWithHint(_) => 401,
            ServiceError::Unauthorized => 401,
        }
    }

    /// The text of the answer to a request that fails with the error: the
    /// hint of the error where it has one.
    pub open spec fn response_text_view(self) -> Seq<char> {
        match self {
            ServiceError::InternalServerError => "Internal Server Error, Please try later"@,
            ServiceError::InternalServerErrorWithHint(hint) => hint@,
            ServiceError::UnableToConnectToDb => "Unable to connect to DB, Please try later"@,
            ServiceError::BadRequest(hint) => hint@,
            ServiceError::UnauthorizedWithHint(hint) => hint@,
            ServiceError::Unauthorized => "Unauthorized"@,
        }
    }

    /// The text that describes the error.
    pub fn message(&self) -> (text: String)
        ensures
            text@ == self.message_view(),
    {
        match self {
            ServiceError::InternalServerError => "Internal Server Error".to_owned(),
            ServiceError::InternalServerErrorWithHint(hint) => "Internal Server Error: ".to_owned().concat(
                hint.as_str(),
            ),
            ServiceError::BadRequest(hint) => "BadRequest: ".to_owned().concat(hint.as_str()),
            ServiceError::Unauthorized => "Unauthorized".to_owned(),
            ServiceError::UnauthorizedWithHint(hint) => "Unauthorized: ".to_owned().concat(hint.as_str()),
            ServiceError::UnableToConnectToDb => "Unable to connect to DB".to_owned(),
        }
    }

    /// The HTTP status of the answer to a request that fails with the error.
    pub fn status(&self) -> (code: u16)
        ensures
            code == self.status_view(),
    {
        match self {
            ServiceError::InternalServerError => 500,
            ServiceError::InternalServerErrorWithHint(_) => 500,
            ServiceError::UnableToConnectToDb => 500,
            ServiceError::BadRequest(_) => 400,
            ServiceError::UnauthorizedWithHint(_) => 401,
            ServiceError::Unauthorized => 401,
        }
    }

    /// The text of the answer to a request that fails with the error.
    pub fn response_text(&self) -> (text: String)
        ensures
            text@ == self.response_text_view(),
    {
        match self {
            ServiceError::InternalServerError => "Internal Server Error, Please try later".to_owned(),
            ServiceError::InternalServerErrorWithHint(hint) => hint.clone(),
            ServiceError::UnableToConnectToDb => "Unable to connect to DB, Please try later".to_owned(),
            ServiceError::BadRequest(hint) => hint.clone(),
            ServiceError::UnauthorizedWithHint(hint) => hint.clone(),
            ServiceError::Unauthorized => "Unauthorized".to_owned(),
        }
    }
}

} // verus!
