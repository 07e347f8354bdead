//! Errors of configuration loading and of the OAuth endpoints.

use vstd::prelude::*;

verus! {

/// A failure while loading configuration or keys.
#[derive(Debug)]
pub enum AppError {
    Config(String),
    Io(String),
    Json(String),
    Schema(String),
    Crypto(String),
    Template(String),
}

impl AppError {
    pub open spec fn prefix(&self) -> Seq<char> {
        match self {
            AppError::Config(_) => "configuration error: "@,
            AppError::Io(_) => "io error: "@,
            AppError::Json(_) => "json error: "@,
            AppError::Schema(_) => "schema validation error: "@,
            AppError::Crypto(_) => "crypto error: "@,
            AppError::Template(_) => "template error: "@,
        }
    }

    pub open spec fn detail(&self) -> Seq<char> {
        match self {
            AppError::Config(m) => m@,
            AppError::Io(m) => m@,
            AppError::Json(m) => m@,
            AppError::Schema(m) => m@,
            AppError::Crypto(m) => m@,
            AppError::Template(m) => m@,
        }
    }

    /// The error as text: its kind, a colon and the detail.
    pub fn message(&self) -> (r: String)
        ensures
            r@ == self.prefix() + self.detail(),
    {
        let mut r = String::new();
        let detail = match self {
            AppError::Config(m) => {
                r.append("configuration error: ");
                m
            },
            AppError::Io(m) => {
                r.append("io error: ");
                m
            },
            AppError::Json(m) => {
                r.append("json error: ");
                m
            },
            AppError::Schema(m) => {
                r.append("schema validation error: ");
                m
            },
            AppError::Crypto(m) => {
                r.append("crypto error: ");
                m
            },
            AppError::Template(m) => {
                r.append("template error: ");
                m
            },
        };
        r.append(detail.as_str());
        r
    }
}

/// An OAuth error answered by the token endpoint.
#[derive(Debug)]
pub enum ApiError {
    InvalidClient,
    InvalidGrant(String),
    InvalidRequest(String),
    InvalidScope(String),
    UnsupportedGrantType,
    Internal(String),
}

/// An OAuth error with its texts as character sequences.
pub enum ApiErrorView {
    InvalidClient,
    InvalidGrant(Seq<char>),
    InvalidRequest(Seq<char>),
    InvalidScope(Seq<char>),
    UnsupportedGrantType,
    Internal(Seq<char>),
}

impl View for ApiError {
    type V = ApiErrorView;

    open spec fn view(&self) -> ApiErrorView {
        match self {
            ApiError::InvalidClient => ApiErrorView::InvalidClient,
            ApiError::InvalidGrant(m) => ApiErrorView::InvalidGrant(m@),
            ApiError::InvalidRequest(m) => ApiErrorView::InvalidRequest(m@),
            ApiError::InvalidScope(m) => ApiErrorView::InvalidScope(m@),
            ApiError::UnsupportedGrantType => ApiErrorView::UnsupportedGrantType,
            ApiError::Internal(m) => ApiErrorView::Internal(m@),
        }
    }
}

/// What an error response carries: HTTP status, OAuth error code and description.
#[derive(Debug)]
pub struct ErrorResponse {
    pub status: u16,
    pub error: String,
    pub error_description: Option<String>,
}

impl ApiError {
    pub fn invalid_request(message: &str) -> (r: Self)
        ensures
            r matches ApiError::InvalidRequest(m) && m@ == message@,
    {
        ApiError::InvalidRequest(message.to_owned())
    }

    pub fn invalid_grant(message: &str) -> (r: Self)
        ensures
            r matches ApiError::InvalidGrant(m) && m@ == message@,
    {
        ApiError::InvalidGrant(message.to_owned())
    }

    pub fn invalid_scope(message: &str) -> (r: Self)
        ensures
            r matches ApiError::InvalidScope(m) && m@ == message@,
    {
        ApiError::InvalidScope(message.to_owned())
    }

    pub fn internal(message: &str) -> (r: Self)
        ensures
            r matches ApiError::Internal(m) && m@ == message@,
    {
        ApiError::Internal(message.to_owned())
    }

    pub open spec fn status_spec(&self) -> u16 {
        match self {
            ApiError::InvalidClient => 401,
            ApiError::Internal(_) => 500,
            _ => 400,
        }
    }

    pub open spec fn code_spec(&self) -> Seq<char> {
        match self {
            ApiError::InvalidClient => "invalid_client"@,
            ApiError::InvalidGrant(_) => "invalid_grant"@,
            ApiError::InvalidRequest(_) => "invalid_request"@,
            ApiError::InvalidScope(_) => "invalid_scope"@,
            ApiError::UnsupportedGrantType => "unsupported_grant_type"@,
            ApiError::Internal(_) => "server_error"@,
        }
    }

    pub open spec fn description_spec(&self) -> Option<Seq<char>> {
        match self {
            ApiError::InvalidClient => None,
            ApiError::InvalidGrant(d) => Some(d@),
            ApiError::InvalidRequest(d) => Some(d@),
            ApiError::InvalidScope(d) => Some(d@),
            ApiError::UnsupportedGrantType => Some(
                "supported grant types are client_credentials and authorization_code"@,
            ),
            ApiError::Internal(_) => Some("internal server error"@),
        }
    }

    /// The response for this error. Internal details never reach the client.
    pub fn response(&self) -> (r: ErrorResponse)
        ensures
            r.status == self.status_spec(),
            r.error@ == self.code_spec(),
            match r.error_description {
                Some(d) => self.description_spec() == Some(d@),
                None => self.description_spec() is None,
            },
    {
        match self {
            ApiError::InvalidClient => ErrorResponse {
                status: 401,
                error: "invalid_client".to_owned(),
                error_description: None,
            },
            ApiError::InvalidGrant(d) => ErrorResponse {
                status: 400,
                error: "invalid_grant".to_owned(),
                error_description: Some(d.clone()),
            },
            ApiError::InvalidRequest(d) => ErrorResponse {
                status: 400,
                error: "invalid_request".to_owned(),
                error_description: Some(d.clone()),
            },
            ApiError::InvalidScope(d) => ErrorResponse {
                status: 400,
                error: "invalid_scope".to_owned(),
                error_description: Some(d.clone()),
            },
            ApiError::UnsupportedGrantType => ErrorResponse {
                status: 400,
                error: "unsupported_grant_type".to_owned(),
                error_description: Some(
                    "supported grant types are client_credentials and authorization_code".to_owned(),
                ),
            },
            ApiError::Internal(_) => ErrorResponse {
                status: 500,
                error: "server_error".to_owned(),
                error_description: Some("internal server error".to_owned()),
            },
        }
    }
}

} // verus!
