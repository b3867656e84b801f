use vstd::prelude::*;
use vstd::string::*;

verus! {

/// Errors of the application; each carries a message.
#[derive(Debug)]
pub enum AppError {
    AwsSdk(String),
    AwsConfig(String),
    Io(String),
    Serde(String),
    Config(String),
    Profile(String),
    ResourceNotFound(String),
    Auth(String),
    Network(String),
    Parse(String),
    General(String),
}

/// The text shown for an error: a prefix naming its kind, then its message.
pub open spec fn error_text(e: AppError) -> Seq<char> {
    match e {
        AppError::AwsSdk(m) => "AWS SDK error: "@ + m@,
        AppError::AwsConfig(m) => "AWS configuration error: "@ + m@,
        AppError::Io(m) => "IO error: "@ + m@,
        AppError::Serde(m) => "Serialization error: "@ + m@,
        AppError::Config(m) => "Configuration error: "@ + m@,
        AppError::Profile(m) => "Profile error: "@ + m@,
        AppError::ResourceNotFound(m) => "Resource not found: "@ + m@,
        AppError::Auth(m) => "Authentication error: "@ + m@,
        AppError::Network(m) => "Network error: "@ + m@,
        AppError::Parse(m) => "Parsing error: "@ + m@,
        AppError::General(m) => "General error: "@ + m@,
    }
}

impl AppError {
    /// The text shown for this error.
    pub fn message(&self) -> (r: String)
        ensures
            r@ == error_text(*self),
    {
        let (prefix, m) = match self {
            AppError::AwsSdk(m) => ("AWS SDK error: ", m),
            AppError::AwsConfig(m) => ("AWS configuration error: ", m),
            AppError::Io(m) => ("IO error: ", m),
            AppError::Serde(m) => ("Serialization error: ", m),
            AppError::Config(m) => ("Configuration error: ", m),
            AppError::Profile(m) => ("Profile error: ", m),
            AppError::ResourceNotFound(m) => ("Resource not found: ", m),
            AppError::Auth(m) => ("Authentication error: ", m),
            AppError::Network(m) => ("Network error: ", m),
            AppError::Parse(m) => ("Parsing error: ", m),
            AppError::General(m) => ("General error: ", m),
        };
        let mut r = String::from_str(prefix);
        r.append(m.as_str());
        r
    }
}

} // verus!
