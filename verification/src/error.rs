use vstd::prelude::*;
use vstd::string::StringExecFns;

verus! {

/// A failure while configuring the gateway client, before any
/// conversation exists. Each variant carries its underlying cause as
/// plain text.
#[derive(Debug, Clone)]
pub enum AppError {
    EnvLoadError(String),
    ApiKeyMissing(String),
}

impl AppError {
    /// The text shown for this error.
    pub fn message(&self) -> (t: String)
        ensures
            self matches AppError::EnvLoadError(cause) ==> t@ == "Error loading .env file ("@
                + cause@
                + ").\nPlease create a .env file in the project root directory with the following content:\nOPENAI_KEY=your-api-key\n"@,
            self matches AppError::ApiKeyMissing(cause) ==> t@
                == "OpenAI API key not found in environment variables: "@ + cause@,
    {
        match self {
            AppError::EnvLoadError(cause) => "Error loading .env file (".to_owned().concat(
                cause.as_str(),
            ).concat(
                ").\nPlease create a .env file in the project root directory with the following content:\nOPENAI_KEY=your-api-key\n",
            ),
            AppError::ApiKeyMissing(cause) => "OpenAI API key not found in environment variables: ".to_owned().concat(
                cause.as_str(),
            ),
        }
    }
}

} // verus!
