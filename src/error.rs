use vstd::prelude::*;
use vstd::string::*;

verus! {

/// Why the server could not start. Each variant carries the text of the
/// underlying error.
#[derive(Debug)]
pub enum BackendError {
    EnvError(String),
    SqlxError(String),
    SalvoParseError(String),
}

impl BackendError {
    /// The text reported for this error.
    pub fn message(&self) -> (r: String)
        ensures
            match self {
                BackendError::EnvError(m) => r@ == "Environment variable error: "@ + m@,
                BackendError::SqlxError(m) => r@ == "Sqlx error: "@ + m@,
                BackendError::SalvoParseError(m) => r@ == "Salvo parse error: "@ + m@,
            },
    {
        let (mut r, m) = match self {
            BackendError::EnvError(m) => (String::from_str("Environment variable error: "), m),
            BackendError::SqlxError(m) => (String::from_str("Sqlx error: "), m),
            BackendError::SalvoParseError(m) => (String::from_str("Salvo parse error: "), m),
        };
        r.append(m.as_str());
        r
    }

    /// The status code of a reply that carries this error: always 500.
    pub fn status(&self) -> (r: u16)
        ensures
            r == 500,
    {
        500
    }
}

} // verus!
