use vstd::prelude::*;

verus! {

/// Why a call to an endpoint failed, reduced to the three kinds the probe
/// distinguishes. Each kind carries the text of the underlying error so that it
/// can be shown to the user.
pub enum EndpointError {
    /// The service could not be reached (connection, HTTP, timeout).
    Transport { detail: String },
    /// The service answered with an application-level error.
    Protocol { code: i64, detail: String },
    /// The answer could not be decoded into the expected shape.
    Encoding { detail: String },
}

/// The outcome of one endpoint call; a successful value is only a presence.
pub type Outcome = Result<(), EndpointError>;

/// How an endpoint's outcome is judged.
#[derive(Clone, Copy, PartialEq, Eq, Structural, Debug)]
pub enum ProbeMode {
    /// Healthy when the call succeeds.
    Plain,
    /// Healthy only when the call fails with a protocol error of this code.
    AssertError { expected_code: i64 },
}

/// Whether `outcome` counts as healthy under `mode`.
pub open spec fn passes<T>(outcome: Result<T, EndpointError>, mode: ProbeMode) -> bool {
    match mode {
        ProbeMode::Plain => outcome is Ok,
        ProbeMode::AssertError { expected_code } => match outcome {
            Err(EndpointError::Protocol { code, .. }) => code == expected_code,
            _ => false,
        },
    }
}

/// Judges one outcome. The verdict depends on the outcome and the mode alone.
pub fn classify<T>(outcome: &Result<T, EndpointError>, mode: ProbeMode) -> (healthy: bool)
    ensures
        healthy == passes(*outcome, mode),
{
    match mode {
        ProbeMode::Plain => outcome.is_ok(),
        ProbeMode::AssertError { expected_code } => match outcome {
            Err(EndpointError::Protocol { code, .. }) => *code == expected_code,
            _ => false,
        },
    }
}

/// What the probe has to say about one endpoint call, for the user to read.
pub enum Diagnostic {
    /// The endpoint behaved as expected.
    Online { endpoint: String },
    /// A plain endpoint failed with this error.
    Offline { endpoint: String, error: EndpointError },
    /// An endpoint that should have refused with `expected_code` failed in
    /// another way.
    UnexpectedError { endpoint: String, expected_code: i64, error: EndpointError },
    /// An endpoint that should have refused the request succeeded.
    ShouldNotSucceed { endpoint: String },
}

/// `d` is what probing the endpoint `name` in `mode` reports for `outcome`:
/// a healthy outcome is reported only in verbose mode, an unhealthy one always,
/// together with the error that made it unhealthy.
pub open spec fn reports<T>(
    d: Option<Diagnostic>,
    name: Seq<char>,
    mode: ProbeMode,
    outcome: Result<T, EndpointError>,
    verbose: bool,
) -> bool {
    if passes(outcome, mode) {
        if verbose {
            d matches Some(Diagnostic::Online { endpoint }) && endpoint@ == name
        } else {
            d is None
        }
    } else {
        match outcome {
            Ok(_) => d matches Some(Diagnostic::ShouldNotSucceed { endpoint }) && endpoint@ == name,
            Err(e) => match mode {
                ProbeMode::Plain => d matches Some(Diagnostic::Offline { endpoint, error })
                    && endpoint@ == name && error == e,
                ProbeMode::AssertError { expected_code } => d matches Some(
                    Diagnostic::UnexpectedError { endpoint, expected_code: c, error },
                ) && endpoint@ == name && c == expected_code && error == e,
            },
        }
    }
}

} // verus!
