use vstd::prelude::*;
use vstd::string::*;

verus! {

/// The service names accepted on the command line, as shown to the user.
pub const POSSIBLE_MICROSERVICE_ARGS: &'static str = "Peach_Oled, Peach_Network, Peach_Stats, Peach_Menu";

/// Why the services to probe could not be selected.
pub enum PeachProbeParseError {
    /// `arg` names no service the probe knows of.
    InvalidMicroservice { arg: String },
}

/// The text shown for an argument that names no known service.
pub open spec fn invalid_microservice_text(arg: Seq<char>) -> Seq<char> {
    "'"@ + arg + "' is not one of the microservice options for peach-probe. [possible values: "@
        + POSSIBLE_MICROSERVICE_ARGS@ + "]"@
}

impl PeachProbeParseError {
    /// The message that explains the error to the user.
    pub fn message(&self) -> (r: String)
        ensures
            r@ == match self {
                PeachProbeParseError::InvalidMicroservice { arg } => invalid_microservice_text(arg@),
            },
    {
        match self {
            PeachProbeParseError::InvalidMicroservice { arg } => {
                let mut r = String::from_str("'");
                r.append(arg.as_str());
                r.append("' is not one of the microservice options for peach-probe. [possible values: ");
                r.append(POSSIBLE_MICROSERVICE_ARGS);
                r.append("]");
                r
            },
        }
    }
}

} // verus!
