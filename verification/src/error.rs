use vstd::prelude::*;
use vstd::string::*;

verus! {

/// The structural failures a command can surface. Network failures of the
/// host platform are not modelled here; they stay with the caller that
/// performs the calls.
#[derive(Clone, Debug, PartialEq, Eq)]
pub enum WinstonError {
    /// The operation was invoked outside a guild context.
    NotAGuildChannel,
    /// The channel is not a ticket thread (it has no owner).
    NotAThreadChannel,
    /// The parent forum is missing an expected tag; carries the label that
    /// could not be resolved.
    TagNotFound(String),
}

impl WinstonError {
    /// A user-facing description of the failure.
    pub fn message(&self) -> (r: String)
        ensures
            self is NotAGuildChannel ==> r@ == "not a guild channel"@,
            self is NotAThreadChannel ==> r@ == "not a thread channel"@,
            self matches WinstonError::TagNotFound(l) ==> r@ == "tag not found: "@ + l@,
    {
        match self {
            WinstonError::NotAGuildChannel => "not a guild channel".to_owned(),
            WinstonError::NotAThreadChannel => "not a thread channel".to_owned(),
            WinstonError::TagNotFound(label) => {
                let mut s = "tag not found: ".to_owned();
                s.append(label.as_str());
                s
            },
        }
    }
}

} // verus!
