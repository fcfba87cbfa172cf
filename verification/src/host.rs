//! The machine's host name, asked of the operating system.

use vstd::prelude::*;

verus! {

/// The error of the operating system's calls, carried through as it comes.
#[verifier::external_type_specification]
#[verifier::external_body]
pub struct ExIoError(std::io::Error);

/// Why a request could not be answered.
#[derive(Clone, Copy, Debug, PartialEq, Eq, Structural)]
pub enum ServeError {
    /// The operating system did not give the machine's host name.
    HostnameUnavailable,
}

/// Asks the operating system for the machine's host name, by `hostname::get`,
/// and hands it on as text, with U+FFFD in place of whatever in it is not
/// Unicode. The contract claims nothing of the answer: the name is whatever the
/// machine is called at the moment of asking, and the call may fail.
#[verifier::external_body]
fn hn() -> (r: Result<String, std::io::Error>) {
    match hostname::get() {
        Ok(name) => Ok(name.to_string_lossy().into_owned()),
        Err(e) => Err(e),
    }
}

/// The host name that the greetings of a service carry: none where the
/// service is configured without one, and else the machine's own, looked up
/// now. Only that lookup can fail.
pub fn resolve_host(include_hostname: bool) -> (r: Result<Option<String>, ServeError>)
    ensures
        !include_hostname ==> r == Ok::<Option<String>, ServeError>(None),
        include_hostname ==> (r matches Ok(host) ==> host is Some),
        r matches Err(e) ==> e == ServeError::HostnameUnavailable,
{
    if include_hostname {
        match hn() {
            Ok(name) => Ok(Some(name)),
            Err(_) => Err(ServeError::HostnameUnavailable),
        }
    } else {
        Ok(None)
    }
}

} // verus!
