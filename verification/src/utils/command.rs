//! The name of the host.

use vstd::prelude::*;

verus! {

/// The error of an operating system call.
#[verifier::external_type_specification]
#[verifier::external_body]
pub struct ExIoError(std::io::Error);

/// `hostname::get`: the name the operating system gives the host, as text.
/// The name is whatever the machine says at the time of the call, so
/// nothing is claimed of it; a name that is not valid text is an error.
#[verifier::external_body]
pub fn get_hostname() -> (r: Result<String, std::io::Error>) {
    hostname::get()?.into_string().map_err(
        |_| std::io::Error::new(std::io::ErrorKind::Other, "get hostname failed"),
    )
}

/// The name to use for a lookup's result: the name found, or `Unknown`
/// where the lookup failed.
pub open spec fn name_or_unknown(looked_up: Result<String, std::io::Error>) -> Seq<char> {
    match looked_up {
        Ok(name) => name@,
        Err(_) => "Unknown"@,
    }
}

/// The name to use for a lookup's result.
pub fn hostname_or_unknown(looked_up: Result<String, std::io::Error>) -> (r: String)
    ensures
        r@ == name_or_unknown(looked_up),
{
    match looked_up {
        Ok(name) => name,
        Err(_) => "Unknown".to_owned(),
    }
}

/// The name under which the agent reports its host: the configured name
/// where there is one, else the name the operating system gives, else
/// `Unknown`. The operating system is asked only where no name is
/// configured.
pub fn resolve_hostname(override_os_hostname: &Option<String>) -> (r: String)
    ensures
        override_os_hostname matches Some(name) ==> r@ == name@,
{
    match override_os_hostname {
        Some(name) => name.clone(),
        None => hostname_or_unknown(get_hostname()),
    }
}

} // verus!
