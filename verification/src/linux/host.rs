//! The name of a Linux host.

use crate::bluetooth::discovery::text_of;
use vstd::prelude::*;
use vstd::string::*;

verus! {

/// The name that stands for a host whose name cannot be found: `unknown`.
pub open spec fn unknown() -> Seq<char> {
    seq!['u', 'n', 'k', 'n', 'o', 'w', 'n']
}

/// The name a host goes by, given what the system reported.
pub open spec fn hostname_from(reported: Option<Seq<char>>) -> Seq<char> {
    match reported {
        Some(name) => name,
        None => unknown(),
    }
}

/// The error of the operating system, as `std::io` carries it.
#[verifier::external_type_specification]
#[verifier::external_body]
pub struct ExSystemError(std::io::Error);

/// `whoami::fallible::hostname` of the `whoami` crate. Nothing is claimed of
/// the result: it is what the system says.
#[verifier::external_body]
fn system_hostname() -> (reported: Result<String, std::io::Error>) {
    whoami::fallible::hostname()
}

/// Settles on the name a host goes by, given what the system reported.
pub fn hostname_or_unknown(reported: Option<String>) -> (name: String)
    ensures
        name@ == hostname_from(text_of(reported)),
{
    match reported {
        Some(name) => name,
        None => {
            proof {
                reveal_strlit("unknown");
                assert("unknown"@ =~= unknown());
            }
            String::from_str("unknown")
        },
    }
}

/// The name of this host: what the system reports, or `unknown` where it
/// reports nothing.
pub fn get_hostname() -> (name: String)
    ensures
        exists|reported: Option<Seq<char>>| name@ == #[trigger] hostname_from(reported),
{
    let reported = match system_hostname() {
        Ok(name) => Some(name),
        Err(_) => None,
    };
    let name = hostname_or_unknown(reported);
    assert(name@ == hostname_from(text_of(reported)));
    name
}

} // verus!
