//! A stub authentication service: connect to the database, then log the
//! caller in.

use vstd::prelude::*;

verus! {

/// A caller's credentials.
#[derive(Debug, Clone, PartialEq)]
pub struct Credentials {
    pub username: String,
    pub password: String,
}

#[allow(dead_code)]
enum Status {
    Connected,
    Disconnected,
}

/// The stub database is always reachable.
fn connect_database() -> (status: Status)
    ensures
        status is Connected,
{
    Status::Connected
}

fn login(_creds: Credentials) {
}

/// Authenticate a caller: connect to the database and, once connected, log
/// the credentials in.
pub fn authenticate(creds: Credentials) {
    if let Status::Connected = connect_database() {
        login(creds)
    }
}

} // verus!
