use vstd::prelude::*;
use vstd::string::StringExecFns;

verus! {

/// The name of the database file in the data directory.
pub const DATABASE_FILE: &'static str = "projectlib.db";

/// The address of the database that lies at `path`.
pub fn database_url(path: &str) -> (r: String)
    ensures
        r@ == "sqlite:"@ + path@,
{
    String::from_str("sqlite:").concat(path)
}

/// The answer to a ping: the message, and the name of the package that
/// answers.
pub fn ping_reply(message: &str, package_name: &str) -> (r: String)
    ensures
        r@ == message@ + " :: reply from "@ + package_name@,
{
    String::from_str(message).concat(" :: reply from ").concat(package_name)
}

} // verus!
