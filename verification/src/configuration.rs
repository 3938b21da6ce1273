//! Application settings and the run-time environment switch.
//!
//! Loading these from configuration files and process variables is the
//! host program's concern; the types and the environment-name logic
//! live here.

use vstd::prelude::*;
use vstd::string::StringExecFns;

verus! {

/// Everything the process needs at start-up.
pub struct Settings {
    pub application: ApplicationSettings,
}

/// Where the server listens and where uploads are stored.
///
/// `storage_path` is the trusted storage root: operator-configured,
/// non-empty, never derived from caller input.
pub struct ApplicationSettings {
    pub port: u16,
    pub host: String,
    pub storage_path: String,
}

/// The named environment a configuration profile is loaded for.
#[derive(Clone, Copy, PartialEq, Eq, Structural, Debug)]
pub enum Environment {
    Local,
    Production,
}

/// The canonical spelling of each environment.
pub open spec fn spec_environment_name(e: Environment) -> Seq<char> {
    match e {
        Environment::Local => "local"@,
        Environment::Production => "production"@,
    }
}

impl Environment {
    /// The canonical spelling of this environment.
    pub fn as_str(&self) -> (r: &str)
        ensures
            r@ == spec_environment_name(*self),
    {
        match self {
            Environment::Local => "local",
            Environment::Production => "production",
        }
    }

    /// Parse an environment from its canonical spelling; any other
    /// spelling is reported back in the error message.
    pub fn try_from(value: String) -> (r: Result<Environment, String>)
        ensures
            value@ == "local"@ ==> r == Ok::<Environment, String>(Environment::Local),
            value@ == "production"@ ==> r == Ok::<Environment, String>(Environment::Production),
            !(value@ == "local"@) && !(value@ == "production"@) ==> (r matches Err(m) && m@
                == value@ + " is not a valid environment. Use local or production"@),
    {
        proof {
            reveal_strlit("local");
            reveal_strlit("production");
            assert("local"@.len() == 5);
            assert("production"@.len() == 10);
        }
        if value.eq(&String::from_str("local")) {
            Ok(Environment::Local)
        } else if value.eq(&String::from_str("production")) {
            Ok(Environment::Production)
        } else {
            Err(value.concat(" is not a valid environment. Use local or production"))
        }
    }
}

} // verus!
