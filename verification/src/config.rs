//! The service's settings.
use vstd::prelude::*;

verus! {

/// The service's settings, read from the environment.
pub struct AppConfig {
    pub api_host: String,
    pub api_port: String,
    pub database_url: String,
    pub rust_env: String,
}

/// The settings that have a default, with their defaults.
pub open spec fn defaults_spec() -> Seq<(Seq<char>, Seq<char>)> {
    seq![("api_host"@, "0.0.0.0"@), ("api_port"@, "8000"@), ("rust_env"@, "local"@)]
}

/// The settings that have a default, with their defaults.
pub fn config_defaults() -> (r: Vec<(String, String)>)
    ensures
        r@.len() == defaults_spec().len(),
        forall|i: int|
            0 <= i < r@.len() ==> (#[trigger] r@[i]).0@ == defaults_spec()[i].0 && r@[i].1@
                == defaults_spec()[i].1,
{
    let mut v: Vec<(String, String)> = Vec::new();
    v.push((String::from_str("api_host"), String::from_str("0.0.0.0")));
    v.push((String::from_str("api_port"), String::from_str("8000")));
    v.push((String::from_str("rust_env"), String::from_str("local")));
    v
}

/// Whether settings are also read from a `.env` file: in the `local` environment.
pub fn loads_dotenv(rust_env: &str) -> (r: bool)
    ensures
        r <==> rust_env@ == "local"@,
{
    String::from_str(rust_env) == String::from_str("local")
}

impl AppConfig {
    /// The address the server binds to: `host:port`.
    pub fn bind_address(&self) -> (r: String)
        ensures
            r@ == self.api_host@ + ":"@ + self.api_port@,
    {
        let mut s = self.api_host.clone();
        s.append(":");
        s.append(self.api_port.as_str());
        s
    }
}

} // verus!
