use vstd::prelude::*;

verus! {

/// Where the process keeps its store, where it listens, and the public domain
/// that feed links point to.
#[derive(Debug)]
pub struct Config {
    pub database_url: String,
    pub listen_addr: String,
    pub domain: String,
}

/// The value given, or the default.
pub open spec fn or_default(v: Option<String>, default: Seq<char>) -> Seq<char> {
    match v {
        Some(s) => s@,
        None => default,
    }
}

fn take_or(v: Option<String>, default: &str) -> (r: String)
    ensures
        r@ == or_default(v, default@),
{
    match v {
        Some(s) => s,
        None => default.to_owned(),
    }
}

impl Config {
    /// The configuration from the values that were set: a local SQLite file
    /// for the store, port 3000 on every interface, and the domain
    /// `localhost`, where nothing was set.
    pub fn resolve(
        database_url: Option<String>,
        listen_port: Option<String>,
        listen_iface: Option<String>,
        domain: Option<String>,
    ) -> (r: Config)
        ensures
            r.database_url@ == or_default(database_url, "sqlite:db.sqlite"@),
            r.listen_addr@ == or_default(listen_iface, "0.0.0.0"@) + ":"@ + or_default(
                listen_port,
                "3000"@,
            ),
            r.domain@ == or_default(domain, "localhost"@),
    {
        let database_url = take_or(database_url, "sqlite:db.sqlite");
        let port = take_or(listen_port, "3000");
        let mut listen_addr = take_or(listen_iface, "0.0.0.0");
        listen_addr.append(":");
        listen_addr.append(port.as_str());
        let domain = take_or(domain, "localhost");
        Config { database_url, listen_addr, domain }
    }
}

} // verus!
