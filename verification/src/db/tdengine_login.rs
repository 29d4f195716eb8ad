//! The login details of a TDengine server, given on the command line or read from the
//! environment.
use vstd::prelude::*;

use crate::text::{chars_of, decimal, parse_unsigned, parses_unsigned, push_decimal, unsigned_value};

verus! {

broadcast use vstd::string::group_string_axioms;

/// `dotenv::var`: the value of a variable of the process environment, after the `.env` file of
/// the working directory has been loaded into the environment once; `None` where the variable is
/// not set or not valid unicode. What it returns depends on the environment and on the files of
/// the machine, so nothing is stated of it.
#[verifier::external_body]
fn env_var(name: &str) -> (res: Option<String>) {
    dotenv::var(name).ok()
}

/// Whether a text is a port number, as `str::parse::<u32>` reads one.
pub open spec fn is_port_text(s: Seq<char>) -> bool {
    parses_unsigned(s, u32::MAX as int)
}

/// Reads a port number, as `str::parse::<u32>` does.
pub fn parse_port(s: &str) -> (res: Option<u32>)
    ensures
        res.is_some() == is_port_text(s@),
        res matches Some(p) ==> p as int == unsigned_value(s@),
{
    let chars = chars_of(s);
    match parse_unsigned(&chars, u32::MAX as u64) {
        Some(v) => Some(v as u32),
        None => None,
    }
}

/// The text given, or else the value of its environment variable.
pub open spec fn chosen_text(given: Option<String>, variable: Option<String>) -> Option<Seq<char>> {
    match given {
        Some(g) => Some(g@),
        None => match variable {
            Some(v) => Some(v@),
            None => None,
        },
    }
}

/// The port given, or else the port that its environment variable holds.
pub open spec fn chosen_port(given: Option<u32>, variable: Option<String>) -> Option<u32> {
    match given {
        Some(g) => Some(g),
        None => match variable {
            Some(v) => if is_port_text(v@) {
                Some(unsigned_value(v@) as u32)
            } else {
                None
            },
            None => None,
        },
    }
}

/// The value of the environment variable `name`, where no value is given.
fn variable_unless_given<T>(given: &Option<T>, name: &str) -> (res: Option<String>)
    ensures
        given.is_some() ==> res.is_none(),
{
    match given {
        Some(_) => None,
        None => env_var(name),
    }
}

/// The connection address of a server at a host and port: the host, a colon and the port.
pub open spec fn login_url(host: Seq<char>, port: u32) -> Seq<char> {
    host + ":"@ + decimal(port as nat)
}

/// The connection address, the credentials and the database of a TDengine server.
pub struct TDEngineLogin {
    url: String,
    database: String,
    user: String,
    password: String,
}

impl TDEngineLogin {
    /// The connection address.
    pub closed spec fn url(&self) -> Seq<char> {
        self.url@
    }

    /// The database name.
    pub closed spec fn database(&self) -> Seq<char> {
        self.database@
    }

    /// The user name.
    pub closed spec fn user(&self) -> Seq<char> {
        self.user@
    }

    /// The password.
    pub closed spec fn password(&self) -> Seq<char> {
        self.password@
    }

    /// The login of a server at the given host and port, with the given credentials and database.
    pub fn from_values(host: String, port: u32, user: String, password: String, database: String) -> (res:
        Self)
        ensures
            res.url() == login_url(host@, port),
            res.user() == user@,
            res.password() == password@,
            res.database() == database@,
    {
        let mut url = host;
        url.append(":");
        push_decimal(&mut url, port as u64);
        TDEngineLogin { url, database, user, password }
    }

    /// Builds the login from the values given and, for each one not given, the value of its
    /// environment variable: the host from `url_var`, the port from `port_var`, the user from
    /// `user_var`, the password from `password_var` and the database from `database_var`. Where a
    /// value is neither given nor set, or the port variable does not hold a port number, there is
    /// no login.
    pub fn from_values_or_variables(
        url: &Option<String>,
        port: &Option<u32>,
        user: &Option<String>,
        password: &Option<String>,
        database: &Option<String>,
        url_var: Option<String>,
        port_var: Option<String>,
        user_var: Option<String>,
        password_var: Option<String>,
        database_var: Option<String>,
    ) -> (res: Option<Self>)
        ensures
            res.is_some() == (chosen_text(*url, url_var).is_some() && chosen_port(
                *port,
                port_var,
            ).is_some() && chosen_text(*user, user_var).is_some() && chosen_text(
                *password,
                password_var,
            ).is_some() && chosen_text(*database, database_var).is_some()),
            res matches Some(l) ==> {
                &&& l.url() == login_url(
                    chosen_text(*url, url_var).unwrap(),
                    chosen_port(*port, port_var).unwrap(),
                )
                &&& l.user() == chosen_text(*user, user_var).unwrap()
                &&& l.password() == chosen_text(*password, password_var).unwrap()
                &&& l.database() == chosen_text(*database, database_var).unwrap()
            },
    {
        let host = match url {
            Some(g) => Some(g.clone()),
            None => url_var,
        };
        let port = match port {
            Some(g) => Some(*g),
            None => match port_var {
                Some(text) => parse_port(text.as_str()),
                None => None,
            },
        };
        let user = match user {
            Some(g) => Some(g.clone()),
            None => user_var,
        };
        let password = match password {
            Some(g) => Some(g.clone()),
            None => password_var,
        };
        let database = match database {
            Some(g) => Some(g.clone()),
            None => database_var,
        };
        match (host, port, user, password, database) {
            (Some(h), Some(p), Some(u), Some(w), Some(d)) => {
                let ghost hv = h@;
                let login = Self::from_values(h, p, u, w, d);
                assert(login.url() == login_url(hv, p));
                Some(login)
            },
            _ => None,
        }
    }

    /// Builds the login from the values given, reading each one that is not given from the
    /// environment: the host from `TDENGINE_URL`, the port from `TDENGINE_PORT`, the user from
    /// `TDENGINE_USER`, the password from `TDENGINE_PASSWORD` and the database from
    /// `TDENGINE_DATABASE`. Where such a variable is not set, or the port variable does not hold a
    /// port number, there is no login.
    pub fn from_optional(
        url: &Option<String>,
        port: &Option<u32>,
        user: &Option<String>,
        password: &Option<String>,
        database: &Option<String>,
    ) -> (res: Option<Self>)
        ensures
            url.is_some() && port.is_some() && user.is_some() && password.is_some()
                && database.is_some() ==> res.is_some(),
            res matches Some(l) ==> exists|host: Seq<char>, p: u32|
                l.url() == login_url(host, p) && (url matches Some(u) ==> host == u@) && (
                port matches Some(q) ==> p == q),
            res matches Some(l) ==> (user matches Some(u) ==> l.user() == u@),
            res matches Some(l) ==> (password matches Some(w) ==> l.password() == w@),
            res matches Some(l) ==> (database matches Some(d) ==> l.database() == d@),
    {
        let url_var = variable_unless_given(url, "TDENGINE_URL");
        let port_var = variable_unless_given(port, "TDENGINE_PORT");
        let user_var = variable_unless_given(user, "TDENGINE_USER");
        let password_var = variable_unless_given(password, "TDENGINE_PASSWORD");
        let database_var = variable_unless_given(database, "TDENGINE_DATABASE");
        let ghost (uv, pv) = (url_var, port_var);
        let res = Self::from_values_or_variables(
            url,
            port,
            user,
            password,
            database,
            url_var,
            port_var,
            user_var,
            password_var,
            database_var,
        );
        proof {
            if res is Some {
                let l = res.unwrap();
                assert(l.url() == login_url(chosen_text(*url, uv).unwrap(), chosen_port(*port, pv).unwrap()));
            }
        }
        res
    }

    /// The login of a server at the given host and port, the port given as text.
    pub fn from_texts(host: String, port: &str, user: String, password: String, database: String) -> (res:
        Self)
        ensures
            res.url() == host@ + ":"@ + port@,
            res.user() == user@,
            res.password() == password@,
            res.database() == database@,
    {
        let mut url = host;
        url.append(":");
        url.append(port);
        TDEngineLogin { url, database, user, password }
    }

    /// The login made of the values of the variables `TDENGINE_URL`, `TDENGINE_PORT`,
    /// `TDENGINE_DATABASE`, `TDENGINE_USER` and `TDENGINE_PASSWORD`, given in that order: the host
    /// and the port joined by a colon, and the database, user and password as they are. Where one
    /// of them is missing, there is no login.
    pub fn from_variables(
        host: Option<String>,
        port: Option<String>,
        database: Option<String>,
        user: Option<String>,
        password: Option<String>,
    ) -> (res: Option<Self>)
        ensures
            res.is_some() == (host.is_some() && port.is_some() && database.is_some()
                && user.is_some() && password.is_some()),
            res matches Some(l) ==> l.url() == host.unwrap()@ + ":"@ + port.unwrap()@
                && l.database() == database.unwrap()@ && l.user() == user.unwrap()@
                && l.password() == password.unwrap()@,
    {
        match (host, port, database, user, password) {
            (Some(h), Some(p), Some(d), Some(u), Some(w)) => {
                Some(Self::from_texts(h, p.as_str(), u, w, d))
            },
            _ => None,
        }
    }

    /// The login read from the environment alone: `TDENGINE_URL` and `TDENGINE_PORT` joined by a
    /// colon, and the database, user and password from `TDENGINE_DATABASE`, `TDENGINE_USER` and
    /// `TDENGINE_PASSWORD`. Where one of them is not set, there is no login.
    pub fn from_environment() -> (res: Option<Self>)
        ensures
            res matches Some(l) ==> exists|host: Seq<char>, port: Seq<char>|
                l.url() == host + ":"@ + port,
    {
        let host = env_var("TDENGINE_URL");
        let port = env_var("TDENGINE_PORT");
        let database = env_var("TDENGINE_DATABASE");
        let user = env_var("TDENGINE_USER");
        let password = env_var("TDENGINE_PASSWORD");
        let ghost hv = host;
        let ghost pv = port;
        let res = Self::from_variables(host, port, database, user, password);
        proof {
            if res is Some {
                assert(res.unwrap().url() == hv.unwrap()@ + ":"@ + pv.unwrap()@);
            }
        }
        res
    }

    /// The connection address.
    pub fn get_url(&self) -> (res: &str)
        ensures
            res@ == self.url(),
    {
        self.url.as_str()
    }

    /// The database name.
    pub fn get_database(&self) -> (res: &str)
        ensures
            res@ == self.database(),
    {
        self.database.as_str()
    }
}

} // verus!
