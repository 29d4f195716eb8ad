//! The login details of a TDengine broker.
use vstd::prelude::*;

use super::error::EVError;
use super::wrapper::{opt_view, spec_url, tdengine_url};

verus! {

broadcast use vstd::string::group_string_axioms;

/// The connection address and the database of a TDengine broker.
#[derive(Debug)]
pub struct TDEngineLogin {
    url: String,
    database: String,
}

impl TDEngineLogin {
    /// The connection address.
    pub closed spec fn url(&self) -> Seq<char> {
        self.url@
    }

    /// The database name.
    pub closed spec fn database(&self) -> Seq<char> {
        self.database@
    }

    /// Builds the login from the broker address, the optional credentials and the database. The
    /// broker and the database must be given; the credentials go into the address only where
    /// both are given.
    pub fn from_optional(
        broker: Option<String>,
        user: Option<String>,
        password: Option<String>,
        database: Option<String>,
    ) -> (res: Result<Self, EVError>)
        ensures
            broker.is_none() ==> (res matches Err(EVError::NotFound(s)) && s@ == "TDEngine Broker"@),
            broker.is_some() && database.is_none() ==> (res matches Err(EVError::NotFound(s)) && s@
                == "TDEngine Database"@),
            broker.is_some() && database.is_some() ==> (res matches Ok(login) && login.url()
                == spec_url(broker.unwrap()@, opt_view(user), opt_view(password))
                && login.database() == database.unwrap()@),
    {
        let broker = match broker {
            Some(b) => b,
            None => {
                return Err(EVError::NotFound("TDEngine Broker"));
            },
        };
        let url = tdengine_url(broker.as_str(), &user, &password);
        let database = match database {
            Some(d) => d,
            None => {
                return Err(EVError::NotFound("TDEngine Database"));
            },
        };
        Ok(TDEngineLogin { url, database })
    }

    /// The connection address.
    pub fn get_url(&self) -> (res: &str)
        ensures
            res@ == self.url(),
    {
        self.url.as_str()
    }

    /// The database name.
    pub fn get_database(&self) -> (res: &str)
        ensures
            res@ == self.database(),
    {
        self.database.as_str()
    }
}

} // verus!
