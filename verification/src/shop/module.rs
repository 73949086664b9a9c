//! The ShopFlux module: its name, the BFF created once the embedded server
//! is ready, and the digest of its demo passwords.
use vstd::prelude::*;
use crate::digest::{digest_password, password_digest};

verus! {

/// The ShopFlux application module. Its BFF is created, once, for the URL
/// of the embedded server.
pub struct ShopModule {
    bff_server_url: Option<String>,
}

impl ShopModule {
    /// The URL the BFF was created for, if the server is ready.
    pub closed spec fn bff_url(&self) -> Option<Seq<char>> {
        match self.bff_server_url {
            Some(u) => Some(u@),
            None => None,
        }
    }

    /// A module whose BFF is not created yet.
    pub fn new() -> (m: Self)
        ensures
            m.bff_url() is None,
    {
        ShopModule { bff_server_url: None }
    }

    /// The module's name, the prefix of its routes.
    pub fn name(&self) -> (r: &str)
        ensures
            r@ == "shop"@,
    {
        "shop"
    }

    /// The URL the BFF was created for, or `None` before the server is
    /// ready.
    pub fn server_url(&self) -> (r: Option<&str>)
        ensures
            r matches Some(u) ==> self.bff_url() == Some(u@),
            r is None ==> self.bff_url() is None,
    {
        match &self.bff_server_url {
            Some(u) => Some(u.as_str()),
            None => None,
        }
    }

    /// Creates the BFF for `server_url`; a BFF created earlier stays.
    pub fn on_server_ready(&mut self, server_url: &str)
        ensures
            old(self).bff_url() is None ==> final(self).bff_url() == Some(server_url@),
            old(self).bff_url() is Some ==> final(self).bff_url() == old(self).bff_url(),
    {
        if self.bff_server_url.is_none() {
            self.bff_server_url = Some(server_url.to_owned());
        }
    }
}

impl Default for ShopModule {
    /// A module whose BFF is not created yet.
    fn default() -> (m: Self)
        ensures
            m.bff_url() is None,
    {
        ShopModule::new()
    }
}

/// The digest the demo users' passwords are stored under.
pub fn hash_pw(password: &str) -> (r: String)
    ensures
        r@ == password_digest(password),
{
    digest_password(password)
}

} // verus!
