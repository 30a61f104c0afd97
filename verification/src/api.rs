//! What a connected client is handed: its own authentication state, and
//! views of the shared state that act in the name of whoever logged in.

use crate::access::{Permissions, PermissionsProvider};
use crate::auth::Authentication;
use crate::machine::Machines;
use vstd::prelude::*;

verus! {

/// The starting point of a connection.
pub struct Bootstrap {
    auth: Authentication,
}

impl Bootstrap {
    /// The state of a new connection: nobody has logged in.
    pub fn new() -> (client: Bootstrap)
        ensures
            client.identity() is None,
    {
        Bootstrap { auth: Authentication::new() }
    }

    /// The identity that the connection has negotiated, if any.
    pub closed spec fn identity(&self) -> Option<Seq<char>> {
        self.auth.identity()
    }

    /// The connection's authentication state, to log in on.
    pub fn authentication(&mut self) -> (auth: &mut Authentication)
        ensures
            auth.identity() == old(self).identity(),
            final(self).identity() == final(auth).identity(),
    {
        &mut self.auth
    }

    /// The checks that the connection's identity is put to.
    pub fn permissions<'a>(&'a self, provider: &'a PermissionsProvider) -> (perm: Permissions<'a>)
        ensures
            perm.identity() == self.identity(),
            perm.engine() == provider.engine(),
    {
        Permissions::new(provider, &self.auth)
    }

    /// The machines as the connection's identity may use them.
    pub fn machines<'a>(&'a self, provider: &'a PermissionsProvider) -> (machines: Machines<'a>)
        ensures
            machines.identity() == self.identity(),
            machines.engine() == provider.engine(),
    {
        Machines::new(Permissions::new(provider, &self.auth))
    }
}

} // verus!
