//! The routes of the user interface.

use vstd::prelude::*;

verus! {

/// A route of the user interface.
#[derive(Clone, Copy, Debug, PartialEq, Eq, Structural)]
pub enum Routes {
    Loader,
    Settings,
}

impl Routes {
    /// The number of the route.
    pub open spec fn number(self) -> u8 {
        match self {
            Routes::Loader => 0,
            Routes::Settings => 1,
        }
    }

    /// The location of the route.
    pub open spec fn location(self) -> Seq<char> {
        match self {
            Routes::Loader => "/loader"@,
            Routes::Settings => "/settings"@,
        }
    }

    /// The route with the number `id`, if there is one.
    pub fn from_repr(id: u8) -> (r: Option<Routes>)
        ensures
            r matches Some(route) ==> route.number() == id,
            r is None ==> id >= 2,
    {
        match id {
            0 => Some(Routes::Loader),
            1 => Some(Routes::Settings),
            _ => None,
        }
    }

    /// The number of the route.
    pub fn id(&self) -> (r: u8)
        ensures
            r == self.number(),
    {
        match self {
            Routes::Loader => 0,
            Routes::Settings => 1,
        }
    }

    /// The location of the route, as text.
    pub fn text(self) -> (r: String)
        ensures
            r@ == self.location(),
    {
        match self {
            Routes::Loader => String::from_str("/loader"),
            Routes::Settings => String::from_str("/settings"),
        }
    }

    /// The location of the route, as a path.
    pub fn path(self) -> (r: String)
        ensures
            r@ == self.location(),
    {
        self.text()
    }
}

} // verus!
