//! Services that a server hosts.
use vstd::prelude::*;

verus! {

/// A listening service: a name and the application that serves its connections.
pub struct Service<A> {
    name: String,
    app_logic: A,
}

impl<A> Service<A> {
    /// The name of the service.
    pub closed spec fn name_spec(self) -> Seq<char> {
        self.name@
    }

    /// The application of the service.
    pub closed spec fn app_spec(self) -> A {
        self.app_logic
    }

    /// A new service with the given name and application.
    pub fn new(name: String, app_logic: A) -> (service: Self)
        ensures
            service.name_spec() == name@,
            service.app_spec() == app_logic,
    {
        Service { name, app_logic }
    }

    /// The name of the service.
    pub fn name(&self) -> (name: &str)
        ensures
            name@ == self.name_spec(),
    {
        self.name.as_str()
    }

    /// The application of the service.
    pub fn app_logic(&self) -> (app: &A)
        ensures
            *app == self.app_spec(),
    {
        &self.app_logic
    }
}

} // verus!
