//! A minimal, fully in-process variant of the create-user flow: the same
//! construct-then-save shape, with a repository stub that accepts every
//! row and an auxiliary service, wired by plain explicit composition.

use vstd::prelude::*;

verus! {

/// A user of the minimal flow: only a name.
#[derive(Debug)]
pub struct User {
    name: String,
}

impl View for User {
    type V = Seq<char>;

    closed spec fn view(&self) -> Seq<char> {
        self.name@
    }
}

impl User {
    /// A user with the given name, taken as it is.
    pub fn new(name: &str) -> (u: User)
        ensures
            u@ == name@,
    {
        User { name: name.to_owned() }
    }
}

impl PartialEq for User {
    fn eq(&self, other: &User) -> (r: bool) {
        self.name == other.name
    }
}

impl Eq for User {

}

impl vstd::std_specs::cmp::PartialEqSpecImpl for User {
    open spec fn obeys_eq_spec() -> bool {
        true
    }

    open spec fn eq_spec(&self, other: &User) -> bool {
        self@ == other@
    }
}

/// The persistence stub interface of the minimal flow.
pub trait RepositoryInterface: Sized {
    fn save(&self, user: &User) -> (r: Result<(), ()>);
}

/// A repository that accepts every row and keeps nothing.
#[derive(Debug)]
pub struct Repository {}

impl RepositoryInterface for Repository {
    fn save(&self, user: &User) -> (r: Result<(), ()>)
        ensures
            r matches Ok(()),
    {
        Ok(())
    }
}

/// The auxiliary service interface of the minimal flow.
pub trait ServiceInterface: Sized {
    fn get_double(&self) -> usize;
}

/// The concrete service, composed with a repository.
#[derive(Debug)]
pub struct Service<R: RepositoryInterface> {
    repository: R,
}

impl<R: RepositoryInterface> Service<R> {
    /// Plain explicit composition: pass the repository in.
    pub fn new(repository: R) -> Service<R> {
        Service { repository }
    }
}

impl<R: RepositoryInterface> ServiceInterface for Service<R> {
    fn get_double(&self) -> (r: usize)
        ensures
            r == 2,
    {
        2
    }
}

/// The contract of the minimal create-user flow: whenever a user comes
/// back, it carries the given name.
pub trait Interface: Sized {
    fn call(&self, name: &str) -> (r: Result<User, ()>)
        ensures
            r matches Ok(u) ==> u@ == name@,
    ;
}

/// The minimal use case, composed with a repository and a service.
pub struct UseCase<R: RepositoryInterface, S: ServiceInterface> {
    repository: R,
    service: S,
}

impl<R: RepositoryInterface, S: ServiceInterface> UseCase<R, S> {
    /// Plain explicit composition: pass both collaborators in.
    pub fn new(repository: R, service: S) -> UseCase<R, S> {
        UseCase { repository, service }
    }
}

impl<R: RepositoryInterface, S: ServiceInterface> Interface for UseCase<R, S> {
    fn call(&self, name: &str) -> (r: Result<User, ()>) {
        let user = User::new(name);
        match self.repository.save(&user) {
            Ok(()) => Ok(user),
            Err(()) => Err(()),
        }
    }
}

} // verus!
