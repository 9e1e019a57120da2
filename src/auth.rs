use vstd::prelude::*;

verus! {

/// The signed-in user's credentials.
#[derive(Debug, Clone)]
pub struct Auth {
    pub token: String,
    pub name: String,
}

impl Auth {
    /// Credentials with no user in them, as stored before anyone signs in.
    pub fn empty() -> (a: Auth)
        ensures
            a.token@.len() == 0,
            a.name@.len() == 0,
    {
        Auth { token: String::new(), name: String::new() }
    }

    /// The credentials if they name a user, `None` if the name is empty.
    pub fn signed_in(self) -> (r: Option<Auth>)
        ensures
            self.name@.len() == 0 <==> r is None,
            r matches Some(a) ==> a == self,
    {
        if self.name.as_str().is_empty() {
            None
        } else {
            Some(self)
        }
    }
}

} // verus!
