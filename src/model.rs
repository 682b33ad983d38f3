use vstd::prelude::*;

verus! {

/// Why a login attempt was turned down.
#[derive(Debug, Clone, Copy, PartialEq, Eq, Structural)]
pub enum Reason {
    /// The service rejected the username/password pair.
    InvalidCredentials,
    /// Anything that cannot be classified (another status, an unreadable body).
    Other,
}

/// An authenticated session, as handed out by the service.
#[derive(Debug)]
pub struct LoginResult {
    pub session_id: String,
    pub username: String,
    pub roles: Vec<String>,
}

impl LoginResult {
    /// A session with every field empty.
    pub fn new() -> (r: LoginResult)
        ensures
            r.session_id@ == Seq::<char>::empty(),
            r.username@ == Seq::<char>::empty(),
            r.roles@ == Seq::<String>::empty(),
    {
        LoginResult { session_id: String::new(), username: String::new(), roles: Vec::new() }
    }
}

/// One track of a product.
#[derive(Debug)]
pub struct Song {
    pub title: String,
    pub duration: String,
}

impl Song {
    /// The track as one line of text: title, a space, duration.
    pub fn text(&self) -> (r: String)
        ensures
            r@ == self.title@ + " "@ + self.duration@,
    {
        let mut r = self.title.clone();
        r.append(" ");
        r.append(self.duration.as_str());
        r
    }
}

} // verus!
