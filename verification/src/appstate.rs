use vstd::prelude::*;

verus! {

/// Process-wide configuration, constructed once at startup and passed
/// explicitly into the components: the token-signing secret and the blob
/// store's root directory. Connection pools and cookie keys live with the
/// boundary that owns them.
pub struct Appstate {
    pub jwt_secret: String,
    pub file_location: String,
}

impl Appstate {
    pub fn new(jwt_secret: String, file_location: String) -> (s: Appstate)
        ensures
            s.jwt_secret@ == jwt_secret@,
            s.file_location@ == file_location@,
    {
        Appstate { jwt_secret, file_location }
    }
}

} // verus!
