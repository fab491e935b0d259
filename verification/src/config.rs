use vstd::prelude::*;

verus! {

/// The persisted configuration: a file under the user's home directory whose
/// one field of interest is the stored gist token. The embedding program
/// reads and parses the file; the library only holds the value.
#[derive(Debug)]
pub struct Config {
    pub gist_token: String,
}

/// The token resolution policy: the dedicated environment variable wins, then
/// the general one, then the stored configuration; with none of the three
/// there is no token, and no request can be made.
pub fn resolve_token(
    env_gist_token: Option<String>,
    env_token: Option<String>,
    config: Option<Config>,
) -> (r: Option<String>)
    ensures
        env_gist_token matches Some(t) ==> (r matches Some(u) && u@ == t@),
        env_gist_token is None ==> (match env_token {
            Option::Some(t) => r matches Some(u) && u@ == t@,
            Option::None => match config {
                Option::Some(c) => r matches Some(u) && u@ == c.gist_token@,
                Option::None => r is None,
            },
        }),
{
    match env_gist_token {
        Some(t) => Some(t),
        None => match env_token {
            Some(t) => Some(t),
            None => match config {
                Some(c) => Some(c.gist_token),
                None => None,
            },
        },
    }
}

} // verus!
