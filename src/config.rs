//! The configuration record: the credential attached to every request.
use vstd::prelude::*;

verus! {

#[derive(Debug)]
pub struct Config {
    pub api_token: String,
}

impl Config {
    pub fn new(api_token: String) -> (r: Config)
        ensures
            r.api_token == api_token,
    {
        Config { api_token }
    }
}

} // verus!
