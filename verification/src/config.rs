use vstd::prelude::*;

verus! {

/// The endpoints a run watches.
#[derive(Debug, Clone)]
pub struct Config {
    pub endpoints: Vec<Endpoint>,
}

/// One monitored endpoint: a display name, its URL and the HTTP method used to probe it.
#[derive(Debug, Clone)]
pub struct Endpoint {
    pub name: String,
    pub url: String,
    pub method: String,
}

/// The method used when an endpoint does not name one.
pub fn default_method() -> (res: String)
    ensures
        res@ == "GET"@,
{
    proof {
        reveal_strlit("GET");
    }
    String::from_str("GET")
}

} // verus!
