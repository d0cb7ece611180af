//! A definition of the services an app runs, as written in its definition
//! file: each named service has an image and, where left out, port 8080, no
//! environment and no labels.

use vstd::prelude::*;
use std::collections::HashMap;

verus! {

/// The port a service listens on when its definition names none.
pub fn default_port() -> (r: u16)
    ensures
        r == 8080,
{
    8080
}

/// One service of a definition.
pub struct Service {
    pub image: String,
    pub port: u16,
    pub env: HashMap<String, String>,
    pub labels: Vec<String>,
}

impl Service {
    /// A service of `image` with every other field at its default.
    pub fn new(image: String) -> (r: Service)
        ensures
            r.image@ == image@,
            r.port == 8080,
            r.env@.len() == 0,
            r.labels@.len() == 0,
    {
        Service { image, port: default_port(), env: HashMap::new(), labels: Vec::new() }
    }
}

/// The services of an app, by name.
pub struct Definition {
    pub services: HashMap<String, Service>,
}

impl Definition {
    /// A definition with no service, as an empty file reads.
    pub fn new() -> (r: Definition)
        ensures
            r.services@.len() == 0,
    {
        Definition { services: HashMap::new() }
    }
}

} // verus!
