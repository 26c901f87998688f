//! The project configuration: named environments, each selecting the
//! template, output and assets directories relative to the project root.

use vstd::prelude::*;
use vstd::hash_map::StringHashMap;

verus! {

/// One environment profile: the three directory names, relative to the
/// project root.
pub struct Env {
    pub template_dir: String,
    pub output_dir: String,
    pub assets_dir: String,
}

/// The configuration held by the project's marker file: a mapping from
/// environment name to its profile.
pub struct Config {
    pub environments: StringHashMap<Env>,
}

impl Config {
    /// An empty configuration knowing no environment.
    pub fn new() -> (c: Config)
        ensures
            c.environments@ == Map::<Seq<char>, Env>::empty(),
    {
        Config { environments: StringHashMap::new() }
    }

    /// Adds an environment profile under a name, replacing any profile the
    /// name already had.
    pub fn add_environment(&mut self, name: String, env: Env)
        ensures
            final(self).environments@ == old(self).environments@.insert(name@, env),
    {
        self.environments.insert(name, env);
    }
}

} // verus!
