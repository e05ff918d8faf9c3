//! The plugin marketplace's catalogue: the plugins it offers, each with
//! a name, a source path inside the marketplace repository, and a
//! description. The catalogue itself is read from a JSON file by the
//! surrounding command.

use vstd::prelude::*;

verus! {

/// The marketplace catalogue.
pub struct Marketplace {
    pub plugins: Vec<Plugin>,
}

/// One plugin offered by the marketplace.
#[derive(Clone)]
pub struct Plugin {
    pub name: String,
    pub source: String,
    pub description: String,
}

} // verus!
