//! A write-once cell for state that is built at startup and then only
//! read, and the service's command-line surface.

use vstd::prelude::*;

verus! {

/// A cell that is initialised exactly once and read afterwards.
///
/// Initialising twice is ruled out by contract rather than by a
/// runtime panic.
pub struct GlobalOnceCell<T> {
    value: Option<T>,
}

impl<T> GlobalOnceCell<T> {
    /// Whether the cell has been initialised.
    pub closed spec fn spec_initialized(self) -> bool {
        self.value is Some
    }

    /// The held value, once initialised.
    pub closed spec fn spec_value(self) -> T
        recommends
            self.spec_initialized(),
    {
        self.value->Some_0
    }

    /// Creates a new empty cell.
    pub fn new() -> (r: Self)
        ensures
            !r.spec_initialized(),
    {
        GlobalOnceCell { value: None }
    }

    /// Check whether the cell is already initialised.
    pub fn is_initialized(&self) -> (r: bool)
        ensures
            r == self.spec_initialized(),
    {
        self.value.is_some()
    }

    /// Initialise the cell; it must not have been initialised before.
    pub fn init(&mut self, value: T)
        requires
            !old(self).spec_initialized(),
        ensures
            final(self).spec_initialized(),
            final(self).spec_value() == value,
    {
        self.value = Some(value);
    }

    /// Read the initialised value.
    pub fn get(&self) -> (r: &T)
        requires
            self.spec_initialized(),
        ensures
            *r == self.spec_value(),
    {
        match &self.value {
            Some(value) => value,
            None => unreached(),
        }
    }
}

/// The service's command line.
#[derive(Debug, Clone)]
pub struct Cli {
    /// The path to the configuration file.
    pub config_path: String,
    /// The chosen subcommand.
    pub command: Command,
}

/// The available subcommands.
#[derive(Debug, Clone)]
pub enum Command {
    /// Start the server.
    Start,
    /// Run the migrations on the persistent store.
    Migrate {
        /// The directory the migration files are located in.
        migrations_dir: String,
    },
}

} // verus!
