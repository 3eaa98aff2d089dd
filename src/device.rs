use vstd::prelude::*;

verus! {

/// The device's clock.
pub trait Timer {
    /// Pause the game for `ms` milliseconds.
    fn sleep(&self, ms: u64);

    /// Milliseconds since the device started.
    fn uptime(&self) -> u64;
}

/// The device's file system. A path is a list of components: the root
/// (`roms` or `data`), the directories, and the file name last.
pub trait Storage {
    /// What an opened file is read through.
    type File;

    /// Open a file for reading.
    fn open_file(&self, path: &[&str]) -> Self::File;
}

} // verus!
