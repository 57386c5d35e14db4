//! Display settings and the start-up arguments.
use vstd::prelude::*;

verus! {

/// Which kinds of entries are listed.
#[derive(Clone, Copy, Debug, PartialEq, Eq, Structural)]
pub enum Show {
    All,
    FilesAndDirs,
    FilesOnly,
    DirsOnly,
}

#[derive(Clone, Copy, Debug, PartialEq, Eq, Structural)]
pub enum SortOrder {
    AToZ,
    ZToA,
}

pub struct Config {
    pub show: Show,
    pub sortOrder: SortOrder,
}

/// The setting after `s` in the cycle All, FilesAndDirs, FilesOnly, DirsOnly.
pub open spec fn show_after(s: Show) -> Show {
    match s {
        Show::All => Show::FilesAndDirs,
        Show::FilesAndDirs => Show::FilesOnly,
        Show::FilesOnly => Show::DirsOnly,
        Show::DirsOnly => Show::All,
    }
}

/// The setting before `s` in the same cycle.
pub open spec fn show_before(s: Show) -> Show {
    match s {
        Show::All => Show::DirsOnly,
        Show::DirsOnly => Show::FilesOnly,
        Show::FilesOnly => Show::FilesAndDirs,
        Show::FilesAndDirs => Show::All,
    }
}

impl Config {
    pub fn showNext(&mut self)
        ensures
            final(self).show == show_after(old(self).show),
            final(self).sortOrder == old(self).sortOrder,
    {
        self.show = match self.show {
            Show::All => Show::FilesAndDirs,
            Show::FilesAndDirs => Show::FilesOnly,
            Show::FilesOnly => Show::DirsOnly,
            Show::DirsOnly => Show::All,
        };
    }

    pub fn showPrev(&mut self)
        ensures
            final(self).show == show_before(old(self).show),
            final(self).sortOrder == old(self).sortOrder,
    {
        self.show = match self.show {
            Show::All => Show::DirsOnly,
            Show::DirsOnly => Show::FilesOnly,
            Show::FilesOnly => Show::FilesAndDirs,
            Show::FilesAndDirs => Show::All,
        };
    }
}

/// The start-up arguments: the directory to open, if one was named.
pub struct Args {
    pub dir: Option<String>,
}

/// Why the start-up directory could not be resolved.
pub enum StartError {
    /// The named directory does not exist.
    NotFound(String),
}

/// Picks the directory to open at start-up: the named one where it exists,
/// an error where it does not, and `currentDir` where none was named.
/// `dirExists` tells whether the named directory exists.
pub fn getDirectory(args: &Args, dirExists: bool, currentDir: String) -> (r: Result<String, StartError>)
    ensures
        match args.dir {
            None => r matches Ok(d) && d@ == currentDir@,
            Some(named) => if dirExists {
                r matches Ok(d) && d@ == named@
            } else {
                r matches Err(StartError::NotFound(p)) && p@ == named@
            },
        },
{
    match &args.dir {
        Some(named) => if dirExists {
            Ok(named.clone())
        } else {
            Err(StartError::NotFound(named.clone()))
        },
        None => Ok(currentDir),
    }
}

} // verus!
