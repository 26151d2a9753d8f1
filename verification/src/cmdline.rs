//! Command-line arguments and the path enumerator.
//!
//! The enumerator yields, in the user's order, each argument that is a
//! regular file, followed by — for each argument that is a directory —
//! the regular files listed at its top level, without recursion. It is a
//! state machine: the caller asks for the next candidate path, checks it
//! against the filesystem, and reports what it found; entries that cannot
//! be checked are skipped.

use vstd::prelude::*;

verus! {

/// The engine-visible command line: how many images to preload around the
/// cursor, a memory bound for preloading, the optional mark directory,
/// the paths to display, and the logging verbosity.
#[derive(Debug, Clone)]
pub struct Args {
    pub preload_count: u32,
    pub preload_memory: u64,
    pub mark_directory: Option<String>,
    pub filenames: Vec<String>,
    pub verbose: u8,
}

impl Default for Args {
    /// The defaults: preload 100 images within 20 GiB, no mark directory,
    /// the current directory as the only path.
    fn default() -> (r: Args)
        ensures
            r.preload_count == 100,
            r.preload_memory == 0x5_0000_0000u64,
            r.mark_directory is None,
            r.filenames@.len() == 1,
            r.verbose == 0,
    {
        let mut filenames: Vec<String> = Vec::new();
        filenames.push(String::from_str("."));
        Args {
            preload_count: 100,
            preload_memory: 0x5_0000_0000u64,
            mark_directory: None,
            filenames,
            verbose: 0,
        }
    }
}

/// What a filesystem check found at a candidate path.
#[derive(Debug, Copy, Clone, PartialEq, Eq, Structural)]
pub enum PathInfo {
    /// A regular file.
    File,
    /// A directory.
    Directory,
    /// Anything else, or the check failed.
    Unknown,
}

/// A candidate path waiting for its filesystem check; `top_level` marks a
/// path taken from the arguments rather than from a directory listing.
#[derive(Debug, Clone)]
pub struct Pending {
    pub path: String,
    pub top_level: bool,
}

/// The path enumerator's state: the remaining arguments, the remaining
/// entries of the directory currently being expanded, the candidate
/// whose check is outstanding, and the shutdown flag.
#[derive(Debug)]
pub struct Filenames {
    pub filenames: Vec<String>,
    pub next_arg: usize,
    pub dir_filenames: Option<Vec<String>>,
    pub next_dir: usize,
    pub pending: Option<Pending>,
    pub shutdown: bool,
}

/// The enumerator after asking for the next candidate, and that
/// candidate: after shutdown there is none; entries of the directory
/// being expanded come first; an exhausted directory listing is dropped
/// and the next argument follows.
pub open spec fn spec_next_path(s: Filenames) -> (Filenames, Option<String>) {
    if s.shutdown {
        (s, None)
    } else if s.dir_filenames is Some && s.next_dir < s.dir_filenames->Some_0.len() {
        let path = s.dir_filenames->Some_0[s.next_dir as int];
        (
            Filenames {
                next_dir: (s.next_dir + 1) as usize,
                pending: Some(Pending { path, top_level: false }),
                ..s
            },
            Some(path),
        )
    } else {
        let s1 = if s.dir_filenames is Some {
            Filenames { dir_filenames: None, next_dir: 0, ..s }
        } else {
            s
        };
        if s1.next_arg < s1.filenames.len() {
            let path = s1.filenames[s1.next_arg as int];
            (
                Filenames {
                    next_arg: (s1.next_arg + 1) as usize,
                    pending: Some(Pending { path, top_level: true }),
                    ..s1
                },
                Some(path),
            )
        } else {
            (s1, None)
        }
    }
}

impl Filenames {
    pub open spec fn inv(&self) -> bool {
        &&& self.next_arg <= self.filenames@.len()
        &&& match self.dir_filenames {
            Some(d) => self.next_dir <= d@.len(),
            None => self.next_dir == 0,
        }
    }

    /// A fresh enumerator over the given paths.
    pub fn new(filenames: Vec<String>) -> (r: Filenames)
        ensures
            r.inv(),
            r.filenames == filenames,
            r.next_arg == 0,
            r.dir_filenames is None,
            r.pending is None,
            !r.shutdown,
    {
        Filenames {
            filenames,
            next_arg: 0,
            dir_filenames: None,
            next_dir: 0,
            pending: None,
            shutdown: false,
        }
    }

    /// The next candidate path to check, which becomes pending; `None`
    /// once the arguments are exhausted or after shutdown.
    pub fn next_path(&mut self) -> (r: Option<String>)
        requires
            old(self).inv(),
            old(self).pending is None,
        ensures
            final(self).inv(),
            *final(self) == spec_next_path(*old(self)).0,
            r == spec_next_path(*old(self)).1,
            r is Some <==> final(self).pending is Some,
    {
        if self.shutdown {
            return None;
        }
        let take_dir = match &self.dir_filenames {
            Some(d) => self.next_dir < d.len(),
            None => false,
        };
        if take_dir {
            let path = match &self.dir_filenames {
                Some(d) => d[self.next_dir].clone(),
                None => String::new(),
            };
            self.next_dir = self.next_dir + 1;
            self.pending = Some(Pending { path: path.clone(), top_level: false });
            return Some(path);
        }
        if self.dir_filenames.is_some() {
            self.dir_filenames = None;
            self.next_dir = 0;
        }
        if self.next_arg < self.filenames.len() {
            let path = self.filenames[self.next_arg].clone();
            self.next_arg = self.next_arg + 1;
            self.pending = Some(Pending { path: path.clone(), top_level: true });
            Some(path)
        } else {
            None
        }
    }

    /// Report what the filesystem check of the pending candidate found.
    /// A regular file is emitted; a directory named on the command line
    /// starts the expansion of its (lexicographically sorted) listing;
    /// a directory inside an expansion, and anything unknown, is
    /// skipped. Returns whether the candidate is emitted.
    pub fn resolve(&mut self, info: PathInfo, listing: Vec<String>) -> (emit: bool)
        requires
            old(self).inv(),
            old(self).pending is Some,
        ensures
            final(self).inv(),
            final(self).pending is None,
            emit == (info == PathInfo::File),
            (info == PathInfo::Directory && old(self).pending->Some_0.top_level) ==> *final(self)
                == (Filenames {
                pending: None,
                dir_filenames: Some(listing),
                next_dir: 0,
                ..*old(self)
            }),
            !(info == PathInfo::Directory && old(self).pending->Some_0.top_level) ==> *final(self)
                == (Filenames { pending: None, ..*old(self) }),
    {
        let top_level = match &self.pending {
            Some(p) => p.top_level,
            None => false,
        };
        self.pending = None;
        match info {
            PathInfo::File => true,
            PathInfo::Directory => {
                if top_level {
                    self.dir_filenames = Some(listing);
                    self.next_dir = 0;
                }
                false
            },
            PathInfo::Unknown => false,
        }
    }

    /// Stop enumerating: every further candidate request returns `None`.
    pub fn set_shutdown(&mut self)
        ensures
            *final(self) == (Filenames { shutdown: true, ..*old(self) }),
    {
        self.shutdown = true;
    }
}

} // verus!
