//! Which diagnostic sink a run uses, and the file that a file sink writes to.

use vstd::prelude::*;

use std::path::PathBuf;

verus! {

#[verifier::external_type_specification]
#[verifier::external_body]
pub struct ExPathBuf(PathBuf);

/// Relies on `PathBuf`'s `Clone`: the copy is the same path.
pub assume_specification[ <PathBuf as Clone>::clone ](p: &PathBuf) -> (r: PathBuf)
    ensures
        r == *p,
;

/// A diagnostic sink that writes each event to one file, replacing what the
/// file held. This is the file it writes to; the writing is done where files
/// can be opened.
pub struct FileDebugLogger {
    file_path: PathBuf,
}

impl FileDebugLogger {
    /// A sink that writes to `file`.
    pub fn new(file: &PathBuf) -> (r: FileDebugLogger)
        ensures
            r.path() == *file,
    {
        FileDebugLogger { file_path: file.clone() }
    }

    pub closed spec fn path(&self) -> PathBuf {
        self.file_path
    }

    /// The file written to.
    pub fn file_path(&self) -> (r: &PathBuf)
        ensures
            *r == self.path(),
    {
        &self.file_path
    }
}


/// The diagnostic sink of a run.
pub enum DebugSink {
    /// Diagnostics are off: nothing is emitted and tracing is inactive.
    Silent,
    /// Each event is printed on standard output.
    Stdout,
    /// Each event is written to a file.
    File(FileDebugLogger),
}

/// Chooses the sink: none unless debugging is asked for; then the file where
/// one is given, standard output otherwise.
pub fn build_debug_logger(debug: bool, debug_file: Option<&PathBuf>) -> (r: DebugSink)
    ensures
        !debug ==> r is Silent,
        debug && debug_file is None ==> r is Stdout,
        debug ==> (debug_file matches Some(p) ==> (r matches DebugSink::File(l) && l.path() == *p)),
{
    if debug {
        match debug_file {
            Some(p) => DebugSink::File(FileDebugLogger::new(p)),
            None => DebugSink::Stdout,
        }
    } else {
        DebugSink::Silent
    }
}

} // verus!
