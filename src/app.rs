//! The application state: which panel has focus, whether the program keeps
//! running, and the cursor over the key files.

use std::path::PathBuf;
use crate::logs::{LogPage, LogViewport};
use vstd::prelude::*;

verus! {

/// The two panels that can hold the focus.
#[derive(Debug, Clone, Copy, PartialEq, Eq, Structural)]
pub enum Sections {
    Files,
    Logs,
}

/// The panel that gets the focus after `s`.
pub open spec fn toggled(s: Sections) -> Sections {
    match s {
        Sections::Files => Sections::Logs,
        Sections::Logs => Sections::Files,
    }
}

/// Application.
pub struct App {
    /// Is the application running?
    pub running: bool,
    /// User's at sign files.
    pub at_sign_files: FileSelector,
    /// The selected section.
    pub selected_section: Sections,
    /// Whether to show logs.
    pub show_logs: bool,
    /// Scroll state of the log panel.
    pub log_state: LogViewport,
}

impl App {
    /// The state of a freshly started application: running, the file panel
    /// focused, the log panel shown, and no key files yet.
    pub open spec fn is_initial(&self) -> bool {
        &&& self.running
        &&& self.selected_section == Sections::Files
        &&& self.show_logs
        &&& self.at_sign_files.files@.len() == 0
        &&& self.at_sign_files.selected_index == 0
        &&& self.log_state@ == Seq::<LogPage>::empty()
    }

    /// Constructs a new instance of [`App`].
    pub fn new() -> (r: Self)
        ensures
            r.is_initial(),
    {
        Self::default()
    }

    /// Handles the tick event of the terminal.
    pub fn tick(&self) {
    }

    /// Moves the focus to the other panel.
    pub fn next_section(&mut self)
        ensures
            final(self).selected_section == toggled(old(self).selected_section),
            final(self).running == old(self).running,
            final(self).show_logs == old(self).show_logs,
            final(self).at_sign_files == old(self).at_sign_files,
            final(self).log_state == old(self).log_state,
    {
        self.selected_section = match self.selected_section {
            Sections::Files => Sections::Logs,
            Sections::Logs => Sections::Files,
        };
    }

    /// Set running to false to quit the application.
    pub fn quit(&mut self)
        ensures
            !final(self).running,
            final(self).selected_section == old(self).selected_section,
            final(self).show_logs == old(self).show_logs,
            final(self).at_sign_files == old(self).at_sign_files,
            final(self).log_state == old(self).log_state,
    {
        self.running = false;
    }
}

impl Default for App {
    fn default() -> (r: Self)
        ensures
            r.is_initial(),
    {
        App {
            running: true,
            at_sign_files: FileSelector::default(),
            selected_section: Sections::Files,
            show_logs: true,
            log_state: LogViewport::new(),
        }
    }
}

/// Why a scan of the key directory gave no file list.
#[derive(Debug, PartialEq, Eq)]
pub enum ScanError {
    /// No home directory is known, so there is no key directory to read.
    Configuration,
    /// The key directory could not be read; the message says why.
    Io(String),
}

/// The path `rel` taken from the directory `base`, as std's `Path::join`
/// forms it.
pub uninterp spec fn joined_path(base: Seq<char>, rel: Seq<char>) -> PathBuf;

/// Relies on std::path::Path::join: the path `rel` taken from the directory
/// `base`, which depends on the two arguments alone.
#[verifier::external_body]
fn join_path(base: &str, rel: &str) -> (r: PathBuf)
    ensures
        r == joined_path(base@, rel@),
{
    std::path::Path::new(base).join(rel)
}

/// Where the key files lie, relative to the home directory.
pub const KEYS_DIR: &'static str = ".atsign/keys/";

/// The directory that holds the key files, under the home directory `home`.
/// Without a home directory there is none, and the scan fails as
/// misconfigured.
pub fn key_directory(home: Option<&str>) -> (r: Result<PathBuf, ScanError>)
    ensures
        r is Err <==> home is None,
        r is Err ==> r == Err::<PathBuf, ScanError>(ScanError::Configuration),
        home matches Some(h) ==> r == Ok::<PathBuf, ScanError>(joined_path(h@, KEYS_DIR@)),
{
    match home {
        Some(h) => Ok(join_path(h, KEYS_DIR)),
        None => Err(ScanError::Configuration),
    }
}

/// The key files found in the key directory, in the order the directory
/// listed them, and the cursor over them.
#[derive(Debug)]
pub struct FileSelector {
    pub files: Vec<PathBuf>,
    pub selected_index: usize,
}

/// The cursor after one step forward over `len` files: one further, but never
/// past the last file; unmoved when there are no files.
pub open spec fn next_index(index: nat, len: nat) -> nat {
    if len == 0 {
        index
    } else if index + 1 < len {
        index + 1
    } else {
        (len - 1) as nat
    }
}

/// The cursor after one step back: one lower, but never below the first file.
pub open spec fn previous_index(index: nat) -> nat {
    if index > 0 {
        (index - 1) as nat
    } else {
        0
    }
}

impl Default for FileSelector {
    fn default() -> (r: Self)
        ensures
            r.files@.len() == 0,
            r.selected_index == 0,
    {
        FileSelector { files: Vec::new(), selected_index: 0 }
    }
}

impl FileSelector {
    /// The cursor points at a file, or is zero when there is none.
    pub open spec fn wf(&self) -> bool {
        if self.files@.len() == 0 {
            self.selected_index == 0
        } else {
            self.selected_index < self.files@.len()
        }
    }

    /// Takes in the outcome of a scan of the key directory. A list found
    /// replaces the files wholesale and puts the cursor on the first one; a
    /// failure leaves the selector as it was and is handed back.
    pub fn finish_scan(&mut self, outcome: Result<Vec<PathBuf>, ScanError>) -> (r: Result<
        (),
        ScanError,
    >)
        ensures
            match outcome {
                Ok(files) => {
                    &&& r is Ok
                    &&& final(self).files@ == files@
                    &&& final(self).selected_index == 0
                },
                Err(e) => {
                    &&& r == Err::<(), ScanError>(e)
                    &&& final(self).files@ == old(self).files@
                    &&& final(self).selected_index == old(self).selected_index
                },
            },
            outcome is Ok || old(self).wf() ==> final(self).wf(),
    {
        match outcome {
            Ok(files) => {
                self.files = files;
                self.selected_index = 0;
                Ok(())
            },
            Err(e) => Err(e),
        }
    }

    /// The cursor points at one of the files.
    pub open spec fn has_selection(&self) -> bool {
        self.selected_index < self.files@.len()
    }

    /// The file under the cursor, if the cursor points at one.
    pub fn selected_file(&self) -> (r: Option<&PathBuf>)
        ensures
            r is Some <==> self.has_selection(),
            r is Some ==> *r.unwrap() == self.files@[self.selected_index as int],
    {
        if self.selected_index < self.files.len() {
            Some(&self.files[self.selected_index])
        } else {
            None
        }
    }

    /// Moves the cursor one file forward, stopping on the last file.
    pub fn select_next(&mut self)
        ensures
            final(self).files@ == old(self).files@,
            final(self).selected_index as nat == next_index(
                old(self).selected_index as nat,
                old(self).files@.len(),
            ),
            old(self).files@.len() > 0 ==> final(self).wf(),
            old(self).wf() ==> final(self).wf(),
    {
        let len = self.files.len();
        if len == 0 {
        } else if self.selected_index < len - 1 {
            self.selected_index = self.selected_index + 1;
        } else {
            self.selected_index = len - 1;
        }
    }

    /// Moves the cursor one file back, stopping on the first file.
    pub fn select_previous(&mut self)
        ensures
            final(self).files@ == old(self).files@,
            final(self).selected_index as nat == previous_index(old(self).selected_index as nat),
            old(self).wf() ==> final(self).wf(),
    {
        if self.selected_index > 0 {
            self.selected_index = self.selected_index - 1;
        }
    }
}

/// `select_next` applied `n` times, starting from the cursor `index` over
/// `len` files.
pub open spec fn next_index_times(index: nat, len: nat, n: nat) -> nat
    decreases n,
{
    if n == 0 {
        index
    } else {
        next_index_times(next_index(index, len), len, (n - 1) as nat)
    }
}

/// Over a non-empty list, one step forward from any cursor position lands on
/// a file: never at or past the length of the list.
pub proof fn lemma_next_stays_in_bounds(index: nat, len: nat)
    requires
        len > 0,
    ensures
        next_index(index, len) < len,
{
}

/// One step back from any cursor position never goes below zero, nor past
/// where it started.
pub proof fn lemma_previous_stays_non_negative(index: nat)
    ensures
        previous_index(index) >= 0,
        previous_index(index) <= index,
{
}

/// Stepping forward any number of times from the last file, or from beyond
/// it, leaves the cursor on the last file.
pub proof fn lemma_next_saturates(index: nat, len: nat, n: nat)
    requires
        len > 0,
        index >= len - 1,
        n > 0,
    ensures
        next_index_times(index, len, n) == len - 1,
    decreases n,
{
    if n > 1 {
        lemma_next_saturates(next_index(index, len), len, (n - 1) as nat);
    } else {
        assert(next_index_times(next_index(index, len), len, 0) == next_index(index, len));
    }
}

/// Over a well-formed selector, no file is selected exactly when there are
/// no files.
pub proof fn lemma_no_selection_iff_empty(s: &FileSelector)
    requires
        s.wf(),
    ensures
        !s.has_selection() <==> s.files@.len() == 0,
{
}

/// Moving the focus twice gives it back to the panel that had it.
pub proof fn lemma_toggle_twice(s: Sections)
    ensures
        toggled(toggled(s)) == s,
{
}

} // verus!
