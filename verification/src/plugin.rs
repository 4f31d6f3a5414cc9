//! Plugins: their descriptors, where their files live, and the changes to
//! them that are made while the wrapper is down.

use crate::text::{ends_with, has_suffix, join, joined, replaced};
use crate::worker::{WorkerRole, WRAPPER_CHILD_NAME};
use vstd::prelude::*;
use vstd::string::*;

verus! {

/// The number type of serde_json. The library carries such a number from a
/// descriptor to the front end and never looks into it.
#[verifier::external_type_specification]
#[verifier::external_body]
pub struct ExNumber(serde_json::Number);

/// What a plugin's descriptor says of the plugin.
#[derive(Debug, PartialEq, Eq)]
pub struct PluginItem {
    /// The plugin's name.
    pub name: String,
    /// The privilege level that the plugin asks for.
    pub privilege: serde_json::Number,
    /// The name of the file that the descriptor was read from.
    pub filename: Option<String>,
}

/// A [`PluginItem`] with its texts as sequences of characters.
pub struct PluginItemView {
    pub name: Seq<char>,
    pub privilege: serde_json::Number,
    pub filename: Option<Seq<char>>,
}

impl View for PluginItem {
    type V = PluginItemView;

    open spec fn view(&self) -> PluginItemView {
        PluginItemView {
            name: self.name@,
            privilege: self.privilege,
            filename: match self.filename {
                Some(filename) => Some(filename@),
                None => None,
            },
        }
    }
}

/// The directories that hold the plugins' files.
pub struct PluginDirs {
    /// The directory of the descriptors.
    pub conf_dir: String,
    /// The directory of the plugin libraries.
    pub bin_dir: String,
}

/// Whether a file of this name is a plugin descriptor: its extension is
/// `json`. A name that is nothing but `.json` has no extension.
pub open spec fn is_descriptor_name(file_name: Seq<char>) -> bool {
    has_suffix(file_name, ".json"@) && file_name.len() > ".json"@.len()
}

/// Tells whether a file of this name is a plugin descriptor.
pub fn is_descriptor(file_name: &str) -> (yes: bool)
    ensures
        yes == is_descriptor_name(file_name@),
{
    ends_with(file_name, ".json") && file_name.unicode_len() > ".json".unicode_len()
}

/// The lowercase equivalent of a text, as the Unicode standard defines it.
pub uninterp spec fn lowercase(text: Seq<char>) -> Seq<char>;

/// `str::to_lowercase` of the standard library.
///
/// Taken on trust: the result is the lowercase equivalent of `text`, a
/// function of the text alone.
#[verifier::external_body]
fn lowercase_of(text: &str) -> (lower: String)
    ensures
        lower@ == lowercase(text@),
{
    text.to_lowercase()
}

/// The text of a descriptor as it is parsed: all in lowercase, keys and
/// values alike.
pub fn descriptor_text(data: &str) -> (text: String)
    ensures
        text@ == lowercase(data@),
{
    lowercase_of(data)
}

/// The name of the library that belongs to a descriptor: every `.json` in
/// the descriptor's name becomes `.dll`.
pub open spec fn library_name(descriptor_name: Seq<char>) -> Seq<char> {
    replaced(descriptor_name, ".json"@, ".dll"@)
}

/// Where an uploaded file is stored: a file whose name ends in `.dll` goes
/// to the directory of the libraries, any other to that of the descriptors.
pub open spec fn upload_path(conf_dir: Seq<char>, bin_dir: Seq<char>, file_name: Seq<char>) -> Seq<
    char,
> {
    if has_suffix(file_name, ".dll"@) {
        joined(bin_dir, file_name)
    } else {
        joined(conf_dir, file_name)
    }
}

impl PluginDirs {
    /// Where an uploaded file of this name is stored.
    pub fn upload_path(&self, file_name: &str) -> (path: String)
        ensures
            path@ == upload_path(self.conf_dir@, self.bin_dir@, file_name@),
    {
        if ends_with(file_name, ".dll") {
            join(self.bin_dir.as_str(), file_name)
        } else {
            join(self.conf_dir.as_str(), file_name)
        }
    }
}

/// One change to a file.
#[derive(Debug, PartialEq, Eq)]
pub enum FileOp {
    /// Create the file at `path`, or empty it, and write `contents` to it.
    Write { path: String, contents: Vec<u8> },
    /// Remove the file at `path`.
    Remove { path: String },
}

/// A [`FileOp`] over sequences.
pub enum FileOpView {
    Write { path: Seq<char>, contents: Seq<u8> },
    Remove { path: Seq<char> },
}

impl View for FileOp {
    type V = FileOpView;

    open spec fn view(&self) -> FileOpView {
        match self {
            FileOp::Write { path, contents } => FileOpView::Write { path: path@, contents: contents@ },
            FileOp::Remove { path } => FileOpView::Remove { path: path@ },
        }
    }
}

/// A change to the plugins and how far it has come.
pub struct Change {
    /// The workers that must be down while the change is made.
    pub workers: Seq<Seq<char>>,
    /// The file operations that make up the change, in order.
    pub steps: Seq<FileOpView>,
    /// How many of the steps went through.
    pub done: int,
    /// Why the step after those broke off, if it did.
    pub failure: Option<Seq<char>>,
}

impl Change {
    /// The position of the step to take next, if the change is to go on.
    pub open spec fn pending(self) -> Option<int> {
        if self.failure is None && 0 <= self.done < self.steps.len() {
            Some(self.done)
        } else {
            None
        }
    }

    /// The change after the report on the step that was pending. A step
    /// that went through clears the way for the next; one that failed ends
    /// the change. A report that answers no step changes nothing.
    pub open spec fn after(self, outcome: Result<(), Seq<char>>) -> Change {
        if self.pending() is None {
            self
        } else {
            match outcome {
                Ok(_) => Change { done: self.done + 1, ..self },
                Err(reason) => Change { failure: Some(reason), ..self },
            }
        }
    }

    /// Whether every step went through.
    pub open spec fn complete(self) -> bool {
        self.failure is None && self.done == self.steps.len()
    }
}

/// The first failure is final: a change that has broken off has no step
/// pending, and no report changes it any more.
pub proof fn lemma_failed_change_is_final(change: Change, outcome: Result<(), Seq<char>>)
    requires
        change.failure is Some,
    ensures
        change.pending() is None,
        !change.complete(),
        change.after(outcome) == change,
{
}

/// A change to the plugins' files that is made while workers are down,
/// step by step: the caller performs the pending step and reports on it.
/// The first step that fails ends the change.
pub struct PluginChange {
    workers: Vec<String>,
    steps: Vec<FileOp>,
    done: usize,
    failure: Option<String>,
}

impl View for PluginChange {
    type V = Change;

    closed spec fn view(&self) -> Change {
        Change {
            workers: self.workers@.map_values(|name: String| name@),
            steps: self.steps@.map_values(|op: FileOp| op@),
            done: self.done as int,
            failure: match self.failure {
                Some(reason) => Some(reason@),
                None => None,
            },
        }
    }
}

impl PluginChange {
    #[verifier::type_invariant]
    spec fn well_formed(&self) -> bool {
        self.done <= self.steps@.len()
    }

    /// The change that consists of `steps`, to be made while the wrapper is
    /// down.
    pub fn new(steps: Vec<FileOp>) -> (change: PluginChange)
        ensures
            change@ == (Change {
                workers: seq![WorkerRole::Wrapper.name_spec()],
                steps: steps@.map_values(|op: FileOp| op@),
                done: 0,
                failure: None,
            }),
    {
        let mut workers: Vec<String> = Vec::new();
        workers.push(String::from_str(WRAPPER_CHILD_NAME));
        let change = PluginChange { workers, steps, done: 0, failure: None };
        assert(change@.workers =~= seq![WorkerRole::Wrapper.name_spec()]);
        change
    }

    /// The names of the workers that must be down while the change is made.
    pub fn workers(&self) -> (names: Vec<String>)
        ensures
            names@.map_values(|name: String| name@) == self@.workers,
    {
        let mut names: Vec<String> = Vec::new();
        let mut i: usize = 0;
        while i < self.workers.len()
            invariant
                i <= self.workers@.len(),
                names@.len() == i,
                forall|k: int| 0 <= k < i ==> names@[k]@ == self.workers@[k]@,
            decreases self.workers@.len() - i,
        {
            names.push(self.workers[i].clone());
            i += 1;
        }
        assert(names@.map_values(|name: String| name@) =~= self@.workers);
        names
    }

    /// The step to perform next, if the change is to go on.
    pub fn next_step(&self) -> (step: Option<&FileOp>)
        ensures
            match step {
                Some(op) => self@.pending() matches Some(at) && op@ == self@.steps[at],
                None => self@.pending() is None,
            },
    {
        proof {
            use_type_invariant(self);
        }
        if self.failure.is_none() && self.done < self.steps.len() {
            Some(&self.steps[self.done])
        } else {
            None
        }
    }

    /// Takes note of what came of the pending step.
    pub fn step_done(&mut self, outcome: Result<(), String>)
        ensures
            final(self)@ == old(self)@.after(
                match outcome {
                    Ok(_) => Ok(()),
                    Err(reason) => Err(reason@),
                },
            ),
    {
        proof {
            use_type_invariant(&*self);
        }
        if self.failure.is_none() && self.done < self.steps.len() {
            match outcome {
                Ok(_) => {
                    self.done = self.done + 1;
                },
                Err(reason) => {
                    self.failure = Some(reason);
                },
            }
        }
    }

    /// Whether every step went through.
    pub fn is_complete(&self) -> (complete: bool)
        ensures
            complete == self@.complete(),
    {
        self.failure.is_none() && self.done == self.steps.len()
    }

    /// Why the change broke off, if it did.
    pub fn failure(&self) -> (reason: Option<&String>)
        ensures
            match reason {
                Some(text) => self@.failure == Some(text@),
                None => self@.failure is None,
            },
    {
        self.failure.as_ref()
    }
}

} // verus!
