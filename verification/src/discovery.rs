//! Discovery: which entries of the plugins directory are plugins, what
//! their ids are, and how their metadata handshake went.

use crate::text::{ends_with, has_suffix};
use crate::types::{opt_metadata, PluginMetadata, PluginMetadataView};
use vstd::prelude::*;
use vstd::string::{StrSliceExecFns, StringExecFns};

verus! {

/// The extension by which a plugin binary is known.
pub open spec fn plugin_extension() -> Seq<char> {
    ".binary"@
}

/// Whether a file of the plugins directory is a plugin binary: it can be
/// executed and its name ends in `.binary`.
pub fn is_plugin_file(name: &str, executable: bool) -> (b: bool)
    ensures
        b == (executable && ends_with(name@, plugin_extension())),
{
    executable && has_suffix(name, ".binary")
}

/// Where the binary of a plugin lies that is kept in a directory of its
/// own: in that directory, under the directory's name with the extension of
/// a plugin binary.
pub fn binary_in_directory(name: &str) -> (path: String)
    ensures
        path@ == name@ + "/"@ + name@ + plugin_extension(),
{
    String::from_str(name).concat("/").concat(name).concat(".binary")
}

/// The position of the last `.` in `name`, or `-1` if it has none.
pub open spec fn last_dot(name: Seq<char>) -> int
    decreases name.len(),
{
    if name.len() == 0 {
        -1
    } else if name.last() == '.' {
        name.len() - 1
    } else {
        last_dot(name.drop_last())
    }
}

/// The stem of a file name: the name up to its last `.`, or the whole name
/// where it has no `.` or only starts with one.
pub open spec fn stem_of(name: Seq<char>) -> Seq<char> {
    if last_dot(name) <= 0 {
        name
    } else {
        name.take(last_dot(name))
    }
}

/// The plugin id that a directory entry stands for: the name of a
/// directory, the stem of a file.
pub open spec fn candidate_id_of(name: Seq<char>, is_dir: bool) -> Seq<char> {
    if is_dir {
        name
    } else {
        stem_of(name)
    }
}

/// The id of the plugin that the directory entry `name` holds.
pub fn candidate_id(name: &str, is_dir: bool) -> (id: String)
    ensures
        id@ == candidate_id_of(name@, is_dir),
{
    if is_dir {
        return String::from_str(name);
    }
    let n = name.unicode_len();
    let mut i: usize = n;
    assert(name@.take(n as int) =~= name@);
    while i > 0
        invariant
            !is_dir,
            i <= n,
            n == name@.len(),
            last_dot(name@) == last_dot(name@.take(i as int)),
        decreases i,
    {
        proof {
            let head = name@.take(i as int);
            assert(head.last() == name@[i as int - 1]);
            assert(head.drop_last() =~= name@.take(i as int - 1));
        }
        if name.get_char(i - 1) == '.' {
            assert(last_dot(name@.take(i as int)) == i - 1);
            if i - 1 == 0 {
                return String::from_str(name);
            }
            let stem = name.substring_char(0, i - 1);
            assert(stem@ =~= name@.take(i as int - 1));
            return String::from_str(stem);
        }
        i = i - 1;
    }
    String::from_str(name)
}

/// How the metadata handshake of a candidate went.
#[derive(Debug, PartialEq, Eq)]
pub enum Handshake {
    /// The plugin declared its metadata.
    Declared(PluginMetadata),
    /// The plugin exited with an error, ran out of time or printed
    /// something that is not metadata.
    Failed { reason: String },
}

pub enum HandshakeView {
    Declared(PluginMetadataView),
    Failed { reason: Seq<char> },
}

impl View for Handshake {
    type V = HandshakeView;

    open spec fn view(&self) -> HandshakeView {
        match *self {
            Handshake::Declared(metadata) => HandshakeView::Declared(metadata@),
            Handshake::Failed { reason } => HandshakeView::Failed { reason: reason@ },
        }
    }
}

/// The outcome of a handshake in which the plugin ran to `exit_code`, was or
/// was not cut off by the timeout, and printed what parsed to `parsed`.
pub open spec fn handshake_of(
    exit_code: Option<i32>,
    timed_out: bool,
    parsed: Option<PluginMetadataView>,
) -> HandshakeView {
    if timed_out {
        HandshakeView::Failed { reason: "handshake timed out"@ }
    } else if exit_code != Some(0i32) {
        HandshakeView::Failed { reason: "handshake exited with an error"@ }
    } else {
        match parsed {
            Some(metadata) => HandshakeView::Declared(metadata),
            None => HandshakeView::Failed { reason: "metadata could not be read"@ },
        }
    }
}

/// Judges a handshake: it succeeded only if the plugin exited with code 0
/// in time and its output was read as metadata.
pub fn judge_handshake(exit_code: Option<i32>, timed_out: bool, parsed: Option<PluginMetadata>) -> (handshake:
    Handshake)
    ensures
        handshake@ == handshake_of(exit_code, timed_out, opt_metadata(parsed)),
{
    if timed_out {
        return Handshake::Failed { reason: String::from_str("handshake timed out") };
    }
    match exit_code {
        Some(0) => {},
        _ => {
            return Handshake::Failed { reason: String::from_str("handshake exited with an error") };
        },
    }
    match parsed {
        Some(metadata) => Handshake::Declared(metadata),
        None => Handshake::Failed { reason: String::from_str("metadata could not be read") },
    }
}

/// An entry of the plugins directory that looks like a plugin, with the
/// outcome of its handshake.
#[derive(Debug, PartialEq, Eq)]
pub struct Candidate {
    pub id: String,
    pub handshake: Handshake,
}

pub struct CandidateView {
    pub id: Seq<char>,
    pub handshake: HandshakeView,
}

impl View for Candidate {
    type V = CandidateView;

    open spec fn view(&self) -> CandidateView {
        CandidateView { id: self.id@, handshake: self.handshake@ }
    }
}

/// The views of a list of candidates.
pub open spec fn candidates_view(candidates: Seq<Candidate>) -> Seq<CandidateView> {
    candidates.map_values(|c: Candidate| c@)
}

} // verus!
