//! Finding the environment that a directory belongs to.
//!
//! An environment is marked by a configuration file at its top. The search
//! starts in a directory and climbs towards the root; looking at the disk is
//! left to the caller, who reports what was found.
use crate::util::{join, path_join};
use vstd::prelude::*;

verus! {

/// The name of the file that marks the top of an environment.
pub const BEAN_CONFIG_FILE: &'static str = ".bean.config.toml";

/// The directory above `path`, as `std::path::Path::parent` gives it on the
/// platform that the library is built for; `None` where the path has none.
pub uninterp spec fn path_parent(path: Seq<char>) -> Option<Seq<char>>;

/// Calls `std::path::Path::parent` on `path`. The contract only names the
/// result: the path without its final component, if there is one, as a
/// string of its own.
#[verifier::external_body]
pub(crate) fn parent(path: &str) -> (dir: Option<String>)
    ensures
        dir.deep_view() == path_parent(path@),
{
    match std::path::Path::new(path).parent() {
        Some(dir) => Some(dir.to_string_lossy().into_owned()),
        None => None,
    }
}

/// One move of the search.
#[derive(Clone, Debug, PartialEq, Eq)]
pub enum Probe {
    /// See whether the file `config` exists; it would mark `dir` as the top
    /// of an environment.
    Look { dir: String, config: String },
    /// No directory is left to look at.
    GiveUp,
}

/// A [`Probe`] as a mathematical value.
pub enum ProbeView {
    Look { dir: Seq<char>, config: Seq<char> },
    GiveUp,
}

impl View for Probe {
    type V = ProbeView;

    open spec fn view(&self) -> ProbeView {
        match self {
            Probe::Look { dir, config } => ProbeView::Look { dir: dir@, config: config@ },
            Probe::GiveUp => ProbeView::GiveUp,
        }
    }
}

/// The probe for the directory `dir`, if there is one.
pub open spec fn probe_of(dir: Option<Seq<char>>) -> ProbeView {
    match dir {
        Some(d) => ProbeView::Look { dir: d, config: path_join(d, BEAN_CONFIG_FILE@) },
        None => ProbeView::GiveUp,
    }
}

/// The probe for the directory `dir`, if there is one: its configuration
/// file is the one to look for.
pub fn probe_at(dir: Option<String>) -> (probe: Probe)
    ensures
        probe@ == probe_of(dir.deep_view()),
{
    match dir {
        Some(d) => {
            let config = join(d.as_str(), BEAN_CONFIG_FILE);
            Probe::Look { dir: d, config }
        },
        None => Probe::GiveUp,
    }
}

/// The first move of a search that starts in `current_dir`: look there.
pub fn first_probe(current_dir: &str) -> (probe: Probe)
    ensures
        probe@ == probe_of(Some(current_dir@)),
{
    probe_at(Some(current_dir.to_owned()))
}

/// The move that follows when `dir` turned out to hold no configuration
/// file: look in the directory above, or give up where there is none.
pub fn next_probe(dir: &str) -> (probe: Probe)
    ensures
        probe@ == probe_of(path_parent(dir@)),
{
    probe_at(parent(dir))
}

} // verus!
