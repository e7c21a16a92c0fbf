//! Paths of the files through which the engine and the orchestrating brain
//! exchange signals, decisions and state.
use vstd::prelude::*;

verus! {

/// A file name placed in a directory, as joining a relative name to a path
/// does it: a separator is put between them unless the directory is empty
/// or already ends with one.
pub open spec fn path_in(dir: Seq<char>, name: Seq<char>) -> Seq<char> {
    if dir.len() == 0 {
        name
    } else if dir.last() == '/' {
        dir + name
    } else {
        dir + "/"@ + name
    }
}

/// `dir` joined with a relative file name.
pub fn join_path(dir: &str, name: &str) -> (r: String)
    ensures
        r@ == path_in(dir@, name@),
{
    let d = dir.to_owned();
    let n = d.unicode_len();
    let mut out = d;
    if n == 0 {
        return name.to_owned();
    }
    proof {
        reveal_strlit("/");
    }
    if dir.get_char(n - 1) != '/' {
        out.append("/");
    }
    out.append(name);
    out
}

/// Bridge for communication with the orchestrating brain through files in
/// a data directory.
pub struct BrainBridge {
    data_dir: String,
    timeout_secs: u64,
    auto_invoke: bool,
}

impl BrainBridge {
    /// The data directory.
    pub closed spec fn dir(&self) -> Seq<char> {
        self.data_dir@
    }

    /// Seconds to wait for a decision.
    pub closed spec fn timeout_spec(&self) -> u64 {
        self.timeout_secs
    }

    /// Whether the brain is invoked automatically.
    pub closed spec fn auto_invoke_spec(&self) -> bool {
        self.auto_invoke
    }

    pub fn new(data_dir: &str, timeout_secs: u64, auto_invoke: bool) -> (r: BrainBridge)
        ensures
            r.dir() == data_dir@,
            r.timeout_spec() == timeout_secs,
            r.auto_invoke_spec() == auto_invoke,
    {
        BrainBridge { data_dir: data_dir.to_owned(), timeout_secs, auto_invoke }
    }

    /// The data directory.
    pub fn data_dir(&self) -> (r: &str)
        ensures
            r@ == self.dir(),
    {
        self.data_dir.as_str()
    }

    /// Seconds to wait for a decision.
    pub fn timeout_secs(&self) -> (r: u64)
        ensures
            r == self.timeout_spec(),
    {
        self.timeout_secs
    }

    /// Whether the brain is invoked automatically.
    pub fn auto_invoke(&self) -> (r: bool)
        ensures
            r == self.auto_invoke_spec(),
    {
        self.auto_invoke
    }

    /// Path of the signals file.
    pub fn signals_path(&self) -> (r: String)
        ensures
            r@ == path_in(self.dir(), "signals.json"@),
    {
        join_path(self.data_dir.as_str(), "signals.json")
    }

    /// Path of the decision file.
    pub fn decision_path(&self) -> (r: String)
        ensures
            r@ == path_in(self.dir(), "decision.json"@),
    {
        join_path(self.data_dir.as_str(), "decision.json")
    }

    /// Path of the state file.
    pub fn state_path(&self) -> (r: String)
        ensures
            r@ == path_in(self.dir(), "state.json"@),
    {
        join_path(self.data_dir.as_str(), "state.json")
    }
}

} // verus!
