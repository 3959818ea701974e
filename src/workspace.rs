use vstd::prelude::*;
use vstd::string::StrSliceExecFns;
use vstd::string::StringExecFns;
use crate::once::first_wins;

verus! {

/// The path separator.
pub open spec fn separator() -> char {
    '/'
}

/// `base` joined with the relative component `part`: a separator stands
/// between them unless `base` is empty or already ends with one.
pub open spec fn join(base: Seq<char>, part: Seq<char>) -> Seq<char> {
    if base.len() > 0 && base.last() != separator() {
        base + seq![separator()] + part
    } else {
        base + part
    }
}

pub open spec fn config_name() -> Seq<char> {
    seq!['c', 'o', 'n', 'f', 'i', 'g']
}

pub open spec fn state_name() -> Seq<char> {
    seq!['s', 't', 'a', 't', 'e']
}

pub open spec fn data_name() -> Seq<char> {
    seq!['d', 'a', 't', 'a']
}

/// The configuration directory under `root`.
pub open spec fn config_path(root: Seq<char>) -> Seq<char> {
    join(root, config_name())
}

/// The local state directory under `root`.
pub open spec fn local_path(root: Seq<char>) -> Seq<char> {
    join(root, state_name())
}

/// The data directory, inside the local state directory under `root`.
pub open spec fn data_path(root: Seq<char>) -> Seq<char> {
    join(local_path(root), data_name())
}

/// The layout under a root: `root/config`, `root/state` and
/// `root/state/data`, where the separator is left out after an empty root
/// and not doubled after a root that ends with one.
pub proof fn lemma_layout(root: Seq<char>)
    ensures
        root.len() > 0 && root.last() != separator() ==> {
            &&& config_path(root) == root + seq![separator()] + config_name()
            &&& local_path(root) == root + seq![separator()] + state_name()
            &&& data_path(root) == root + seq![separator()] + state_name() + seq![separator()]
                + data_name()
        },
        root.len() == 0 ==> {
            &&& config_path(root) == config_name()
            &&& local_path(root) == state_name()
            &&& data_path(root) == state_name() + seq![separator()] + data_name()
        },
{
    let local = local_path(root);
    assert(local.len() > 0 && local.last() == 'e');
    if root.len() > 0 && root.last() != separator() {
        assert(local == root + seq![separator()] + state_name());
    } else if root.len() == 0 {
        assert(config_path(root) =~= config_name());
        assert(local_path(root) =~= state_name());
    }
}

/// `base` joined with `part` (see `join`).
fn join_path(base: &str, part: &str) -> (r: String)
    ensures
        r@ == join(base@, part@),
{
    let mut r = String::from_str(base);
    let n = base.unicode_len();
    if n > 0 && base.get_char(n - 1) != '/' {
        r.append("/");
        proof {
            reveal_strlit("/");
        }
    }
    r.append(part);
    r
}

/// The directory layout of an application, derived from one root path.
/// Nothing here touches the file system: the directories are computed, not
/// created.
#[derive(Clone)]
pub struct Workspace {
    root_dir: String,
}

impl View for Workspace {
    type V = Seq<char>;

    /// The root path.
    closed spec fn view(&self) -> Seq<char> {
        self.root_dir@
    }
}

impl Workspace {
    /// A workspace rooted at `root_dir`. The empty root stands for the
    /// working directory of the process.
    pub fn new(root_dir: &str) -> (r: Workspace)
        ensures
            r@ == root_dir@,
    {
        Workspace { root_dir: String::from_str(root_dir) }
    }

    /// `root/config`.
    pub fn config_dir(&self) -> (r: String)
        ensures
            r@ == config_path(self@),
    {
        proof {
            reveal_strlit("config");
        }
        join_path(self.root_dir.as_str(), "config")
    }

    /// `root/state`.
    pub fn local_dir(&self) -> (r: String)
        ensures
            r@ == local_path(self@),
    {
        proof {
            reveal_strlit("state");
        }
        join_path(self.root_dir.as_str(), "state")
    }

    /// `root/state/data`.
    pub fn data_dir(&self) -> (r: String)
        ensures
            r@ == data_path(self@),
    {
        let local = self.local_dir();
        proof {
            reveal_strlit("data");
        }
        join_path(local.as_str(), "data")
    }

    /// The root path, as given when the workspace was made.
    pub fn root_dir(&self) -> (r: &String)
        ensures
            r@ == self@,
    {
        &self.root_dir
    }
}

/// The slot of the process-wide workspace: empty until the first
/// initializing call, which fixes the root for good.
pub struct WorkspaceCell {
    instance: Option<Workspace>,
}

impl View for WorkspaceCell {
    type V = Option<Seq<char>>;

    /// The root of the workspace held, if any.
    closed spec fn view(&self) -> Option<Seq<char>> {
        match self.instance {
            Some(w) => Some(w@),
            None => None,
        }
    }
}

impl WorkspaceCell {
    /// An empty cell.
    pub fn new() -> (r: WorkspaceCell)
        ensures
            r@ == None::<Seq<char>>,
    {
        WorkspaceCell { instance: None }
    }

    /// The workspace held. On an empty cell it is first made from
    /// `root_dir`; otherwise `root_dir` is ignored and the cell is unchanged.
    pub fn get_or_init(&mut self, root_dir: &str) -> (r: &Workspace)
        ensures
            final(self)@ == first_wins(old(self)@, root_dir@),
            final(self)@ == Some(r@),
    {
        if self.instance.is_none() {
            self.instance = Some(Workspace::new(root_dir));
        }
        self.instance.as_ref().unwrap()
    }
}

/// The root of the workspace in `cell`, which is first initialized with the
/// empty root (the working directory) when nothing initialized it before.
pub fn get_root_dir(cell: &mut WorkspaceCell) -> (r: String)
    ensures
        final(cell)@ == first_wins(old(cell)@, Seq::<char>::empty()),
        r@ == final(cell)@.unwrap(),
{
    proof {
        reveal_strlit("");
    }
    cell.get_or_init("").root_dir().clone()
}

/// The configuration directory of the workspace in `cell`, which is first
/// initialized with the empty root when nothing initialized it before.
pub fn get_config_dir(cell: &mut WorkspaceCell) -> (r: String)
    ensures
        final(cell)@ == first_wins(old(cell)@, Seq::<char>::empty()),
        r@ == config_path(final(cell)@.unwrap()),
{
    proof {
        reveal_strlit("");
    }
    cell.get_or_init("").config_dir()
}

/// The local state directory of the workspace in `cell`, which is first
/// initialized with the empty root when nothing initialized it before.
pub fn get_local_dir(cell: &mut WorkspaceCell) -> (r: String)
    ensures
        final(cell)@ == first_wins(old(cell)@, Seq::<char>::empty()),
        r@ == local_path(final(cell)@.unwrap()),
{
    proof {
        reveal_strlit("");
    }
    cell.get_or_init("").local_dir()
}

/// The data directory of the workspace in `cell`, which is first initialized
/// with the empty root when nothing initialized it before.
pub fn get_data_dir(cell: &mut WorkspaceCell) -> (r: String)
    ensures
        final(cell)@ == first_wins(old(cell)@, Seq::<char>::empty()),
        r@ == data_path(final(cell)@.unwrap()),
{
    proof {
        reveal_strlit("");
    }
    cell.get_or_init("").data_dir()
}

} // verus!
