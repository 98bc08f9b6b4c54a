//! The layout of a repository: a root directory with a `data` and a
//! `description` subtree, and in each one entry per dataset, named by the
//! dataset's fingerprint.

use vstd::prelude::*;
use vstd::string::*;

verus! {

/// The root of the repository where none is given.
pub const DEFAULT_ROOT: &'static str = ".dataset";

/// The text `/data`, which follows the root in the data directory's path.
pub open spec fn data_suffix() -> Seq<char> {
    "/data"@
}

/// The text `/description`, which follows the root in the description
/// directory's path.
pub open spec fn description_suffix() -> Seq<char> {
    "/description"@
}

/// The directory that holds the payloads of the repository at `root`.
pub open spec fn data_dir(root: Seq<char>) -> Seq<char> {
    root + data_suffix()
}

/// The directory that holds the description records of the repository at
/// `root`.
pub open spec fn description_dir(root: Seq<char>) -> Seq<char> {
    root + description_suffix()
}

/// The path of the entry `name` directly inside `dir`.
pub open spec fn entry_path(dir: Seq<char>, name: Seq<char>) -> Seq<char> {
    dir + "/"@ + name
}

/// Where the repository at `root` keeps the payload with this fingerprint.
pub open spec fn payload_path(root: Seq<char>, fingerprint: Seq<char>) -> Seq<char> {
    entry_path(data_dir(root), fingerprint)
}

/// Where the repository at `root` keeps the description record with this
/// fingerprint.
pub open spec fn record_path(root: Seq<char>, fingerprint: Seq<char>) -> Seq<char> {
    entry_path(description_dir(root), fingerprint)
}

/// Whether `text` ends in `tail`.
pub open spec fn ends_with(text: Seq<char>, tail: Seq<char>) -> bool {
    &&& tail.len() <= text.len()
    &&& text.subrange(text.len() - tail.len(), text.len() as int) == tail
}

/// The two subtrees of a repository, as a mathematical value.
pub struct RootTreeView {
    pub data_path: Seq<char>,
    pub description_path: Seq<char>,
}

impl RootTreeView {
    /// The root directory that both subtrees lie under.
    pub open spec fn root(self) -> Seq<char> {
        self.data_path.subrange(0, self.data_path.len() - data_suffix().len())
    }

    /// Both subtrees lie directly under one root, under their fixed names.
    pub open spec fn well_formed(self) -> bool {
        &&& self.data_path.len() >= data_suffix().len()
        &&& self.data_path == data_dir(self.root())
        &&& self.description_path == description_dir(self.root())
    }
}

/// The two subtrees of a repository root.
pub struct RootTree {
    data_path: String,
    description_path: String,
}

impl View for RootTree {
    type V = RootTreeView;

    closed spec fn view(&self) -> RootTreeView {
        RootTreeView { data_path: self.data_path@, description_path: self.description_path@ }
    }
}

impl RootTree {
    #[verifier::type_invariant]
    spec fn well_formed(&self) -> bool {
        self@.well_formed()
    }

    /// The directory of the payloads. Every root tree is well formed.
    pub fn data_path(&self) -> (path: &str)
        ensures
            path@ == self@.data_path,
            self@.well_formed(),
    {
        proof {
            use_type_invariant(self);
        }
        self.data_path.as_str()
    }

    /// The directory of the description records. Every root tree is well
    /// formed.
    pub fn description_path(&self) -> (path: &str)
        ensures
            path@ == self@.description_path,
            self@.well_formed(),
    {
        proof {
            use_type_invariant(self);
        }
        self.description_path.as_str()
    }
}

/// A dataset as a mathematical value: its fingerprint and its two paths.
pub struct DataSetView {
    pub hexmd5: Seq<char>,
    pub data_path: Seq<char>,
    pub description_path: Seq<char>,
}

impl DataSetView {
    /// The two paths are siblings by name: each is an entry named by the
    /// fingerprint, at the same depth of its subtree.
    pub open spec fn well_formed(self) -> bool {
        &&& ends_with(self.data_path, "/"@ + self.hexmd5)
        &&& ends_with(self.description_path, "/"@ + self.hexmd5)
    }
}

/// A dataset: the payload and the description record that share one
/// fingerprint.
pub struct DataSet {
    hexmd5: String,
    data_path: String,
    description_path: String,
}

impl View for DataSet {
    type V = DataSetView;

    closed spec fn view(&self) -> DataSetView {
        DataSetView {
            hexmd5: self.hexmd5@,
            data_path: self.data_path@,
            description_path: self.description_path@,
        }
    }
}

impl DataSet {
    #[verifier::type_invariant]
    spec fn well_formed(&self) -> bool {
        self@.well_formed()
    }

    /// The fingerprint, the dataset's only identity. Every dataset is well
    /// formed.
    pub fn hexmd5(&self) -> (fingerprint: &str)
        ensures
            fingerprint@ == self@.hexmd5,
            self@.well_formed(),
    {
        proof {
            use_type_invariant(self);
        }
        self.hexmd5.as_str()
    }

    /// Where the payload is kept: an entry named by the fingerprint.
    pub fn data_path(&self) -> (path: &str)
        ensures
            path@ == self@.data_path,
            ends_with(path@, "/"@ + self@.hexmd5),
    {
        proof {
            use_type_invariant(self);
        }
        self.data_path.as_str()
    }

    /// Where the description record is kept: an entry named by the
    /// fingerprint.
    pub fn description_path(&self) -> (path: &str)
        ensures
            path@ == self@.description_path,
            ends_with(path@, "/"@ + self@.hexmd5),
    {
        proof {
            use_type_invariant(self);
        }
        self.description_path.as_str()
    }
}

/// `head` followed by `tail`, as a new string.
pub fn join_text(head: &str, tail: &str) -> (joined: String)
    ensures
        joined@ == head@ + tail@,
{
    let mut joined = String::from_str(head);
    joined.append(tail);
    joined
}

/// The root to work on: the one given, or `DEFAULT_ROOT` where none is.
pub fn select_root(given: Option<&str>) -> (root: String)
    ensures
        root@ == match given {
            Some(path) => path@,
            None => DEFAULT_ROOT@,
        },
{
    match given {
        Some(path) => String::from_str(path),
        None => String::from_str(DEFAULT_ROOT),
    }
}

/// The subtrees of the repository at `root`. Nothing is created or looked
/// at: the result is a function of `root` alone.
pub fn make_roottree(root: &str) -> (tree: RootTree)
    ensures
        tree@ == (RootTreeView {
            data_path: data_dir(root@),
            description_path: description_dir(root@),
        }),
        tree@.root() == root@,
        tree@.well_formed(),
{
    proof {
        assert(data_dir(root@).subrange(0, data_dir(root@).len() - data_suffix().len())
            == root@);
    }
    RootTree {
        data_path: join_text(root, "/data"),
        description_path: join_text(root, "/description"),
    }
}

/// The dataset with fingerprint `md5` in the repository `root`. Nothing is
/// created or looked at: the result is a function of the arguments alone.
pub fn dataset(root: &RootTree, md5: &str) -> (set: DataSet)
    ensures
        set@ == (DataSetView {
            hexmd5: md5@,
            data_path: entry_path(root@.data_path, md5@),
            description_path: entry_path(root@.description_path, md5@),
        }),
        set@.well_formed(),
{
    proof {
        lemma_entry_ends_with(root@.data_path, md5@);
        lemma_entry_ends_with(root@.description_path, md5@);
    }
    let mut data = join_text(root.data_path.as_str(), "/");
    data.append(md5);
    let mut description = join_text(root.description_path.as_str(), "/");
    description.append(md5);
    DataSet { hexmd5: String::from_str(md5), data_path: data, description_path: description }
}

/// The dataset with fingerprint `md5` in the repository at `root`: the
/// payload under `<root>/data/<md5>` and the description record under
/// `<root>/description/<md5>`.
pub fn resolve(root: &str, md5: &str) -> (set: DataSet)
    ensures
        set@ == (DataSetView {
            hexmd5: md5@,
            data_path: payload_path(root@, md5@),
            description_path: record_path(root@, md5@),
        }),
        set@.well_formed(),
{
    dataset(&make_roottree(root), md5)
}

/// An entry's path ends in a slash and the entry's name.
pub proof fn lemma_entry_ends_with(dir: Seq<char>, name: Seq<char>)
    ensures
        ends_with(entry_path(dir, name), "/"@ + name),
{
    let path = entry_path(dir, name);
    let tail = "/"@ + name;
    assert(path.subrange(path.len() - tail.len(), path.len() as int) == tail);
}

/// The two subtrees of a root are different directories, and so are the two
/// paths of a dataset below them.
pub proof fn lemma_subtrees_distinct(root: Seq<char>, fingerprint: Seq<char>)
    ensures
        data_dir(root) != description_dir(root),
        payload_path(root, fingerprint) != record_path(root, fingerprint),
{
    reveal_strlit("/data");
    reveal_strlit("/description");
    assert(data_dir(root).len() != description_dir(root).len());
    assert(payload_path(root, fingerprint).len() != record_path(root, fingerprint).len());
}

/// Within one directory, different names have different paths: no two
/// fingerprints share a payload or a record.
pub proof fn lemma_entry_path_injective(dir: Seq<char>, a: Seq<char>, b: Seq<char>)
    requires
        entry_path(dir, a) == entry_path(dir, b),
    ensures
        a == b,
{
    let pa = entry_path(dir, a);
    let pb = entry_path(dir, b);
    let skip = (dir.len() + "/"@.len()) as int;
    assert(pa.subrange(skip, pa.len() as int) == a);
    assert(pb.subrange(skip, pb.len() as int) == b);
}

} // verus!
