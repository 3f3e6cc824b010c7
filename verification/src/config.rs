//! The server's configuration and the table of files offered for download.

use vstd::prelude::*;
use vstd::string::*;
use crate::network::ServerAddress;
use crate::text::same_text;

verus! {

/// The files offered for download, each under the identifier that its
/// download link carries. An identifier names at most one file.
pub struct FileRegistry {
    ids: Vec<String>,
    paths: Vec<String>,
}

impl View for FileRegistry {
    type V = Map<Seq<char>, Seq<char>>;

    /// The table as a map from identifier to file path.
    closed spec fn view(&self) -> Map<Seq<char>, Seq<char>> {
        Map::new(
            |id: Seq<char>| exists|i: int| self.slot(id, i),
            |id: Seq<char>| self.paths@[choose|i: int| self.slot(id, i)]@,
        )
    }
}

impl FileRegistry {
    #[verifier::type_invariant]
    closed spec fn ids_unique(&self) -> bool {
        &&& self.ids@.len() == self.paths@.len()
        &&& forall|i: int, j: int|
            0 <= i < j < self.ids@.len() ==> (#[trigger] self.ids@[i])@ != (#[trigger] self.ids@[j])@
    }

    /// Whether `i` is where identifier `id` is stored.
    closed spec fn slot(&self, id: Seq<char>, i: int) -> bool {
        0 <= i < self.ids@.len() && self.ids@[i]@ == id
    }

    proof fn lemma_slot_value(&self, id: Seq<char>, i: int)
        requires
            self.ids_unique(),
            self.slot(id, i),
        ensures
            self@.contains_key(id),
            self@[id] == self.paths@[i]@,
    {
        let j = choose|j: int| self.slot(id, j);
        assert(self.slot(id, j));
        if i < j {
            assert(self.ids@[i]@ != self.ids@[j]@);
        } else if j < i {
            assert(self.ids@[j]@ != self.ids@[i]@);
        }
    }

    /// An empty table.
    pub fn new() -> (r: FileRegistry)
        ensures
            r@ == Map::<Seq<char>, Seq<char>>::empty(),
    {
        let r = FileRegistry { ids: Vec::new(), paths: Vec::new() };
        assert(r@ =~= Map::<Seq<char>, Seq<char>>::empty());
        r
    }

    fn position(&self, id: &str) -> (r: Option<usize>)
        ensures
            match r {
                Some(i) => self.slot(id@, i as int),
                None => forall|i: int| !self.slot(id@, i),
            },
    {
        proof {
            use_type_invariant(self);
        }
        let n = self.ids.len();
        let mut i: usize = 0;
        while i < n
            invariant
                n == self.ids@.len(),
                i <= n,
                forall|j: int| 0 <= j < i ==> !self.slot(id@, j),
            decreases n - i,
        {
            if same_text(self.ids[i].as_str(), id) {
                return Some(i);
            }
            i = i + 1;
        }
        None
    }

    /// Offers the file at `path` under `id`, replacing what `id` named before.
    pub fn insert(&mut self, id: String, path: String)
        ensures
            final(self)@ == old(self)@.insert(id@, path@),
    {
        let mut taken = FileRegistry::new();
        std::mem::swap(&mut taken, self);
        proof {
            use_type_invariant(&taken);
        }
        let ghost before = taken;
        let found = taken.position(id.as_str());
        let FileRegistry { mut ids, mut paths } = taken;
        match found {
            Some(i) => {
                let ghost p = path@;
                paths.set(i, path);
                *self = FileRegistry { ids, paths };
                proof {
                    assert forall|k: Seq<char>| #[trigger] self@.contains_key(k)
                        == before@.insert(id@, p).contains_key(k) by {
                        if exists|j: int| before.slot(k, j) {
                            let j = choose|j: int| before.slot(k, j);
                            assert(self.slot(k, j));
                        }
                        if exists|j: int| self.slot(k, j) {
                            let j = choose|j: int| self.slot(k, j);
                            assert(before.slot(k, j));
                        }
                        if k == id@ {
                            assert(self.slot(k, i as int));
                        }
                    }
                    assert forall|k: Seq<char>| #[trigger] self@.contains_key(k) implies self@[k]
                        == before@.insert(id@, p)[k] by {
                        let j = choose|j: int| self.slot(k, j);
                        self.lemma_slot_value(k, j);
                        assert(before.slot(k, j));
                        before.lemma_slot_value(k, j);
                        if k == id@ {
                            self.lemma_slot_value(k, i as int);
                        } else {
                            assert(j != i);
                        }
                    }
                    assert(self@ =~= before@.insert(id@, p));
                }
            },
            None => {
                let ghost k0 = id@;
                let ghost p = path@;
                ids.push(id);
                paths.push(path);
                let ghost n = before.ids@.len() as int;
                assert forall|i: int, j: int| 0 <= i < j < ids@.len() implies (
                #[trigger] ids@[i])@ != (#[trigger] ids@[j])@ by {
                    if j == n {
                        assert(!before.slot(k0, i));
                    } else {
                        assert(before.ids@[i] == ids@[i]);
                        assert(before.ids@[j] == ids@[j]);
                    }
                }
                *self = FileRegistry { ids, paths };
                proof {
                    assert forall|k: Seq<char>| #[trigger] self@.contains_key(k)
                        == before@.insert(k0, p).contains_key(k) by {
                        if exists|j: int| before.slot(k, j) {
                            let j = choose|j: int| before.slot(k, j);
                            assert(self.slot(k, j));
                        }
                        if exists|j: int| self.slot(k, j) {
                            let j = choose|j: int| self.slot(k, j);
                            if j < n {
                                assert(before.slot(k, j));
                            }
                        }
                        if k == k0 {
                            assert(self.slot(k, n));
                        }
                    }
                    assert forall|k: Seq<char>| #[trigger] self@.contains_key(k) implies self@[k]
                        == before@.insert(k0, p)[k] by {
                        let j = choose|j: int| self.slot(k, j);
                        self.lemma_slot_value(k, j);
                        if k == k0 {
                            self.lemma_slot_value(k, n);
                        } else {
                            assert(j < n);
                            assert(before.slot(k, j));
                            before.lemma_slot_value(k, j);
                        }
                    }
                    assert(self@ =~= before@.insert(k0, p));
                }
            },
        }
    }

    /// The path offered under `id`, if any.
    pub fn get(&self, id: &str) -> (r: Option<String>)
        ensures
            match r {
                Some(p) => self@.contains_key(id@) && p@ == self@[id@],
                None => !self@.contains_key(id@),
            },
    {
        proof {
            use_type_invariant(self);
        }
        match self.position(id) {
            Some(i) => {
                proof {
                    self.lemma_slot_value(id@, i as int);
                }
                Some(self.paths[i].clone())
            },
            None => None,
        }
    }

    /// Every path on offer, once per identifier.
    pub fn paths(&self) -> (r: Vec<String>)
        ensures
            self@.dom().finite(),
            r@.len() == self@.dom().len(),
            exists|ids: Seq<Seq<char>>| #[trigger] lists_each_id(self@, ids, texts_of(r@)),
    {
        proof {
            use_type_invariant(self);
        }
        let mut r: Vec<String> = Vec::new();
        let n = self.paths.len();
        let mut i: usize = 0;
        while i < n
            invariant
                n == self.paths@.len(),
                n == self.ids@.len(),
                i <= n,
                r@.len() == i,
                forall|j: int| 0 <= j < i ==> (#[trigger] r@[j])@ == self.paths@[j]@,
            decreases n - i,
        {
            r.push(self.paths[i].clone());
            i = i + 1;
        }
        proof {
            let keys = self.ids@.map_values(|s: String| s@);
            assert(keys.no_duplicates()) by {
                assert forall|a: int, b: int| 0 <= a < keys.len() && 0 <= b < keys.len() && a != b
                    implies keys[a] != keys[b] by {
                    if a < b {
                        assert(self.ids@[a]@ != self.ids@[b]@);
                    } else {
                        assert(self.ids@[b]@ != self.ids@[a]@);
                    }
                }
            }
            keys.unique_seq_to_set();
            assert forall|id: Seq<char>| #[trigger] self@.dom().contains(id) <==> keys.to_set().contains(id) by {
                if self@.dom().contains(id) {
                    let j = choose|j: int| self.slot(id, j);
                    assert(keys[j] == id);
                }
                if keys.to_set().contains(id) {
                    let j = choose|j: int| 0 <= j < keys.len() && keys[j] == id;
                    assert(self.slot(id, j));
                }
            }
            assert(self@.dom() =~= keys.to_set());
            let texts = texts_of(r@);
            assert forall|j: int| 0 <= j < keys.len() implies self@[keys[j]] == texts[j] by {
                assert(self.slot(keys[j], j));
                self.lemma_slot_value(keys[j], j);
            }
            assert(lists_each_id(self@, keys, texts));
        }
        r
    }
}

/// The texts of a list of strings.
pub open spec fn texts_of(v: Seq<String>) -> Seq<Seq<char>> {
    v.map_values(|s: String| s@)
}

/// Whether `paths` lists the file of every identifier of `m` exactly once:
/// `ids` names each identifier once, and `paths[i]` is the file of `ids[i]`.
pub open spec fn lists_each_id(
    m: Map<Seq<char>, Seq<char>>,
    ids: Seq<Seq<char>>,
    paths: Seq<Seq<char>>,
) -> bool {
    &&& ids.len() == paths.len()
    &&& ids.no_duplicates()
    &&& ids.to_set() == m.dom()
    &&& forall|i: int| 0 <= i < ids.len() ==> m[#[trigger] ids[i]] == paths[i]
}

/// What the server needs to know while it runs.
pub struct GlobalConfig {
    /// The files offered for download, by identifier.
    pub uuid_path_map: FileRegistry,
    /// Where received files are written; the working directory when `None`.
    pub destination_dir: Option<String>,
    /// Whether a received file is opened with the system's default program.
    pub auto_open: bool,
    /// Whether the offered file is a ZIP archive made for the transfer.
    pub zip: bool,
    /// The address the server listens on.
    pub socket_addr: ServerAddress,
}

impl GlobalConfig {
    /// A configuration that listens on `socket_addr`, offers no file,
    /// writes received files to the working directory and opens them.
    pub fn new(socket_addr: ServerAddress) -> (c: GlobalConfig)
        ensures
            c.uuid_path_map@ == Map::<Seq<char>, Seq<char>>::empty(),
            c.destination_dir is None,
            c.auto_open,
            !c.zip,
            c.socket_addr == socket_addr,
    {
        GlobalConfig {
            uuid_path_map: FileRegistry::new(),
            destination_dir: None,
            auto_open: true,
            zip: false,
            socket_addr,
        }
    }
}

} // verus!
