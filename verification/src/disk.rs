use vstd::prelude::*;

use vstd::hash_map::StringHashMap;

use crate::error::Error;

verus! {

/// One filesystem entry under the binary root: a regular file with its
/// contents and owner-executable bit, or a symbolic link with its target.
pub enum Entry {
    File { bytes: Vec<u8>, executable: bool },
    Link { target: String },
}

/// The mathematical shape of an entry.
pub enum EntryView {
    File { bytes: Seq<u8>, executable: bool },
    Link { target: Seq<char> },
}

impl View for Entry {
    type V = EntryView;

    open spec fn view(&self) -> EntryView {
        match self {
            Entry::File { bytes, executable } => EntryView::File {
                bytes: bytes@,
                executable: *executable,
            },
            Entry::Link { target } => EntryView::Link { target: target@ },
        }
    }
}

/// The slice of the filesystem the pipeline touches, as a map from absolute
/// path to entry. Directories are implicit: persisting a file stands for
/// creating its parent directories and writing it. The model gives the
/// pipeline's effects a mathematical meaning and lets them be exercised
/// without a real disk.
pub struct Disk {
    entries: StringHashMap<Entry>,
}

impl View for Disk {
    type V = Map<Seq<char>, EntryView>;

    closed spec fn view(&self) -> Map<Seq<char>, EntryView> {
        self.entries@.map_values(|e: Entry| e@)
    }
}

/// Setting the owner-executable bit: a file's bit goes on; a link is left to
/// the model's caller (the real bit lands on the target, which the model
/// does not track); a missing path cannot be touched.
pub open spec fn spec_set_exec(m: Map<Seq<char>, EntryView>, path: Seq<char>) -> Map<
    Seq<char>,
    EntryView,
> {
    if m.contains_key(path) {
        match m[path] {
            EntryView::File { bytes, executable } => m.insert(
                path,
                EntryView::File { bytes, executable: true },
            ),
            EntryView::Link { .. } => m,
        }
    } else {
        m
    }
}

fn clone_bytes(v: &Vec<u8>) -> (r: Vec<u8>)
    ensures
        r@ == v@,
{
    let mut out: Vec<u8> = Vec::new();
    let mut i: usize = 0;
    while i < v.len()
        invariant
            i <= v@.len(),
            out@ == v@.take(i as int),
        decreases v@.len() - i,
    {
        out.push(v[i]);
        proof {
            assert(v@.take(i + 1).drop_last() =~= v@.take(i as int));
            assert(v@.take(i + 1).last() == v@[i as int]);
        }
        i = i + 1;
    }
    proof {
        assert(v@.take(v@.len() as int) =~= v@);
    }
    out
}

proof fn lemma_map_values_insert(m: Map<Seq<char>, Entry>, k: Seq<char>, v: Entry)
    ensures
        m.insert(k, v).map_values(|e: Entry| e@) =~= m.map_values(|e: Entry| e@).insert(k, v@),
{
}

impl Disk {
    /// An empty model: nothing under the root yet.
    pub fn new() -> (r: Disk)
        ensures
            r@ == Map::<Seq<char>, EntryView>::empty(),
    {
        let d = Disk { entries: StringHashMap::new() };
        proof {
            assert(d@ =~= Map::<Seq<char>, EntryView>::empty());
        }
        d
    }

    /// Whether anything sits at `path`.
    pub fn contains(&self, path: &str) -> (r: bool)
        ensures
            r == self@.contains_key(path@),
    {
        let r = self.entries.contains_key(path);
        proof {
            assert(self@.contains_key(path@) == self.entries@.contains_key(path@));
        }
        r
    }

    /// The target of the link at `path`, when a link sits there.
    pub fn link_target(&self, path: &str) -> (r: Option<&String>)
        ensures
            match r {
                Option::Some(t) => self@.contains_key(path@) && self@[path@] == (EntryView::Link {
                    target: t@,
                }),
                Option::None => !self@.contains_key(path@) || !(self@[path@] is Link),
            },
    {
        match self.entries.get(path) {
            Option::Some(Entry::Link { target }) => Option::Some(target),
            _ => Option::None,
        }
    }

    /// The contents and executable bit of the file at `path`, when a regular
    /// file sits there.
    pub fn file_state(&self, path: &str) -> (r: Option<(&Vec<u8>, bool)>)
        ensures
            match r {
                Option::Some(f) => self@.contains_key(path@) && self@[path@] == (EntryView::File {
                    bytes: f.0@,
                    executable: f.1,
                }),
                Option::None => !self@.contains_key(path@) || !(self@[path@] is File),
            },
    {
        match self.entries.get(path) {
            Option::Some(Entry::File { bytes, executable }) => Option::Some((bytes, *executable)),
            _ => Option::None,
        }
    }

    /// Persists `bytes` at `path`, replacing whatever sat there; the new
    /// file is not executable yet.
    pub fn write_file(&mut self, path: &str, bytes: Vec<u8>)
        ensures
            final(self)@ == old(self)@.insert(
                path@,
                EntryView::File { bytes: bytes@, executable: false },
            ),
    {
        let ghost m0 = self.entries@;
        let entry = Entry::File { bytes, executable: false };
        let ghost ev = entry@;
        self.entries.insert(String::from_str(path), entry);
        proof {
            lemma_map_values_insert(m0, path@, self.entries@[path@]);
            assert(final(self)@ =~= old(self)@.insert(path@, ev));
        }
    }

    /// Sets the owner-executable bit at `path`; fails only when nothing sits
    /// there.
    pub fn set_exec_bit(&mut self, path: &str) -> (r: Result<(), Error>)
        ensures
            (r is Ok <==> old(self)@.contains_key(path@)),
            r is Err ==> r == Result::<(), Error>::Err(Error::Io),
            final(self)@ == spec_set_exec(old(self)@, path@),
    {
        let ghost m0 = self.entries@;
        match self.entries.get(path) {
            Option::None => Result::Err(Error::Io),
            Option::Some(Entry::Link { .. }) => Result::Ok(()),
            Option::Some(Entry::File { bytes, executable }) => {
                let copied = clone_bytes(bytes);
                let entry = Entry::File { bytes: copied, executable: true };
                self.entries.insert(String::from_str(path), entry);
                proof {
                    lemma_map_values_insert(m0, path@, self.entries@[path@]);
                    assert(final(self)@ =~= spec_set_exec(old(self)@, path@));
                }
                Result::Ok(())
            },
        }
    }

    /// Points the launcher at `path` at `target`: whatever sat at `path` is
    /// removed and a fresh link is made. (The real activator does this as
    /// remove-then-create; the model holds the resulting state.)
    pub fn relink(&mut self, path: &str, target: &str)
        ensures
            final(self)@ == old(self)@.insert(path@, EntryView::Link { target: target@ }),
    {
        let ghost m0 = self.entries@;
        let entry = Entry::Link { target: String::from_str(target) };
        let ghost ev = entry@;
        self.entries.insert(String::from_str(path), entry);
        proof {
            lemma_map_values_insert(m0, path@, self.entries@[path@]);
            assert(final(self)@ =~= old(self)@.insert(path@, ev));
        }
    }
}

} // verus!
