use vstd::prelude::*;

use crate::gist_file::GistFile;
use crate::json::{json_bool, quoted, bool_text, quoted_string};
use crate::text::{basename, last_segment};

verus! {

/// One serialized `files` member: `"<name>":{"content":"<text>"}`.
pub open spec fn file_entry_json(name: Seq<char>, content: Seq<char>) -> Seq<char> {
    quoted(name) + ":{\"content\":"@ + quoted(content) + "}"@
}

/// The members of the `files` object, comma separated, in storage order.
pub open spec fn files_json(files: Seq<(Seq<char>, Seq<char>)>) -> Seq<char>
    decreases files.len(),
{
    if files.len() == 0 {
        Seq::<char>::empty()
    } else if files.len() == 1 {
        file_entry_json(files[0].0, files[0].1)
    } else {
        files_json(files.drop_last()) + ","@ + file_entry_json(files.last().0, files.last().1)
    }
}

/// The exact serialized form of a gist document: an object with a `public`
/// boolean, a `files` object mapping each stored name to its content, and a
/// `description` string member exactly when a description was supplied.
pub open spec fn gist_json(
    public: bool,
    files: Seq<(Seq<char>, Seq<char>)>,
    description: Option<Seq<char>>,
) -> Seq<char> {
    "{\"public\":"@ + json_bool(public) + ",\"files\":{"@ + files_json(files) + (match description {
        Option::None => "}}"@,
        Option::Some(d) => "},\"description\":"@ + quoted(d) + "}"@,
    })
}

/// The stored names, in storage order.
pub open spec fn names(files: Seq<(Seq<char>, Seq<char>)>) -> Seq<Seq<char>> {
    files.map_values(|e: (Seq<char>, Seq<char>)| e.0)
}

/// Whether some stored entry already uses `name` as its key.
pub open spec fn has_name(files: Seq<(Seq<char>, Seq<char>)>, name: Seq<char>) -> bool {
    exists|i: int| 0 <= i < files.len() && files[i].0 == name
}

/// The position of the entry stored under `name` (meaningful only when
/// `has_name` holds).
pub open spec fn index_of_name(files: Seq<(Seq<char>, Seq<char>)>, name: Seq<char>) -> int {
    choose|i: int| 0 <= i < files.len() && files[i].0 == name
}

/// Insertion under `name`: overwrite the entry that already holds `name`, or
/// append a new entry at the end.
pub open spec fn spec_add(
    files: Seq<(Seq<char>, Seq<char>)>,
    name: Seq<char>,
    content: Seq<char>,
) -> Seq<(Seq<char>, Seq<char>)> {
    if has_name(files, name) {
        files.update(index_of_name(files, name), (name, content))
    } else {
        files.push((name, content))
    }
}

/// Folding a whole sequence of insertions into `files`, oldest first; each
/// added pair is a name (keyed by its basename) and a content.
pub open spec fn spec_add_all(
    files: Seq<(Seq<char>, Seq<char>)>,
    adds: Seq<(Seq<char>, Seq<char>)>,
) -> Seq<(Seq<char>, Seq<char>)>
    decreases adds.len(),
{
    if adds.len() == 0 {
        files
    } else {
        spec_add(spec_add_all(files, adds.drop_last()), basename(adds.last().0), adds.last().1)
    }
}

proof fn lemma_add_names(files: Seq<(Seq<char>, Seq<char>)>, name: Seq<char>, content: Seq<char>)
    requires
        names(files).no_duplicates(),
    ensures
        names(spec_add(files, name, content)).no_duplicates(),
        names(spec_add(files, name, content)).to_set() =~= names(files).to_set().insert(name),
{
    if has_name(files, name) {
        let i = index_of_name(files, name);
        assert(0 <= i < files.len() && files[i].0 == name) by {
            assert(has_name(files, name));
        }
        assert(names(spec_add(files, name, content)) =~= names(files));
        assert(names(files).to_set().contains(name)) by {
            assert(names(files)[i] == name);
        }
        assert(names(files).to_set().insert(name) =~= names(files).to_set());
    } else {
        let added = names(spec_add(files, name, content));
        assert(added =~= names(files).push(name));
        assert(forall|k: int| 0 <= k < names(files).len() ==> #[trigger] names(files)[k] != name)
            by {
            assert(forall|k: int| 0 <= k < files.len() ==> #[trigger] files[k].0 != name);
        }
        assert(added.no_duplicates());
        assert forall|x: Seq<char>|
            added.to_set().contains(x) <==> names(files).to_set().insert(name).contains(x) by {
            if added.contains(x) {
                let k = choose|k: int| 0 <= k < added.len() && added[k] == x;
                if k < names(files).len() {
                    assert(names(files)[k] == x);
                }
            }
            if names(files).contains(x) {
                let k = choose|k: int| 0 <= k < names(files).len() && names(files)[k] == x;
                assert(added[k] == x);
            }
            if x == name {
                assert(added[added.len() - 1] == x);
            }
        }
        assert(added.to_set() =~= names(files).to_set().insert(name));
    }
}

proof fn lemma_add_all_names(adds: Seq<(Seq<char>, Seq<char>)>)
    ensures
        names(spec_add_all(Seq::empty(), adds)).no_duplicates(),
        names(spec_add_all(Seq::empty(), adds)).to_set() =~= adds.map_values(
            |a: (Seq<char>, Seq<char>)| basename(a.0),
        ).to_set(),
    decreases adds.len(),
{
    let bnames = adds.map_values(|a: (Seq<char>, Seq<char>)| basename(a.0));
    if adds.len() == 0 {
        assert(names(spec_add_all(Seq::empty(), adds)) =~= Seq::<Seq<char>>::empty());
        assert(bnames =~= Seq::<Seq<char>>::empty());
    } else {
        lemma_add_all_names(adds.drop_last());
        let prev = spec_add_all(Seq::empty(), adds.drop_last());
        let bn = basename(adds.last().0);
        lemma_add_names(prev, bn, adds.last().1);
        let pbnames = adds.drop_last().map_values(|a: (Seq<char>, Seq<char>)| basename(a.0));
        assert(pbnames =~= bnames.drop_last());
        assert(bnames.last() == bn);
        assert forall|x: Seq<char>|
            bnames.to_set().contains(x) <==> bnames.drop_last().to_set().insert(bn).contains(
                x,
            ) by {
            if bnames.contains(x) {
                let k = choose|k: int| 0 <= k < bnames.len() && bnames[k] == x;
                if k < bnames.len() - 1 {
                    assert(bnames.drop_last()[k] == x);
                }
            }
            if bnames.drop_last().contains(x) {
                let k = choose|k: int|
                    0 <= k < bnames.drop_last().len() && bnames.drop_last()[k] == x;
                assert(bnames[k] == x);
            }
            if x == bn {
                assert(bnames[bnames.len() - 1] == x);
            }
        }
        assert(bnames.to_set() =~= bnames.drop_last().to_set().insert(bn));
    }
}

/// Law: starting from an empty document, after any sequence of insertions the
/// document holds exactly one file per distinct basename among the added
/// names, however many names collapsed to the same basename.
pub proof fn lemma_count_is_distinct_basenames(adds: Seq<(Seq<char>, Seq<char>)>)
    ensures
        spec_add_all(Seq::empty(), adds).len() == adds.map_values(
            |a: (Seq<char>, Seq<char>)| basename(a.0),
        ).to_set().len(),
{
    lemma_add_all_names(adds);
    let r = spec_add_all(Seq::empty(), adds);
    names(r).unique_seq_to_set();
    assert(names(r).len() == r.len());
}

/// Law: an insertion stores exactly the new content under its name — a later
/// file whose name collapses to an already used basename wins — and every
/// entry stored under another name survives unchanged.
pub proof fn lemma_insertion_overwrites(
    files: Seq<(Seq<char>, Seq<char>)>,
    name: Seq<char>,
    content: Seq<char>,
)
    requires
        names(files).no_duplicates(),
    ensures
        has_name(spec_add(files, name, content), name),
        spec_add(files, name, content)[index_of_name(spec_add(files, name, content), name)] == (
            name,
            content,
        ),
        forall|k: int|
            0 <= k < files.len() && files[k].0 != name ==> #[trigger] spec_add(
                files,
                name,
                content,
            ).contains(files[k]),
{
    let added = spec_add(files, name, content);
    if has_name(files, name) {
        let i = index_of_name(files, name);
        assert(0 <= i < files.len() && files[i].0 == name) by {
            assert(has_name(files, name));
        }
        assert(added[i] == (name, content));
        assert(has_name(added, name)) by {
            assert(added[i].0 == name);
        }
        let j = index_of_name(added, name);
        assert(0 <= j < added.len() && added[j].0 == name) by {
            assert(has_name(added, name));
        }
        assert(names(added) =~= names(files));
        assert(j == i) by {
            if j != i {
                assert(names(added)[j] != names(added)[i]);
            }
        }
        assert forall|k: int| 0 <= k < files.len() && files[k].0 != name implies #[trigger] added
            .contains(files[k]) by {
            assert(added[k] == files[k]);
        }
    } else {
        let n = files.len() as int;
        assert(added[n] == (name, content));
        assert(has_name(added, name)) by {
            assert(added[n].0 == name);
        }
        let j = index_of_name(added, name);
        assert(0 <= j < added.len() && added[j].0 == name) by {
            assert(has_name(added, name));
        }
        assert(j == n) by {
            if j != n {
                assert(files[j].0 == name);
                assert(has_name(files, name));
            }
        }
        assert forall|k: int| 0 <= k < files.len() && files[k].0 != name implies #[trigger] added
            .contains(files[k]) by {
            assert(added[k] == files[k]);
        }
    }
}

/// Law: an empty document still serializes to a complete `public`/`files`
/// object.
pub proof fn lemma_serialize_empty(public: bool)
    ensures
        gist_json(public, Seq::empty(), Option::None) == (if public {
            "{\"public\":true,\"files\":{}}"@
        } else {
            "{\"public\":false,\"files\":{}}"@
        }),
{
    reveal_strlit("{\"public\":");
    reveal_strlit("true");
    reveal_strlit("false");
    reveal_strlit(",\"files\":{");
    reveal_strlit("}}");
    reveal_strlit("{\"public\":true,\"files\":{}}");
    reveal_strlit("{\"public\":false,\"files\":{}}");
    if public {
        assert(gist_json(true, Seq::empty(), Option::None) =~= "{\"public\":true,\"files\":{}}"@);
    } else {
        assert(gist_json(false, Seq::empty(), Option::None)
            =~= "{\"public\":false,\"files\":{}}"@);
    }
}

/// Law: the `description` member is present exactly when a description was
/// supplied, and a supplied description is emitted as a JSON string in
/// quotes — never as `null`.
pub proof fn lemma_description_member(
    public: bool,
    files: Seq<(Seq<char>, Seq<char>)>,
    d: Seq<char>,
)
    ensures
        gist_json(public, files, Option::None) == "{\"public\":"@ + json_bool(public)
            + ",\"files\":{"@ + files_json(files) + "}}"@,
        gist_json(public, files, Option::Some(d)) == "{\"public\":"@ + json_bool(public)
            + ",\"files\":{"@ + files_json(files) + "},\"description\":"@ + quoted(d) + "}"@,
        quoted(d).len() >= 2,
        quoted(d)[0] == '"',
        quoted(d).last() == '"',
{
    assert(quoted(d)[0] == '"');
    assert(quoted(d).last() == '"');
}

/// A gist document being built for a creation request: a visibility flag, an
/// optional description, and the files to upload, keyed by basename.
#[derive(Debug)]
pub struct Gist {
    public: bool,
    description: Option<String>,
    files: Vec<GistFile>,
    collisions: usize,
}

impl Gist {
    /// The visibility flag.
    pub closed spec fn spec_public(self) -> bool {
        self.public
    }

    /// The description, if one was supplied.
    pub closed spec fn spec_description(self) -> Option<Seq<char>> {
        self.description.deep_view()
    }

    /// The stored files as (name, content) pairs, in storage order.
    pub closed spec fn entries(self) -> Seq<(Seq<char>, Seq<char>)> {
        self.files@.map_values(|f: GistFile| (f.name@, f.content@))
    }

    /// How many insertions overwrote an entry that was already present.
    pub closed spec fn spec_collisions(self) -> nat {
        self.collisions as nat
    }

    /// Well-formed: no two stored files share a name.
    pub open spec fn wf(self) -> bool {
        names(self.entries()).no_duplicates()
    }

    /// An empty document.
    pub fn new(public: bool, description: Option<String>) -> (g: Gist)
        ensures
            g.wf(),
            g.spec_public() == public,
            g.spec_description() == description.deep_view(),
            g.entries() == Seq::<(Seq<char>, Seq<char>)>::empty(),
            g.spec_collisions() == 0,
    {
        let g = Gist { public, description, files: Vec::new(), collisions: 0 };
        proof {
            assert(g.entries() =~= Seq::<(Seq<char>, Seq<char>)>::empty());
        }
        g
    }

    /// True iff no file has been stored yet.
    pub fn is_empty(&self) -> (r: bool)
        ensures
            r == (self.entries().len() == 0),
    {
        self.files.len() == 0
    }

    /// The number of stored files: one per distinct basename added so far.
    pub fn file_count(&self) -> (r: usize)
        ensures
            r == self.entries().len(),
    {
        self.files.len()
    }

    /// How many insertions replaced an already stored file, because two added
    /// names collapsed to the same basename (saturating at the count's limit).
    pub fn collisions(&self) -> (r: usize)
        ensures
            r == self.spec_collisions(),
    {
        self.collisions
    }

    fn find_name(files: &Vec<GistFile>, name: &String) -> (r: Option<usize>)
        ensures
            match r {
                Option::Some(i) => i < files@.len() && files@[i as int].name@ == name@,
                Option::None => forall|i: int| 0 <= i < files@.len() ==> files@[i].name@ != name@,
            },
    {
        let n = files.len();
        let mut i: usize = 0;
        while i < n
            invariant
                i <= n,
                n == files@.len(),
                forall|j: int| 0 <= j < i ==> files@[j].name@ != name@,
            decreases n - i,
        {
            if files[i].name == *name {
                return Some(i);
            }
            i = i + 1;
        }
        None
    }

    /// Stores `file` under the basename of its name. A file already stored
    /// under that basename is replaced and counted as a collision; otherwise
    /// the file is appended.
    pub fn add_file(&mut self, file: GistFile)
        requires
            old(self).wf(),
        ensures
            final(self).wf(),
            final(self).spec_public() == old(self).spec_public(),
            final(self).spec_description() == old(self).spec_description(),
            final(self).entries() == spec_add(
                old(self).entries(),
                basename(file.name@),
                file.content@,
            ),
            final(self).spec_collisions() == if has_name(
                old(self).entries(),
                basename(file.name@),
            ) {
                if old(self).spec_collisions() < usize::MAX {
                    old(self).spec_collisions() + 1
                } else {
                    old(self).spec_collisions()
                }
            } else {
                old(self).spec_collisions()
            },
    {
        let name = last_segment(file.name.as_str());
        let stored = GistFile { name, content: file.content };
        let ghost bn = basename(file.name@);
        let ghost old_entries = self.entries();
        match Self::find_name(&self.files, &stored.name) {
            Some(i) => {
                self.files.set(i, stored);
                self.collisions = if self.collisions < usize::MAX {
                    self.collisions + 1
                } else {
                    self.collisions
                };
                proof {
                    assert(old_entries[i as int].0 == bn);
                    assert(has_name(old_entries, bn));
                    let j = index_of_name(old_entries, bn);
                    assert(0 <= j < old_entries.len() && old_entries[j].0 == bn) by {
                        assert(has_name(old_entries, bn));
                    }
                    assert(names(old_entries)[j] == bn);
                    assert(names(old_entries)[i as int] == bn);
                    assert(j == i) by {
                        if j != i {
                            assert(names(old_entries)[j] != names(old_entries)[i as int]);
                        }
                    }
                    assert(spec_add(old_entries, bn, file.content@) == old_entries.update(
                        i as int,
                        (bn, file.content@),
                    ));
                    assert forall|k: int| 0 <= k < self.entries().len() implies self.entries()[k]
                        == old_entries.update(i as int, (bn, file.content@))[k] by {
                        assert(self.entries()[k] == (self.files@[k].name@, self.files@[k].content@));
                        assert(old_entries[k] == (old(self).files@[k].name@, old(
                            self,
                        ).files@[k].content@));
                    }
                    assert(self.entries() =~= spec_add(old_entries, bn, file.content@));
                    assert(names(self.entries()) =~= names(old_entries));
                    assert(self.wf());
                }
            },
            None => {
                self.files.push(stored);
                proof {
                    assert(forall|k: int|
                        0 <= k < old_entries.len() ==> #[trigger] old_entries[k].0 == names(
                            old_entries,
                        )[k]);
                    assert(!has_name(old_entries, bn));
                    assert(self.entries() =~= spec_add(old_entries, bn, file.content@));
                    assert(names(self.entries()) =~= names(old_entries).push(bn));
                    assert(self.wf());
                }
            },
        }
    }

    /// Serializes the document to the exact JSON text the service expects.
    pub fn to_json(&self) -> (r: String)
        ensures
            r@ == gist_json(self.spec_public(), self.entries(), self.spec_description()),
    {
        let mut out = String::from_str("{\"public\":");
        out.append(bool_text(self.public));
        out.append(",\"files\":{");
        let ghost prefix = "{\"public\":"@ + json_bool(self.spec_public()) + ",\"files\":{"@;
        proof {
            assert(self.entries().take(0) =~= Seq::<(Seq<char>, Seq<char>)>::empty());
        }
        let n = self.files.len();
        let mut i: usize = 0;
        while i < n
            invariant
                i <= n,
                n == self.files@.len(),
                self.entries().len() == n,
                out@ == prefix + files_json(self.entries().take(i as int)),
                prefix == "{\"public\":"@ + json_bool(self.spec_public()) + ",\"files\":{"@,
                forall|k: int| 0 <= k < n ==> #[trigger] self.entries()[k] == (
                    self.files@[k].name@,
                    self.files@[k].content@,
                ),
            decreases n - i,
        {
            if i > 0 {
                out.append(",");
            }
            let f = &self.files[i];
            let qn = quoted_string(f.name.as_str());
            out.append(qn.as_str());
            out.append(":{\"content\":");
            let qc = quoted_string(f.content.as_str());
            out.append(qc.as_str());
            out.append("}");
            proof {
                reveal_strlit(",");
                let taken = self.entries().take(i + 1);
                assert(taken.drop_last() =~= self.entries().take(i as int));
                assert(taken.last() == self.entries()[i as int]);
                if i == 0 {
                    assert(taken.len() == 1);
                    assert(taken[0] == self.entries()[0]);
                    assert(out@ =~= prefix + files_json(taken));
                } else {
                    assert(files_json(taken) == files_json(self.entries().take(i as int)) + ","@
                        + file_entry_json(self.entries()[i as int].0, self.entries()[i as int].1));
                    assert(out@ =~= prefix + files_json(taken));
                }
            }
            i = i + 1;
        }
        proof {
            assert(self.entries().take(n as int) =~= self.entries());
        }
        match &self.description {
            Option::None => {
                out.append("}}");
                proof {
                    assert(out@ =~= gist_json(
                        self.spec_public(),
                        self.entries(),
                        self.spec_description(),
                    ));
                }
            },
            Option::Some(d) => {
                out.append("},\"description\":");
                let qd = quoted_string(d.as_str());
                out.append(qd.as_str());
                out.append("}");
                proof {
                    assert(self.spec_description() == Option::Some(d@));
                    assert(out@ =~= gist_json(
                        self.spec_public(),
                        self.entries(),
                        self.spec_description(),
                    ));
                }
            },
        }
        out
    }
}

} // verus!
