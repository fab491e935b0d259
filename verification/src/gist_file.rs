use vstd::prelude::*;

verus! {

/// One file of a gist: a display name and its full text content.
///
/// The content is the complete, unmodified text read from its source; it is
/// filled by the embedding program (from a named file or from standard input)
/// after construction.
#[derive(Debug, Clone)]
pub struct GistFile {
    pub name: String,
    pub content: String,
}

impl GistFile {
    /// An empty file under the given name.
    pub fn new(name: String) -> (f: GistFile)
        ensures
            f.name@ == name@,
            f.content@ == Seq::<char>::empty(),
    {
        GistFile { name, content: String::new() }
    }

    /// The display name used when a file arrives without one of its own.
    pub fn default_name() -> (r: String)
        ensures
            r@ == "content"@,
    {
        String::from_str("content")
    }
}

} // verus!
