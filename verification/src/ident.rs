//! Namespaced resource identifiers of the form `namespace:folder/.../id`.

use vstd::prelude::*;

verus! {

/// An identifier: a namespace, the folders leading up to the target, and the
/// id of the target itself.
#[derive(Clone, Debug)]
pub struct Identifier {
    /// The namespace the identifier is in.
    pub namespace: String,
    /// The folders leading up to the target.
    pub folders: Vec<String>,
    /// The actual id of the identifier.
    pub id: String,
}

/// The folder prefix `seg/seg/.../`: each of the first `i` folders followed
/// by a slash.
pub open spec fn folders_chars(folders: Seq<String>, i: int) -> Seq<char>
    decreases i,
{
    if i <= 0 || i > folders.len() {
        Seq::empty()
    } else {
        folders_chars(folders, i - 1) + folders[i - 1]@ + seq!['/']
    }
}

impl Identifier {
    /// Both names an identifier carries are non-empty.
    pub open spec fn wf(self) -> bool {
        self.namespace@.len() > 0 && self.id@.len() > 0
    }

    /// The canonical string form `namespace:seg/seg/.../id`.
    pub open spec fn canonical_chars(self) -> Seq<char> {
        self.namespace@ + seq![':'] + folders_chars(self.folders@, self.folders@.len() as int)
            + self.id@
    }

    /// The file path `base/namespace/folder/seg/.../id.extension`.
    pub open spec fn path_chars(self, base: Seq<char>, folder: Seq<char>, extension: Seq<char>) -> Seq<char> {
        base + seq!['/'] + self.namespace@ + seq!['/'] + folder + seq!['/'] + folders_chars(
            self.folders@,
            self.folders@.len() as int,
        ) + self.id@ + seq!['.'] + extension
    }

    /// Creates an identifier from a namespace and parts: the last part is the
    /// id, the parts before it are the folders.
    pub fn new(namespace: &str, parts: Vec<String>) -> (r: Identifier)
        requires
            namespace@.len() > 0,
            parts@.len() > 0,
            parts@[parts@.len() - 1]@.len() > 0,
        ensures
            r.wf(),
            r.namespace@ == namespace@,
            r.folders@ == parts@.subrange(0, parts@.len() - 1),
            r.id == parts@[parts@.len() - 1],
    {
        let mut folders = parts;
        let id = folders.pop().unwrap();
        Identifier { namespace: namespace.to_owned(), folders, id }
    }

    /// Renders the canonical string form `namespace:seg/seg/.../id`.
    pub fn canonical(&self) -> (r: String)
        ensures
            r@ == self.canonical_chars(),
    {
        let mut out = self.namespace.clone();
        proof {
            reveal_strlit(":");
            assert(":"@ =~= seq![':']);
        }
        out.append(":");
        self.push_folders(&mut out);
        out.append(self.id.as_str());
        proof {
            assert(out@ =~= self.canonical_chars());
        }
        out
    }

    /// Derives the file path of the artifact this identifier names, under
    /// `base`, in the given artifact `folder`, with the given `extension`.
    pub fn join(&self, base: &str, folder: &str, extension: &str) -> (r: String)
        ensures
            r@ == self.path_chars(base@, folder@, extension@),
    {
        proof {
            reveal_strlit("/");
            reveal_strlit(".");
            assert("/"@ =~= seq!['/']);
            assert("."@ =~= seq!['.']);
        }
        let mut out = base.to_owned();
        out.append("/");
        out.append(self.namespace.as_str());
        out.append("/");
        out.append(folder);
        out.append("/");
        self.push_folders(&mut out);
        out.append(self.id.as_str());
        out.append(".");
        out.append(extension);
        proof {
            assert(out@ =~= self.path_chars(base@, folder@, extension@));
        }
        out
    }

    /// Appends `seg/` for each folder.
    fn push_folders(&self, out: &mut String)
        ensures
            final(out)@ == old(out)@ + folders_chars(self.folders@, self.folders@.len() as int),
    {
        proof {
            reveal_strlit("/");
            assert("/"@ =~= seq!['/']);
        }
        let mut k: usize = 0;
        while k < self.folders.len()
            invariant
                k <= self.folders.len(),
                out@ == old(out)@ + folders_chars(self.folders@, k as int),
                "/"@ =~= seq!['/'],
            decreases self.folders.len() - k,
        {
            out.append(self.folders[k].as_str());
            out.append("/");
            proof {
                assert(out@ =~= old(out)@ + folders_chars(self.folders@, k as int + 1));
            }
            k = k + 1;
        }
    }
}

} // verus!
