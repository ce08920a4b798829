//! Finding texture files in a directory tree, and naming what is written
//! for them.
//!
//! The tree is walked depth-first over an explicit stack of directories that
//! are still to be listed. Listing a directory is the caller's work; what to
//! do with each entry is decided here.

use vstd::prelude::*;

verus! {

/// The suffix of a texture file's name.
pub open spec fn tex_suffix() -> Seq<char> {
    seq!['.', 't', 'e', 'x']
}

/// The suffix of a written image's name.
pub open spec fn png_suffix() -> Seq<char> {
    seq!['.', 'p', 'n', 'g']
}

/// Whether a file name ends in `.tex`.
pub open spec fn ends_with_tex(name: Seq<char>) -> bool {
    name.len() >= 4 && name.subrange(name.len() - 4, name.len() as int) == tex_suffix()
}

/// The name of the image written for a texture file: the suffix `.tex`
/// replaced by `.png`. Any other name is left as it is.
pub open spec fn spec_output_name(name: Seq<char>) -> Seq<char> {
    if ends_with_tex(name) {
        name.subrange(0, name.len() - 4) + png_suffix()
    } else {
        name
    }
}

/// The path of the image written for a texture file into a directory.
pub open spec fn spec_output_path(dir: Seq<char>, name: Seq<char>) -> Seq<char> {
    dir + seq!['/'] + spec_output_name(name)
}

/// One entry of a directory listing.
#[derive(Clone, Debug)]
pub struct Entry {
    /// Path of the entry.
    pub path: String,
    /// Name of the entry within its directory.
    pub name: String,
    /// Whether the entry is a directory.
    pub is_dir: bool,
}

/// The paths of the directories in a listing, in the listing's order.
pub open spec fn dirs_of(entries: Seq<Entry>) -> Seq<Seq<char>> {
    entries.filter_map(
        |e: Entry|
            if e.is_dir {
                Some(e.path@)
            } else {
                None
            },
    )
}

/// The paths of the texture files in a listing, in the listing's order.
pub open spec fn textures_of(entries: Seq<Entry>) -> Seq<Seq<char>> {
    entries.filter_map(
        |e: Entry|
            if !e.is_dir && ends_with_tex(e.name@) {
                Some(e.path@)
            } else {
                None
            },
    )
}

/// The paths that a list of strings holds.
pub open spec fn paths(list: Seq<String>) -> Seq<Seq<char>> {
    Seq::new(list.len(), |i: int| list[i]@)
}

/// A walk over a directory tree: the directories that are still to be
/// listed, the next one last.
#[derive(Debug)]
pub struct Walk {
    /// Directories still to be listed.
    pub pending: Vec<String>,
}

impl View for Walk {
    type V = Seq<Seq<char>>;

    open spec fn view(&self) -> Seq<Seq<char>> {
        paths(self.pending@)
    }
}

/// Whether a file name ends in `.tex`.
pub fn is_texture_name(name: &str) -> (texture: bool)
    ensures
        texture == ends_with_tex(name@),
{
    let len: usize = name.unicode_len();
    if len < 4 {
        return false;
    }
    let texture = name.get_char(len - 4) == '.' && name.get_char(len - 3) == 't' && name.get_char(
        len - 2,
    ) == 'e' && name.get_char(len - 1) == 'x';
    proof {
        let tail = name@.subrange(len - 4, len as int);
        if texture {
            assert(tail =~= tex_suffix());
        } else {
            assert(tail[0] == name@[len - 4] && tail[1] == name@[len - 3] && tail[2] == name@[len
                - 2] && tail[3] == name@[len - 1]);
        }
    }
    texture
}

/// The name of the image written for a texture file: the suffix `.tex`
/// replaced by `.png`. Any other name is left as it is.
pub fn output_name(name: &str) -> (out: String)
    ensures
        out@ == spec_output_name(name@),
{
    if is_texture_name(name) {
        let len: usize = name.unicode_len();
        let mut out = String::from_str(name.substring_char(0, len - 4));
        proof {
            reveal_strlit(".png");
            assert(".png"@ =~= png_suffix());
        }
        out.append(".png");
        out
    } else {
        String::from_str(name)
    }
}

/// The path of the image written for a texture file into a directory.
pub fn output_path(dir: &str, name: &str) -> (out: String)
    ensures
        out@ == spec_output_path(dir@, name@),
{
    let mut out = String::from_str(dir);
    proof {
        reveal_strlit("/");
        assert("/"@ =~= seq!['/']);
    }
    out.append("/");
    let file = output_name(name);
    out.append(file.as_str());
    out
}

impl Walk {
    /// A walk that has the root and nothing else still to list.
    pub fn new(root: String) -> (walk: Walk)
        ensures
            walk@ == seq![root@],
    {
        let mut pending: Vec<String> = Vec::new();
        pending.push(root);
        let walk = Walk { pending };
        assert(walk@ =~= seq![root@]);
        walk
    }

    /// Takes the directory to list next: the one that was found last. `None`
    /// when the walk is over.
    pub fn next_dir(&mut self) -> (dir: Option<String>)
        ensures
            old(self)@.len() == 0 ==> dir is None && final(self)@ == old(self)@,
            old(self)@.len() > 0 ==> dir is Some && dir->Some_0@ == old(self)@.last(),
            old(self)@.len() > 0 ==> final(self)@ == old(self)@.drop_last(),
    {
        let dir = self.pending.pop();
        assert(self@ =~= if old(self)@.len() == 0 {
            old(self)@
        } else {
            old(self)@.drop_last()
        });
        dir
    }

    /// Takes in the listing of one directory: its directories are put on the
    /// stack, in the listing's order, and the paths of its texture files are
    /// returned, in the listing's order. Every other entry is ignored.
    pub fn visit(&mut self, entries: &Vec<Entry>) -> (files: Vec<String>)
        ensures
            final(self)@ == old(self)@ + dirs_of(entries@),
            paths(files@) == textures_of(entries@),
    {
        let mut files: Vec<String> = Vec::new();
        let mut i: usize = 0;
        assert(entries@.take(0) =~= Seq::<Entry>::empty());
        assert(self@ =~= old(self)@ + dirs_of(entries@.take(0)));
        assert(paths(files@) =~= textures_of(entries@.take(0)));
        while i < entries.len()
            invariant
                i <= entries.len(),
                self@ == old(self)@ + dirs_of(entries@.take(i as int)),
                paths(files@) == textures_of(entries@.take(i as int)),
            decreases entries.len() - i,
        {
            let entry = &entries[i];
            let ghost before = self@;
            let ghost found = paths(files@);
            assert(entries@.take(i + 1).drop_last() =~= entries@.take(i as int));
            assert(entries@.take(i + 1).last() == entries@[i as int]);
            if entry.is_dir {
                self.pending.push(entry.path.clone());
                assert(self@ =~= before + seq![entry.path@]);
            } else if is_texture_name(entry.name.as_str()) {
                files.push(entry.path.clone());
                assert(paths(files@) =~= found + seq![entry.path@]);
            }
            i += 1;
        }
        assert(entries@.take(i as int) =~= entries@);
        files
    }
}

} // verus!
