//! The unit of the library listing: one playable audio file, identified by
//! its absolute path and displayed under its base file name.

use vstd::prelude::*;

verus! {

/// The mathematical value of a [`MusicFile`]: both fields as character
/// sequences.
pub ghost struct FileView {
    pub path: Seq<char>,
    pub name: Seq<char>,
}

/// One playable audio file.  `path` is the full path handed back by the
/// directory walk; `name` is its base file name, used for display and for
/// ordering the library.
pub struct MusicFile {
    pub path: String,
    pub name: String,
}

impl View for MusicFile {
    type V = FileView;

    open spec fn view(&self) -> FileView {
        FileView { path: self.path@, name: self.name@ }
    }
}

impl Clone for MusicFile {
    fn clone(&self) -> (res: Self)
        ensures
            res@ == self@,
    {
        MusicFile { path: self.path.clone(), name: self.name.clone() }
    }
}

} // verus!
