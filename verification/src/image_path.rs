use vstd::prelude::*;

verus! {

/// Where a saved image lies: the text of its file-system path.
///
/// A plain value. It is made when a save ends well and names the file to
/// whoever later wants it removed; the store keeps no record of it.
#[derive(Debug, PartialEq, Eq)]
pub struct ImagePath {
    pub path: String,
}

impl View for ImagePath {
    type V = Seq<char>;

    open spec fn view(&self) -> Seq<char> {
        self.path@
    }
}

} // verus!
