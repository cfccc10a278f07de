use vstd::prelude::*;

verus! {

/// A file could not be emitted.
#[derive(Debug, PartialEq, Eq)]
pub struct EmitterError {
    pub filename: String,
}

impl View for EmitterError {
    type V = Seq<char>;

    open spec fn view(&self) -> Seq<char> {
        self.filename@
    }
}

} // verus!
