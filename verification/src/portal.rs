use vstd::prelude::*;

verus! {

/// A request to the desktop portal's interface, carrying the file chooser's
/// options of type `O`.
#[derive(Debug, Clone)]
pub enum Message<O> {
    FileChooserRequested(O),
}

} // verus!
