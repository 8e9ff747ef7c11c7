use vstd::prelude::*;

verus! {

/// The state that the parts of the application share.
#[derive(Debug, Clone, PartialEq, Eq)]
pub struct State {
    /// The text of the one open document, as the server was last told.
    pub lsp_text: String,
}

impl Default for State {
    fn default() -> (r: Self)
        ensures
            r.lsp_text@.len() == 0,
    {
        State { lsp_text: String::new() }
    }
}

} // verus!
