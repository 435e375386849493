//! The unit handed to storage on a write.

use crate::domain::paste_content::PasteContent;
use crate::domain::paste_id::PasteId;
use vstd::prelude::*;

verus! {

/// A validated identifier paired with validated content: what a write
/// request hands to the repository.
pub struct NewPaste {
    pub id: PasteId,
    pub content: PasteContent,
}

impl NewPaste {
    /// Both halves of the pair are valid.
    pub open spec fn wf(&self) -> bool {
        self.id.wf() && self.content.wf()
    }
}

} // verus!
