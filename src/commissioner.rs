use vstd::prelude::*;

use crate::errors::IdError;
use crate::ids::{spec_kind_accepts, IdKind};

verus! {

/// Hands out and checks component ids.
#[derive(Debug)]
pub struct Commissioner;

impl Commissioner {
    /// Checks that `id` can address a component of kind `kind`: a window
    /// takes one component, a container two, a text field three whose last
    /// is even for an editable field and odd for a read-only one. Returns
    /// the last component; any other combination is a kind mismatch.
    pub fn authorize_id(kind: IdKind, id: &[u8]) -> (r: Result<u8, IdError>)
        ensures
            match r {
                Ok(last) => id@.len() > 0 && last == id@.last() && spec_kind_accepts(
                    kind,
                    id@.len() as int,
                    last as int,
                ),
                Err(e) => e == IdError::KindMismatch && (id@.len() == 0 || !spec_kind_accepts(
                    kind,
                    id@.len() as int,
                    id@.last() as int,
                )),
            },
    {
        if id.len() == 0 {
            return Err(IdError::KindMismatch);
        }
        let last = id[id.len() - 1];
        let ok = match kind {
            IdKind::Term => id.len() == 1,
            IdKind::Container => id.len() == 2,
            IdKind::TextInput => id.len() == 3 && last % 2 == 0,
            IdKind::TextNE => id.len() == 3 && last % 2 == 1,
        };
        if ok {
            Ok(last)
        } else {
            Err(IdError::KindMismatch)
        }
    }
}

} // verus!
