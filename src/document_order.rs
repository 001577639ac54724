//! The order in which stored documents are opened again at startup.
use vstd::prelude::*;

verus! {

/// One document to open, and how.
pub struct DocumentLoad<T> {
    pub document: T,
    /// Open it in front of the documents already open.
    pub to_front: bool,
    /// Select it once it is open.
    pub select_after_open: bool,
}

/// The current document opens first, behind nothing, and is selected.
pub fn current_document_load<T>(document: T) -> (l: DocumentLoad<T>)
    ensures
        l.document == document,
        !l.to_front,
        l.select_after_open,
{
    DocumentLoad { document, to_front: false, select_after_open: true }
}

/// The other documents, around the current one that is already open: those
/// before it, nearest first, each put in front; then those after it, in
/// order, each put behind. None is selected.
pub fn remaining_document_loads<T>(before: Vec<T>, after: Vec<T>) -> (r: Vec<DocumentLoad<T>>)
    requires
        before@.len() + after@.len() <= usize::MAX,
    ensures
        r@.len() == before@.len() + after@.len(),
        forall|i: int|
            0 <= i < before@.len() ==> {
                &&& #[trigger] r@[i].document == before@[before@.len() - 1 - i]
                &&& r@[i].to_front
                &&& !r@[i].select_after_open
            },
        forall|i: int|
            before@.len() <= i < r@.len() ==> {
                &&& #[trigger] r@[i].document == after@[i - before@.len()]
                &&& !r@[i].to_front
                &&& !r@[i].select_after_open
            },
{
    let ghost b0 = before@;
    let ghost a0 = after@;
    let mut before = before;
    let mut after = after;
    let mut out: Vec<DocumentLoad<T>> = Vec::new();
    while before.len() > 0
        invariant
            before@ == b0.subrange(0, before@.len() as int),
            out@.len() == b0.len() - before@.len(),
            forall|i: int|
                0 <= i < out@.len() ==> {
                    &&& #[trigger] out@[i].document == b0[b0.len() - 1 - i]
                    &&& out@[i].to_front
                    &&& !out@[i].select_after_open
                },
        decreases before@.len(),
    {
        let d = before.pop().unwrap();
        out.push(DocumentLoad { document: d, to_front: true, select_after_open: false });
    }
    let mut reversed: Vec<T> = Vec::new();
    while after.len() > 0
        invariant
            after@ == a0.subrange(0, after@.len() as int),
            reversed@.len() == a0.len() - after@.len(),
            forall|i: int| 0 <= i < reversed@.len() ==> #[trigger] reversed@[i] == a0[a0.len() - 1 - i],
        decreases after@.len(),
    {
        let d = after.pop().unwrap();
        reversed.push(d);
    }
    while reversed.len() > 0
        invariant
            reversed@.len() <= a0.len(),
            forall|i: int| 0 <= i < reversed@.len() ==> #[trigger] reversed@[i] == a0[a0.len() - 1 - i],
            out@.len() == b0.len() + a0.len() - reversed@.len(),
            b0.len() + a0.len() <= usize::MAX,
            forall|i: int|
                0 <= i < b0.len() ==> {
                    &&& #[trigger] out@[i].document == b0[b0.len() - 1 - i]
                    &&& out@[i].to_front
                    &&& !out@[i].select_after_open
                },
            forall|i: int|
                b0.len() <= i < out@.len() ==> {
                    &&& #[trigger] out@[i].document == a0[i - b0.len()]
                    &&& !out@[i].to_front
                    &&& !out@[i].select_after_open
                },
        decreases reversed@.len(),
    {
        let d = reversed.pop().unwrap();
        out.push(DocumentLoad { document: d, to_front: false, select_after_open: false });
    }
    out
}

} // verus!
