//! Reads of attributes whose value is a list.
use vstd::prelude::*;

verus! {

/// What is asked for.
#[derive(Debug, Clone, Copy, PartialEq, Eq, Structural)]
pub enum ListRead {
    Whole,
    Item { index: u16 },
    /// The list's frame without its items.
    Empty,
}

/// There is no item at the index that was asked for.
#[derive(Debug, Clone, Copy, PartialEq, Eq, Structural)]
pub struct ConstraintError;

impl ListRead {
    /// The items that answer this read; `None` where there are none to give.
    pub open spec fn answer<T>(self, items: Seq<T>) -> Option<Seq<T>> {
        match self {
            ListRead::Whole => Some(items),
            ListRead::Item { index } => if index < items.len() {
                Some(seq![items[index as int]])
            } else {
                None
            },
            ListRead::Empty => Some(Seq::empty()),
        }
    }

    /// Whether `res` is the answer.
    pub open spec fn answered<T>(self, items: Seq<T>, res: Result<Vec<T>, ConstraintError>) -> bool {
        match res {
            Ok(read) => self.answer(items) == Some(read@),
            Err(_) => self.answer(items) is None,
        }
    }
}

/// Answers a read of `items`.
pub fn read_list<T: Copy>(items: &[T], read: ListRead) -> (res: Result<Vec<T>, ConstraintError>)
    ensures
        read.answered(items@, res),
{
    let mut out: Vec<T> = Vec::new();
    match read {
        ListRead::Whole => {
            let mut i: usize = 0;
            while i < items.len()
                invariant
                    i <= items@.len(),
                    out@ == items@.take(i as int),
                decreases items@.len() - i,
            {
                out.push(items[i]);
                i = i + 1;
                assert(items@.take(i as int) == items@.take(i - 1).push(items@[i - 1]));
            }
            assert(out@ == items@);
        },
        ListRead::Item { index } => {
            let index: usize = index as usize;
            if index >= items.len() {
                return Err(ConstraintError);
            }
            out.push(items[index]);
            assert(out@ == seq![items@[index as int]]);
        },
        ListRead::Empty => {
            assert(out@ == Seq::<T>::empty());
        },
    }
    Ok(out)
}

} // verus!
