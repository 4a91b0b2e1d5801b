//! Lists of the input or output tensors of a session.
use vstd::prelude::*;

verus! {

/// The entry of a tensor list: the native handle of one tensor's information.
#[derive(Debug, Clone, Copy, PartialEq, Eq)]
pub struct TensorInfo {
    tensor_info: usize,
}

impl TensorInfo {
    /// Native handle of the entry.
    pub closed spec fn spec_handle(&self) -> usize {
        self.tensor_info
    }

    /// Native handle of the entry.
    pub fn handle(&self) -> (h: usize)
        ensures
            h == self.spec_handle(),
    {
        self.tensor_info
    }
}

/// The entry at `index` of a list of native handles: there is one when the index is
/// inside the list and the handle there is not null.
pub open spec fn spec_entry(infos: Seq<usize>, index: int) -> Option<usize> {
    if 0 <= index < infos.len() && infos[index] != 0 {
        Some(infos[index])
    } else {
        None
    }
}

/// The input or output tensors of a session, as the native array lists them.
#[derive(Debug)]
pub struct TensorList {
    infos: Vec<usize>,
}

impl View for TensorList {
    type V = Seq<usize>;

    closed spec fn view(&self) -> Seq<usize> {
        self.infos@
    }
}

impl TensorList {
    /// The list of the given native entries, in their order.
    pub fn from_ptr(infos: Vec<usize>) -> (l: Self)
        ensures
            l@ == infos@,
    {
        TensorList { infos }
    }

    /// Returns the size of the tensor list.
    pub fn size(&self) -> (n: usize)
        ensures
            n == self@.len(),
    {
        self.infos.len()
    }

    /// The entry at the given index: none past the end, nor where the native array
    /// holds a null entry.
    pub fn get(&self, index: usize) -> (r: Option<TensorInfo>)
        ensures
            r matches Some(t) ==> spec_entry(self@, index as int) == Some(t.spec_handle()),
            r is None ==> spec_entry(self@, index as int) is None,
    {
        if index >= self.infos.len() {
            None
        } else {
            let h = self.infos[index];
            if h != 0 {
                Some(TensorInfo { tensor_info: h })
            } else {
                None
            }
        }
    }

    /// An iterator over the list, from its first entry.
    pub fn iter(&self) -> (it: TensorListIter<'_>)
        ensures
            it.spec_list() == self@,
            it.spec_index() == 0,
    {
        TensorListIter { tensor_list: self, idx: 0 }
    }
}

/// An iterator over a tensor list: it hands out the entry at each index in turn.
pub struct TensorListIter<'tl> {
    tensor_list: &'tl TensorList,
    idx: usize,
}

impl<'tl> TensorListIter<'tl> {
    /// The entries of the list that is walked.
    pub closed spec fn spec_list(&self) -> Seq<usize> {
        self.tensor_list@
    }

    /// The index of the next entry.
    pub closed spec fn spec_index(&self) -> nat {
        self.idx as nat
    }

    /// The entry at the current index, moving on to the next index.
    pub fn next(&mut self) -> (r: Option<TensorInfo>)
        ensures
            final(self).spec_list() == old(self).spec_list(),
            old(self).spec_index() < usize::MAX ==> final(self).spec_index() == old(
                self,
            ).spec_index() + 1,
            old(self).spec_index() == usize::MAX ==> final(self).spec_index() == old(
                self,
            ).spec_index(),
            r matches Some(t) ==> spec_entry(old(self).spec_list(), old(self).spec_index() as int)
                == Some(t.spec_handle()),
            r is None ==> spec_entry(old(self).spec_list(), old(self).spec_index() as int) is None,
    {
        let idx = self.idx;
        if self.idx < usize::MAX {
            self.idx = self.idx + 1;
        }
        self.tensor_list.get(idx)
    }
}

/// Once the walk is past the end of the list, it hands out nothing, however far it
/// goes; inside the list it hands out exactly the non-null entries.
pub proof fn lemma_walk_past_end(infos: Seq<usize>, index: int)
    ensures
        index >= infos.len() ==> spec_entry(infos, index) is None,
        0 <= index < infos.len() ==> (spec_entry(infos, index) is Some <==> infos[index] != 0),
{
}

} // verus!
