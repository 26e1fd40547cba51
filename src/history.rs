use std::collections::VecDeque;
use vstd::prelude::*;

verus! {

/// Number of entries a history keeps when no limit was chosen.
pub const DEFAULT_HISTORY_LIMIT: usize = 30;

/// `s` cut down to at most `cap` entries, dropping from the back (the oldest).
pub open spec fn truncated<T>(s: Seq<T>, cap: nat) -> Seq<T> {
    if s.len() > cap {
        s.take(cap as int)
    } else {
        s
    }
}

/// The entries after `item` was recorded into `entries` under capacity `cap`:
/// the new item in front, then the oldest entries beyond the capacity dropped.
pub open spec fn pushed(entries: Seq<String>, item: String, cap: nat) -> Seq<String> {
    truncated(seq![item] + entries, cap)
}

/// Bounded clipboard history: the most recent entries first, never more than
/// the capacity.
#[derive(Debug)]
pub struct ClipboardHistory {
    inner: VecDeque<String>,
    size: usize,
}

impl ClipboardHistory {
    /// The retained entries, newest first.
    pub closed spec fn entries(&self) -> Seq<String> {
        self.inner@
    }

    /// The largest number of entries the history retains.
    pub closed spec fn capacity(&self) -> nat {
        self.size as nat
    }

    /// The history holds no more entries than its capacity.
    pub open spec fn wf(&self) -> bool {
        self.entries().len() <= self.capacity()
    }

    /// An empty history that retains at most `size` entries.
    pub fn new(size: usize) -> (r: Self)
        ensures
            r.wf(),
            r.entries() == Seq::<String>::empty(),
            r.capacity() == size,
    {
        ClipboardHistory { inner: VecDeque::new(), size }
    }

    /// Records `item` as the newest entry; when the history is full, the
    /// oldest entry is dropped to make room.
    pub fn push(&mut self, item: String)
        requires
            old(self).wf(),
        ensures
            final(self).wf(),
            final(self).capacity() == old(self).capacity(),
            final(self).entries() == pushed(old(self).entries(), item, old(self).capacity()),
    {
        self.inner.push_front(item);
        if self.inner.len() > self.size {
            self.inner.pop_back();
        }
    }

    /// Sets the capacity to `new_size`, dropping the oldest entries that no
    /// longer fit.
    pub fn resize(&mut self, new_size: usize)
        requires
            old(self).wf(),
        ensures
            final(self).wf(),
            final(self).capacity() == new_size,
            final(self).entries() == truncated(old(self).entries(), new_size as nat),
            new_size < old(self).entries().len() ==> final(self).entries() == old(
                self,
            ).entries().take(new_size as int),
            new_size >= old(self).entries().len() ==> final(self).entries() == old(
                self,
            ).entries(),
    {
        self.size = new_size;
        self.inner.truncate(new_size);
    }

    /// The number of retained entries.
    pub fn len(&self) -> (r: usize)
        ensures
            r == self.entries().len(),
    {
        self.inner.len()
    }

    /// The largest number of entries the history retains.
    pub fn limit(&self) -> (r: usize)
        ensures
            r == self.capacity(),
    {
        self.size
    }
}

/// Positional snapshot of one retained entry: `id` is its current position
/// (0 is the newest), not a stable identity.
#[derive(Debug)]
pub struct HistoryItem {
    pub id: usize,
    pub value: String,
}

/// The snapshot of `entries`, position by position.
pub open spec fn listing(entries: Seq<String>) -> Seq<HistoryItem> {
    Seq::new(entries.len(), |i: int| HistoryItem { id: i as usize, value: entries[i] })
}

/// A position that holds no entry of the history.
#[derive(Debug, Clone, Copy, PartialEq, Eq, Structural)]
pub struct NotFound {
    pub index: usize,
}

impl ClipboardHistory {
    /// Removes and returns the entry at `index` (0 is the newest); the later
    /// entries move one position forward. Fails, changing nothing, when no
    /// entry stands at `index`.
    pub fn remove(&mut self, index: usize) -> (r: Result<String, NotFound>)
        requires
            old(self).wf(),
        ensures
            final(self).wf(),
            final(self).capacity() == old(self).capacity(),
            r is Ok <==> index < old(self).entries().len(),
            match r {
                Ok(v) => {
                    &&& v == old(self).entries()[index as int]
                    &&& final(self).entries() == old(self).entries().remove(index as int)
                },
                Err(e) => {
                    &&& e == (NotFound { index })
                    &&& final(self).entries() == old(self).entries()
                },
            },
    {
        match self.inner.remove(index) {
            Some(v) => Ok(v),
            None => Err(NotFound { index }),
        }
    }
}

/// The snapshot of all retained entries, newest first, each with its position.
pub fn history(store: &ClipboardHistory) -> (r: Vec<HistoryItem>)
    ensures
        r@ == listing(store.entries()),
{
    let n: usize = store.inner.len();
    let mut items: Vec<HistoryItem> = Vec::new();
    let mut i: usize = 0;
    while i < n
        invariant
            n == store.entries().len(),
            i <= n,
            items@ == listing(store.entries()).take(i as int),
        decreases n - i,
    {
        let value = store.inner[i].clone();
        items.push(HistoryItem { id: i, value });
        assert(items@ =~= listing(store.entries()).take(i + 1));
        i = i + 1;
    }
    assert(items@ =~= listing(store.entries()));
    items
}

/// Takes the entry at position `id` out of the history and returns its text,
/// to be written back to the clipboard. Fails, changing nothing, when no entry
/// stands at `id`.
pub fn paste(store: &mut ClipboardHistory, id: usize) -> (r: Result<String, NotFound>)
    requires
        old(store).wf(),
    ensures
        final(store).wf(),
        final(store).capacity() == old(store).capacity(),
        r is Ok <==> id < listing(old(store).entries()).len(),
        match r {
            Ok(v) => {
                &&& v == listing(old(store).entries())[id as int].value
                &&& final(store).entries() == old(store).entries().remove(id as int)
                &&& final(store).entries().len() == old(store).entries().len() - 1
            },
            Err(e) => {
                &&& e == (NotFound { index: id })
                &&& final(store).entries() == old(store).entries()
            },
        },
{
    store.remove(id)
}

/// Reacts to one clipboard change: text found on the clipboard becomes the
/// newest entry; a change without text is ignored. Returns whether the
/// history changed, that is whether observers are to be told.
pub fn on_clipboard_change(store: &mut ClipboardHistory, text: Option<String>) -> (changed: bool)
    requires
        old(store).wf(),
    ensures
        final(store).wf(),
        final(store).capacity() == old(store).capacity(),
        changed == text is Some,
        match text {
            Some(t) => final(store).entries() == pushed(old(store).entries(), t, old(store).capacity()),
            None => final(store).entries() == old(store).entries(),
        },
{
    match text {
        Some(t) => {
            store.push(t);
            true
        },
        None => false,
    }
}

impl Default for ClipboardHistory {
    /// An empty history with the default limit.
    fn default() -> (r: Self)
        ensures
            r.wf(),
            r.entries() == Seq::<String>::empty(),
            r.capacity() == DEFAULT_HISTORY_LIMIT,
    {
        ClipboardHistory::new(DEFAULT_HISTORY_LIMIT)
    }
}

} // verus!
