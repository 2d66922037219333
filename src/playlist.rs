use vstd::multiset::Multiset;
use vstd::prelude::*;

use crate::pointer_reference_counter::PointerReferenceCounter;

verus! {

broadcast use {vstd::multiset::group_multiset_axioms, vstd::seq_lib::group_to_multiset_ensures};

/// One entry of a playlist: the native list node and the file it plays.
#[derive(Clone, Copy, Debug, PartialEq, Eq, Structural)]
pub struct PlaylistItem {
    pub node: u64,
    pub file: u64,
}

impl PlaylistItem {
    /// The identity of the file this item plays.
    pub fn file(&self) -> (r: u64)
        ensures
            r == self.file,
    {
        self.file
    }
}

pub const EVERY_SINK_FULL: i32 = 0;
pub const ANY_SINK_FULL: i32 = 1;

/// When a playlist decodes ahead.
#[derive(Clone, Copy, Debug, PartialEq, Eq, Structural)]
pub enum FillMode {
    /// The default: the playlist decodes while any sink is not full. If a
    /// sink does not drain fast enough, data buffers up in the playlist.
    EverySinkFull,
    /// The playlist stops decoding when any attached sink is full, and
    /// resumes when no sink is full.
    AnySinkFull,
}

impl FillMode {
    /// The native code of this mode.
    pub fn to_groove(&self) -> (r: i32)
        ensures
            *self == FillMode::EverySinkFull ==> r == EVERY_SINK_FULL,
            *self == FillMode::AnySinkFull ==> r == ANY_SINK_FULL,
    {
        match *self {
            FillMode::EverySinkFull => EVERY_SINK_FULL,
            FillMode::AnySinkFull => ANY_SINK_FULL,
        }
    }
}

/// The files of `items`, in order.
pub open spec fn files_of(items: Seq<PlaylistItem>) -> Seq<u64> {
    items.map_values(|it: PlaylistItem| it.file)
}

/// The ordered items of a playlist. Each item holds one registry reference
/// on its file.
pub struct Playlist {
    items: Vec<PlaylistItem>,
}

impl View for Playlist {
    type V = Seq<PlaylistItem>;

    closed spec fn view(&self) -> Seq<PlaylistItem> {
        self.items@
    }
}

impl Playlist {
    pub fn new() -> (r: Self)
        ensures
            r@ == Seq::<PlaylistItem>::empty(),
    {
        Playlist { items: Vec::new() }
    }

    /// The items, in playback order.
    pub fn items(&self) -> (r: &Vec<PlaylistItem>)
        ensures
            r@ == self@,
    {
        &self.items
    }

    /// The native node that an insertion at `index` goes before.
    pub fn node_before(&self, index: usize) -> (r: u64)
        requires
            index < self@.len(),
        ensures
            r == self@[index as int].node,
    {
        self.items[index].node
    }

    /// Records the native node `node` for the open file `file`, before the item at `index`,
    /// or at the end when there is none, and takes a reference on the file.
    fn insert_at(
        &mut self,
        file: u64,
        node: u64,
        index: Option<usize>,
        rc: &mut PointerReferenceCounter,
    )
        requires
            old(rc).wf(),
            old(rc)@.count(file) < usize::MAX,
            index.is_some() ==> index.unwrap() < old(self)@.len(),
        ensures
            final(rc).wf(),
            final(rc)@ == old(rc)@.insert(file),
            final(self)@ == match index {
                Some(i) => old(self)@.insert(i as int, PlaylistItem { node, file }),
                None => old(self)@.push(PlaylistItem { node, file }),
            },
    {
        let item = PlaylistItem { node, file };
        match index {
            Some(i) => self.items.insert(i, item),
            None => self.items.push(item),
        }
        rc.incr(file);
    }

    /// Adds `file` at the end, as the native node `node`.
    pub fn append(&mut self, file: u64, node: u64, rc: &mut PointerReferenceCounter)
        requires
            old(rc).wf(),
            old(rc)@.count(file) < usize::MAX,
        ensures
            final(rc).wf(),
            final(rc)@ == old(rc)@.insert(file),
            final(self)@ == old(self)@.push(PlaylistItem { node, file }),
    {
        self.insert_at(file, node, None, rc)
    }

    /// Adds `file` before the item at `index`, as the native node `node`.
    pub fn insert(
        &mut self,
        file: u64,
        node: u64,
        index: usize,
        rc: &mut PointerReferenceCounter,
    )
        requires
            old(rc).wf(),
            old(rc)@.count(file) < usize::MAX,
            index < old(self)@.len(),
        ensures
            final(rc).wf(),
            final(rc)@ == old(rc)@.insert(file),
            final(self)@ == old(self)@.insert(index as int, PlaylistItem { node, file }),
    {
        self.insert_at(file, node, Some(index), rc)
    }

    /// Removes every item and gives up the reference each held on its file.
    /// Returns the files whose last reference went, each once: the caller
    /// closes them.
    pub fn clear(&mut self, rc: &mut PointerReferenceCounter) -> (closed: Vec<u64>)
        requires
            old(rc).wf(),
            files_of(old(self)@).to_multiset().subset_of(old(rc)@),
        ensures
            final(rc).wf(),
            final(self)@.len() == 0,
            final(rc)@ == old(rc)@.sub(files_of(old(self)@).to_multiset()),
            forall|f: u64| #[trigger]
                final(rc)@.count(f) == old(rc)@.count(f) - files_of(old(self)@).to_multiset().count(
                    f,
                ),
            closed@.no_duplicates(),
            forall|f: u64| #[trigger]
                closed@.contains(f) <==> (files_of(old(self)@).contains(f) && final(rc)@.count(f)
                    == 0),
    {
        let ghost goal = rc@.sub(files_of(self@).to_multiset());
        let ghost all = files_of(self@);
        let mut closed: Vec<u64> = Vec::new();
        while self.items.len() > 0
            invariant
                rc.wf(),
                files_of(self@).to_multiset().subset_of(rc@),
                rc@.sub(files_of(self@).to_multiset()) == goal,
                files_of(self@) =~= all.subrange(0, self@.len() as int),
                self@.len() <= all.len(),
                closed@.no_duplicates(),
                forall|f: u64| #[trigger]
                    closed@.contains(f) <==> (all.subrange(self@.len() as int, all.len() as int).contains(
                        f,
                    ) && rc@.count(f) == 0),
            decreases self.items.len(),
        {
            let ghost rest = self@;
            let ghost n = rest.len() as int;
            let item = self.items.pop().unwrap();
            proof {
                assert(files_of(rest) =~= files_of(self@).push(item.file));
                assert(files_of(rest).to_multiset().count(item.file) >= 1);
                assert(files_of(rest)[n - 1] == item.file);
                assert(all.subrange(0, n)[n - 1] == all[n - 1]);
            }
            let ghost closed_before = closed@;
            let ghost rc_before = rc@;
            let last = rc.decr(item.file);
            if last {
                proof {
                    assert(!closed@.contains(item.file));
                }
                closed.push(item.file);
            }
            proof {
                let ms = files_of(self@).to_multiset();
                assert forall|y: u64| ms.count(y) <= rc@.count(y) by {}
                assert(rc@.sub(ms) =~= goal);
                assert(files_of(self@) =~= all.subrange(0, self@.len() as int));
                let before = all.subrange(n, all.len() as int);
                let after = all.subrange(n - 1, all.len() as int);
                assert(after =~= seq![item.file] + before);
                assert forall|f: u64| #[trigger]
                    closed@.contains(f) <==> (after.contains(f) && rc@.count(f) == 0) by {
                    if f != item.file {
                        if after.contains(f) {
                            let i = choose|i: int| 0 <= i < after.len() && after[i] == f;
                            assert(before[i - 1] == f);
                        }
                        if before.contains(f) {
                            let i = choose|i: int| 0 <= i < before.len() && before[i] == f;
                            assert(after[i + 1] == f);
                        }
                        assert(closed@ == if last {
                            closed_before.push(item.file)
                        } else {
                            closed_before
                        });
                        if closed@.contains(f) {
                            let i = choose|i: int| 0 <= i < closed@.len() && closed@[i] == f;
                            assert(closed_before[i] == f);
                        }
                        if closed_before.contains(f) {
                            let i = choose|i: int| 0 <= i < closed_before.len() && closed_before[i] == f;
                            assert(closed@[i] == f);
                        }
                    } else {
                        assert(after[0] == f);
                        assert(rc_before.count(f) >= 1);
                        assert(!closed_before.contains(f));
                        if last {
                            assert(closed@[closed@.len() - 1] == f);
                        } else {
                            assert(closed@ == closed_before);
                        }
                    }
                }
            }
        }
        proof {
            assert(files_of(self@) =~= Seq::<u64>::empty());
            assert(rc@.sub(files_of(self@).to_multiset()) =~= rc@);
            assert(all.subrange(0, all.len() as int) =~= all);
        }
        closed
    }
}

/// The items and the registry after appending each of `appended` in turn, as
/// `Playlist::append` does, to the items `p` with the registry `rc`.
pub open spec fn after_appends(
    p: Seq<PlaylistItem>,
    rc: Multiset<u64>,
    appended: Seq<PlaylistItem>,
) -> (Seq<PlaylistItem>, Multiset<u64>)
    decreases appended.len(),
{
    if appended.len() == 0 {
        (p, rc)
    } else {
        let (p0, rc0) = after_appends(p, rc, appended.drop_last());
        (p0.push(appended.last()), rc0.insert(appended.last().file))
    }
}

/// Appending items one by one to an empty playlist lists them in the order
/// they were appended, and each append adds exactly one reference to its
/// file: a file's count grows by the number of times it was appended.
pub proof fn lemma_append_order(rc: Multiset<u64>, appended: Seq<PlaylistItem>)
    ensures
        after_appends(Seq::empty(), rc, appended).0 == appended,
        forall|f: u64| #[trigger]
            after_appends(Seq::empty(), rc, appended).1.count(f) == rc.count(f) + files_of(
                appended,
            ).to_multiset().count(f),
    decreases appended.len(),
{
    if appended.len() == 0 {
        assert(files_of(appended) =~= Seq::<u64>::empty());
    } else {
        let prefix = appended.drop_last();
        lemma_append_order(rc, prefix);
        assert(prefix.push(appended.last()) =~= appended);
        assert(files_of(appended) =~= files_of(prefix).push(appended.last().file));
        let after = after_appends(Seq::empty(), rc, appended).1;
        assert forall|f: u64| #[trigger]
            after.count(f) == rc.count(f) + files_of(appended).to_multiset().count(f) by {
            assert(after_appends(Seq::empty(), rc, prefix).1.count(f) == rc.count(f) + files_of(
                prefix,
            ).to_multiset().count(f));
        }
    }
}

/// Appending or inserting an item keeps every item's reference within the
/// registry: the reference it takes is the one its new item holds.
pub proof fn lemma_insert_keeps_references(
    p: Seq<PlaylistItem>,
    rc: Multiset<u64>,
    index: int,
    item: PlaylistItem,
)
    requires
        files_of(p).to_multiset().subset_of(rc),
        0 <= index <= p.len(),
    ensures
        files_of(p.insert(index, item)).to_multiset().subset_of(rc.insert(item.file)),
        files_of(p.push(item)).to_multiset().subset_of(rc.insert(item.file)),
{
    assert(files_of(p.insert(index, item)) =~= files_of(p).insert(index, item.file));
    assert(files_of(p.push(item)) =~= files_of(p).push(item.file));
}

} // verus!
