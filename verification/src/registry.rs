use crate::stream::{can_record, recorded, DashCmafSinkStream, StreamView};
use crate::text::same_text;
use vstd::prelude::*;

verus! {

/// One stream of the sink under the name of its pad.
#[derive(Debug)]
pub struct StreamEntry {
    pub pad_name: String,
    pub stream: DashCmafSinkStream,
}

/// An entry as plain values.
pub struct EntryView {
    pub pad_name: Seq<char>,
    pub stream: StreamView,
}

impl View for StreamEntry {
    type V = EntryView;

    open spec fn view(&self) -> EntryView {
        EntryView { pad_name: self.pad_name@, stream: self.stream@ }
    }
}

/// The entries as plain values, in the same order.
pub open spec fn entry_views(entries: Seq<StreamEntry>) -> Seq<EntryView> {
    entries.map_values(|e: StreamEntry| e@)
}

/// No two entries go by the same name.
pub open spec fn distinct_names(entries: Seq<EntryView>) -> bool {
    forall|i: int, j: int|
        0 <= i < j < entries.len() ==> (#[trigger] entries[i]).pad_name != (
        #[trigger] entries[j]).pad_name
}

/// Whether an entry goes by `pad_name`.
pub open spec fn has_pad(entries: Seq<EntryView>, pad_name: Seq<char>) -> bool {
    exists|i: int| 0 <= i < entries.len() && (#[trigger] entries[i]).pad_name == pad_name
}

/// The place of an entry that goes by `pad_name`, where there is one.
pub open spec fn position_of(entries: Seq<EntryView>, pad_name: Seq<char>) -> int {
    choose|i: int| 0 <= i < entries.len() && (#[trigger] entries[i]).pad_name == pad_name
}

/// The stream that goes by `pad_name`, if there is one.
pub open spec fn stream_of(entries: Seq<EntryView>, pad_name: Seq<char>) -> Option<StreamView> {
    if has_pad(entries, pad_name) {
        Some(entries[position_of(entries, pad_name)].stream)
    } else {
        None
    }
}

/// The entries with one more at the end: `stream` under `pad_name`.
pub open spec fn registered(entries: Seq<EntryView>, pad_name: Seq<char>, stream: StreamView) -> Seq<
    EntryView,
> {
    entries.push(EntryView { pad_name, stream })
}

/// The entries that do not go by `pad_name`, in their order.
pub open spec fn removed(entries: Seq<EntryView>, pad_name: Seq<char>) -> Seq<EntryView> {
    entries.filter(|e: EntryView| e.pad_name != pad_name)
}

/// Among distinct names, a stream that is registered under a name that no
/// stream goes by is the stream of that name, every other name keeps its
/// stream, and the names stay distinct.
pub proof fn lemma_registered(entries: Seq<EntryView>, pad_name: Seq<char>, stream: StreamView)
    requires
        distinct_names(entries),
        !has_pad(entries, pad_name),
    ensures
        distinct_names(registered(entries, pad_name, stream)),
        has_pad(registered(entries, pad_name, stream), pad_name),
        stream_of(registered(entries, pad_name, stream), pad_name) == Some(stream),
        forall|other: Seq<char>|
            other != pad_name ==> #[trigger] stream_of(
                registered(entries, pad_name, stream),
                other,
            ) == stream_of(entries, other),
{
    let after = registered(entries, pad_name, stream);
    let last = entries.len() as int;
    assert(after[last].pad_name == pad_name);
    assert forall|i: int, j: int| 0 <= i < j < after.len() implies (#[trigger] after[i]).pad_name
        != (#[trigger] after[j]).pad_name by {
        assert(after[i] == entries[i]);
        if j < last {
            assert(after[j] == entries[j]);
        }
    }
    let found = position_of(after, pad_name);
    if found < last {
        assert(after[found].pad_name != after[last].pad_name);
    }
    assert forall|other: Seq<char>| other != pad_name implies #[trigger] stream_of(after, other)
        == stream_of(entries, other) by {
        if has_pad(entries, other) {
            let i = position_of(entries, other);
            assert(after[i] == entries[i]);
            assert(has_pad(after, other));
            let k = position_of(after, other);
            if k < i {
                assert(after[k].pad_name != after[i].pad_name);
            } else if i < k {
                assert(after[i].pad_name != after[k].pad_name);
            }
        } else if has_pad(after, other) {
            let k = position_of(after, other);
            assert(k < last);
            assert(after[k] == entries[k]);
        }
    }
}

/// A name that no stream goes by stays without a stream while streams are
/// taken out, while streams are registered under other names, and while the stream
/// at some place is exchanged for another of the same name.
pub proof fn lemma_absent_stays_absent(
    entries: Seq<EntryView>,
    pad_name: Seq<char>,
    other: Seq<char>,
    stream: StreamView,
    place: int,
)
    requires
        !has_pad(entries, pad_name),
    ensures
        !has_pad(removed(entries, other), pad_name),
        other != pad_name ==> !has_pad(registered(entries, other, stream), pad_name),
        0 <= place < entries.len() ==> !has_pad(
            entries.update(place, EntryView { pad_name: entries[place].pad_name, stream }),
            pad_name,
        ),
{
    let rest = removed(entries, other);
    let pred = |e: EntryView| e.pad_name != other;
    assert forall|i: int| 0 <= i < rest.len() implies (#[trigger] rest[i]).pad_name
        != pad_name by {
        assert(rest.contains(rest[i]));
        entries.lemma_filter_contains_rev(pred, rest[i]);
        let k = choose|k: int| 0 <= k < entries.len() && entries[k] == rest[i];
        assert(entries[k].pad_name != pad_name);
    }
    if other != pad_name {
        let more = registered(entries, other, stream);
        assert forall|i: int| 0 <= i < more.len() implies (#[trigger] more[i]).pad_name
            != pad_name by {
            if i < entries.len() {
                assert(more[i] == entries[i]);
            }
        }
    }
    if 0 <= place < entries.len() {
        let changed = entries.update(
            place,
            EntryView { pad_name: entries[place].pad_name, stream },
        );
        assert forall|i: int| 0 <= i < changed.len() implies (#[trigger] changed[i]).pad_name
            != pad_name by {
            assert(changed[i].pad_name == entries[i].pad_name);
        }
    }
}

/// A filter keeps a sequence whose every element passes it.
pub proof fn lemma_filter_keeps_all<A>(s: Seq<A>, pred: spec_fn(A) -> bool)
    requires
        forall|i: int| 0 <= i < s.len() ==> pred(#[trigger] s[i]),
    ensures
        s.filter(pred) == s,
    decreases s.len(),
{
    reveal(Seq::filter);
    if s.len() > 0 {
        let front = s.drop_last();
        assert forall|i: int| 0 <= i < front.len() implies pred(#[trigger] front[i]) by {
            assert(front[i] == s[i]);
        }
        lemma_filter_keeps_all(front, pred);
        assert(front.push(s.last()) =~= s);
    }
}

/// Among distinct names, taking out the entries of one name takes out the one
/// entry that has it.
pub proof fn lemma_removed_at(entries: Seq<EntryView>, place: int)
    requires
        distinct_names(entries),
        0 <= place < entries.len(),
    ensures
        removed(entries, entries[place].pad_name) == entries.remove(place),
{
    let pad_name = entries[place].pad_name;
    let pred = |e: EntryView| e.pad_name != pad_name;
    let before = entries.take(place);
    let one = seq![entries[place]];
    let after = entries.skip(place + 1);
    assert(entries =~= before + one + after);
    Seq::filter_distributes_over_add(before + one, after, pred);
    Seq::filter_distributes_over_add(before, one, pred);
    assert forall|i: int| 0 <= i < before.len() implies pred(#[trigger] before[i]) by {
        assert(before[i] == entries[i]);
    }
    lemma_filter_keeps_all(before, pred);
    assert forall|i: int| 0 <= i < after.len() implies pred(#[trigger] after[i]) by {
        assert(after[i] == entries[place + 1 + i]);
    }
    lemma_filter_keeps_all(after, pred);
    assert(one.filter(pred) =~= Seq::<EntryView>::empty()) by {
        reveal_with_fuel(Seq::filter, 2);
        assert(one.drop_last() =~= Seq::<EntryView>::empty());
    }
    assert(entries.remove(place) =~= before + after);
    assert(before + Seq::<EntryView>::empty() + after =~= before + after);
}

/// Where no entry goes by a name, taking that name out changes nothing.
pub proof fn lemma_removed_absent(entries: Seq<EntryView>, pad_name: Seq<char>)
    requires
        !has_pad(entries, pad_name),
    ensures
        removed(entries, pad_name) == entries,
{
    let pred = |e: EntryView| e.pad_name != pad_name;
    assert forall|i: int| 0 <= i < entries.len() implies pred(#[trigger] entries[i]) by {}
    lemma_filter_keeps_all(entries, pred);
}

/// The streams of the sink, each under the name of its pad, in the order in
/// which they were registered.
#[derive(Debug)]
pub struct StreamRegistry {
    entries: Vec<StreamEntry>,
}

impl View for StreamRegistry {
    type V = Seq<EntryView>;

    closed spec fn view(&self) -> Seq<EntryView> {
        entry_views(self.entries@)
    }
}

impl StreamRegistry {
    /// No two streams go by the same name.
    #[verifier::type_invariant]
    pub closed spec fn wf(self) -> bool {
        distinct_names(entry_views(self.entries@))
    }

    /// What `wf` says, over the plain values.
    pub proof fn lemma_wf(self)
        ensures
            self.wf() <==> distinct_names(self@),
    {
    }

    /// A registry without streams.
    pub fn new() -> (registry: Self)
        ensures
            registry@ == Seq::<EntryView>::empty(),
            registry.wf(),
    {
        let registry = StreamRegistry { entries: Vec::new() };
        assert(registry@ =~= Seq::<EntryView>::empty());
        registry
    }

    pub fn len(&self) -> (len: usize)
        ensures
            len == self@.len(),
    {
        self.entries.len()
    }

    /// The place of the stream that goes by `pad_name`.
    pub fn position(&self, pad_name: &str) -> (place: Option<usize>)
        ensures
            place is Some <==> has_pad(self@, pad_name@),
            place matches Some(i) ==> i == position_of(self@, pad_name@) && i < self@.len()
                && self@[i as int].pad_name == pad_name@,
    {
        proof {
            use_type_invariant(self);
        }
        let mut i: usize = 0;
        while i < self.entries.len()
            invariant
                i <= self.entries.len(),
                self@ == entry_views(self.entries@),
                distinct_names(self@),
                forall|k: int| 0 <= k < i ==> (#[trigger] self@[k]).pad_name != pad_name@,
            decreases self.entries.len() - i,
        {
            if same_text(self.entries[i].pad_name.as_str(), pad_name) {
                assert(self@[i as int].pad_name == pad_name@);
                return Some(i);
            }
            i = i + 1;
        }
        None
    }

    /// The name at `place`.
    pub fn pad_name_at(&self, place: usize) -> (pad_name: &str)
        requires
            place < self@.len(),
        ensures
            pad_name@ == self@[place as int].pad_name,
    {
        self.entries[place].pad_name.as_str()
    }

    /// The stream at `place`.
    pub fn stream_at(&self, place: usize) -> (stream: DashCmafSinkStream)
        requires
            place < self@.len(),
        ensures
            stream@ == self@[place as int].stream,
    {
        self.entries[place].stream
    }

    /// The stream that goes by `pad_name`.
    pub fn get(&self, pad_name: &str) -> (stream: Option<DashCmafSinkStream>)
        ensures
            stream is Some <==> has_pad(self@, pad_name@),
            stream matches Some(s) ==> stream_of(self@, pad_name@) == Some(s@),
    {
        match self.position(pad_name) {
            Some(place) => Some(self.entries[place].stream),
            None => None,
        }
    }

    /// Registers `stream` under `pad_name`, a name that no stream goes by.
    pub fn insert(&mut self, pad_name: String, stream: DashCmafSinkStream)
        requires
            !has_pad(old(self)@, pad_name@),
        ensures
            final(self)@ == registered(old(self)@, pad_name@, stream@),
            final(self).wf(),
    {
        proof {
            use_type_invariant(&*self);
            lemma_registered(self@, pad_name@, stream@);
        }
        let ghost before = self@;
        let entry = StreamEntry { pad_name, stream };
        let mut entries: Vec<StreamEntry> = Vec::new();
        core::mem::swap(&mut entries, &mut self.entries);
        entries.push(entry);
        assert(entry_views(entries@) =~= before.push(entry@));
        self.entries = entries;
    }

    /// Takes out the stream that goes by `pad_name`, if there is one.
    pub fn remove(&mut self, pad_name: &str)
        ensures
            final(self)@ == removed(old(self)@, pad_name@),
            final(self).wf(),
    {
        proof {
            use_type_invariant(&*self);
        }
        let ghost before = self@;
        match self.position(pad_name) {
            Some(i) => {
                let mut entries: Vec<StreamEntry> = Vec::new();
                core::mem::swap(&mut entries, &mut self.entries);
                entries.remove(i);
                proof {
                    lemma_removed_at(before, i as int);
                    assert(entry_views(entries@) =~= before.remove(i as int));
                }
                self.entries = entries;
            },
            None => {
                proof {
                    lemma_removed_absent(before, pad_name@);
                }
            },
        }
    }

    /// Whether one more segment of `total_size` bytes can be recorded for the
    /// stream at `place`.
    pub fn can_record_at(&self, place: usize, target_duration: u32, total_size: usize) -> (ok: bool)
        requires
            place < self@.len(),
        ensures
            ok == can_record(self@[place as int].stream, target_duration, total_size),
    {
        self.entries[place].stream.can_record(target_duration, total_size)
    }

    /// Records one more segment of `total_size` bytes for the stream at
    /// `place`; the other streams stay as they are.
    pub fn record_segment_at(&mut self, place: usize, target_duration: u32, total_size: usize)
        requires
            place < old(self)@.len(),
            can_record(old(self)@[place as int].stream, target_duration, total_size),
        ensures
            final(self)@ == old(self)@.update(
                place as int,
                EntryView {
                    pad_name: old(self)@[place as int].pad_name,
                    stream: recorded(old(self)@[place as int].stream, target_duration, total_size),
                },
            ),
            final(self).wf(),
    {
        proof {
            use_type_invariant(&*self);
        }
        let ghost before = self@;
        let mut entries: Vec<StreamEntry> = Vec::new();
        core::mem::swap(&mut entries, &mut self.entries);
        let mut stream = entries[place].stream;
        stream.record_segment(target_duration, total_size);
        let entry = StreamEntry { pad_name: entries[place].pad_name.clone(), stream };
        entries.set(place, entry);
        assert(entry_views(entries@) =~= before.update(place as int, entry@));
        self.entries = entries;
    }
}

} // verus!
