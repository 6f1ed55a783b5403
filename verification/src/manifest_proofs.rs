use crate::format::{format_of, kind_of, MediaKind, PadFormatView};
use crate::manifest::{
    adaptation_set_of, adaptations_of, adaptations_of_kind, content_type_of, representation_of,
    representation_picker, representations_of, AdaptationSetView, RepresentationView,
    AUDIO_CONTENT_TYPE, VIDEO_CONTENT_TYPE,
};
use crate::registry::{has_pad, removed, EntryView};
use crate::settings::SettingsView;
use vstd::prelude::*;

verus! {

/// The kind of media of the stream `entry`, by the format given for its pad.
pub open spec fn kind_of_entry(formats: Seq<PadFormatView>, entry: EntryView) -> MediaKind {
    kind_of(format_of(formats, entry.pad_name))
}

/// The streams of `kind`, in their order.
pub open spec fn streams_of_kind(
    entries: Seq<EntryView>,
    formats: Seq<PadFormatView>,
    kind: MediaKind,
) -> Seq<EntryView> {
    entries.filter(|e: EntryView| kind_of_entry(formats, e) == kind)
}

/// The streams of a known kind, in their order.
pub open spec fn streams_of_known_kind(entries: Seq<EntryView>, formats: Seq<PadFormatView>) -> Seq<
    EntryView,
> {
    entries.filter(|e: EntryView| kind_of_entry(formats, e) != MediaKind::Unknown)
}

/// The representations that do not go by `id`, in their order.
pub open spec fn without_id(representations: Seq<RepresentationView>, id: Seq<char>) -> Seq<
    RepresentationView,
> {
    representations.filter(|r: RepresentationView| r.id != id)
}

/// The adaptation sets of `content_type`, in their order.
pub open spec fn sets_of_content_type(sets: Seq<AdaptationSetView>, content_type: Seq<char>) -> Seq<
    AdaptationSetView,
> {
    sets.filter(|s: AdaptationSetView| s.content_type == content_type)
}

/// A stream has a representation among those of a kind exactly if it is of
/// that kind, and the representation then goes by the name of the stream's
/// pad and has the stream's bandwidth.
pub proof fn lemma_representation_of_entry(
    settings: SettingsView,
    formats: Seq<PadFormatView>,
    entry: EntryView,
    kind: MediaKind,
)
    requires
        kind != MediaKind::Unknown,
    ensures
        representation_of(settings, formats, entry, kind) is Some <==> kind_of_entry(
            formats,
            entry,
        ) == kind,
        representation_of(settings, formats, entry, kind) matches Some(r) ==> r.id
            == entry.pad_name && r.bandwidth == entry.stream.bandwidth,
{
}

/// What `filter_map` makes of a sequence with one more element.
proof fn lemma_filter_map_push<A, B>(s: Seq<A>, last: A, f: spec_fn(A) -> Option<B>)
    ensures
        s.push(last).filter_map(f) == s.filter_map(f) + (match f(last) {
            Some(b) => seq![b],
            None => Seq::empty(),
        }),
{
    assert(s.push(last).drop_last() =~= s);
    assert(s.filter_map(f) + Seq::<B>::empty() =~= s.filter_map(f));
}

/// What `filter` makes of a sequence of at most one element.
proof fn lemma_filter_short<A>(s: Seq<A>, pred: spec_fn(A) -> bool)
    requires
        s.len() <= 1,
    ensures
        s.filter(pred) == if s.len() == 1 && pred(s[0]) {
            s
        } else {
            Seq::<A>::empty()
        },
{
    reveal_with_fuel(Seq::filter, 2);
    if s.len() == 1 {
        assert(s.drop_last() =~= Seq::<A>::empty());
        assert(Seq::<A>::empty().push(s.last()) =~= s);
    }
}

/// Every stream of a kind has one representation among those of that kind:
/// there are as many representations as streams, and each goes by the name of
/// its stream's pad and has its stream's bandwidth.
pub proof fn lemma_one_representation_per_stream(
    settings: SettingsView,
    entries: Seq<EntryView>,
    formats: Seq<PadFormatView>,
    kind: MediaKind,
)
    requires
        kind != MediaKind::Unknown,
    ensures
        representations_of(settings, entries, formats, kind).len() == streams_of_kind(
            entries,
            formats,
            kind,
        ).len(),
        forall|i: int|
            0 <= i < streams_of_kind(entries, formats, kind).len() ==> {
                let r = #[trigger] representations_of(settings, entries, formats, kind)[i];
                let e = streams_of_kind(entries, formats, kind)[i];
                r.id == e.pad_name && r.bandwidth == e.stream.bandwidth
            },
    decreases entries.len(),
{
    let pick = representation_picker(settings, formats, kind);
    let of_kind = |e: EntryView| kind_of_entry(formats, e) == kind;
    reveal(Seq::filter);
    if entries.len() > 0 {
        let front = entries.drop_last();
        let last = entries.last();
        lemma_one_representation_per_stream(settings, front, formats, kind);
        lemma_representation_of_entry(settings, formats, last, kind);
        assert(front.push(last) =~= entries);
        lemma_filter_map_push(front, last, pick);
        Seq::lemma_filter_push(front, last, of_kind);
    }
}

/// Without the streams of one name, the representations are those that the
/// manifest had before, but for the ones that go by that name.
pub proof fn lemma_representations_after_release(
    settings: SettingsView,
    entries: Seq<EntryView>,
    formats: Seq<PadFormatView>,
    kind: MediaKind,
    pad_name: Seq<char>,
)
    requires
        kind != MediaKind::Unknown,
    ensures
        representations_of(settings, removed(entries, pad_name), formats, kind) == without_id(
            representations_of(settings, entries, formats, kind),
            pad_name,
        ),
    decreases entries.len(),
{
    let pick = representation_picker(settings, formats, kind);
    let other_name = |e: EntryView| e.pad_name != pad_name;
    let other_id = |r: RepresentationView| r.id != pad_name;
    if entries.len() == 0 {
        reveal(Seq::filter);
    } else {
        let front = entries.drop_last();
        let last = entries.last();
        lemma_representations_after_release(settings, front, formats, kind, pad_name);
        lemma_representation_of_entry(settings, formats, last, kind);
        assert(front.push(last) =~= entries);
        Seq::lemma_filter_push(front, last, other_name);
        lemma_filter_map_push(front, last, pick);
        lemma_filter_map_push(removed(front, pad_name), last, pick);
        let made: Seq<RepresentationView> = match pick(last) {
            Some(r) => seq![r],
            None => Seq::empty(),
        };
        Seq::filter_distributes_over_add(front.filter_map(pick), made, other_id);
        lemma_filter_short(made, other_id);
        assert(front.filter_map(pick).filter(other_id) + Seq::<RepresentationView>::empty()
            =~= front.filter_map(pick).filter(other_id));
    }
}

/// Where no stream goes by a name, no representation of the manifest goes by
/// it.
pub proof fn lemma_no_representation_without_stream(
    settings: SettingsView,
    entries: Seq<EntryView>,
    formats: Seq<PadFormatView>,
    kind: MediaKind,
    pad_name: Seq<char>,
)
    requires
        kind != MediaKind::Unknown,
        !has_pad(entries, pad_name),
    ensures
        forall|i: int|
            0 <= i < representations_of(settings, entries, formats, kind).len()
                ==> (#[trigger] representations_of(settings, entries, formats, kind)[i]).id
                != pad_name,
{
    let pick = representation_picker(settings, formats, kind);
    let representations = representations_of(settings, entries, formats, kind);
    assert forall|i: int| 0 <= i < representations.len() implies (
    #[trigger] representations[i]).id != pad_name by {
        let r = representations[i];
        assert(representations.contains(r));
        entries.lemma_filter_map_contains(pick, r);
        let e = choose|e: EntryView| #[trigger] entries.contains(e) && pick(e) == Some(r);
        let place = choose|k: int| 0 <= k < entries.len() && entries[k] == e;
        assert(entries[place].pad_name == e.pad_name);
        lemma_representation_of_entry(settings, formats, e, kind);
    }
}

/// After the streams of a name are taken out, no stream goes by that name.
pub proof fn lemma_released_is_absent(entries: Seq<EntryView>, pad_name: Seq<char>)
    ensures
        !has_pad(removed(entries, pad_name), pad_name),
{
    let other_name = |e: EntryView| e.pad_name != pad_name;
    let rest = removed(entries, pad_name);
    assert forall|i: int| 0 <= i < rest.len() implies (#[trigger] rest[i]).pad_name
        != pad_name by {
        entries.lemma_filter_pred(other_name, i);
    }
}

/// After a stream is released, the manifest holds no representation of it:
/// the representations of each kind are those of before without the ones
/// that go by the stream's name, none of those that are left goes by it, and
/// a kind whose only streams went by it has no adaptation set any more.
pub proof fn lemma_release_removes_representation(
    settings: SettingsView,
    entries: Seq<EntryView>,
    formats: Seq<PadFormatView>,
    kind: MediaKind,
    pad_name: Seq<char>,
)
    requires
        kind != MediaKind::Unknown,
    ensures
        representations_of(settings, removed(entries, pad_name), formats, kind) == without_id(
            representations_of(settings, entries, formats, kind),
            pad_name,
        ),
        forall|i: int|
            0 <= i < representations_of(settings, removed(entries, pad_name), formats, kind).len()
                ==> (#[trigger] representations_of(
                settings,
                removed(entries, pad_name),
                formats,
                kind,
            )[i]).id != pad_name,
        (forall|i: int|
            0 <= i < representations_of(settings, entries, formats, kind).len()
                ==> (#[trigger] representations_of(settings, entries, formats, kind)[i]).id
                == pad_name) ==> adaptations_of_kind(
            settings,
            removed(entries, pad_name),
            formats,
            kind,
        ) == Seq::<AdaptationSetView>::empty(),
{
    lemma_representations_after_release(settings, entries, formats, kind, pad_name);
    lemma_released_is_absent(entries, pad_name);
    lemma_no_representation_without_stream(
        settings,
        removed(entries, pad_name),
        formats,
        kind,
        pad_name,
    );
    let before = representations_of(settings, entries, formats, kind);
    let other_id = |r: RepresentationView| r.id != pad_name;
    if forall|i: int| 0 <= i < before.len() ==> (#[trigger] before[i]).id == pad_name {
        let after = before.filter(other_id);
        if after.len() > 0 {
            before.lemma_filter_pred(other_id, 0);
            assert(other_id(after[0]));
            assert(before.contains(after[0])) by {
                before.lemma_filter_contains_rev(other_id, after[0]);
            }
            let k = choose|k: int| 0 <= k < before.len() && before[k] == after[0];
            assert(before[k].id == pad_name);
        }
    }
}

/// The manifest holds one adaptation set for each of video and audio that
/// has a stream, and none for one that has no stream: the sets of a kind's
/// content type are the one set that holds the representations of all the
/// streams of that kind, or no set where there is no such stream.
pub proof fn lemma_one_adaptation_set_per_kind(
    settings: SettingsView,
    entries: Seq<EntryView>,
    formats: Seq<PadFormatView>,
    kind: MediaKind,
)
    requires
        kind != MediaKind::Unknown,
    ensures
        sets_of_content_type(adaptations_of(settings, entries, formats), content_type_of(kind))
            == if streams_of_kind(entries, formats, kind).len() > 0 {
            seq![
                adaptation_set_of(kind, representations_of(settings, entries, formats, kind)),
            ]
        } else {
            Seq::<AdaptationSetView>::empty()
        },
        adaptations_of(settings, entries, formats).len() == (if streams_of_kind(
            entries,
            formats,
            MediaKind::Video,
        ).len() > 0 {
            1int
        } else {
            0int
        }) + (if streams_of_kind(entries, formats, MediaKind::Audio).len() > 0 {
            1int
        } else {
            0int
        }),
{
    lemma_one_representation_per_stream(settings, entries, formats, MediaKind::Video);
    lemma_one_representation_per_stream(settings, entries, formats, MediaKind::Audio);
    let video = adaptations_of_kind(settings, entries, formats, MediaKind::Video);
    let audio = adaptations_of_kind(settings, entries, formats, MediaKind::Audio);
    let content_type = content_type_of(kind);
    let of_type = |s: AdaptationSetView| s.content_type == content_type;
    assert(VIDEO_CONTENT_TYPE@ != AUDIO_CONTENT_TYPE@) by {
        reveal_strlit("video");
        reveal_strlit("audio");
        assert(VIDEO_CONTENT_TYPE@[0] == 'v');
        assert(AUDIO_CONTENT_TYPE@[0] == 'a');
    }
    Seq::filter_distributes_over_add(video, audio, of_type);
    lemma_filter_short(video, of_type);
    lemma_filter_short(audio, of_type);
    if kind == MediaKind::Video {
        assert(video + Seq::<AdaptationSetView>::empty() =~= video);
    } else {
        assert(Seq::<AdaptationSetView>::empty() + audio =~= audio);
    }
}

/// A stream of an unknown kind, or without a format, adds nothing to the
/// manifest: the adaptation sets are those of the streams of a known kind.
pub proof fn lemma_unknown_kind_adds_nothing(
    settings: SettingsView,
    entries: Seq<EntryView>,
    formats: Seq<PadFormatView>,
)
    ensures
        adaptations_of(settings, streams_of_known_kind(entries, formats), formats)
            == adaptations_of(settings, entries, formats),
{
    lemma_known_kinds_keep_representations(settings, entries, formats, MediaKind::Video);
    lemma_known_kinds_keep_representations(settings, entries, formats, MediaKind::Audio);
}

/// The representations of a kind are those of the streams of a known kind.
pub proof fn lemma_known_kinds_keep_representations(
    settings: SettingsView,
    entries: Seq<EntryView>,
    formats: Seq<PadFormatView>,
    kind: MediaKind,
)
    requires
        kind != MediaKind::Unknown,
    ensures
        representations_of(settings, streams_of_known_kind(entries, formats), formats, kind)
            == representations_of(settings, entries, formats, kind),
    decreases entries.len(),
{
    let pick = representation_picker(settings, formats, kind);
    let known = |e: EntryView| kind_of_entry(formats, e) != MediaKind::Unknown;
    if entries.len() == 0 {
        reveal(Seq::filter);
    } else {
        let front = entries.drop_last();
        let last = entries.last();
        lemma_known_kinds_keep_representations(settings, front, formats, kind);
        lemma_representation_of_entry(settings, formats, last, kind);
        assert(front.push(last) =~= entries);
        Seq::lemma_filter_push(front, last, known);
        lemma_filter_map_push(front, last, pick);
        lemma_filter_map_push(front.filter(known), last, pick);
        assert(front.filter_map(pick) + Seq::<RepresentationView>::empty() =~= front.filter_map(
            pick,
        ));
    }
}

/// Two streams of one kind, video or audio, share one adaptation set, which
/// holds the representation of the first and then that of the second.
pub proof fn lemma_two_streams_of_one_kind(
    settings: SettingsView,
    first: EntryView,
    second: EntryView,
    formats: Seq<PadFormatView>,
    kind: MediaKind,
)
    requires
        kind != MediaKind::Unknown,
        kind_of_entry(formats, first) == kind,
        kind_of_entry(formats, second) == kind,
    ensures
        adaptations_of(settings, seq![first, second], formats) == seq![
            adaptation_set_of(
                kind,
                seq![
                    representation_of(settings, formats, first, kind)->0,
                    representation_of(settings, formats, second, kind)->0,
                ],
            ),
        ],
{
    let entries = seq![first, second];
    let other = if kind == MediaKind::Video {
        MediaKind::Audio
    } else {
        MediaKind::Video
    };
    lemma_representations_of_two(settings, first, second, formats, kind);
    lemma_representations_of_two(settings, first, second, formats, other);
    lemma_representation_of_entry(settings, formats, first, kind);
    lemma_representation_of_entry(settings, formats, second, kind);
    lemma_representation_of_entry(settings, formats, first, other);
    lemma_representation_of_entry(settings, formats, second, other);
    let both = seq![
        representation_of(settings, formats, first, kind)->0,
        representation_of(settings, formats, second, kind)->0,
    ];
    assert(representations_of(settings, entries, formats, kind) =~= both);
    assert(representations_of(settings, entries, formats, other) =~= Seq::<
        RepresentationView,
    >::empty());
    let shared = adaptations_of_kind(settings, entries, formats, kind);
    assert(shared + Seq::<AdaptationSetView>::empty() =~= shared);
    assert(Seq::<AdaptationSetView>::empty() + shared =~= shared);
}

/// A video stream and an audio stream, in either order, give two adaptation
/// sets: that of the video stream, then that of the audio stream.
pub proof fn lemma_two_streams_of_two_kinds(
    settings: SettingsView,
    first: EntryView,
    second: EntryView,
    formats: Seq<PadFormatView>,
)
    requires
        kind_of_entry(formats, first) != MediaKind::Unknown,
        kind_of_entry(formats, second) != MediaKind::Unknown,
        kind_of_entry(formats, first) != kind_of_entry(formats, second),
    ensures
        ({
            let video = if kind_of_entry(formats, first) == MediaKind::Video {
                first
            } else {
                second
            };
            let audio = if kind_of_entry(formats, first) == MediaKind::Video {
                second
            } else {
                first
            };
            adaptations_of(settings, seq![first, second], formats) == seq![
                adaptation_set_of(
                    MediaKind::Video,
                    seq![representation_of(settings, formats, video, MediaKind::Video)->0],
                ),
                adaptation_set_of(
                    MediaKind::Audio,
                    seq![representation_of(settings, formats, audio, MediaKind::Audio)->0],
                ),
            ]
        }),
{
    lemma_representations_of_two(settings, first, second, formats, MediaKind::Video);
    lemma_representations_of_two(settings, first, second, formats, MediaKind::Audio);
    let entries = seq![first, second];
    let video = adaptations_of_kind(settings, entries, formats, MediaKind::Video);
    let audio = adaptations_of_kind(settings, entries, formats, MediaKind::Audio);
    assert(video + audio =~= seq![video[0], audio[0]]);
}

/// The representations of two streams: that of the first, where it has one,
/// then that of the second, where it has one.
proof fn lemma_representations_of_two(
    settings: SettingsView,
    first: EntryView,
    second: EntryView,
    formats: Seq<PadFormatView>,
    kind: MediaKind,
)
    requires
        kind != MediaKind::Unknown,
    ensures
        representations_of(settings, seq![first, second], formats, kind) == (
        match representation_of(settings, formats, first, kind) {
            Some(r) => seq![r],
            None => Seq::<RepresentationView>::empty(),
        }) + (match representation_of(settings, formats, second, kind) {
            Some(r) => seq![r],
            None => Seq::<RepresentationView>::empty(),
        }),
{
    let pick = representation_picker(settings, formats, kind);
    let none = Seq::<EntryView>::empty();
    assert(none.push(first).push(second) =~= seq![first, second]);
    lemma_filter_map_push(none.push(first), second, pick);
    lemma_filter_map_push(none, first, pick);
    assert(none.filter_map(pick) =~= Seq::<RepresentationView>::empty());
    let made: Seq<RepresentationView> = match pick(first) {
        Some(r) => seq![r],
        None => Seq::empty(),
    };
    assert(Seq::<RepresentationView>::empty() + made =~= made);
}

} // verus!
