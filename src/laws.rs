//! Laws that relate the operations on [`Error`](crate::Error).
use crate::error::{fold_kind, kind_separator, FrameView};
use vstd::prelude::*;

verus! {

/// The trail that results from attaching each frame of `contexts`, in order,
/// to an error whose trail is `frames`: each attachment puts its frame at
/// the head, as [`Error::attach_context`](crate::Error::attach_context) does.
pub open spec fn attach_all(frames: Seq<FrameView>, contexts: Seq<FrameView>) -> Seq<FrameView>
    decreases contexts.len(),
{
    if contexts.len() == 0 {
        frames
    } else {
        seq![contexts.last()] + attach_all(frames, contexts.drop_last())
    }
}

/// Frame order: attaching contexts `c1, ..., cN` in that order yields the
/// trail `cN, ..., c1` followed by the frames the error already had; from a
/// fresh error, exactly `cN, ..., c1`. This holds for every `N`, zero
/// included.
pub proof fn lemma_frame_order(frames: Seq<FrameView>, contexts: Seq<FrameView>)
    ensures
        attach_all(frames, contexts) == contexts.reverse() + frames,
        attach_all(Seq::empty(), contexts) == contexts.reverse(),
    decreases contexts.len(),
{
    if contexts.len() == 0 {
        assert(contexts.reverse() =~= Seq::<FrameView>::empty());
    } else {
        let rest = contexts.drop_last();
        lemma_frame_order(frames, rest);
        lemma_frame_order(Seq::empty(), rest);
        assert(contexts.reverse() =~= seq![contexts.last()] + rest.reverse());
    }
    assert(attach_all(frames, contexts) =~= contexts.reverse() + frames);
    assert(attach_all(Seq::empty(), contexts) =~= contexts.reverse());
}

/// History preservation under reclassification: folding a printed kind into
/// a trail keeps its length and every location, leaves every frame but the
/// head as it was, and makes the head message start with the printed kind,
/// followed by the separator and the original message.
pub proof fn lemma_reclassify_keeps_history(frames: Seq<FrameView>, printed: Seq<char>)
    ensures
        fold_kind(frames, printed).len() == frames.len(),
        forall|i: int| 0 <= i < frames.len() ==> #[trigger] fold_kind(frames, printed)[i].1 == frames[i].1,
        forall|i: int| 1 <= i < frames.len() ==> #[trigger] fold_kind(frames, printed)[i] == frames[i],
        frames.len() > 0 ==> {
            let head = fold_kind(frames, printed)[0].0;
            &&& head.subrange(0, printed.len() as int) == printed
            &&& head.subrange((printed.len() + kind_separator().len()) as int, head.len() as int) == frames[0].0
        },
{
    if frames.len() > 0 {
        let head = fold_kind(frames, printed)[0].0;
        assert(head.subrange(0, printed.len() as int) =~= printed);
        assert(head.subrange((printed.len() + kind_separator().len()) as int, head.len() as int) =~= frames[0].0);
    }
}

} // verus!
