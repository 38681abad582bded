//! The error type and its operations.
use std::fmt::Debug;
use vstd::prelude::*;

verus! {

/// One context frame in the model: its message and its location.
pub type FrameView = (Seq<char>, Seq<char>);

/// The separator placed between a printed kind and the message it prefixes.
pub open spec fn kind_separator() -> Seq<char> {
    seq![':', ' ']
}

/// The trail after reclassification: the head frame's message gets the
/// printed former kind and the separator in front; every other frame and
/// every location stays as it was. An empty trail stays empty.
pub open spec fn fold_kind(frames: Seq<FrameView>, printed: Seq<char>) -> Seq<FrameView> {
    if frames.len() == 0 {
        frames
    } else {
        frames.update(0, (printed + kind_separator() + frames[0].0, frames[0].1))
    }
}

/// Relies on the `Debug` impl of the kind type, through `format!("{:?}")`,
/// to print a kind.
#[verifier::external_body]
fn debug_text<K: Debug>(k: &K) -> (r: String) {
    format!("{:?}", k)
}

/// An error of kind `K` with its trail of context frames, newest first.
#[derive(Debug, Clone)]
pub struct Error<K> where K: Debug + Clone {
    kind: K,
    msg_stack_v: Vec<(String, String)>,
}

impl<K> Error<K> where K: Debug + Clone {
    /// The live kind of the error.
    pub closed spec fn spec_kind(&self) -> K {
        self.kind
    }

    /// The frame trail, newest first.
    pub closed spec fn frames(&self) -> Seq<FrameView> {
        self.msg_stack_v.deep_view()
    }

    /// A fresh error of the given kind with no frames yet.
    pub fn new(kind: K) -> (r: Self)
        ensures
            r.spec_kind() == kind,
            r.frames() == Seq::<FrameView>::empty(),
    {
        Error { kind, msg_stack_v: Vec::new() }
    }

    /// The live kind.
    pub fn kind(&self) -> (r: &K)
        ensures
            *r == self.spec_kind(),
    {
        &self.kind
    }

    /// Inserts the frame `(message, location)` at the head of the trail.
    pub fn attach_context(self, message: String, location: String) -> (r: Self)
        ensures
            r.spec_kind() == self.spec_kind(),
            r.frames() == seq![(message@, location@)] + self.frames(),
    {
        let ghost before = self.frames();
        let mut e = self;
        e.msg_stack_v.insert(0, (message, location));
        assert(e.frames() =~= seq![(message@, location@)] + before);
        e
    }

    /// Replaces the kind by `new_kind`, folding `printed_kind`, the printed
    /// form of the kind it replaces, into the head frame's message as
    /// `"{printed_kind}: {message}"`. No frame is added or dropped.
    pub fn reclassify_as<K1>(self, printed_kind: String, new_kind: K1) -> (r: Error<K1>)
        where K1: Debug + Clone,
        ensures
            r.spec_kind() == new_kind,
            r.frames() == fold_kind(self.frames(), printed_kind@),
    {
        let ghost before = self.frames();
        let mut stack = self.msg_stack_v;
        if stack.len() > 0 {
            proof {
                reveal_strlit(": ");
            }
            let mut text = printed_kind;
            text.append(": ");
            text.append(stack[0].0.as_str());
            std::mem::swap(&mut stack[0].0, &mut text);
            assert(stack[0].0@ == printed_kind@ + kind_separator() + before[0].0);
            assert(stack.deep_view() =~= fold_kind(before, printed_kind@));
        }
        Error { kind: new_kind, msg_stack_v: stack }
    }

    /// Replaces the kind by `new_kind`, folding the `Debug` form of the
    /// replaced kind into the head frame's message (see [`Self::reclassify_as`]).
    pub fn reclassify<K1>(self, new_kind: K1) -> (r: Error<K1>)
        where K1: Debug + Clone,
        ensures
            r.spec_kind() == new_kind,
            exists|printed: Seq<char>| r.frames() == fold_kind(self.frames(), printed),
    {
        let printed = debug_text(&self.kind);
        let r = self.reclassify_as(printed, new_kind);
        assert(r.frames() == fold_kind(self.frames(), printed@));
        r
    }

    /// The frame trail, newest first.
    pub fn msg_stack_v(&self) -> (r: &Vec<(String, String)>)
        ensures
            r.deep_view() == self.frames(),
    {
        &self.msg_stack_v
    }

    /// The most recently attached frame, or `None` while the trail is empty.
    pub fn most_recent_frame(&self) -> (r: Option<&(String, String)>)
        ensures
            self.frames().len() == 0 <==> r is None,
            r matches Some(f) ==> f.deep_view() == self.frames()[0],
    {
        if self.msg_stack_v.len() == 0 {
            None
        } else {
            Some(&self.msg_stack_v[0])
        }
    }

    /// The earliest attached frame, or `None` while the trail is empty.
    pub fn first_frame(&self) -> (r: Option<&(String, String)>)
        ensures
            self.frames().len() == 0 <==> r is None,
            r matches Some(f) ==> f.deep_view() == self.frames().last(),
    {
        let n = self.msg_stack_v.len();
        if n == 0 {
            None
        } else {
            Some(&self.msg_stack_v[n - 1])
        }
    }
}

/// Returns a transformation that inserts the frame `(msg, stack)` at the head.
pub fn unshift_msg_stack<K>(msg: String, stack: String) -> (f: impl FnOnce(Error<K>) -> Error<K>)
    where K: Debug + Clone,
    ensures
        forall|e: Error<K>| f.requires((e,)),
        forall|e: Error<K>, r: Error<K>|
            f.ensures((e,), r) ==> r.spec_kind() == e.spec_kind()
                && r.frames() == seq![(msg@, stack@)] + e.frames(),
{
    move |e: Error<K>| -> (r: Error<K>)
        ensures
            r.spec_kind() == e.spec_kind(),
            r.frames() == seq![(msg@, stack@)] + e.frames(),
    {
        e.attach_context(msg, stack)
    }
}

/// Returns a transformation that replaces an error's kind by `k`, folding
/// the `Debug` form of the replaced kind into the head frame's message.
pub fn switch_kind<K, K1>(k: K1) -> (f: impl FnOnce(Error<K>) -> Error<K1>)
    where K: Debug + Clone, K1: Debug + Clone,
    ensures
        forall|e: Error<K>| f.requires((e,)),
        forall|e: Error<K>, r: Error<K1>|
            f.ensures((e,), r) ==> r.spec_kind() == k
                && exists|printed: Seq<char>| r.frames() == fold_kind(e.frames(), printed),
{
    move |e: Error<K>| -> (r: Error<K1>)
        ensures
            r.spec_kind() == k,
            exists|printed: Seq<char>| r.frames() == fold_kind(e.frames(), printed),
    {
        e.reclassify(k)
    }
}

} // verus!
