//! Byte-buffer views.
//!
//! A `ByteView` is an owned, resizable byte buffer whose visible region only
//! ever shrinks: trimming the front discards a prefix irreversibly, and capping
//! the length truncates the tail so that discarded content can never resurface.
//! A `VectorisedView` strings several `ByteView` segments together into one
//! logical byte stream without requiring contiguous storage.

use vstd::prelude::*;

verus! {

use vstd::seq_lib::lemma_flatten_concat;

/// An owned byte buffer with a visible region that only shrinks.
pub struct ByteView {
    data: Vec<u8>,
}

/// One trim-or-cap step on a byte view, for reasoning about arbitrary
/// sequences of such operations. Out-of-range amounts are clamped, so the
/// model is total.
pub enum ViewOp {
    Trim { count: int },
    Cap { length: int },
}

/// The visible bytes after applying one trim or cap step.
pub open spec fn apply_view_op(s: Seq<u8>, op: ViewOp) -> Seq<u8> {
    match op {
        ViewOp::Trim { count } => {
            let c = if count < 0 {
                0
            } else if count > s.len() {
                s.len() as int
            } else {
                count
            };
            s.skip(c)
        },
        ViewOp::Cap { length } => {
            let l = if length < 0 {
                0
            } else if length > s.len() {
                s.len() as int
            } else {
                length
            };
            s.take(l)
        },
    }
}

/// The visible bytes after applying a whole sequence of trim/cap steps.
pub open spec fn apply_view_ops(s: Seq<u8>, ops: Seq<ViewOp>) -> Seq<u8>
    decreases ops.len(),
{
    if ops.len() == 0 {
        s
    } else {
        apply_view_ops(apply_view_op(s, ops[0]), ops.drop_first())
    }
}

/// However many trim and cap operations are applied to a view, the visible
/// length never exceeds the length it started from; in particular it never
/// exceeds the allocated capacity and never grows back past a prior cap.
pub proof fn lemma_view_ops_never_grow(s: Seq<u8>, ops: Seq<ViewOp>)
    ensures
        apply_view_ops(s, ops).len() <= s.len(),
    decreases ops.len(),
{
    if ops.len() > 0 {
        lemma_view_ops_never_grow(apply_view_op(s, ops[0]), ops.drop_first());
    }
}

impl View for ByteView {
    type V = Seq<u8>;

    closed spec fn view(&self) -> Seq<u8> {
        self.data@
    }
}

impl ByteView {
    /// Allocates a zero-filled view of the given length.
    pub fn New(size: usize) -> (r: Self)
        ensures
            r@.len() == size,
            forall|i: int| 0 <= i < size ==> r@[i] == 0u8,
    {
        let mut data: Vec<u8> = Vec::new();
        let mut i: usize = 0;
        while i < size
            invariant
                i <= size,
                data@.len() == i,
                forall|j: int| 0 <= j < i ==> data@[j] == 0u8,
            decreases size - i,
        {
            data.push(0u8);
            i = i + 1;
        }
        ByteView { data }
    }

    /// Wraps already-produced byte content, taking ownership of it.
    pub fn NewFromBytes(b: Vec<u8>) -> (r: Self)
        ensures
            r@ == b@,
    {
        ByteView { data: b }
    }

    /// The visible length.
    pub fn Len(&self) -> (r: usize)
        ensures
            r == self@.len(),
    {
        self.data.len()
    }

    /// Borrows the visible bytes.
    pub fn Bytes(&self) -> (r: &Vec<u8>)
        ensures
            r@ == self@,
    {
        &self.data
    }

    /// Removes the first `count` bytes from the visible region, irreversibly.
    pub fn TrimFront(&mut self, count: usize)
        requires
            count <= old(self)@.len(),
        ensures
            final(self)@ == old(self)@.skip(count as int),
            final(self)@ == apply_view_op(old(self)@, ViewOp::Trim { count: count as int }),
    {
        let rest = self.data.split_off(count);
        self.data = rest;
    }

    /// Truncates the visible region to `length` bytes; the discarded tail is
    /// gone for good, so stale content cannot resurface on reuse.
    pub fn CapLength(&mut self, length: usize)
        requires
            length <= old(self)@.len(),
        ensures
            final(self)@ == old(self)@.take(length as int),
            final(self)@ == apply_view_op(old(self)@, ViewOp::Cap { length: length as int }),
    {
        self.data.truncate(length);
        proof {
            assert(final(self)@ =~= old(self)@.take(length as int));
        }
    }

    /// Wraps this view as a single-segment vectorised view of equal size,
    /// consuming it.
    pub fn ToVectorisedView(self) -> (r: VectorisedView)
        ensures
            r.wf(),
            r.segs() =~= seq![self@],
            r.size == self@.len(),
    {
        let len = self.data.len();
        let mut views: Vec<ByteView> = Vec::new();
        views.push(self);
        proof {
            let s = segs_of(views@);
            assert(s =~= seq![self@]);
            assert(s.drop_first() =~= Seq::<Seq<u8>>::empty());
            assert(total_len(Seq::<Seq<u8>>::empty()) == 0);
            assert(total_len(s) == self@.len());
        }
        VectorisedView::New(len, views)
    }
}

/// The byte sequences held by a sequence of views.
pub open spec fn segs_of(s: Seq<ByteView>) -> Seq<Seq<u8>> {
    s.map_values(|b: ByteView| b@)
}

/// The summed length of a sequence of byte sequences.
pub open spec fn total_len(s: Seq<Seq<u8>>) -> int
    decreases s.len(),
{
    if s.len() == 0 {
        0
    } else {
        s[0].len() + total_len(s.drop_first())
    }
}

/// The summed segment lengths equal the length of the flattened stream; in
/// particular the sum is never negative.
pub proof fn lemma_total_len_is_flatten_len(s: Seq<Seq<u8>>)
    ensures
        total_len(s) == s.flatten().len(),
    decreases s.len(),
{
    if s.len() > 0 {
        lemma_total_len_is_flatten_len(s.drop_first());
    }
}

/// Materializing a segment sequence into one contiguous buffer and re-wrapping
/// that buffer as a single segment preserves the total size.
pub proof fn lemma_materialize_round_trip(s: Seq<Seq<u8>>)
    ensures
        total_len(seq![s.flatten()]) == total_len(s),
{
    lemma_total_len_is_flatten_len(s);
    assert(seq![s.flatten()].drop_first() =~= Seq::<Seq<u8>>::empty());
    assert(total_len(Seq::<Seq<u8>>::empty()) == 0);
    assert(total_len(seq![s.flatten()]) == s.flatten().len() + total_len(
        seq![s.flatten()].drop_first(),
    ));
}

/// The segment sequence after trimming `count` bytes off the front: whole
/// leading segments are removed while they fit, and the segment that
/// straddles the boundary keeps only its tail. Trimming more than the total
/// leaves no segment at all.
pub open spec fn trim_segs(s: Seq<Seq<u8>>, count: int) -> Seq<Seq<u8>>
    decreases s.len(),
{
    if count <= 0 || s.len() == 0 {
        s
    } else if count < s[0].len() {
        seq![s[0].skip(count)] + s.drop_first()
    } else {
        trim_segs(s.drop_first(), count - s[0].len())
    }
}

/// The segment sequence after capping to `length` bytes: whole leading
/// segments are kept while they fit, the segment that straddles the boundary
/// keeps only its head, and everything after it is dropped.
pub open spec fn cap_segs(s: Seq<Seq<u8>>, length: int) -> Seq<Seq<u8>>
    decreases s.len(),
{
    if length <= 0 {
        Seq::empty()
    } else if s.len() == 0 {
        s
    } else if s[0].len() >= length {
        seq![s[0].take(length)]
    } else {
        seq![s[0]] + cap_segs(s.drop_first(), length - s[0].len())
    }
}

/// An ordered sequence of `ByteView` segments holding one logical byte stream,
/// together with a cached total size.
pub struct VectorisedView {
    pub views: Vec<ByteView>,
    pub size: usize,
}

impl VectorisedView {
    /// The byte sequences held by the segments.
    pub open spec fn segs(&self) -> Seq<Seq<u8>> {
        segs_of(self.views@)
    }

    /// The whole logical byte stream, in order.
    pub open spec fn bytes(&self) -> Seq<u8> {
        self.segs().flatten()
    }

    /// The cached size agrees with the summed segment lengths.
    pub open spec fn wf(&self) -> bool {
        self.size == total_len(self.segs())
    }

    /// Builds a vectorised view from a pre-built segment sequence and its
    /// total size.
    pub fn New(size: usize, views: Vec<ByteView>) -> (r: Self)
        requires
            size == total_len(segs_of(views@)),
        ensures
            r.wf(),
            r.views@ == views@,
            r.size == size,
    {
        VectorisedView { views, size }
    }

    /// The size in bytes of the entire content stored in the vectorised view.
    pub fn Size(&self) -> (r: usize)
        ensures
            r == self.size,
    {
        self.size
    }

    /// Borrows the slice of all segments.
    pub fn Views(&self) -> (r: &Vec<ByteView>)
        ensures
            r@ == self.views@,
    {
        &self.views
    }

    /// The first segment, or `None` if no segment remains.
    pub fn First(&self) -> (r: Option<&ByteView>)
        ensures
            self.views@.len() == 0 ==> r is None,
            self.views@.len() > 0 ==> (r matches Some(v) && v@ == self.segs()[0]),
    {
        if self.views.len() == 0 {
            None
        } else {
            Some(&self.views[0])
        }
    }

    /// Drops the first segment and decrements the size by its length; on an
    /// empty view nothing is removed.
    pub fn RemoveFirst(&mut self)
        requires
            old(self).wf(),
        ensures
            final(self).wf(),
            old(self).views@.len() == 0 ==> final(self).segs() == old(self).segs()
                && final(self).size == old(self).size,
            old(self).views@.len() > 0 ==> final(self).segs() == old(self).segs().drop_first()
                && final(self).size == old(self).size - old(self).segs()[0].len()
                && final(self).bytes() == old(self).bytes().skip(old(self).segs()[0].len() as int),
    {
        if self.views.len() == 0 {
            return ;
        }
        proof {
            lemma_total_len_nonneg(old(self).segs().drop_first());
            assert(old(self).segs()[0].len() + total_len(old(self).segs().drop_first())
                == old(self).size);
        }
        let v0 = self.views.remove(0);
        let l = v0.Len();
        self.size = self.size - l;
        proof {
            assert(self.segs() =~= old(self).segs().drop_first());
            assert(old(self).bytes() == old(self).segs()[0] + old(self).segs().drop_first().flatten());
            assert(final(self).bytes() =~= old(self).bytes().skip(old(self).segs()[0].len() as int));
        }
    }

    /// Removes the first `count` bytes of the vectorised view. A count beyond
    /// the total size empties the view and leaves the size at exactly zero.
    pub fn TrimFront(&mut self, count: usize)
        requires
            old(self).wf(),
        ensures
            final(self).wf(),
            final(self).segs() == trim_segs(old(self).segs(), count as int),
            count <= old(self).size ==> final(self).bytes() == old(self).bytes().skip(count as int),
            count > old(self).size ==> final(self).views@.len() == 0,
            final(self).size == (if count <= old(self).size {
                old(self).size - count
            } else {
                0
            }),
    {
        proof {
            lemma_total_len_is_flatten_len(old(self).segs());
        }
        let ghost count0: int = count as int;
        let ghost orig = *old(self);
        let mut left = count;
        while left > 0 && self.views.len() > 0
            invariant
                orig == *old(self),
                count0 == count as int,
                self.wf(),
                left <= count0,
                count0 - left <= total_len(orig.segs()),
                orig.size == total_len(orig.segs()),
                orig.bytes().len() == total_len(orig.segs()),
                self.bytes() == orig.bytes().skip(count0 - left),
                self.size == orig.size - (count0 - left),
                trim_segs(orig.segs(), count0) == trim_segs(self.segs(), left as int),
            decreases self.views.len(),
        {
            proof {
                lemma_total_len_is_flatten_len(self.segs());
                lemma_total_len_nonneg(self.segs().drop_first());
                assert(self.segs()[0].len() + total_len(self.segs().drop_first()) == self.size);
            }
            let l = self.views[0].Len();
            if left < l {
                let ghost pre = *self;
                let mut v0 = self.views.remove(0);
                v0.TrimFront(left);
                self.views.insert(0, v0);
                self.size = self.size - left;
                proof {
                    assert(self.segs() =~= pre.segs().update(0, pre.segs()[0].skip(left as int)));
                    assert(self.segs().drop_first() =~= pre.segs().drop_first());
                    assert(pre.bytes() == pre.segs()[0] + pre.segs().drop_first().flatten());
                    assert(self.bytes() == self.segs()[0] + self.segs().drop_first().flatten());
                    assert(self.bytes() =~= pre.bytes().skip(left as int));
                    assert(count0 <= orig.bytes().len());
                    assert(pre.bytes().skip(left as int) =~= orig.bytes().skip(count0));
                    lemma_total_len_is_flatten_len(self.segs());
                    assert(trim_segs(pre.segs(), left as int) == seq![pre.segs()[0].skip(
                        left as int,
                    )] + pre.segs().drop_first());
                    assert(self.segs() =~= seq![pre.segs()[0].skip(left as int)]
                        + pre.segs().drop_first());
                    assert(trim_segs(self.segs(), 0) == self.segs());
                }
                return ;
            }
            let ghost pre = *self;
            let ghost left_old = left as int;
            left = left - l;
            self.RemoveFirst();
            proof {
                assert(l <= pre.bytes().len());
                assert(count0 - left <= orig.bytes().len());
                assert(pre.bytes().skip(l as int) =~= orig.bytes().skip(count0 - left));
                assert(trim_segs(pre.segs(), left_old) == trim_segs(
                    pre.segs().drop_first(),
                    left_old - l,
                ));
            }
        }
        proof {
            assert(trim_segs(self.segs(), left as int) == self.segs());
            if self.views@.len() == 0 {
                assert(self.segs() =~= Seq::<Seq<u8>>::empty());
                assert(self.size == 0);
                assert(self.bytes() =~= Seq::<u8>::empty());
                if left == 0 && count0 <= orig.size {
                    lemma_total_len_is_flatten_len(orig.segs());
                }
            }
            if left > 0 && count0 <= orig.size {
                // The loop only stops with bytes left over when the segments
                // ran out, which means the whole starting content was shorter
                // than the requested trim.
                if self.views@.len() == 0 {
                    lemma_total_len_is_flatten_len(orig.segs());
                    assert(orig.bytes().skip(count0 - left).len() == 0);
                    assert(count0 - left >= orig.size);
                    assert(false);
                }
            }
        }
    }

    /// Irreversibly reduces the vectorised view to its first `length` bytes.
    /// Capping at or beyond the current size is a no-op: the size and the
    /// segments are left untouched.
    pub fn CapLength(&mut self, length: usize)
        requires
            old(self).wf(),
        ensures
            final(self).wf(),
            length >= old(self).size ==> final(self).segs() == old(self).segs()
                && final(self).size == old(self).size,
            length < old(self).size ==> final(self).segs() == cap_segs(old(self).segs(), length as int)
                && final(self).bytes() == old(self).bytes().take(length as int)
                && final(self).size == length,
    {
        if length >= self.size {
            return ;
        }
        let ghost orig = *old(self);
        let mut remaining = length;
        let mut i: usize = 0;
        proof {
            assert(orig.segs().skip(0) =~= orig.segs());
            assert(orig.segs().take(0) =~= Seq::<Seq<u8>>::empty());
            assert(Seq::<Seq<u8>>::empty() + cap_segs(orig.segs(), length as int) =~= cap_segs(
                orig.segs(),
                length as int,
            ));
        }
        while i < self.views.len()
            invariant
                orig == *old(self),
                *self == orig,
                self.wf(),
                i <= self.views@.len(),
                remaining <= length,
                length < orig.size,
                remaining < total_len(orig.segs().skip(i as int)),
                total_len(orig.segs().take(i as int)) == length - remaining,
                cap_segs(orig.segs(), length as int) == orig.segs().take(i as int) + cap_segs(
                    orig.segs().skip(i as int),
                    remaining as int,
                ),
            decreases self.views@.len() - i,
        {
            proof {
                let sk = orig.segs().skip(i as int);
                assert(sk[0] == orig.segs()[i as int]);
                assert(sk.drop_first() =~= orig.segs().skip(i as int + 1));
                lemma_total_len_nonneg(orig.segs().skip(i as int + 1));
                assert(orig.segs().take(i as int + 1) =~= orig.segs().take(i as int).push(
                    orig.segs()[i as int],
                ));
                lemma_total_len_push(orig.segs().take(i as int), orig.segs()[i as int]);
            }
            let l = self.views[i].Len();
            if l >= remaining {
                proof {
                    lemma_flatten_split(orig.segs(), i as int);
                    assert(orig.segs().skip(i as int).flatten() == orig.segs()[i as int]
                        + orig.segs().skip(i as int + 1).flatten());
                    lemma_total_len_is_flatten_len(orig.segs().take(i as int));
                }
                if remaining == 0 {
                    self.views.truncate(i);
                    proof {
                        assert(self.segs() =~= orig.segs().take(i as int));
                        assert(self.bytes() =~= orig.bytes().take(length as int));
                        lemma_total_len_is_flatten_len(self.segs());
                        assert(cap_segs(orig.segs().skip(i as int), 0) =~= Seq::<Seq<u8>>::empty());
                        assert(orig.segs().take(i as int) + Seq::<Seq<u8>>::empty() =~= orig.segs()
                            .take(i as int));
                    }
                } else {
                    let mut v = self.views.remove(i);
                    v.CapLength(remaining);
                    self.views.insert(i, v);
                    self.views.truncate(i + 1);
                    proof {
                        assert(self.views@ =~= orig.views@.take(i as int).push(self.views@[i as int]));
                        assert(self.segs() =~= orig.segs().take(i as int).push(
                            orig.segs()[i as int].take(remaining as int),
                        ));
                        orig.segs().take(i as int).lemma_flatten_push(
                            orig.segs()[i as int].take(remaining as int),
                        );
                        assert(self.bytes() == orig.segs().take(i as int).flatten()
                            + orig.segs()[i as int].take(remaining as int));
                        assert(self.bytes() =~= orig.bytes().take(length as int));
                        lemma_total_len_push(
                            orig.segs().take(i as int),
                            orig.segs()[i as int].take(remaining as int),
                        );
                        lemma_total_len_is_flatten_len(self.segs());
                        assert(cap_segs(orig.segs().skip(i as int), remaining as int)
                            == seq![orig.segs()[i as int].take(remaining as int)]);
                        assert(orig.segs().take(i as int) + seq![orig.segs()[i as int].take(
                            remaining as int,
                        )] =~= orig.segs().take(i as int).push(orig.segs()[i as int].take(
                            remaining as int,
                        )));
                    }
                }
                self.size = length;
                return ;
            }
            proof {
                let sk = orig.segs().skip(i as int);
                assert(cap_segs(sk, remaining as int) == seq![sk[0]] + cap_segs(
                    orig.segs().skip(i as int + 1),
                    remaining - l,
                ));
                assert(orig.segs().take(i as int) + (seq![sk[0]] + cap_segs(
                    orig.segs().skip(i as int + 1),
                    remaining - l,
                )) =~= orig.segs().take(i as int + 1) + cap_segs(
                    orig.segs().skip(i as int + 1),
                    remaining - l,
                ));
            }
            remaining = remaining - l;
            i = i + 1;
        }
        proof {
            assert(orig.segs().skip(orig.segs().len() as int) =~= Seq::<Seq<u8>>::empty());
            assert(false);
        }
    }

    /// Transfers all bytes, in order, into one contiguous `ByteView`,
    /// consuming the vectorised view.
    pub fn ToView(self) -> (r: ByteView)
        ensures
            r@ == self.bytes(),
    {
        let ghost orig = self;
        let mut this = self;
        let mut data: Vec<u8> = Vec::new();
        while this.views.len() > 0
            invariant
                data@ + segs_of(this.views@).flatten() == orig.bytes(),
            decreases this.views@.len(),
        {
            let ghost pre = this.views@;
            let mut v = this.views.remove(0);
            data.append(&mut v.data);
            proof {
                assert(segs_of(pre).flatten() == segs_of(pre)[0] + segs_of(pre).drop_first().flatten());
                assert(segs_of(this.views@) =~= segs_of(pre).drop_first());
                assert(data@ + segs_of(this.views@).flatten() =~= orig.bytes());
            }
        }
        proof {
            assert(segs_of(this.views@) =~= Seq::<Seq<u8>>::empty());
            assert(data@ =~= orig.bytes());
        }
        ByteView { data }
    }

    /// Appends the segments of another vectorised view onto this one,
    /// consuming the other view and adding the sizes.
    pub fn Append(&mut self, vv2: VectorisedView)
        requires
            old(self).size + vv2.size <= usize::MAX,
        ensures
            final(self).views@ == old(self).views@ + vv2.views@,
            final(self).size == old(self).size + vv2.size,
            old(self).wf() && vv2.wf() ==> final(self).wf() && final(self).bytes() == old(
                self,
            ).bytes() + vv2.bytes(),
    {
        let ghost other = vv2;
        let mut vv2 = vv2;
        self.views.append(&mut vv2.views);
        self.size = self.size + vv2.size;
        proof {
            assert(self.segs() =~= old(self).segs() + other.segs());
            if old(self).wf() && other.wf() {
                lemma_flatten_concat(old(self).segs(), other.segs());
                lemma_total_len_is_flatten_len(old(self).segs());
                lemma_total_len_is_flatten_len(other.segs());
                lemma_total_len_is_flatten_len(self.segs());
                assert(self.bytes() == old(self).segs().flatten() + other.segs().flatten());
            }
        }
    }
}

/// The summed segment lengths are never negative.
pub proof fn lemma_total_len_nonneg(s: Seq<Seq<u8>>)
    ensures
        total_len(s) >= 0,
    decreases s.len(),
{
    if s.len() > 0 {
        lemma_total_len_nonneg(s.drop_first());
    }
}

/// Pushing one more segment adds exactly its length to the total.
pub proof fn lemma_total_len_push(s: Seq<Seq<u8>>, elem: Seq<u8>)
    ensures
        total_len(s.push(elem)) == total_len(s) + elem.len(),
{
    lemma_total_len_is_flatten_len(s.push(elem));
    lemma_total_len_is_flatten_len(s);
    s.lemma_flatten_push(elem);
}

/// A segment sequence flattens to the flattening of any front part followed by
/// the flattening of the rest.
pub proof fn lemma_flatten_split(s: Seq<Seq<u8>>, i: int)
    requires
        0 <= i <= s.len(),
    ensures
        s.flatten() == s.take(i).flatten() + s.skip(i).flatten(),
{
    lemma_flatten_concat(s.take(i), s.skip(i));
    assert(s.take(i) + s.skip(i) =~= s);
}

} // verus!
