use hostbridge::buffer::{ByteView, VectorisedView};

fn seg(bytes: &[u8]) -> ByteView {
    ByteView::NewFromBytes(bytes.to_vec())
}

fn three_segments() -> VectorisedView {
    // [1,2,3] [4,5] [6], total size 6
    VectorisedView::New(6, vec![seg(&[1, 2, 3]), seg(&[4, 5]), seg(&[6])])
}

fn summed_segment_lengths(vv: &VectorisedView) -> usize {
    let mut sum = 0;
    for v in vv.Views() {
        sum += v.Len();
    }
    sum
}

#[test]
fn byteview_new_is_zero_filled() {
    let v = ByteView::New(5);
    assert_eq!(v.Len(), 5);
    assert_eq!(v.Bytes().as_slice(), &[0, 0, 0, 0, 0]);
}

#[test]
fn byteview_from_bytes_keeps_content() {
    let v = seg(&[9, 8, 7]);
    assert_eq!(v.Len(), 3);
    assert_eq!(v.Bytes().as_slice(), &[9, 8, 7]);
}

#[test]
fn byteview_trim_front_drops_prefix() {
    let mut v = seg(&[1, 2, 3, 4, 5]);
    v.TrimFront(2);
    assert_eq!(v.Bytes().as_slice(), &[3, 4, 5]);
}

#[test]
fn byteview_cap_length_truncates() {
    let mut v = seg(&[1, 2, 3, 4, 5]);
    v.CapLength(2);
    assert_eq!(v.Bytes().as_slice(), &[1, 2]);
}

#[test]
fn byteview_trim_cap_sequence_never_grows() {
    // however trims and caps interleave, the visible length only shrinks
    let mut v = seg(&[1, 2, 3, 4, 5, 6, 7, 8]);
    let mut last = v.Len();
    v.CapLength(6);
    assert!(v.Len() <= last);
    last = v.Len();
    v.TrimFront(2);
    assert!(v.Len() <= last);
    last = v.Len();
    v.CapLength(4);
    assert!(v.Len() <= last);
    assert_eq!(v.Bytes().as_slice(), &[3, 4, 5, 6]);
}

#[test]
fn byteview_to_vectorised_view() {
    let v = seg(&[1, 2, 3]);
    let vv = v.ToVectorisedView();
    assert_eq!(vv.Size(), 3);
    assert_eq!(vv.Views().len(), 1);
    assert_eq!(vv.Views()[0].Bytes().as_slice(), &[1, 2, 3]);
}

#[test]
fn vectorised_trim_across_segments() {
    let mut vv = three_segments();
    vv.TrimFront(4);
    assert_eq!(vv.Size(), 2);
    assert_eq!(summed_segment_lengths(&vv), 2);
    let rest = vv.ToView();
    assert_eq!(rest.Bytes().as_slice(), &[5, 6]);
}

#[test]
fn vectorised_trim_whole_segment_boundary() {
    let mut vv = three_segments();
    vv.TrimFront(3);
    assert_eq!(vv.Size(), 3);
    assert_eq!(vv.Views().len(), 2);
    let rest = vv.ToView();
    assert_eq!(rest.Bytes().as_slice(), &[4, 5, 6]);
}

#[test]
fn vectorised_trim_beyond_total_is_empty_not_negative() {
    let mut vv = three_segments();
    vv.TrimFront(10);
    assert_eq!(vv.Size(), 0);
    assert_eq!(vv.Views().len(), 0);
    assert!(vv.First().is_none());
}

#[test]
fn vectorised_cap_at_or_beyond_size_is_noop() {
    let mut vv = three_segments();
    vv.CapLength(6);
    assert_eq!(vv.Size(), 6);
    assert_eq!(vv.Views().len(), 3);
    vv.CapLength(100);
    assert_eq!(vv.Size(), 6);
    assert_eq!(vv.Views().len(), 3);
    let whole = vv.ToView();
    assert_eq!(whole.Bytes().as_slice(), &[1, 2, 3, 4, 5, 6]);
}

#[test]
fn vectorised_cap_across_segments() {
    let mut vv = three_segments();
    vv.CapLength(4);
    assert_eq!(vv.Size(), 4);
    assert_eq!(summed_segment_lengths(&vv), 4);
    assert_eq!(vv.Views().len(), 2);
    let kept = vv.ToView();
    assert_eq!(kept.Bytes().as_slice(), &[1, 2, 3, 4]);
}

#[test]
fn vectorised_cap_to_zero_empties() {
    let mut vv = three_segments();
    vv.CapLength(0);
    assert_eq!(vv.Size(), 0);
    assert_eq!(vv.Views().len(), 0);
}

#[test]
fn vectorised_first_and_remove_first() {
    let mut vv = three_segments();
    assert_eq!(vv.First().unwrap().Bytes().as_slice(), &[1, 2, 3]);
    vv.RemoveFirst();
    assert_eq!(vv.Size(), 3);
    assert_eq!(summed_segment_lengths(&vv), 3);
    assert_eq!(vv.First().unwrap().Bytes().as_slice(), &[4, 5]);
    vv.RemoveFirst();
    vv.RemoveFirst();
    assert_eq!(vv.Size(), 0);
    // removing from an empty view changes nothing
    vv.RemoveFirst();
    assert_eq!(vv.Size(), 0);
    assert_eq!(vv.Views().len(), 0);
}

#[test]
fn vectorised_append_concatenates() {
    let mut vv = three_segments();
    let other = VectorisedView::New(2, vec![seg(&[7, 8])]);
    vv.Append(other);
    assert_eq!(vv.Size(), 8);
    assert_eq!(vv.Views().len(), 4);
    assert_eq!(summed_segment_lengths(&vv), 8);
    let whole = vv.ToView();
    assert_eq!(whole.Bytes().as_slice(), &[1, 2, 3, 4, 5, 6, 7, 8]);
}

#[test]
fn materialize_round_trip_preserves_size() {
    let vv = three_segments();
    let flat = vv.ToView();
    assert_eq!(flat.Len(), 6);
    let rewrapped = flat.ToVectorisedView();
    assert_eq!(rewrapped.Size(), 6);
    assert_eq!(summed_segment_lengths(&rewrapped), 6);
}

#[test]
fn size_matches_segment_lengths_after_each_operation() {
    let mut vv = three_segments();
    assert_eq!(vv.Size(), summed_segment_lengths(&vv));
    vv.TrimFront(1);
    assert_eq!(vv.Size(), summed_segment_lengths(&vv));
    vv.CapLength(3);
    assert_eq!(vv.Size(), summed_segment_lengths(&vv));
    vv.RemoveFirst();
    assert_eq!(vv.Size(), summed_segment_lengths(&vv));
    vv.Append(VectorisedView::New(1, vec![seg(&[9])]));
    assert_eq!(vv.Size(), summed_segment_lengths(&vv));
}
