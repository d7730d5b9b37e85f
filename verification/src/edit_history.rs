//! The size limits of the composer's undo/redo history: at most 64
//! snapshots, 1 MiB of draft text and 16 MiB of image data, each image
//! counted once however many snapshots share it. The oldest snapshots go
//! first: undo snapshots before redo snapshots.

use vstd::prelude::*;

verus! {

/// The most snapshots kept.
pub const MAX_SNAPSHOTS: usize = 64;

/// The most draft bytes kept, text and text elements together.
pub const MAX_TEXT_BYTES: u128 = 1048576;

/// The most image bytes kept.
pub const MAX_IMAGE_BYTES: u128 = 16777216;

/// What the limits read of one snapshot: the length of its draft text, the
/// number of its text elements, and its images as (identity, byte length),
/// where snapshots that share an image give it the same identity.
#[derive(Clone, Debug)]
pub struct SnapshotSize {
    pub text_len: usize,
    pub element_count: usize,
    pub images: Vec<(u64, usize)>,
}

/// The draft bytes of snapshots, each text element counting `element_size`.
pub open spec fn text_bytes(s: Seq<SnapshotSize>, element_size: usize) -> int
    decreases s.len(),
{
    if s.len() == 0 {
        0
    } else {
        text_bytes(s.drop_last(), element_size) + s.last().text_len + s.last().element_count * element_size
    }
}

/// The images of snapshots, in order.
pub open spec fn all_images(s: Seq<SnapshotSize>) -> Seq<(u64, usize)>
    decreases s.len(),
{
    if s.len() == 0 {
        Seq::empty()
    } else {
        all_images(s.drop_last()) + s.last().images@
    }
}

/// Whether an image with identity `id` comes among `images`.
pub open spec fn has_image(images: Seq<(u64, usize)>, id: u64) -> bool {
    exists|i: int| 0 <= i < images.len() && #[trigger] images[i].0 == id
}

/// The image bytes of a list of images, each identity counted the first
/// time it comes.
pub open spec fn image_bytes(images: Seq<(u64, usize)>) -> int
    decreases images.len(),
{
    if images.len() == 0 {
        0
    } else {
        image_bytes(images.drop_last()) + if has_image(images.drop_last(), images.last().0) {
            0
        } else {
            images.last().1 as int
        }
    }
}

/// Whether snapshots are within all three limits.
pub open spec fn within_limits(s: Seq<SnapshotSize>, element_size: usize) -> bool {
    &&& s.len() <= MAX_SNAPSHOTS
    &&& text_bytes(s, element_size) <= MAX_TEXT_BYTES
    &&& image_bytes(all_images(s)) <= MAX_IMAGE_BYTES
}

/// How many of the oldest snapshots must go: the fewest whose removal
/// leaves the rest within the limits.
pub open spec fn drop_count(all: Seq<SnapshotSize>, element_size: usize) -> int {
    choose|d: int|
        0 <= d <= all.len() && within_limits(all.skip(d), element_size) && forall|e: int|
            0 <= e < d ==> !within_limits(#[trigger] all.skip(e), element_size)
}

proof fn lemma_text_bytes_prefix(s: Seq<SnapshotSize>, element_size: usize, j: int)
    requires
        0 <= j <= s.len(),
    ensures
        0 <= text_bytes(s.take(j), element_size) <= text_bytes(s, element_size),
    decreases s.len(),
{
    if j < s.len() {
        assert(s.drop_last().take(j) =~= s.take(j));
        lemma_text_bytes_prefix(s.drop_last(), element_size, j);
        assert(0 <= s.last().element_count * element_size) by (nonlinear_arith);
    } else {
        assert(s.take(j) =~= s);
        lemma_text_bytes_nonneg(s, element_size);
    }
}

proof fn lemma_text_bytes_nonneg(s: Seq<SnapshotSize>, element_size: usize)
    ensures
        0 <= text_bytes(s, element_size),
    decreases s.len(),
{
    if s.len() > 0 {
        lemma_text_bytes_nonneg(s.drop_last(), element_size);
        assert(0 <= s.last().element_count * element_size) by (nonlinear_arith);
    }
}

proof fn lemma_image_bytes_prefix(images: Seq<(u64, usize)>, j: int)
    requires
        0 <= j <= images.len(),
    ensures
        0 <= image_bytes(images.take(j)) <= image_bytes(images),
    decreases images.len(),
{
    if j < images.len() {
        assert(images.drop_last().take(j) =~= images.take(j));
        lemma_image_bytes_prefix(images.drop_last(), j);
    } else {
        assert(images.take(j) =~= images);
        if j > 0 {
            lemma_image_bytes_prefix(images.drop_last(), j - 1);
            assert(images.drop_last().take(j - 1) =~= images.drop_last());
        }
    }
}

proof fn lemma_all_images_append(s: Seq<SnapshotSize>, x: SnapshotSize)
    ensures
        all_images(s.push(x)) == all_images(s) + x.images@,
{
    assert(s.push(x).drop_last() =~= s);
}

/// The snapshot at position `k` of the undo snapshots followed by the redo ones.
fn snapshot_at<'a>(undo: &'a [SnapshotSize], redo: &'a [SnapshotSize], k: usize) -> (r: &'a SnapshotSize)
    requires
        k < undo@.len() + redo@.len(),
    ensures
        *r == (undo@ + redo@)[k as int],
{
    if k < undo.len() {
        &undo[k]
    } else {
        &redo[k - undo.len()]
    }
}

/// Whether an image identity comes in `seen`.
fn seen_before(seen: &Vec<u64>, id: u64) -> (r: bool)
    ensures
        r == seen@.contains(id),
{
    let mut i: usize = 0;
    while i < seen.len()
        invariant
            0 <= i <= seen@.len(),
            forall|j: int| 0 <= j < i ==> seen@[j] != id,
        decreases seen@.len() - i,
    {
        if seen[i] == id {
            proof {
                assert(seen@[i as int] == id);
            }
            return true;
        }
        i = i + 1;
    }
    false
}

/// Whether the draft bytes of the snapshots from position `d` on are within
/// the limit.
fn text_within(undo: &[SnapshotSize], redo: &[SnapshotSize], d: usize, element_size: usize) -> (r: bool)
    requires
        undo@.len() + redo@.len() <= usize::MAX,
        d <= undo@.len() + redo@.len(),
    ensures
        r == (text_bytes((undo@ + redo@).skip(d as int), element_size) <= MAX_TEXT_BYTES),
{
    let ghost all = undo@ + redo@;
    let ghost rest = all.skip(d as int);
    let n = undo.len() + redo.len();
    let mut acc: u128 = 0;
    let mut j: usize = d;
    proof {
        assert(rest.take(0) =~= Seq::<SnapshotSize>::empty());
    }
    while j < n
        invariant
            all == undo@ + redo@,
            rest == all.skip(d as int),
            n == all.len(),
            d <= j <= n,
            acc <= MAX_TEXT_BYTES,
            acc == text_bytes(rest.take(j - d), element_size),
        decreases n - j,
    {
        let s = snapshot_at(undo, redo, j);
        proof {
            assert(rest.take(j - d + 1).drop_last() =~= rest.take(j - d));
            assert(rest.take(j - d + 1).last() == all[j as int]);
            assert(s.element_count * element_size <= usize::MAX * usize::MAX) by (nonlinear_arith)
                requires
                    s.element_count <= usize::MAX,
                    element_size <= usize::MAX,
            ;
            assert(usize::MAX * usize::MAX + usize::MAX + MAX_TEXT_BYTES < u128::MAX) by (nonlinear_arith)
                requires
                    usize::MAX <= 0xffff_ffff_ffff_ffff,
            ;
        }
        let term = s.text_len as u128 + (s.element_count as u128) * (element_size as u128);
        acc = acc + term;
        if acc > MAX_TEXT_BYTES {
            proof {
                lemma_text_bytes_prefix(rest, element_size, j - d + 1);
            }
            return false;
        }
        j = j + 1;
    }
    proof {
        assert(rest.take(j - d) =~= rest);
    }
    true
}

/// Whether the image bytes of the snapshots from position `d` on are within
/// the limit.
fn images_within(undo: &[SnapshotSize], redo: &[SnapshotSize], d: usize) -> (r: bool)
    requires
        undo@.len() + redo@.len() <= usize::MAX,
        d <= undo@.len() + redo@.len(),
    ensures
        r == (image_bytes(all_images((undo@ + redo@).skip(d as int))) <= MAX_IMAGE_BYTES),
{
    let ghost all = undo@ + redo@;
    let ghost rest = all.skip(d as int);
    let ghost whole = all_images(rest);
    let n = undo.len() + redo.len();
    let mut seen: Vec<u64> = Vec::new();
    let mut acc: u128 = 0;
    let mut j: usize = d;
    proof {
        assert(rest.take(0) =~= Seq::<SnapshotSize>::empty());
    }
    while j < n
        invariant
            all == undo@ + redo@,
            rest == all.skip(d as int),
            whole == all_images(rest),
            n == all.len(),
            d <= j <= n,
            acc <= MAX_IMAGE_BYTES,
            acc == image_bytes(all_images(rest.take(j - d))),
            seen@ == all_images(rest.take(j - d)).map_values(|p: (u64, usize)| p.0),
            all_images(rest.take(j - d)).is_prefix_of(whole),
        decreases n - j,
    {
        let s = snapshot_at(undo, redo, j);
        let ghost base = all_images(rest.take(j - d));
        proof {
            assert(rest.take(j - d + 1) =~= rest.take(j - d).push(all[j as int]));
            lemma_all_images_append(rest.take(j - d), all[j as int]);
            lemma_all_images_prefix(rest, j - d + 1);
        }
        let mut t: usize = 0;
        while t < s.images.len()
            invariant
                all == undo@ + redo@,
                rest == all.skip(d as int),
                whole == all_images(rest),
                acc <= MAX_IMAGE_BYTES,
                0 <= t <= s.images@.len(),
                base + s.images@ == all_images(rest.take(j - d + 1)),
                all_images(rest.take(j - d + 1)).is_prefix_of(whole),
                acc == image_bytes(base + s.images@.take(t as int)),
                seen@ == (base + s.images@.take(t as int)).map_values(|p: (u64, usize)| p.0),
            decreases s.images@.len() - t,
        {
            let (id, len) = s.images[t];
            let ghost prefix = base + s.images@.take(t as int);
            let ghost next = base + s.images@.take(t + 1);
            proof {
                assert(next =~= prefix.push((id, len)));
                assert(next.drop_last() =~= prefix);
                assert(seen@.contains(id) == has_image(prefix, id)) by {
                    if seen@.contains(id) {
                        let i = choose|i: int| 0 <= i < seen@.len() && seen@[i] == id;
                        assert(prefix[i].0 == id);
                    }
                    if has_image(prefix, id) {
                        let i = choose|i: int| 0 <= i < prefix.len() && #[trigger] prefix[i].0 == id;
                        assert(seen@[i] == id);
                    }
                }
            }
            if !seen_before(&seen, id) {
                acc = acc + len as u128;
            }
            seen.push(id);
            proof {
                assert(seen@ =~= next.map_values(|p: (u64, usize)| p.0));
            }
            if acc > MAX_IMAGE_BYTES {
                proof {
                    let full = all_images(rest.take(j - d + 1));
                    assert(acc == image_bytes(next));
                    assert(next =~= full.take(next.len() as int));
                    assert(full =~= whole.take(full.len() as int));
                    assert(next =~= whole.take(next.len() as int));
                    lemma_image_bytes_prefix(whole, next.len() as int);
                }
                return false;
            }
            t = t + 1;
        }
        proof {
            assert(s.images@.take(t as int) =~= s.images@);
        }
        j = j + 1;
    }
    proof {
        assert(rest.take(j - d) =~= rest);
    }
    true
}

proof fn lemma_all_images_prefix(s: Seq<SnapshotSize>, j: int)
    requires
        0 <= j <= s.len(),
    ensures
        all_images(s.take(j)).is_prefix_of(all_images(s)),
    decreases s.len(),
{
    if j < s.len() {
        assert(s.drop_last().take(j) =~= s.take(j));
        lemma_all_images_prefix(s.drop_last(), j);
    } else {
        assert(s.take(j) =~= s);
    }
}

/// Whether the snapshots from position `d` on are within the limits.
fn within_from(undo: &[SnapshotSize], redo: &[SnapshotSize], d: usize, element_size: usize) -> (r: bool)
    requires
        undo@.len() + redo@.len() <= usize::MAX,
        d <= undo@.len() + redo@.len(),
    ensures
        r == within_limits((undo@ + redo@).skip(d as int), element_size),
{
    undo.len() + redo.len() - d <= MAX_SNAPSHOTS && text_within(undo, redo, d, element_size)
        && images_within(undo, redo, d)
}

/// How many undo snapshots and then redo snapshots to drop, oldest first,
/// so that the history is within its limits: the fewest that do it (see
/// [`drop_count`]). `element_size` is the size of one text element.
pub fn trim_counts(undo: &[SnapshotSize], redo: &[SnapshotSize], element_size: usize) -> (r: (
    usize,
    usize,
))
    requires
        undo@.len() + redo@.len() <= usize::MAX,
    ensures
        r.0 + r.1 == drop_count(undo@ + redo@, element_size),
        r.0 == (if drop_count(undo@ + redo@, element_size) <= undo@.len() {
            drop_count(undo@ + redo@, element_size)
        } else {
            undo@.len() as int
        }),
{
    let ghost all = undo@ + redo@;
    let n = undo.len() + redo.len();
    let mut d: usize = 0;
    let mut done = within_from(undo, redo, 0, element_size);
    while !done
        invariant
            all == undo@ + redo@,
            n == all.len(),
            0 <= d <= n,
            done == within_limits(all.skip(d as int), element_size),
            forall|e: int| 0 <= e < d ==> !within_limits(#[trigger] all.skip(e), element_size),
        decreases n - d,
    {
        proof {
            if d == n {
                assert(all.skip(d as int) =~= Seq::<SnapshotSize>::empty());
                assert(all_images(all.skip(d as int)) =~= Seq::<(u64, usize)>::empty());
            }
        }
        d = d + 1;
        done = within_from(undo, redo, d, element_size);
    }
    proof {
        let w = d as int;
        assert(0 <= w <= all.len() && within_limits(all.skip(w), element_size) && forall|e: int|
            0 <= e < w ==> !within_limits(#[trigger] all.skip(e), element_size));
        let c = drop_count(all, element_size);
        assert(0 <= c <= all.len() && within_limits(all.skip(c), element_size) && forall|e: int|
            0 <= e < c ==> !within_limits(#[trigger] all.skip(e), element_size));
        if c < w {
            assert(!within_limits(all.skip(c), element_size));
        }
        if w < c {
            assert(!within_limits(all.skip(w), element_size));
        }
    }
    if d <= undo.len() {
        (d, 0)
    } else {
        (undo.len(), d - undo.len())
    }
}

} // verus!
