//! Navigation state and the preload engine.
//!
//! The ordered image list grows as discovery appends records; a cursor
//! marks the current image. Around the cursor the engine maintains a
//! bounded working set (`load`, the intended set) computed by
//! interleaving the forward and backward neighbours of the cursor, a FIFO
//! queue of decode jobs, the set of jobs in flight (`loading`), and the
//! set of resident images (`loaded`).

use vstd::prelude::*;
use vstd::relations::injective_on;
use vstd::seq_lib::lemma_seq_contains_after_push;
use vstd::seq_lib::seq_to_set_is_finite;
use vstd::set_lib::{lemma_int_range, lemma_len_subset, lemma_map_size, lemma_subset_equality, set_int_range};

use std::collections::VecDeque;

use crate::cmdline::Args;
use crate::image::{Image, ImageData, Mark};
use crate::codecs::CodecError;
use crate::orientation::Orientation;

verus! {

/// A navigation command over the image list.
#[derive(Debug, Copy, Clone, PartialEq, Eq, Structural)]
pub enum Navigate {
    First,
    Previous,
    Next,
    Last,
}

/// Alternate the items of two sequences, starting with the first; when
/// one runs out the rest of the other follows.
pub open spec fn spec_interleave<T>(a: Seq<T>, b: Seq<T>) -> Seq<T>
    decreases a.len() + b.len(),
{
    if a.len() == 0 {
        b
    } else if b.len() == 0 {
        a
    } else {
        seq![a[0], b[0]] + spec_interleave(a.drop_first(), b.drop_first())
    }
}

/// The indices after the cursor, in order.
pub open spec fn spec_forward(len: int, cur: int) -> Seq<usize> {
    Seq::new((len - cur - 1) as nat, |k: int| (cur + 1 + k) as usize)
}

/// The indices before the cursor, nearest first.
pub open spec fn spec_backward(cur: int) -> Seq<usize> {
    Seq::new(cur as nat, |k: int| (cur - 1 - k) as usize)
}

/// The full preload order: the cursor itself, then its forward and
/// backward neighbours interleaved.
pub open spec fn spec_window_order(len: int, cur: int) -> Seq<usize> {
    seq![cur as usize] + spec_interleave(spec_forward(len, cur), spec_backward(cur))
}

/// The intended working set: the first `capacity` indices of the preload
/// order (all of them when the list is shorter).
pub open spec fn spec_window(len: int, cur: int, capacity: int) -> Seq<usize> {
    spec_window_order(len, cur).take(
        if capacity <= len {
            capacity
        } else {
            len
        },
    )
}

/// An interleaving holds exactly the items of its two inputs.
pub proof fn lemma_interleave_contains<T>(a: Seq<T>, b: Seq<T>)
    ensures
        spec_interleave(a, b).len() == a.len() + b.len(),
        forall|x: T|
            #[trigger] spec_interleave(a, b).contains(x) <==> (a.contains(x) || b.contains(x)),
    decreases a.len() + b.len(),
{
    if a.len() == 0 {
    } else if b.len() == 0 {
    } else {
        lemma_interleave_contains(a.drop_first(), b.drop_first());
        let rest = spec_interleave(a.drop_first(), b.drop_first());
        let whole = spec_interleave(a, b);
        assert forall|x: T| #[trigger] whole.contains(x) implies (a.contains(x)
            || b.contains(x)) by {
            let k = choose|k: int| 0 <= k < whole.len() && whole[k] == x;
            if k == 0 {
                assert(a[0] == x);
            } else if k == 1 {
                assert(b[0] == x);
            } else {
                assert(rest[k - 2] == x);
                assert(rest.contains(x));
                if a.drop_first().contains(x) {
                    let j = choose|j: int| 0 <= j < a.drop_first().len() && a.drop_first()[j] == x;
                    assert(a[j + 1] == x);
                } else {
                    let j = choose|j: int| 0 <= j < b.drop_first().len() && b.drop_first()[j] == x;
                    assert(b[j + 1] == x);
                }
            }
        }
        assert forall|x: T| (a.contains(x) || b.contains(x)) implies #[trigger]
            whole.contains(x) by {
            if a.contains(x) {
                let j = choose|j: int| 0 <= j < a.len() && a[j] == x;
                if j == 0 {
                    assert(whole[0] == x);
                } else {
                    assert(a.drop_first()[j - 1] == x);
                    assert(a.drop_first().contains(x));
                    assert(rest.contains(x));
                    let k = choose|k: int| 0 <= k < rest.len() && rest[k] == x;
                    assert(whole[k + 2] == x);
                }
            } else {
                let j = choose|j: int| 0 <= j < b.len() && b[j] == x;
                if j == 0 {
                    assert(whole[1] == x);
                } else {
                    assert(b.drop_first()[j - 1] == x);
                    assert(b.drop_first().contains(x));
                    assert(rest.contains(x));
                    let k = choose|k: int| 0 <= k < rest.len() && rest[k] == x;
                    assert(whole[k + 2] == x);
                }
            }
        }
    }
}

/// Interleaving two duplicate-free sequences with no common item yields a
/// duplicate-free sequence.
pub proof fn lemma_interleave_no_dup<T>(a: Seq<T>, b: Seq<T>)
    requires
        a.no_duplicates(),
        b.no_duplicates(),
        forall|x: T| a.contains(x) ==> !b.contains(x),
    ensures
        spec_interleave(a, b).no_duplicates(),
    decreases a.len() + b.len(),
{
    lemma_interleave_contains(a, b);
    if a.len() == 0 {
    } else if b.len() == 0 {
    } else {
        assert forall|x: T| a.drop_first().contains(x) implies !b.drop_first().contains(x) by {
            let j = choose|j: int| 0 <= j < a.drop_first().len() && a.drop_first()[j] == x;
            assert(a[j + 1] == x);
            assert(a.contains(x));
            if b.drop_first().contains(x) {
                let k = choose|k: int| 0 <= k < b.drop_first().len() && b.drop_first()[k] == x;
                assert(b[k + 1] == x);
                assert(b.contains(x));
            }
        }
        lemma_interleave_no_dup(a.drop_first(), b.drop_first());
        lemma_interleave_contains(a.drop_first(), b.drop_first());
        let rest = spec_interleave(a.drop_first(), b.drop_first());
        let whole = spec_interleave(a, b);
        assert(a.contains(a[0]));
        assert(b.contains(b[0]));
        assert(!rest.contains(a[0])) by {
            if a.drop_first().contains(a[0]) {
                let j = choose|j: int|
                    0 <= j < a.drop_first().len() && a.drop_first()[j] == a[0];
                assert(a[j + 1] == a[0]);
            }
        }
        assert(!rest.contains(b[0])) by {
            if b.drop_first().contains(b[0]) {
                let j = choose|j: int|
                    0 <= j < b.drop_first().len() && b.drop_first()[j] == b[0];
                assert(b[j + 1] == b[0]);
            }
        }
        assert forall|k1: int, k2: int| 0 <= k1 < k2 < whole.len() implies whole[k1]
            != whole[k2] by {
            if k1 == 0 {
                if k2 == 1 {
                } else {
                    assert(rest[k2 - 2] == whole[k2]);
                    assert(rest.contains(rest[k2 - 2]));
                }
            } else if k1 == 1 {
                assert(rest[k2 - 2] == whole[k2]);
                assert(rest.contains(rest[k2 - 2]));
            } else {
                assert(rest[k1 - 2] == whole[k1]);
                assert(rest[k2 - 2] == whole[k2]);
            }
        }
    }
}

/// The preload order visits each image index exactly once.
pub proof fn lemma_window_order_no_dup(len: int, cur: int)
    requires
        0 <= cur < len,
        len <= usize::MAX,
    ensures
        spec_window_order(len, cur).len() == len,
        spec_window_order(len, cur).no_duplicates(),
        forall|x: usize|
            #[trigger] spec_window_order(len, cur).contains(x) <==> (0 <= x < len),
{
    let fwd = spec_forward(len, cur);
    let bwd = spec_backward(cur);
    assert(fwd.no_duplicates()) by {
        assert forall|k1: int, k2: int| 0 <= k1 < k2 < fwd.len() implies fwd[k1] != fwd[k2] by {
            assert(fwd[k1] == (cur + 1 + k1) as usize);
            assert(fwd[k2] == (cur + 1 + k2) as usize);
        }
    }
    assert(bwd.no_duplicates()) by {
        assert forall|k1: int, k2: int| 0 <= k1 < k2 < bwd.len() implies bwd[k1] != bwd[k2] by {
            assert(bwd[k1] == (cur - 1 - k1) as usize);
            assert(bwd[k2] == (cur - 1 - k2) as usize);
        }
    }
    assert forall|x: usize| fwd.contains(x) implies !bwd.contains(x) by {
        let j = choose|j: int| 0 <= j < fwd.len() && fwd[j] == x;
        assert(fwd[j] == (cur + 1 + j) as usize);
        assert(x > cur);
        if bwd.contains(x) {
            let k = choose|k: int| 0 <= k < bwd.len() && bwd[k] == x;
            assert(bwd[k] == (cur - 1 - k) as usize);
            assert(x < cur);
        }
    }
    lemma_interleave_contains(fwd, bwd);
    lemma_interleave_no_dup(fwd, bwd);
    let mixed = spec_interleave(fwd, bwd);
    let whole = spec_window_order(len, cur);
    assert(!mixed.contains(cur as usize)) by {
        if fwd.contains(cur as usize) {
            let j = choose|j: int| 0 <= j < fwd.len() && fwd[j] == cur as usize;
            assert(fwd[j] == (cur + 1 + j) as usize);
        }
        if bwd.contains(cur as usize) {
            let k = choose|k: int| 0 <= k < bwd.len() && bwd[k] == cur as usize;
            assert(bwd[k] == (cur - 1 - k) as usize);
        }
    }
    assert forall|k1: int, k2: int| 0 <= k1 < k2 < whole.len() implies whole[k1] != whole[k2] by {
        if k1 == 0 {
            assert(mixed[k2 - 1] == whole[k2]);
            assert(mixed.contains(mixed[k2 - 1]));
        } else {
            assert(mixed[k1 - 1] == whole[k1]);
            assert(mixed[k2 - 1] == whole[k2]);
        }
    }
    assert forall|x: usize| #[trigger] whole.contains(x) implies (0 <= x < len) by {
        let k = choose|k: int| 0 <= k < whole.len() && whole[k] == x;
        if k > 0 {
            assert(mixed[k - 1] == x);
            assert(mixed.contains(x));
            if fwd.contains(x) {
                let j = choose|j: int| 0 <= j < fwd.len() && fwd[j] == x;
                assert(fwd[j] == (cur + 1 + j) as usize);
            } else {
                let j = choose|j: int| 0 <= j < bwd.len() && bwd[j] == x;
                assert(bwd[j] == (cur - 1 - j) as usize);
            }
        }
    }
    assert forall|x: usize| (0 <= x < len) implies #[trigger] whole.contains(x) by {
        if x == cur {
            assert(whole[0] == x);
        } else if x > cur {
            assert(fwd[x - cur - 1] == x);
            assert(fwd.contains(x));
            assert(mixed.contains(x));
            let k = choose|k: int| 0 <= k < mixed.len() && mixed[k] == x;
            assert(whole[k + 1] == x);
        } else {
            assert(bwd[cur - 1 - x] == x);
            assert(bwd.contains(x));
            assert(mixed.contains(x));
            let k = choose|k: int| 0 <= k < mixed.len() && mixed[k] == x;
            assert(whole[k + 1] == x);
        }
    }
}

/// The intended working set never has duplicates and never exceeds the
/// capacity; each of its members is a valid index.
pub proof fn lemma_window_no_dup(len: int, cur: int, capacity: int)
    requires
        0 <= cur < len,
        capacity >= 0,
        len <= usize::MAX,
    ensures
        spec_window(len, cur, capacity).no_duplicates(),
        spec_window(len, cur, capacity).len() == if capacity <= len {
            capacity
        } else {
            len
        },
        forall|x: usize| #[trigger] spec_window(len, cur, capacity).contains(x) ==> 0 <= x < len,
{
    lemma_window_order_no_dup(len, cur);
    let whole = spec_window_order(len, cur);
    let w = spec_window(len, cur, capacity);
    assert forall|x: usize| #[trigger] w.contains(x) implies 0 <= x < len by {
        let k = choose|k: int| 0 <= k < w.len() && w[k] == x;
        assert(whole[k] == x);
        assert(whole.contains(x));
    }
    assert forall|k1: int, k2: int| 0 <= k1 < k2 < w.len() implies w[k1] != w[k2] by {
        assert(whole[k1] == w[k1]);
        assert(whole[k2] == w[k2]);
    }
}

/// When the whole list fits, the intended set is every image.
pub proof fn lemma_window_covers_all(len: int, cur: int, capacity: int)
    requires
        0 <= cur < len,
        capacity >= len,
        len <= usize::MAX,
    ensures
        forall|x: usize| #[trigger] spec_window(len, cur, capacity).contains(x) <==> 0 <= x < len,
{
    lemma_window_order_no_dup(len, cur);
    let whole = spec_window_order(len, cur);
    let w = spec_window(len, cur, capacity);
    assert(w =~= whole);
}

/// With the cursor on the last image the backward neighbours alone fill
/// the working set, nearest first.
pub proof fn lemma_window_backward(len: int, capacity: int)
    requires
        len > 0,
        capacity >= 0,
        len <= usize::MAX,
    ensures
        forall|k: int|
            0 <= k < spec_window(len, len - 1, capacity).len() ==> #[trigger] spec_window(
                len,
                len - 1,
                capacity,
            )[k] == (len - 1 - k) as usize,
{
    let fwd = spec_forward(len, len - 1);
    let bwd = spec_backward(len - 1);
    assert(fwd.len() == 0);
    assert(spec_interleave(fwd, bwd) == bwd);
}

/// Relies on itertools::interleave: alternate the items of the two
/// vectors until both run out.
#[verifier::external_body]
fn interleave_indices(a: Vec<usize>, b: Vec<usize>) -> (r: Vec<usize>)
    ensures
        r@ == spec_interleave(a@, b@),
{
    itertools::interleave(a, b).collect()
}

/// Whether the vector holds `x`.
fn vec_contains(v: &Vec<usize>, x: usize) -> (r: bool)
    ensures
        r == v@.contains(x),
{
    let mut k: usize = 0;
    while k < v.len()
        invariant
            k <= v.len(),
            forall|j: int| 0 <= j < k ==> v@[j] != x,
        decreases v.len() - k,
    {
        if v[k] == x {
            return true;
        }
        k += 1;
    }
    false
}

/// Remove the one occurrence of `x`.
fn vec_remove_value(v: &mut Vec<usize>, x: usize)
    requires
        old(v)@.no_duplicates(),
        old(v)@.contains(x),
    ensures
        final(v)@.no_duplicates(),
        final(v)@.len() == old(v)@.len() - 1,
        forall|y: usize| #[trigger] final(v)@.contains(y) <==> (old(v)@.contains(y) && y != x),
{
    let ghost v0 = v@;
    let mut k: usize = 0;
    while k < v.len()
        invariant_except_break
            v@ == v0,
            k <= v0.len(),
            forall|j: int| 0 <= j < k ==> v0[j] != x,
            v0.contains(x),
        ensures
            v@ == v0,
            k < v0.len(),
            v0[k as int] == x,
        decreases v.len() - k,
    {
        if v[k] == x {
            break;
        }
        k += 1;
    }
    let ghost ki = k as int;
    v.remove(k);
    proof {
        v0.remove_ensures(ki);
        assert(v@ =~= v0.remove(ki));
        assert forall|y: usize| #[trigger] v@.contains(y) implies (v0.contains(y) && y != x) by {
            let j = choose|j: int| 0 <= j < v@.len() && v@[j] == y;
            if j < ki {
                assert(v0[j] == y);
            } else {
                assert(v0[j + 1] == y);
                assert(v0[j + 1] != v0[ki]);
            }
        }
        assert forall|y: usize| (v0.contains(y) && y != x) implies #[trigger] v@.contains(y) by {
            let j = choose|j: int| 0 <= j < v0.len() && v0[j] == y;
            assert(j != ki);
            if j < ki {
                assert(v@[j] == y);
            } else {
                assert(v@[j - 1] == y);
            }
        }
        assert(v@.no_duplicates()) by {
            assert forall|k1: int, k2: int| 0 <= k1 < k2 < v@.len() implies v@[k1] != v@[k2] by {
                let m1 = if k1 < ki {
                    k1
                } else {
                    k1 + 1
                };
                let m2 = if k2 < ki {
                    k2
                } else {
                    k2 + 1
                };
                assert(v@[k1] == v0[m1]);
                assert(v@[k2] == v0[m2]);
            }
        }
    }
}

/// Set `images[i]` to its unloaded form.
fn unload_image(images: &mut Vec<Image>, i: usize)
    requires
        i < old(images)@.len(),
    ensures
        final(images)@ =~= old(images)@.update(i as int, spec_unloaded(old(images)@[i as int])),
{
    let mut img = images.remove(i);
    img.unload();
    images.insert(i, img);
    proof {
        assert(images@ =~= old(images)@.update(i as int, spec_unloaded(old(images)@[i as int])));
    }
}

/// An image with its pixels released; everything else unchanged.
pub open spec fn spec_unloaded(img: Image) -> Image {
    Image { data: None, ..img }
}


/// Filtering a sequence extended by one element.
pub proof fn lemma_filter_push<T>(s: Seq<T>, pred: spec_fn(T) -> bool, e: T)
    ensures
        s.push(e).filter(pred) == (if pred(e) {
            s.filter(pred).push(e)
        } else {
            s.filter(pred)
        }),
{
    reveal(Seq::filter);
    assert(s.push(e).drop_last() =~= s);
    assert(s.push(e).last() == e);
}

/// Filtering the empty sequence yields the empty sequence.
pub proof fn lemma_filter_empty<T>(pred: spec_fn(T) -> bool)
    ensures
        Seq::<T>::empty().filter(pred) == Seq::<T>::empty(),
{
    reveal(Seq::filter);
}

/// A filtered sequence holds exactly the original items that satisfy the
/// predicate.
pub proof fn lemma_filter_props<T>(s: Seq<T>, pred: spec_fn(T) -> bool)
    ensures
        s.filter(pred).len() <= s.len(),
        forall|x: T| #[trigger] s.filter(pred).contains(x) <==> (s.contains(x) && pred(x)),
    decreases s.len(),
{
    reveal(Seq::filter);
    if s.len() == 0 {
    } else {
        let dl = s.drop_last();
        lemma_filter_props(dl, pred);
        let f = s.filter(pred);
        let fd = dl.filter(pred);
        assert forall|x: T| #[trigger] f.contains(x) implies (s.contains(x) && pred(x)) by {
            let i = choose|i: int| 0 <= i < f.len() && f[i] == x;
            if pred(s.last()) && i == f.len() - 1 {
                assert(x == s.last());
                assert(s[s.len() - 1] == x);
            } else {
                assert(fd[i] == x);
                assert(fd.contains(x));
                let j = choose|j: int| 0 <= j < dl.len() && dl[j] == x;
                assert(s[j] == x);
            }
        }
        assert forall|x: T| (s.contains(x) && pred(x)) implies #[trigger] f.contains(x) by {
            let i = choose|i: int| 0 <= i < s.len() && s[i] == x;
            if i == s.len() - 1 {
                assert(f[f.len() - 1] == x);
            } else {
                assert(dl[i] == x);
                assert(dl.contains(x));
                assert(fd.contains(x));
                let j = choose|j: int| 0 <= j < fd.len() && fd[j] == x;
                assert(f[j] == x);
            }
        }
    }
}

/// Filtering preserves freedom from duplicates.
pub proof fn lemma_filter_no_dup<T>(s: Seq<T>, pred: spec_fn(T) -> bool)
    requires
        s.no_duplicates(),
    ensures
        s.filter(pred).no_duplicates(),
    decreases s.len(),
{
    reveal(Seq::filter);
    if s.len() == 0 {
    } else {
        let dl = s.drop_last();
        assert(dl.no_duplicates());
        lemma_filter_no_dup(dl, pred);
        lemma_filter_props(dl, pred);
        let f = s.filter(pred);
        let fd = dl.filter(pred);
        if pred(s.last()) {
            assert(!dl.contains(s.last())) by {
                if dl.contains(s.last()) {
                    let j = choose|j: int| 0 <= j < dl.len() && dl[j] == s.last();
                    assert(s[j] == s[s.len() - 1]);
                }
            }
            assert(!fd.contains(s.last()));
            assert(f == fd.push(s.last()));
            assert forall|k1: int, k2: int| 0 <= k1 < k2 < f.len() implies f[k1] != f[k2] by {
                if k2 == f.len() - 1 {
                    assert(fd[k1] == f[k1]);
                    assert(fd.contains(fd[k1]));
                }
            }
        }
    }
}

/// The concrete bookkeeping of the preload engine: the FIFO decode queue,
/// the intended working set (`load`), the decodes in flight (`loading`)
/// and the resident images (`loaded`).
#[derive(Debug)]
pub struct PreloadState {
    pub queue: VecDeque<usize>,
    pub load: Vec<usize>,
    pub loading: Vec<usize>,
    pub loaded: Vec<usize>,
}

/// The preload engine: a fixed capacity, its bookkeeping, and the
/// shutdown flag that turns every further update into a no-op.
#[derive(Debug)]
pub struct Preload {
    pub capacity: usize,
    pub state: PreloadState,
    pub shutdown: bool,
}

/// The abstract state of the preload engine.
pub ghost struct PreloadView {
    pub capacity: int,
    pub queue: Seq<usize>,
    pub load: Seq<usize>,
    pub loading: Seq<usize>,
    pub loaded: Seq<usize>,
    pub shutdown: bool,
}

impl View for Preload {
    type V = PreloadView;

    open spec fn view(&self) -> PreloadView {
        PreloadView {
            capacity: self.capacity as int,
            queue: self.state.queue@,
            load: self.state.load@,
            loading: self.state.loading@,
            loaded: self.state.loaded@,
            shutdown: self.shutdown,
        }
    }
}

/// The engine's invariant against the image list. Each set holds valid,
/// distinct indices; resident images are intended (`loaded` within
/// `load`); a decode in flight is not resident; queued work is neither
/// resident nor in flight; the intended set is bounded by the capacity;
/// and an image holds pixels exactly when the engine counts it resident.
pub open spec fn spec_preload_inv(p: PreloadView, images: Seq<Image>) -> bool {
    &&& p.capacity >= 1
    &&& p.queue.no_duplicates()
    &&& p.load.no_duplicates()
    &&& p.loading.no_duplicates()
    &&& p.loaded.no_duplicates()
    &&& forall|i: usize| #[trigger] p.queue.contains(i) ==> i < images.len()
    &&& forall|i: usize| #[trigger] p.load.contains(i) ==> i < images.len()
    &&& forall|i: usize| #[trigger] p.loading.contains(i) ==> i < images.len()
    &&& forall|i: usize| #[trigger] p.loaded.contains(i) ==> i < images.len() && p.load.contains(i)
    &&& forall|i: usize| #[trigger] p.loading.contains(i) ==> !p.loaded.contains(i)
    &&& forall|i: usize|
        #[trigger] p.queue.contains(i) ==> !p.loading.contains(i) && !p.loaded.contains(i)
    &&& p.load.len() <= p.capacity
    &&& forall|m: int|
        0 <= m < images.len() ==> ((#[trigger] images[m].data is Some) <==> p.loaded.contains(
            m as usize,
        ))
}

/// Which images an update enqueues for decoding: those of the working set
/// that are neither resident nor already being decoded.
pub open spec fn spec_needs_decode(p: PreloadView) -> spec_fn(usize) -> bool {
    |i: usize| !p.loaded.contains(i) && !p.loading.contains(i)
}

/// Whether an update leaves the engine untouched: an empty list, a
/// shutdown, or a saturated working set when asked to update only if
/// starved.
pub open spec fn spec_update_skipped(
    p: PreloadView,
    images: Seq<Image>,
    only_if_starved: bool,
) -> bool {
    images.len() == 0 || p.shutdown || (only_if_starved && p.load.len() == p.capacity)
}

/// The engine state after an update: the working set becomes the window
/// around the cursor, the queue its members that need decoding in window
/// order, and residents that left the window are dropped.
pub open spec fn spec_updated_preload(p: PreloadView, len: int, cur: int) -> PreloadView {
    let window = spec_window(len, cur, p.capacity);
    PreloadView {
        capacity: p.capacity,
        queue: window.filter(spec_needs_decode(p)),
        load: window,
        loading: p.loading,
        loaded: p.loaded.filter(|i: usize| window.contains(i)),
        shutdown: p.shutdown,
    }
}

/// The image list after an update: residents that left the window are
/// unloaded, everything else is untouched.
pub open spec fn spec_updated_images(p: PreloadView, images: Seq<Image>, cur: int) -> Seq<Image> {
    let window = spec_window(images.len() as int, cur, p.capacity);
    Seq::new(
        images.len(),
        |m: int|
            if p.loaded.contains(m as usize) && !window.contains(m as usize) {
                spec_unloaded(images[m])
            } else {
                images[m]
            },
    )
}

impl Preload {
    /// A fresh engine of the given capacity with empty bookkeeping.
    pub fn new(capacity: usize) -> (r: Preload)
        requires
            capacity >= 1,
        ensures
            r@.capacity == capacity,
            r@.queue == Seq::<usize>::empty(),
            r@.load == Seq::<usize>::empty(),
            r@.loading == Seq::<usize>::empty(),
            r@.loaded == Seq::<usize>::empty(),
            !r@.shutdown,
    {
        let r = Preload {
            capacity,
            state: PreloadState {
                queue: VecDeque::new(),
                load: Vec::new(),
                loading: Vec::new(),
                loaded: Vec::new(),
            },
            shutdown: false,
        };
        proof {
            assert(r@.queue =~= Seq::<usize>::empty());
            assert(r@.load =~= Seq::<usize>::empty());
            assert(r@.loading =~= Seq::<usize>::empty());
            assert(r@.loaded =~= Seq::<usize>::empty());
        }
        r
    }

    /// Recompute the working set around the cursor: enqueue what needs
    /// decoding, in window order, and unload residents that left the
    /// window. A no-op when the list is empty, after shutdown, or — when
    /// `only_if_starved` — while the working set is already full.
    #[verifier::loop_isolation(false)]
    #[verifier::rlimit(60)]
    pub fn update(
        &mut self,
        images: &mut Vec<Image>,
        current: usize,
        only_if_starved: bool,
    )
        requires
            spec_preload_inv(old(self)@, old(images)@),
            old(images)@.len() > 0 ==> current < old(images)@.len(),
        ensures
            spec_preload_inv(final(self)@, final(images)@),
            spec_update_skipped(old(self)@, old(images)@, only_if_starved)
                ==> (final(self)@ == old(self)@ && final(images)@ == old(images)@),
            !spec_update_skipped(old(self)@, old(images)@, only_if_starved)
                ==> (final(self)@ == spec_updated_preload(
                    old(self)@,
                    old(images)@.len() as int,
                    current as int,
                ) && final(images)@ == spec_updated_images(
                    old(self)@,
                    old(images)@,
                    current as int,
                )),
    {
        let ghost p0 = self@;
        let ghost images0 = images@;
        if images.len() == 0 || self.shutdown {
            return;
        }
        if only_if_starved && self.state.load.len() == self.capacity {
            return;
        }
        let len = images.len();
        let ghost window = spec_window(len as int, current as int, self.capacity as int);
        let ghost order0 = spec_window_order(len as int, current as int);
        proof {
            lemma_window_order_no_dup(len as int, current as int);
            lemma_window_no_dup(len as int, current as int, self.capacity as int);
        }

        self.state.queue.clear();

        let mut forward: Vec<usize> = Vec::new();
        let mut k: usize = current + 1;
        while k < len
            invariant
                current < k <= len,
                forward@ == Seq::new((k - current - 1) as nat, |j: int| (current + 1 + j) as usize),
            decreases len - k,
        {
            forward.push(k);
            k += 1;
            proof {
                assert(forward@ =~= Seq::new(
                    (k - current - 1) as nat,
                    |j: int| (current + 1 + j) as usize,
                ));
            }
        }
        proof {
            assert(forward@ =~= spec_forward(len as int, current as int));
        }

        let mut backward: Vec<usize> = Vec::new();
        let mut b: usize = current;
        while b > 0
            invariant
                b <= current,
                backward@ == Seq::new((current - b) as nat, |j: int| (current - 1 - j) as usize),
            decreases b,
        {
            b -= 1;
            backward.push(b);
            proof {
                assert(backward@ =~= Seq::new(
                    (current - b) as nat,
                    |j: int| (current - 1 - j) as usize,
                ));
            }
        }
        proof {
            assert(backward@ =~= spec_backward(current as int));
        }

        let mut order = interleave_indices(forward, backward);
        let mut order_full: Vec<usize> = Vec::new();
        order_full.push(current);
        order_full.append(&mut order);
        proof {
            assert(order_full@ =~= order0);
        }

        let ghost pred = spec_needs_decode(p0);
        proof {
            lemma_filter_empty::<usize>(pred);
            assert(order0.take(0) =~= Seq::<usize>::empty());
            assert(self.state.queue@ =~= Seq::<usize>::empty());
        }
        let mut new_load: Vec<usize> = Vec::new();
        let mut k: usize = 0;
        while k < order_full.len() && new_load.len() < self.capacity
            invariant
                self.capacity == p0.capacity,
                self.shutdown == p0.shutdown,
                k <= order_full.len(),
                k <= self.capacity,
                new_load@ == order0.take(k as int),
                new_load@.len() == k,
                self.state.queue@ == order0.take(k as int).filter(pred),
                self.state.load@ == p0.load,
                self.state.loading@ == p0.loading,
                self.state.loaded@ == p0.loaded,
            decreases order_full.len() - k,
        {
            let i = order_full[k];
            new_load.push(i);
            let needed = !vec_contains(&self.state.loaded, i) && !vec_contains(
                &self.state.loading,
                i,
            );
            if needed {
                self.state.queue.push_back(i);
            }
            proof {
                assert(order0.take(k + 1) =~= order0.take(k as int).push(i));
                lemma_filter_push(order0.take(k as int), pred, i);
            }
            k += 1;
        }
        proof {
            assert(new_load@ =~= window);
            assert(self.state.queue@ == window.filter(pred));
        }
        self.state.load = new_load;

        let ghost loaded0 = p0.loaded;
        let ghost keep = |i: usize| window.contains(i);
        proof {
            lemma_filter_empty::<usize>(keep);
            assert(loaded0.take(0) =~= Seq::<usize>::empty());
        }
        let mut new_loaded: Vec<usize> = Vec::new();
        let mut j: usize = 0;
        while j < self.state.loaded.len()
            invariant
                self.capacity == p0.capacity,
                self.shutdown == p0.shutdown,
                j <= loaded0.len(),
                self.state.loaded@ == loaded0,
                self.state.load@ == window,
                self.state.loading@ == p0.loading,
                self.state.queue@ == window.filter(pred),
                new_loaded@ == loaded0.take(j as int).filter(keep),
                images@.len() == images0.len(),
                forall|m: int|
                    0 <= m < images0.len() ==> images@[m] == (if loaded0.take(j as int).contains(
                        m as usize,
                    ) && !window.contains(m as usize) {
                        spec_unloaded(images0[m])
                    } else {
                        images0[m]
                    }),
            decreases loaded0.len() - j,
        {
            let i = self.state.loaded[j];
            proof {
                assert(loaded0.contains(i));
            }
            if vec_contains(&self.state.load, i) {
                new_loaded.push(i);
            } else {
                unload_image(images, i);
            }
            proof {
                assert(loaded0.take(j + 1) =~= loaded0.take(j as int).push(i));
                lemma_filter_push(loaded0.take(j as int), keep, i);
                lemma_seq_contains_after_push(loaded0.take(j as int), i, i);
                assert forall|m: int| 0 <= m < images0.len() implies images@[m] == (if loaded0.take(
                    j + 1,
                ).contains(m as usize) && !window.contains(m as usize) {
                    spec_unloaded(images0[m])
                } else {
                    images0[m]
                }) by {
                    lemma_seq_contains_after_push(loaded0.take(j as int), i, m as usize);
                    if m == i {
                        if !window.contains(i) {
                            assert(!loaded0.take(j as int).contains(i)) by {
                                if loaded0.take(j as int).contains(i) {
                                    let w = choose|w: int|
                                        0 <= w < j && loaded0.take(j as int)[w] == i;
                                    assert(loaded0[w] == loaded0[j as int]);
                                }
                            }
                        }
                    }
                }
            }
            j += 1;
        }
        proof {
            assert(loaded0.take(loaded0.len() as int) =~= loaded0);
        }
        self.state.loaded = new_loaded;

        proof {
            assert(images@ =~= spec_updated_images(p0, images0, current as int));
            lemma_filter_no_dup(window, pred);
            lemma_filter_no_dup(loaded0, keep);
            lemma_filter_props(window, pred);
            lemma_filter_props(loaded0, keep);
            assert(spec_preload_inv(self@, images@)) by {
                let p = self@;
                assert forall|m: int|
                    0 <= m < images@.len() implies ((#[trigger] images@[m].data is Some)
                    <==> p.loaded.contains(m as usize)) by {
                    assert(images@[m] == spec_updated_images(p0, images0, current as int)[m]);
                }
            }
        }
    }
}


/// An image record after a decode outcome is committed: the buffer on
/// success, the failed sentinel otherwise.
pub open spec fn spec_loaded_image(img: Image, primary: Result<ImageData, CodecError>) -> Image {
    Image {
        data: Some(
            match primary {
                Ok(d) => d,
                Err(_) => crate::image::spec_failed_data(),
            },
        ),
        ..img
    }
}

impl Preload {
    /// Take the next decode job off the queue; it moves into `loading`.
    /// The image list is borrowed to tie the job to the engine's
    /// bookkeeping invariant against it.
    pub fn begin_load(&mut self, images: &Vec<Image>) -> (r: Option<usize>)
        requires
            spec_preload_inv(old(self)@, images@),
        ensures
            spec_preload_inv(final(self)@, images@),
            match r {
                Some(i) => old(self)@.queue.len() > 0 && i == old(self)@.queue[0] && final(self)@
                    == (PreloadView {
                    queue: old(self)@.queue.drop_first(),
                    loading: old(self)@.loading.push(i),
                    ..old(self)@
                }),
                None => old(self)@.queue.len() == 0 && final(self)@ == old(self)@,
            },
    {
        let ghost p0 = self@;
        match self.state.queue.pop_front() {
            Some(i) => {
                self.state.loading.push(i);
                proof {
                    assert(p0.queue.contains(i)) by {
                        assert(p0.queue[0] == i);
                    }
                    assert(self@.queue =~= p0.queue.drop_first());
                    assert forall|y: usize| #[trigger] self@.queue.contains(y) implies p0
                        .queue.contains(y) by {
                        let k = choose|k: int| 0 <= k < self@.queue.len() && self@.queue[k] == y;
                        assert(p0.queue[k + 1] == y);
                    }
                    assert(self@.queue.no_duplicates()) by {
                        assert forall|k1: int, k2: int|
                            0 <= k1 < k2 < self@.queue.len() implies self@.queue[k1] != self
                            @.queue[k2] by {
                            assert(p0.queue[k1 + 1] == self@.queue[k1]);
                            assert(p0.queue[k2 + 1] == self@.queue[k2]);
                        }
                    }
                    assert forall|y: usize| #[trigger] self@.loading.contains(y) implies (p0
                        .loading.contains(y) || y == i) by {
                        lemma_seq_contains_after_push(p0.loading, i, y);
                    }
                    assert(self@.loading.no_duplicates()) by {
                        assert forall|k1: int, k2: int|
                            0 <= k1 < k2 < self@.loading.len() implies self@.loading[k1] != self
                            @.loading[k2] by {
                            if k2 == self@.loading.len() - 1 {
                                assert(p0.loading[k1] == self@.loading[k1]);
                                assert(p0.loading.contains(p0.loading[k1]));
                            }
                        }
                    }
                    assert forall|y: usize| #[trigger] self@.queue.contains(y) implies !self
                        @.loading.contains(y) by {
                        lemma_seq_contains_after_push(p0.loading, i, y);
                        if y == i {
                            let k = choose|k: int|
                                0 <= k < self@.queue.len() && self@.queue[k] == y;
                            assert(p0.queue[k + 1] == p0.queue[0]);
                        }
                    }
                }
                Some(i)
            },
            None => None,
        }
    }

    /// Commit a finished decode: the job leaves `loading`; if the image
    /// is still intended it becomes resident, otherwise its pixels are
    /// dropped at once. Returns whether the image was kept.
    pub fn finish_load(
        &mut self,
        images: &mut Vec<Image>,
        i: usize,
        primary: Result<ImageData, CodecError>,
    ) -> (kept: bool)
        requires
            spec_preload_inv(old(self)@, old(images)@),
            old(self)@.loading.contains(i),
        ensures
            spec_preload_inv(final(self)@, final(images)@),
            final(self)@.capacity == old(self)@.capacity,
            final(self)@.shutdown == old(self)@.shutdown,
            final(self)@.queue == old(self)@.queue,
            final(self)@.load == old(self)@.load,
            final(self)@.loading.no_duplicates(),
            forall|y: usize|
                #[trigger] final(self)@.loading.contains(y) <==> (old(self)@.loading.contains(y)
                    && y != i),
            kept == old(self)@.load.contains(i),
            kept ==> final(self)@.loaded == old(self)@.loaded.push(i) && final(images)@ == old(
                images,
            )@.update(i as int, spec_loaded_image(old(images)@[i as int], primary)),
            !kept ==> final(self)@.loaded == old(self)@.loaded && final(images)@ == old(images)@,
    {
        let ghost p0 = self@;
        let ghost images0 = images@;
        let total = images.len();
        proof {
            assert(i < total);
        }
        vec_remove_value(&mut self.state.loading, i);
        let mut img = images.remove(i);
        img.load(primary);
        images.insert(i, img);
        proof {
            assert(images@ =~= images0.update(i as int, spec_loaded_image(images0[i as int], primary)));
        }
        if vec_contains(&self.state.load, i) {
            self.state.loaded.push(i);
            proof {
                assert(!p0.loaded.contains(i));
                assert(self@.loaded.no_duplicates()) by {
                    assert forall|k1: int, k2: int|
                        0 <= k1 < k2 < self@.loaded.len() implies self@.loaded[k1] != self
                        @.loaded[k2] by {
                        if k2 == self@.loaded.len() - 1 {
                            assert(p0.loaded[k1] == self@.loaded[k1]);
                            assert(p0.loaded.contains(p0.loaded[k1]));
                        }
                    }
                }
                assert(spec_preload_inv(self@, images@)) by {
                    assert forall|y: usize| #[trigger] self@.loaded.contains(y) implies (y
                        < images@.len() && self@.load.contains(y)) by {
                        lemma_seq_contains_after_push(p0.loaded, i, y);
                    }
                    assert forall|y: usize| #[trigger] self@.loading.contains(y) implies !self
                        @.loaded.contains(y) by {
                        lemma_seq_contains_after_push(p0.loaded, i, y);
                    }
                    assert forall|y: usize| #[trigger] self@.queue.contains(y) implies (!self
                        @.loading.contains(y) && !self@.loaded.contains(y)) by {
                        lemma_seq_contains_after_push(p0.loaded, i, y);
                    }
                    assert forall|m: int|
                        0 <= m < images@.len() implies ((#[trigger] images@[m].data is Some)
                        <==> self@.loaded.contains(m as usize)) by {
                        lemma_seq_contains_after_push(p0.loaded, i, m as usize);
                        assert(self@.loaded == p0.loaded.push(i));
                        if m == i {
                            assert(images@[m].data is Some);
                        } else {
                            assert(images@[m] == images0[m]);
                            assert((images0[m].data is Some) <==> p0.loaded.contains(m as usize));
                        }
                    }
                }
            }
            true
        } else {
            unload_image(images, i);
            proof {
                assert(!p0.loaded.contains(i));
                assert(!(images0[i as int].data is Some));
                assert(images@ =~= images0);
                assert(spec_preload_inv(self@, images@));
            }
            false
        }
    }

    /// Abandon all work: the queue and the working set empty, every
    /// resident image is unloaded. Decodes already in flight stay in
    /// `loading`; as they finish they will be dropped, no longer being
    /// intended.
    #[verifier::loop_isolation(false)]
    pub fn shutdown(&mut self, images: &mut Vec<Image>)
        requires
            spec_preload_inv(old(self)@, old(images)@),
        ensures
            spec_preload_inv(final(self)@, final(images)@),
            final(self)@.capacity == old(self)@.capacity,
            final(self)@.queue == Seq::<usize>::empty(),
            final(self)@.load == Seq::<usize>::empty(),
            final(self)@.loaded == Seq::<usize>::empty(),
            final(self)@.loading == old(self)@.loading,
            final(self)@.shutdown,
            final(images)@.len() == old(images)@.len(),
            forall|m: int|
                0 <= m < old(images)@.len() ==> final(images)@[m] == spec_unloaded(
                    old(images)@[m],
                ),
    {
        let ghost p0 = self@;
        let ghost images0 = images@;
        let total = images.len();
        proof {
            assert(images0.len() == total);
        }
        self.shutdown = true;
        self.state.queue.clear();
        self.state.load.clear();
        let ghost loaded0 = p0.loaded;
        let mut j: usize = 0;
        while j < self.state.loaded.len()
            invariant
                spec_preload_inv(p0, images0),
                j <= loaded0.len(),
                self.state.loaded@ == loaded0,
                images@.len() == images0.len(),
                forall|m: int|
                    0 <= m < images0.len() ==> images@[m] == (if loaded0.take(j as int).contains(
                        m as usize,
                    ) {
                        spec_unloaded(images0[m])
                    } else {
                        images0[m]
                    }),
            decreases loaded0.len() - j,
        {
            let i = self.state.loaded[j];
            proof {
                assert(loaded0.contains(i));
                assert(p0.loaded.contains(i));
                assert(i < images0.len());
                assert(images@.len() == images0.len());
            }
            let ghost prev = images@;
            unload_image(images, i);
            proof {
                assert(loaded0.take(j + 1) =~= loaded0.take(j as int).push(i));
                assert forall|m: int| 0 <= m < images0.len() implies images@[m] == (if loaded0.take(
                    j + 1,
                ).contains(m as usize) {
                    spec_unloaded(images0[m])
                } else {
                    images0[m]
                }) by {
                    lemma_seq_contains_after_push(loaded0.take(j as int), i, m as usize);
                    assert(images@ == prev.update(i as int, spec_unloaded(prev[i as int])));
                    if m == i {
                        assert(images@[m] == spec_unloaded(prev[i as int]));
                    } else {
                        assert(images@[m] == prev[m]);
                    }
                }
            }
            j += 1;
        }
        self.state.loaded.clear();
        proof {
            assert(loaded0.take(loaded0.len() as int) =~= loaded0);
            assert(self@.queue =~= Seq::<usize>::empty());
            assert(self@.load =~= Seq::<usize>::empty());
            assert(self@.loaded =~= Seq::<usize>::empty());
            assert forall|m: int| 0 <= m < images0.len() implies images@[m] == spec_unloaded(
                images0[m],
            ) by {
                if !loaded0.contains(m as usize) {
                    assert(!(images0[m].data is Some));
                }
            }
        }
    }
}

/// An image outside the intended working set is never resident: pixels
/// are held only by images the engine counts loaded, and those are all
/// intended.
pub proof fn lemma_non_intended_not_resident(p: PreloadView, images: Seq<Image>, m: int)
    requires
        spec_preload_inv(p, images),
        0 <= m < images.len(),
        !p.load.contains(m as usize),
    ensures
        !(images[m].data is Some),
{
}

/// Pigeonhole for a saturated working set: when the capacity is at least
/// the list length and the working set is full, it already intends every
/// image — that many distinct valid indices must cover all of them. An
/// update asked to run only if starved skips exactly this case, so with
/// enough capacity the working set covers the whole list whether or not
/// the update ran.
pub proof fn lemma_saturated_load_covers_all(p: PreloadView, images: Seq<Image>)
    requires
        spec_preload_inv(p, images),
        p.capacity >= images.len(),
        p.load.len() == p.capacity,
    ensures
        forall|x: usize| 0 <= x < images.len() ==> #[trigger] p.load.contains(x),
{
    broadcast use seq_to_set_is_finite;

    let n = images.len() as int;
    let loadset = p.load.to_set();
    p.load.unique_seq_to_set();
    let f = |x: usize| x as int;
    let loadints = loadset.map(f);
    assert(injective_on(f, loadset));
    lemma_map_size(loadset, loadints, f);
    let range = set_int_range(0, n);
    lemma_int_range(0, n);
    assert(loadints.subset_of(range)) by {
        assert forall|a: int| loadints.contains(a) implies range.contains(a) by {
            let x = choose|x: usize| loadset.contains(x) && a == f(x);
            assert(p.load.contains(x));
        }
    }
    lemma_len_subset(loadints, range);
    lemma_subset_equality(loadints, range);
    assert forall|x: usize| 0 <= x < images.len() implies #[trigger] p.load.contains(x) by {
        assert(range.contains(x as int));
        assert(loadints.contains(x as int));
        let y = choose|y: usize| loadset.contains(y) && (x as int) == f(y);
        assert(y == x);
        assert(loadset.contains(x));
    }
}

/// When the capacity covers the whole list, an update intends every image
/// and unloads none.
pub proof fn lemma_full_capacity_no_unload(p: PreloadView, images: Seq<Image>, cur: int)
    requires
        spec_preload_inv(p, images),
        p.capacity >= images.len(),
        0 <= cur < images.len(),
        images.len() <= usize::MAX,
    ensures
        spec_updated_images(p, images, cur) == images,
        forall|x: usize|
            #[trigger] spec_updated_preload(p, images.len() as int, cur).load.contains(x) <==> (0
                <= x < images.len()),
{
    lemma_window_covers_all(images.len() as int, cur, p.capacity);
    assert(spec_updated_images(p, images, cur) =~= images);
}


/// The snapshot handed to the UI: the current image's index and filename,
/// its 1-based position, the list length, and the mark tri-state.
#[derive(Debug, Clone)]
pub struct Current {
    pub image: Option<usize>,
    pub filename: String,
    pub position: usize,
    pub total: usize,
    pub mark: Option<bool>,
}

/// The snapshot of an empty list.
pub open spec fn spec_default_current(c: Current) -> bool {
    c.image is None && c.filename@ == Seq::<char>::empty() && c.position == 0 && c.total == 0
        && c.mark is None
}

/// The cursor position after a navigation command: `First` and `Last`
/// clamp to the ends, `Previous` from the start stays at the start,
/// `Next` from the end stays at the end.
pub open spec fn spec_navigate(len: int, pos: int, action: Navigate) -> int {
    match action {
        Navigate::First => 0,
        Navigate::Previous => if pos > 0 {
            pos - 1
        } else {
            0
        },
        Navigate::Next => if len > 0 && pos < len - 1 {
            pos + 1
        } else {
            pos
        },
        Navigate::Last => if len > 0 {
            len - 1
        } else {
            pos
        },
    }
}

/// The navigation state: the ordered image list, the cursor and the
/// preload engine that follows it.
#[derive(Debug)]
pub struct State {
    pub images: Vec<Image>,
    pub position: usize,
    pub preload: Preload,
}

impl State {
    /// The cursor is in range (or zero while the list is empty) and the
    /// preload engine's bookkeeping matches the list.
    pub open spec fn inv(&self) -> bool {
        &&& spec_preload_inv(self.preload@, self.images@)
        &&& (self.images@.len() == 0 ==> self.position == 0)
        &&& (self.images@.len() > 0 ==> self.position < self.images@.len())
    }

    /// An empty list with a preload capacity of the given count plus one,
    /// for the current image itself.
    pub fn new(preload: usize) -> (r: State)
        requires
            preload < usize::MAX,
        ensures
            r.inv(),
            r.images@.len() == 0,
            r.position == 0,
            r.preload@.capacity == preload + 1,
            !r.preload@.shutdown,
            r.preload@.queue == Seq::<usize>::empty(),
            r.preload@.load == Seq::<usize>::empty(),
            r.preload@.loading == Seq::<usize>::empty(),
            r.preload@.loaded == Seq::<usize>::empty(),
    {
        State { images: Vec::new(), position: 0, preload: Preload::new(preload + 1) }
    }

    /// Append a discovered image and refresh the preload window, skipping
    /// the refresh while the window is already full — except for the
    /// first image, which always starts one. Returns whether this was
    /// the first image.
    pub fn add(&mut self, image: Image) -> (first: bool)
        requires
            old(self).inv(),
            !(image.data is Some),
            old(self).images@.len() < usize::MAX,
        ensures
            final(self).inv(),
            first == (old(self).images@.len() == 0),
            final(self).position == old(self).position,
            ({
                let pushed = old(self).images@.push(image);
                let p = old(self).preload@;
                let cur = old(self).position as int;
                if spec_update_skipped(p, pushed, !first) {
                    final(self).images@ == pushed && final(self).preload@ == p
                } else {
                    final(self).images@ == spec_updated_images(p, pushed, cur)
                        && final(self).preload@ == spec_updated_preload(p, pushed.len() as int, cur)
                }
            }),
    {
        let ghost p0 = self.preload@;
        self.images.push(image);
        let first = self.images.len() == 1;
        proof {
            assert forall|m: int|
                0 <= m < self.images@.len() implies ((#[trigger] self.images@[m].data is Some)
                <==> p0.loaded.contains(m as usize)) by {
                if m < self.images@.len() - 1 {
                } else {
                    assert(!(image.data is Some));
                    if p0.loaded.contains(m as usize) {
                    }
                }
            }
        }
        self.preload.update(&mut self.images, self.position, !first);
        first
    }

    /// Refresh the preload window at the current cursor.
    pub fn preload(&mut self, only_if_starved: bool)
        requires
            old(self).inv(),
        ensures
            final(self).inv(),
            final(self).position == old(self).position,
            ({
                let p = old(self).preload@;
                let imgs = old(self).images@;
                let cur = old(self).position as int;
                if spec_update_skipped(p, imgs, only_if_starved) {
                    final(self).images@ == imgs && final(self).preload@ == p
                } else {
                    final(self).images@ == spec_updated_images(p, imgs, cur)
                        && final(self).preload@ == spec_updated_preload(p, imgs.len() as int, cur)
                }
            }),
    {
        self.preload.update(&mut self.images, self.position, only_if_starved);
    }

    /// The snapshot of the current image, or the default snapshot while
    /// the list is empty.
    pub fn current(&self) -> (r: Current)
        requires
            self.inv(),
        ensures
            self.images@.len() == 0 ==> spec_default_current(r),
            self.images@.len() > 0 ==> ({
                let img = self.images@[self.position as int];
                &&& r.image == Some(self.position)
                &&& r.filename@ == img.filename@
                &&& r.position == self.position + 1
                &&& r.total == self.images@.len()
                &&& r.mark == img.marked
            }),
    {
        if self.position < self.images.len() {
            let img = &self.images[self.position];
            Current {
                image: Some(self.position),
                filename: img.filename.clone(),
                position: self.position + 1,
                total: self.images.len(),
                mark: img.marked,
            }
        } else {
            Current { image: None, filename: String::new(), position: 0, total: 0, mark: None }
        }
    }

    /// The 1-based position of the cursor, or zero while the list is
    /// empty.
    pub fn position_1based(&self) -> (r: usize)
        requires
            self.inv(),
        ensures
            r == spec_position_1based(self),
    {
        if self.position < self.images.len() {
            self.position + 1
        } else {
            0
        }
    }

    /// Move the cursor and refresh the preload window around it.
    pub fn navigate(&mut self, action: Navigate)
        requires
            old(self).inv(),
        ensures
            final(self).inv(),
            final(self).position == spec_navigate(
                old(self).images@.len() as int,
                old(self).position as int,
                action,
            ),
            ({
                let p = old(self).preload@;
                let imgs = old(self).images@;
                let cur = spec_navigate(imgs.len() as int, old(self).position as int, action);
                if spec_update_skipped(p, imgs, false) {
                    final(self).images@ == imgs && final(self).preload@ == p
                } else {
                    final(self).images@ == spec_updated_images(p, imgs, cur)
                        && final(self).preload@ == spec_updated_preload(p, imgs.len() as int, cur)
                }
            }),
    {
        match action {
            Navigate::First => {
                self.position = 0;
            },
            Navigate::Previous => {
                if self.position > 0 {
                    self.position = self.position - 1;
                }
            },
            Navigate::Next => {
                if self.images.len() > 0 && self.position < self.images.len() - 1 {
                    self.position = self.position + 1;
                }
            },
            Navigate::Last => {
                if self.images.len() > 0 {
                    self.position = self.images.len() - 1;
                }
            },
        }
        self.preload.update(&mut self.images, self.position, false);
    }

    /// Compose a further orientation change onto the current image; a
    /// no-op while the list is empty.
    pub fn orientation(&mut self, add: Orientation)
        requires
            old(self).inv(),
        ensures
            final(self).inv(),
            final(self).position == old(self).position,
            final(self).preload@ == old(self).preload@,
            old(self).images@.len() == 0 ==> final(self).images@ == old(self).images@,
            old(self).images@.len() > 0 ==> final(self).images@ == old(self).images@.update(
                old(self).position as int,
                (Image {
                    orientation: old(self).images@[old(self).position as int].orientation.spec_plus(
                        add,
                    ),
                    ..old(self).images@[old(self).position as int]
                }),
            ),
    {
        if self.position < self.images.len() {
            let ghost images0 = self.images@;
            let pos = self.position;
            let mut img = self.images.remove(pos);
            img.add_orientation(add);
            self.images.insert(pos, img);
            proof {
                assert(self.images@ =~= images0.update(
                    pos as int,
                    (Image {
                        orientation: images0[pos as int].orientation.spec_plus(add),
                        ..images0[pos as int]
                    }),
                ));
                assert forall|m: int|
                    0 <= m < self.images@.len() implies ((#[trigger] self.images@[m].data is Some)
                    <==> self.preload@.loaded.contains(m as usize)) by {
                    assert((images0[m].data is Some) <==> self.preload@.loaded.contains(
                        m as usize,
                    ));
                }
            }
        }
    }

    /// Abandon all preload work and unload every resident image.
    pub fn shutdown(&mut self)
        requires
            old(self).inv(),
        ensures
            final(self).inv(),
            final(self).position == old(self).position,
            final(self).preload@.queue == Seq::<usize>::empty(),
            final(self).preload@.load == Seq::<usize>::empty(),
            final(self).preload@.loaded == Seq::<usize>::empty(),
            final(self).preload@.loading == old(self).preload@.loading,
            final(self).preload@.capacity == old(self).preload@.capacity,
            final(self).preload@.shutdown,
            final(self).images@.len() == old(self).images@.len(),
            forall|m: int|
                0 <= m < old(self).images@.len() ==> final(self).images@[m] == spec_unloaded(
                    old(self).images@[m],
                ),
    {
        self.preload.shutdown(&mut self.images);
    }
}

/// The 1-based position of the cursor, or zero while the list is empty.
pub open spec fn spec_position_1based(s: &State) -> int {
    if s.images@.len() == 0 {
        0
    } else {
        s.position + 1
    }
}

/// The engine flags and arguments of `b` are those of `a`.
pub open spec fn spec_same_flags(a: &Files, b: &Files) -> bool {
    &&& b.args == a.args
    &&& b.start_ready == a.start_ready
    &&& b.start_finished == a.start_finished
    &&& b.image_loaded == a.image_loaded
    &&& b.image_ready == a.image_ready
    &&& b.shutdown == a.shutdown
}

/// What a task queued against the current snapshot looks like.
pub open spec fn spec_task_for(s: &State, always: bool, action: TaskAction, t: SeqTask) -> bool {
    &&& t.always == always
    &&& t.action == action
    &&& t.current.position == spec_position_1based(s)
    &&& t.current.total == s.images@.len()
    &&& (s.images@.len() > 0 ==> t.current.image == Some(s.position) && t.current.mark
        == s.images@[s.position as int].marked)
    &&& (s.images@.len() == 0 ==> t.current.image is None)
}


/// What a background task does to the current image: re-read the mark
/// link, or write a mark command.
#[derive(Debug, Copy, Clone, PartialEq, Eq, Structural)]
pub enum TaskAction {
    RefreshMark,
    WriteMark(Mark),
}

/// A task for the sequential background executor: the snapshot captured
/// when it was enqueued, whether it must always run (or only while the
/// cursor is still on the captured position), and what it does.
#[derive(Debug, Clone)]
pub struct SeqTask {
    pub current: Current,
    pub always: bool,
    pub action: TaskAction,
}

/// The facade over the navigation state, the preload engine, the startup
/// latches and the sequential task queue.
#[derive(Debug)]
pub struct Files {
    pub args: Args,
    pub state: State,
    /// At least one image arrived, or discovery ended with none.
    pub start_ready: bool,
    /// Discovery has finished.
    pub start_finished: bool,
    /// Some image finished its first decode.
    pub image_loaded: bool,
    /// The current image finished decoding at least once.
    pub image_ready: bool,
    pub shutdown: bool,
    /// The sequential background executor's queue.
    pub tasks: VecDeque<SeqTask>,
}

impl Files {
    /// The state is valid and the facade's shutdown flag agrees with the
    /// engine's.
    pub open spec fn inv(&self) -> bool {
        &&& self.state.inv()
        &&& self.shutdown == self.state.preload@.shutdown
    }

    /// A fresh engine for these arguments; the preload capacity is the
    /// preload count plus one, for the current image itself.
    pub fn new(args: Args) -> (r: Files)
        requires
            args.preload_count < usize::MAX,
        ensures
            r.inv(),
            r.args == args,
            r.state.images@.len() == 0,
            r.state.position == 0,
            r.state.preload@.capacity == args.preload_count + 1,
            !r.state.preload@.shutdown,
            r.state.preload@.loading == Seq::<usize>::empty(),
            !r.start_ready,
            !r.start_finished,
            !r.image_loaded,
            !r.image_ready,
            !r.shutdown,
            r.tasks@.len() == 0,
    {
        let preload = args.preload_count as usize;
        Files {
            args,
            state: State::new(preload),
            start_ready: false,
            start_finished: false,
            image_loaded: false,
            image_ready: false,
            shutdown: false,
            tasks: VecDeque::new(),
        }
    }

    /// Whether mark commands are available: a mark directory was given.
    pub fn mark_supported(&self) -> (r: bool)
        ensures
            r == (self.args.mark_directory is Some),
    {
        self.args.mark_directory.is_some()
    }

    /// Whether discovery is still running.
    pub fn starting(&self) -> (r: bool)
        ensures
            r == !self.start_finished,
    {
        !self.start_finished
    }

    /// Discovery has delivered everything: both latches fire, whether or
    /// not any image arrived.
    pub fn discovery_complete(&mut self)
        ensures
            *final(self) == (Files { start_ready: true, start_finished: true, ..*old(self) }),
    {
        self.start_ready = true;
        self.start_finished = true;
    }

    /// Whether startup succeeded: at least one image was discovered by
    /// the time the start-ready latch fired.
    pub fn start(&self) -> (r: bool)
        requires
            self.inv(),
            self.start_ready,
        ensures
            r == (self.state.images@.len() > 0),
    {
        self.state.images.len() > 0
    }

    /// Append a discovered image: a no-op after shutdown; the first image
    /// fires the start-ready latch. Returns whether anything changed (the
    /// UI is then notified).
    pub fn add(&mut self, image: Image) -> (changed: bool)
        requires
            old(self).inv(),
            !(image.data is Some),
            old(self).state.images@.len() < usize::MAX,
        ensures
            final(self).inv(),
            changed == !old(self).shutdown,
            old(self).shutdown ==> *final(self) == *old(self),
            !old(self).shutdown ==> ({
                let first = old(self).state.images@.len() == 0;
                let pushed = old(self).state.images@.push(image);
                let p = old(self).state.preload@;
                let cur = old(self).state.position as int;
                &&& final(self).start_ready == (old(self).start_ready || first)
                &&& final(self).state.position == old(self).state.position
                &&& (if spec_update_skipped(p, pushed, !first) {
                    final(self).state.images@ == pushed && final(self).state.preload@ == p
                } else {
                    final(self).state.images@ == spec_updated_images(p, pushed, cur) && final(self).state.preload@ == spec_updated_preload(p, pushed.len() as int, cur)
                })
                &&& final(self).tasks == old(self).tasks
                &&& final(self).shutdown == old(self).shutdown
                &&& final(self).start_finished == old(self).start_finished
                &&& final(self).image_loaded == old(self).image_loaded
                &&& final(self).image_ready == old(self).image_ready
                &&& final(self).args == old(self).args
            }),
    {
        if self.shutdown {
            return false;
        }
        let first = self.state.add(image);
        if first {
            self.start_ready = true;
        }
        true
    }

    /// The snapshot of the current image.
    pub fn current(&self) -> (r: Current)
        requires
            self.inv(),
        ensures
            self.state.images@.len() == 0 ==> spec_default_current(r),
            self.state.images@.len() > 0 ==> ({
                let img = self.state.images@[self.state.position as int];
                &&& r.image == Some(self.state.position)
                &&& r.filename@ == img.filename@
                &&& r.position == self.state.position + 1
                &&& r.total == self.state.images@.len()
                &&& r.mark == img.marked
            }),
    {
        self.state.current()
    }

    /// The 1-based position of the cursor, or zero while the list is
    /// empty.
    pub fn position(&self) -> (r: usize)
        requires
            self.inv(),
        ensures
            r == spec_position_1based(&self.state),
    {
        self.state.position_1based()
    }

    /// Move the cursor, refresh the preload window, and — when marks are
    /// available — queue a cursor-scoped task to re-read the current
    /// image's mark link.
    pub fn navigate(&mut self, action: Navigate)
        requires
            old(self).inv(),
        ensures
            final(self).inv(),
            final(self).state.position == spec_navigate(
                old(self).state.images@.len() as int,
                old(self).state.position as int,
                action,
            ),
            final(self).state.images@.len() == old(self).state.images@.len(),
            ({
                let p = old(self).state.preload@;
                let imgs = old(self).state.images@;
                let cur = spec_navigate(imgs.len() as int, old(self).state.position as int, action);
                if spec_update_skipped(p, imgs, false) {
                    final(self).state.images@ == imgs && final(self).state.preload@ == p
                } else {
                    final(self).state.images@ == spec_updated_images(p, imgs, cur)
                        && final(self).state.preload@ == spec_updated_preload(
                        p,
                        imgs.len() as int,
                        cur,
                    )
                }
            }),
            old(self).args.mark_directory is Some ==> final(self).tasks@.len() == old(self).tasks@.len() + 1 && final(self).tasks@.drop_last() == old(self).tasks@
                && spec_task_for(
                &final(self).state,
                false,
                TaskAction::RefreshMark,
                final(self).tasks@.last(),
            ),
            old(self).args.mark_directory is None ==> final(self).tasks == old(self).tasks,
            spec_same_flags(old(self), final(self)),
    {
        self.state.navigate(action);
        if self.args.mark_directory.is_some() {
            let current = self.state.current();
            self.tasks.push_back(SeqTask { current, always: false, action: TaskAction::RefreshMark });
        }
    }

    /// Compose a further orientation change onto the current image.
    pub fn orientation(&mut self, rotate: crate::orientation::Rotate, horizontal_flip: bool)
        requires
            old(self).inv(),
        ensures
            final(self).inv(),
            final(self).state.position == old(self).state.position,
            final(self).state.preload@ == old(self).state.preload@,
            final(self).tasks == old(self).tasks,
            spec_same_flags(old(self), final(self)),
            old(self).state.images@.len() == 0 ==> final(self).state.images@ == old(self).state.images@,
            old(self).state.images@.len() > 0 ==> ({
                let pos = old(self).state.position as int;
                let img = old(self).state.images@[pos];
                final(self).state.images@ == old(self).state.images@.update(
                    pos,
                    (Image {
                        orientation: img.orientation.spec_plus(
                            Orientation { rotate, horizontal_flip },
                        ),
                        ..img
                    }),
                )
            }),
    {
        self.state.orientation(Orientation::new(rotate, horizontal_flip));
    }

    /// Queue an unconditional background task to apply a mark command to
    /// the current image; a no-op without a mark directory.
    pub fn mark(&mut self, mark: Mark)
        requires
            old(self).inv(),
        ensures
            final(self).inv(),
            old(self).args.mark_directory is Some ==> final(self).tasks@.len() == old(self).tasks@.len() + 1 && final(self).tasks@.drop_last() == old(self).tasks@
                && spec_task_for(
                &old(self).state,
                true,
                TaskAction::WriteMark(mark),
                final(self).tasks@.last(),
            ),
            old(self).args.mark_directory is None ==> *final(self) == *old(self),
            final(self).state == old(self).state,
            spec_same_flags(old(self), final(self)),
    {
        if self.args.mark_directory.is_some() {
            let current = self.state.current();
            self.tasks.push_back(
                SeqTask { current, always: true, action: TaskAction::WriteMark(mark) },
            );
        }
    }

    /// Take the next decode job, unless shut down.
    pub fn begin_load(&mut self) -> (r: Option<usize>)
        requires
            old(self).inv(),
        ensures
            final(self).inv(),
            old(self).shutdown ==> r is None && *final(self) == *old(self),
            !old(self).shutdown ==> ({
                let p0 = old(self).state.preload@;
                &&& final(self).state.images == old(self).state.images
                &&& final(self).state.position == old(self).state.position
                &&& final(self).tasks == old(self).tasks
                &&& spec_same_flags(old(self), final(self))
                &&& match r {
                    Some(i) => p0.queue.len() > 0 && i == p0.queue[0] && final(self).state.preload@ == (PreloadView {
                        queue: p0.queue.drop_first(),
                        loading: p0.loading.push(i),
                        ..p0
                    }),
                    None => p0.queue.len() == 0 && final(self).state.preload@ == p0,
                }
            }),
    {
        if self.shutdown {
            return None;
        }
        self.state.preload.begin_load(&self.state.images)
    }

    /// Commit a finished decode and update the startup flags. Returns
    /// whether the UI must re-snapshot: the decoded image is still the
    /// current one.
    pub fn finish_load(&mut self, i: usize, primary: Result<ImageData, CodecError>) -> (ui: bool)
        requires
            old(self).inv(),
            old(self).state.preload@.loading.contains(i),
        ensures
            final(self).inv(),
            final(self).state.position == old(self).state.position,
            final(self).state.images@.len() == old(self).state.images@.len(),
            ({
                let p0 = old(self).state.preload@;
                let kept = p0.load.contains(i);
                &&& kept ==> final(self).state.images@ == old(self).state.images@.update(
                    i as int,
                    spec_loaded_image(old(self).state.images@[i as int], primary),
                ) && final(self).state.preload@.loaded == p0.loaded.push(i)
                &&& !kept ==> final(self).state.images@ == old(self).state.images@ && final(self).state.preload@.loaded == p0.loaded
                &&& final(self).state.preload@.capacity == p0.capacity
                &&& final(self).state.preload@.queue == p0.queue
                &&& final(self).state.preload@.load == p0.load
                &&& forall|y: usize|
                    #[trigger] final(self).state.preload@.loading.contains(y) <==> (
                    p0.loading.contains(y) && y != i)
                &&& final(self).image_loaded == (old(self).image_loaded || (kept && !old(self).shutdown))
                &&& ui == (kept && !old(self).shutdown && old(self).state.position == i)
                &&& final(self).image_ready == (old(self).image_ready || ui)
                &&& final(self).tasks == old(self).tasks
                &&& final(self).shutdown == old(self).shutdown
                &&& final(self).start_ready == old(self).start_ready
                &&& final(self).start_finished == old(self).start_finished
                &&& final(self).args == old(self).args
            }),
    {
        let kept = self.state.preload.finish_load(&mut self.state.images, i, primary);
        if kept && !self.shutdown {
            self.image_loaded = true;
            if self.state.position == i {
                self.image_ready = true;
                return true;
            }
        }
        false
    }

    /// Take the next background task together with whether it should
    /// still run: unconditional tasks always run; cursor-scoped tasks run
    /// only if the cursor is still on the captured position and no
    /// shutdown intervened.
    pub fn seq_pop(&mut self) -> (r: Option<(SeqTask, bool)>)
        requires
            old(self).inv(),
        ensures
            final(self).inv(),
            final(self).state == old(self).state,
            spec_same_flags(old(self), final(self)),
            match r {
                Some(pair) => old(self).tasks@.len() > 0 && pair.0 == old(self).tasks@[0] && final(self).tasks@ == old(self).tasks@.drop_first() && pair.1 == (pair.0.always || (!old(self).shutdown && pair.0.current.position == spec_position_1based(&old(self).state))),
                None => old(self).tasks@.len() == 0 && final(self).tasks@ == old(self).tasks@,
            },
    {
        match self.tasks.pop_front() {
            Some(task) => {
                let run = task.always || (!self.shutdown && task.current.position
                    == self.state.position_1based());
                Some((task, run))
            },
            None => None,
        }
    }

    /// After a background task ran: whether the cursor is still on the
    /// captured position, so that the UI must re-snapshot.
    pub fn seq_after(&self, task: &SeqTask) -> (r: bool)
        requires
            self.inv(),
        ensures
            r == (task.current.position == spec_position_1based(&self.state)),
    {
        task.current.position == self.state.position_1based()
    }

    /// Shut down once: abandon preload work, unload every resident image,
    /// and make the remaining operations no-ops. Returns whether this
    /// call performed the shutdown.
    pub fn shutdown(&mut self) -> (r: bool)
        requires
            old(self).inv(),
        ensures
            final(self).inv(),
            r == !old(self).shutdown,
            final(self).shutdown,
            old(self).shutdown ==> *final(self) == *old(self),
            !old(self).shutdown ==> ({
                &&& final(self).tasks == old(self).tasks
                &&& final(self).args == old(self).args
                &&& final(self).start_ready == old(self).start_ready
                &&& final(self).start_finished == old(self).start_finished
                &&& final(self).image_loaded == old(self).image_loaded
                &&& final(self).image_ready == old(self).image_ready
                &&& final(self).state.preload@.capacity == old(self).state.preload@.capacity
                &&& final(self).state.preload@.queue == Seq::<usize>::empty()
                &&& final(self).state.preload@.load == Seq::<usize>::empty()
                &&& final(self).state.preload@.loaded == Seq::<usize>::empty()
                &&& final(self).state.preload@.loading == old(self).state.preload@.loading
                &&& final(self).state.images@.len() == old(self).state.images@.len()
                &&& forall|m: int|
                    0 <= m < old(self).state.images@.len() ==> final(self).state.images@[m]
                        == spec_unloaded(old(self).state.images@[m])
                &&& final(self).state.position == old(self).state.position
            }),
    {
        if self.shutdown {
            return false;
        }
        self.shutdown = true;
        self.state.shutdown();
        true
    }
}

} // verus!
