//! The transform request: the enabled operations in their one fixed order,
//! and the pipeline that runs them over an image.

use crate::picture::{picture_of, Picture};
use crate::transform::{
    brighten, brightened, crop, cropped, grayscale, grayscaled, invert, inverted, rotate, turned,
    CropRect, Rotation, Transform,
};
use vstd::prelude::*;

verus! {

/// The place of a transform in the fixed order: blur, brighten, crop,
/// rotate, invert, grayscale.
pub open spec fn rank(t: Transform) -> nat {
    match t {
        Transform::Blur(_) => 0,
        Transform::Brighten(_) => 1,
        Transform::Crop(_) => 2,
        Transform::Rotate(_) => 3,
        Transform::Invert => 4,
        Transform::Grayscale => 5,
    }
}

/// Whether a list of transforms follows the fixed order, each kind at most
/// once.
pub open spec fn is_canonical(ops: Seq<Transform>) -> bool {
    forall|i: int, j: int| 0 <= i < j < ops.len() ==> rank(#[trigger] ops[i]) < rank(#[trigger] ops[j])
}

/// The list with one transform, or the empty list.
pub open spec fn one_if(enabled: bool, t: Transform) -> Seq<Transform> {
    if enabled {
        seq![t]
    } else {
        Seq::empty()
    }
}

/// The transforms that a set of flags enables, in the fixed order.
pub open spec fn canonical_ops(
    blur: Option<u32>,
    brighten: Option<i32>,
    crop: Option<CropRect>,
    rotate: Option<Rotation>,
    invert: bool,
    grayscale: bool,
) -> Seq<Transform> {
    one_if(blur is Some, Transform::Blur(blur.unwrap()))
        + one_if(brighten is Some, Transform::Brighten(brighten.unwrap()))
        + one_if(crop is Some, Transform::Crop(crop.unwrap()))
        + one_if(rotate is Some, Transform::Rotate(rotate.unwrap()))
        + one_if(invert, Transform::Invert)
        + one_if(grayscale, Transform::Grayscale)
}

/// The blur amount that a list of transforms asks for, if any.
pub open spec fn blur_of(ops: Seq<Transform>) -> Option<u32> {
    if ops.len() > 0 && ops[0] is Blur {
        Some(ops[0]->Blur_0)
    } else {
        None
    }
}

/// The transforms of a list that follow its blur.
pub open spec fn after_blur(ops: Seq<Transform>) -> Seq<Transform> {
    if ops.len() > 0 && ops[0] is Blur {
        ops.skip(1)
    } else {
        ops
    }
}

/// The picture after one transform; none where a turn cannot be allocated.
/// A blur is computed in floating point, outside this library: its result
/// is left unspecified.
pub open spec fn transformed(p: Picture, t: Transform) -> Option<Picture> {
    match t {
        Transform::Blur(_) => arbitrary(),
        Transform::Brighten(amount) => Some(brightened(p, amount as int)),
        Transform::Crop(rect) => Some(
            cropped(p, rect.x as int, rect.y as int, rect.width as int, rect.height as int),
        ),
        Transform::Rotate(rotation) => turned(p, rotation),
        Transform::Invert => Some(inverted(p)),
        Transform::Grayscale => Some(grayscaled(p)),
    }
}

/// The picture after a list of transforms, applied first to last; none as
/// soon as one of them has none.
pub open spec fn run(ops: Seq<Transform>, p: Picture) -> Option<Picture>
    decreases ops.len(),
{
    if ops.len() == 0 {
        Some(p)
    } else {
        match run(ops.drop_last(), p) {
            Some(q) => transformed(q, ops.last()),
            None => None,
        }
    }
}

/// Once a list of transforms has no picture, no longer list has one.
pub proof fn lemma_run_stays_stopped(ops: Seq<Transform>, k: int, p: Picture)
    requires
        0 <= k <= ops.len(),
        run(ops.take(k), p) is None,
    ensures
        run(ops, p) is None,
    decreases ops.len() - k,
{
    if k == ops.len() {
        assert(ops.take(k) =~= ops);
    } else {
        assert(ops.take(k + 1).drop_last() =~= ops.take(k));
        lemma_run_stays_stopped(ops, k + 1, p);
    }
}

/// The enabled transforms of one invocation, held in the fixed order.
#[derive(Debug, PartialEq, Eq)]
pub struct TransformRequest {
    ops: Vec<Transform>,
}

impl View for TransformRequest {
    type V = Seq<Transform>;

    closed spec fn view(&self) -> Seq<Transform> {
        self.ops@
    }
}

impl TransformRequest {
    #[verifier::type_invariant]
    spec fn ordered(self) -> bool {
        is_canonical(self.ops@)
    }

    /// The request that the given flags make.
    pub fn new(
        blur: Option<u32>,
        brighten: Option<i32>,
        crop: Option<CropRect>,
        rotate: Option<Rotation>,
        invert: bool,
        grayscale: bool,
    ) -> (request: TransformRequest)
        ensures
            request@ == canonical_ops(blur, brighten, crop, rotate, invert, grayscale),
            is_canonical(request@),
    {
        let mut ops: Vec<Transform> = Vec::new();
        if let Some(amount) = blur {
            ops.push(Transform::Blur(amount));
        }
        if let Some(amount) = brighten {
            ops.push(Transform::Brighten(amount));
        }
        if let Some(rect) = crop {
            ops.push(Transform::Crop(rect));
        }
        if let Some(rotation) = rotate {
            ops.push(Transform::Rotate(rotation));
        }
        if invert {
            ops.push(Transform::Invert);
        }
        if grayscale {
            ops.push(Transform::Grayscale);
        }
        proof {
            lemma_canonical_ops_ordered(blur, brighten, crop, rotate, invert, grayscale);
            assert(ops@ =~= canonical_ops(blur, brighten, crop, rotate, invert, grayscale));
        }
        TransformRequest { ops }
    }

    /// How many transforms are enabled.
    pub fn len(&self) -> (n: usize)
        ensures
            n == self@.len(),
    {
        self.ops.len()
    }

    /// The transform at a position of the fixed order; `None` past the end.
    pub fn get(&self, index: usize) -> (t: Option<Transform>)
        ensures
            index < self@.len() ==> t == Some(self@[index as int]),
            index >= self@.len() ==> t is None,
    {
        if index < self.ops.len() {
            Some(self.ops[index])
        } else {
            None
        }
    }

    /// The blur amount that the request asks for, if any. Blurring is the
    /// caller's part; it comes before everything else.
    pub fn blur_amount(&self) -> (amount: Option<u32>)
        ensures
            amount == blur_of(self@),
    {
        if self.ops.len() > 0 {
            match self.ops[0] {
                Transform::Blur(amount) => Some(amount),
                _ => None,
            }
        } else {
            None
        }
    }

    /// Runs every transform of the request that follows the blur over the
    /// image, in the fixed order. The image handed in is the one that the
    /// blur, if the request has one, was already applied to. Returns `None`
    /// exactly when a quarter or three-quarter turn is reached that cannot
    /// be allocated.
    pub fn apply_after_blur(&self, img: image::DynamicImage) -> (out: Option<image::DynamicImage>)
        ensures
            is_canonical(self@),
            match run(after_blur(self@), picture_of(img)) {
                Some(p) => out matches Some(done) && picture_of(done) == p,
                None => out is None,
            },
    {
        proof {
            use_type_invariant(self);
        }
        let start: usize = if self.blur_amount().is_some() {
            1
        } else {
            0
        };
        let ghost rest = after_blur(self@);
        let ghost first = picture_of(img);
        let mut current = img;
        let mut i: usize = start;
        assert(rest.take(0) =~= Seq::<Transform>::empty());
        while i < self.ops.len()
            invariant
                start <= i <= self.ops@.len(),
                start == self@.len() - rest.len(),
                rest == self@.skip(start as int),
                start == 0 ==> blur_of(self@) is None,
                is_canonical(self@),
                rest == after_blur(self@),
                first == picture_of(img),
                run(rest.take(i - start), first) == Some(picture_of(current)),
            decreases self.ops@.len() - i,
        {
            let op = self.ops[i];
            let ghost before = picture_of(current);
            proof {
                let done = rest.take(i - start);
                let next = rest.take(i - start + 1);
                assert(next.drop_last() =~= done);
                assert(next.last() == op);
                assert(!(op is Blur)) by {
                    if op is Blur {
                        if i > 0 {
                            assert(rank(self@[0]) < rank(self@[i as int]));
                        }
                    }
                }
            }
            current = match op {
                // A blur stands first or nowhere: none is met here.
                Transform::Blur(_) => current,
                Transform::Brighten(amount) => brighten(current, amount),
                Transform::Crop(rect) => crop(current, rect),
                Transform::Rotate(rotation) => {
                    proof {
                        rotation.lemma_degrees_round_trip();
                    }
                    match rotate(current, rotation.degrees()) {
                        Some(turned) => turned,
                        None => {
                            proof {
                                let next = rest.take(i - start + 1);
                                assert(next.drop_last() =~= rest.take(i - start));
                                assert(next.last() == op);
                                assert(run(next, first) == turned(before, rotation));
                                lemma_run_stays_stopped(rest, i - start + 1, first);
                            }
                            return None;
                        },
                    }
                },
                Transform::Invert => invert(current),
                Transform::Grayscale => grayscale(current),
            };
            i = i + 1;
        }
        assert(rest.take(rest.len() as int) =~= rest);
        Some(current)
    }
}

/// The transforms that flags enable follow the fixed order.
pub proof fn lemma_canonical_ops_ordered(
    blur: Option<u32>,
    brighten: Option<i32>,
    crop: Option<CropRect>,
    rotate: Option<Rotation>,
    invert: bool,
    grayscale: bool,
)
    ensures
        is_canonical(canonical_ops(blur, brighten, crop, rotate, invert, grayscale)),
{
    let b = one_if(blur is Some, Transform::Blur(blur.unwrap()));
    let br = one_if(brighten is Some, Transform::Brighten(brighten.unwrap()));
    let c = one_if(crop is Some, Transform::Crop(crop.unwrap()));
    let r = one_if(rotate is Some, Transform::Rotate(rotate.unwrap()));
    let v = one_if(invert, Transform::Invert);
    let g = one_if(grayscale, Transform::Grayscale);
    lemma_append_ranked(Seq::empty(), b, 0);
    assert(Seq::<Transform>::empty() + b =~= b);
    lemma_append_ranked(b, br, 1);
    lemma_append_ranked(b + br, c, 2);
    lemma_append_ranked(b + br + c, r, 3);
    lemma_append_ranked(b + br + c + r, v, 4);
    lemma_append_ranked(b + br + c + r + v, g, 5);
}

/// Whether a list is canonical and all its ranks lie below a bound.
pub open spec fn ranked_below(ops: Seq<Transform>, bound: nat) -> bool {
    is_canonical(ops) && forall|i: int| 0 <= i < ops.len() ==> rank(#[trigger] ops[i]) < bound
}

/// Appending at most one transform of rank `r` to a canonical list whose
/// ranks lie below `r` gives a canonical list whose ranks lie below `r + 1`.
pub proof fn lemma_append_ranked(ops: Seq<Transform>, tail: Seq<Transform>, r: nat)
    requires
        ranked_below(ops, r),
        tail.len() <= 1,
        tail.len() == 1 ==> rank(tail[0]) == r,
    ensures
        ranked_below(ops + tail, r + 1),
{
    let all = ops + tail;
    assert forall|i: int, j: int| 0 <= i < j < all.len() implies rank(#[trigger] all[i]) < rank(
        #[trigger] all[j],
    ) by {
        if j < ops.len() {
            assert(all[i] == ops[i] && all[j] == ops[j]);
        } else {
            assert(all[i] == ops[i]);
            assert(all[j] == tail[0]);
        }
    }
    assert forall|i: int| 0 <= i < all.len() implies rank(#[trigger] all[i]) < r + 1 by {
        if i < ops.len() {
            assert(all[i] == ops[i]);
        } else {
            assert(all[i] == tail[0]);
        }
    }
}

/// In the fixed order a crop comes before a rotation, wherever the two
/// stand in a request.
pub proof fn lemma_crop_precedes_rotate(ops: Seq<Transform>, i: int, j: int)
    requires
        is_canonical(ops),
        0 <= i < ops.len(),
        0 <= j < ops.len(),
        ops[i] is Crop,
        ops[j] is Rotate,
    ensures
        i < j,
{
    if j < i {
        assert(rank(ops[j]) < rank(ops[i]));
    }
}

/// A request with a crop and a rotation, and nothing else, rotates the
/// cropped picture: the crop is applied first.
pub proof fn lemma_crop_then_rotate(rect: CropRect, rotation: Rotation, p: Picture)
    ensures
        canonical_ops(None, None, Some(rect), Some(rotation), false, false) == seq![
            Transform::Crop(rect),
            Transform::Rotate(rotation),
        ],
        run(canonical_ops(None, None, Some(rect), Some(rotation), false, false), p) == turned(
            cropped(p, rect.x as int, rect.y as int, rect.width as int, rect.height as int),
            rotation,
        ),
{
    let ops = canonical_ops(None, None, Some(rect), Some(rotation), false, false);
    let pair = seq![Transform::Crop(rect), Transform::Rotate(rotation)];
    assert(ops =~= pair);
    assert(pair.drop_last() =~= seq![Transform::Crop(rect)]);
    assert(pair.drop_last().drop_last() =~= Seq::<Transform>::empty());
    reveal_with_fuel(run, 3);
}

} // verus!
