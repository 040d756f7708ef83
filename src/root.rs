use vstd::prelude::*;

verus! {

/// One of the two roots `t₋ = (h - √D) / a` and `t₊ = (h + √D) / a` of the
/// ray–sphere quadratic, with `a > 0` so that `t₋ ≤ t₊`.
#[derive(PartialEq, Eq, Structural, Clone, Copy, Debug)]
pub enum Root {
    /// `t₋`, the first point where the ray meets the sphere.
    Near,
    /// `t₊`, the second point where the ray meets the sphere.
    Far,
}

/// The outcome of a hit test, given the sign of the discriminant and whether
/// each root lies strictly inside the admissible interval of `t`.
pub open spec fn selected_root(
    discriminant_negative: bool,
    near_inside: bool,
    far_inside: bool,
) -> Option<Root> {
    if discriminant_negative {
        None
    } else if near_inside {
        Some(Root::Near)
    } else if far_inside {
        Some(Root::Far)
    } else {
        None
    }
}

/// Chooses the root that a hit reports.
///
/// A negative discriminant means the ray misses the sphere. Otherwise the
/// near root wins whenever the interval surrounds it, so the closest valid
/// intersection along the ray is reported; the far root is taken only when
/// the near one falls outside; when neither lies inside there is no hit.
pub fn select_root(discriminant_negative: bool, near_inside: bool, far_inside: bool) -> (r: Option<
    Root,
>)
    ensures
        r == selected_root(discriminant_negative, near_inside, far_inside),
        r is Some <==> !discriminant_negative && (near_inside || far_inside),
        r == Some(Root::Near) <==> !discriminant_negative && near_inside,
        r == Some(Root::Far) <==> !discriminant_negative && !near_inside && far_inside,
{
    if discriminant_negative {
        return None;
    }
    if near_inside {
        Some(Root::Near)
    } else if far_inside {
        Some(Root::Far)
    } else {
        None
    }
}

} // verus!
