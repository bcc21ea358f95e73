//! Image-format support search.
//!
//! A candidate format qualifies when the features the device reports for
//! it under the requested tiling contain every requested feature bit; the
//! first qualifying candidate wins.  The per-format feature queries run at
//! the application edge and arrive here as plain values.

use vstd::prelude::*;

verus! {

/// Identifier of the 32-bit signed-float depth format.
pub const FORMAT_D32_SFLOAT: u32 = 126;
/// Identifier of the combined 24-bit depth / 8-bit stencil format.
pub const FORMAT_D24_UNORM_S8_UINT: u32 = 129;
/// Identifier of the combined 32-bit float depth / 8-bit stencil format.
pub const FORMAT_D32_SFLOAT_S8_UINT: u32 = 130;

/// Format-feature bit: usable as a depth/stencil attachment.
pub const FEATURE_DEPTH_STENCIL_ATTACHMENT: u32 = 0x200;

/// How the image's texels are laid out in memory.
#[derive(Clone, Copy, Debug, PartialEq, Eq, Structural)]
pub enum ImageTiling {
    Linear,
    Optimal,
}

/// The feature masks the device reports for one format.
#[derive(Clone, Copy, Debug, PartialEq, Eq, Structural)]
pub struct FormatProperties {
    pub linear_tiling_features: u32,
    pub optimal_tiling_features: u32,
}

/// One format under consideration, with its queried properties.
#[derive(Clone, Copy, Debug, PartialEq, Eq, Structural)]
pub struct FormatCandidate {
    pub format: u32,
    pub properties: FormatProperties,
}

/// The feature mask that applies under the given tiling.
pub open spec fn features_under_tiling(p: FormatProperties, tiling: ImageTiling) -> u32 {
    match tiling {
        ImageTiling::Linear => p.linear_tiling_features,
        ImageTiling::Optimal => p.optimal_tiling_features,
    }
}

/// The candidate qualifies: its features under the tiling contain every
/// requested feature bit.
pub open spec fn candidate_supported(
    c: FormatCandidate,
    tiling: ImageTiling,
    features: u32,
) -> bool {
    features_under_tiling(c.properties, tiling) & features == features
}

/// Selects the first candidate format whose reported features under the
/// requested tiling contain all requested feature bits; `None` exactly
/// when no candidate qualifies.
pub fn find_supported_format(
    candidates: &Vec<FormatCandidate>,
    tiling: ImageTiling,
    features: u32,
) -> (r: Option<u32>)
    ensures
        r is Some <==> exists|i: int| 0 <= i < candidates@.len()
            && candidate_supported(candidates@[i], tiling, features),
        match r {
            Some(f) => exists|i: int| {
                &&& 0 <= i < candidates@.len()
                &&& candidate_supported(candidates@[i], tiling, features)
                &&& candidates@[i].format == f
                &&& forall|j: int| 0 <= j < i
                    ==> !candidate_supported(candidates@[j], tiling, features)
            },
            None => forall|i: int| 0 <= i < candidates@.len()
                ==> !candidate_supported(candidates@[i], tiling, features),
        },
{
    let n: usize = candidates.len();
    let mut i: usize = 0;
    while i < n
        invariant
            0 <= i <= n,
            n == candidates@.len(),
            forall|j: int| 0 <= j < i ==> !candidate_supported(candidates@[j], tiling, features),
        decreases n - i,
    {
        let c = candidates[i];
        let mask = match tiling {
            ImageTiling::Linear => c.properties.linear_tiling_features,
            ImageTiling::Optimal => c.properties.optimal_tiling_features,
        };
        if mask & features == features {
            assert(candidate_supported(candidates@[i as int], tiling, features));
            return Some(c.format);
        }
        i = i + 1;
    }
    None
}

/// The fixed depth-format candidate list, most precise format first,
/// paired with the properties queried for each.
pub open spec fn depth_candidates(props: Seq<FormatProperties>) -> Seq<FormatCandidate>
    recommends
        props.len() == 3,
{
    seq![
        FormatCandidate { format: FORMAT_D32_SFLOAT, properties: props[0] },
        FormatCandidate { format: FORMAT_D32_SFLOAT_S8_UINT, properties: props[1] },
        FormatCandidate { format: FORMAT_D24_UNORM_S8_UINT, properties: props[2] },
    ]
}

/// Selects the depth-attachment format: the first of the three fixed
/// depth candidates that supports depth/stencil attachment under optimal
/// tiling, given the properties queried for them in that order; `None`
/// exactly when none qualifies.
pub fn find_depth_format(depth_format_properties: &Vec<FormatProperties>) -> (r: Option<u32>)
    requires
        depth_format_properties@.len() == 3,
    ensures
        r is Some <==> exists|i: int| 0 <= i < 3 && candidate_supported(
            depth_candidates(depth_format_properties@)[i],
            ImageTiling::Optimal,
            FEATURE_DEPTH_STENCIL_ATTACHMENT,
        ),
        match r {
            Some(f) => exists|i: int| {
                &&& 0 <= i < 3
                &&& candidate_supported(
                    depth_candidates(depth_format_properties@)[i],
                    ImageTiling::Optimal,
                    FEATURE_DEPTH_STENCIL_ATTACHMENT,
                )
                &&& depth_candidates(depth_format_properties@)[i].format == f
                &&& forall|j: int| 0 <= j < i ==> !candidate_supported(
                    depth_candidates(depth_format_properties@)[j],
                    ImageTiling::Optimal,
                    FEATURE_DEPTH_STENCIL_ATTACHMENT,
                )
            },
            None => forall|i: int| 0 <= i < 3 ==> !candidate_supported(
                depth_candidates(depth_format_properties@)[i],
                ImageTiling::Optimal,
                FEATURE_DEPTH_STENCIL_ATTACHMENT,
            ),
        },
{
    let mut candidates: Vec<FormatCandidate> = Vec::new();
    candidates.push(FormatCandidate {
        format: FORMAT_D32_SFLOAT,
        properties: depth_format_properties[0],
    });
    candidates.push(FormatCandidate {
        format: FORMAT_D32_SFLOAT_S8_UINT,
        properties: depth_format_properties[1],
    });
    candidates.push(FormatCandidate {
        format: FORMAT_D24_UNORM_S8_UINT,
        properties: depth_format_properties[2],
    });
    proof {
        assert(candidates@ =~= depth_candidates(depth_format_properties@));
    }
    find_supported_format(&candidates, ImageTiling::Optimal, FEATURE_DEPTH_STENCIL_ATTACHMENT)
}

/// True exactly for the two formats that carry a stencil aspect.
pub fn has_stencil_component(format: u32) -> (r: bool)
    ensures
        r == (format == FORMAT_D32_SFLOAT_S8_UINT || format == FORMAT_D24_UNORM_S8_UINT),
{
    format == FORMAT_D32_SFLOAT_S8_UINT || format == FORMAT_D24_UNORM_S8_UINT
}

} // verus!
