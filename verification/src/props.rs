//! Geometry of a stream on the output canvas, and the chain of texture
//! transformations that reshapes it.
//!
//! A transformation both alters visual content (its pixel kernel is a
//! collaborator outside this crate) and may change the logical placement and
//! size used to lay out subsequent stages, so a chain of transformations must
//! be applied in declaration order, each step consuming the previous step's
//! output properties.

use vstd::prelude::*;

verus! {

/// A pair of pixel coordinates or pixel extents.
#[derive(Debug, Clone, Copy, PartialEq, Eq, Structural)]
pub struct Vec2d {
    pub x: u32,
    pub y: u32,
}

/// Depth values are normalized to the closed interval from 0 to 1 and stored
/// in thousandths, so this is the largest meaningful depth.
pub const DEPTH_MAX: u32 = 1000;

/// Scaling factors of a transformation are fractions stored in thousandths of
/// the whole, so this denominator is also the largest meaningful factor.
pub const SCALE_FULL: u32 = 1000;

/// Target rectangle and depth of one stream in output-frame pixel space.
#[derive(Debug, Clone, Copy, PartialEq, Eq, Structural)]
pub struct VideoPlacement {
    /// Top-left corner, in pixels of the output frame.
    pub position: Vec2d,
    /// Extent of the rectangle, in pixels of the output frame.
    pub size: Vec2d,
    /// Depth used to order overlapping streams, in thousandths of the
    /// normalized range from 0 (front) to 1 (back); at most [`DEPTH_MAX`].
    pub z: u32,
}

/// A stream's decode resolution together with its current on-canvas placement.
#[derive(Debug, Clone, Copy, PartialEq, Eq, Structural)]
pub struct VideoProperties {
    /// Resolution the stream is decoded at, in pixels.
    pub resolution: Vec2d,
    /// Where and how large the stream is drawn on the output canvas.
    pub placement: VideoPlacement,
}

/// A named texture transformation together with its parameters. Applying one
/// to [`VideoProperties`] yields the properties seen by the next stage.
#[derive(Debug, Clone, Copy, PartialEq, Eq, Structural)]
pub enum TransformationUniform {
    /// Rounds the corners of the video; purely visual, so the logical
    /// placement and resolution pass through unchanged.
    CornersRounding { border_radius: u32 },
    /// Keeps only a central cut of the video: the effective resolution and
    /// placement size shrink to the given fractions (in thousandths) of
    /// their incoming values.
    Cropping { width_scale: u32, height_scale: u32 },
}

/// Scales `v` by `m` thousandths, rounding down.
pub open spec fn spec_scale(v: u32, m: u32) -> u32
    recommends
        m <= SCALE_FULL,
{
    ((v * m) / (SCALE_FULL as int)) as u32
}

impl TransformationUniform {
    /// A transformation is meaningful only when its fractions do not exceed
    /// the whole.
    pub open spec fn valid(self) -> bool {
        match self {
            TransformationUniform::CornersRounding { .. } => true,
            TransformationUniform::Cropping { width_scale, height_scale } => {
                width_scale <= SCALE_FULL && height_scale <= SCALE_FULL
            },
        }
    }

    /// The properties handed to the stage after this transformation.
    pub open spec fn spec_update(self, p: VideoProperties) -> VideoProperties {
        match self {
            TransformationUniform::CornersRounding { .. } => p,
            TransformationUniform::Cropping { width_scale, height_scale } => VideoProperties {
                resolution: Vec2d {
                    x: spec_scale(p.resolution.x, width_scale),
                    y: spec_scale(p.resolution.y, height_scale),
                },
                placement: VideoPlacement {
                    position: p.placement.position,
                    size: Vec2d {
                        x: spec_scale(p.placement.size.x, width_scale),
                        y: spec_scale(p.placement.size.y, height_scale),
                    },
                    z: p.placement.z,
                },
            },
        }
    }

    /// Applies this transformation to the incoming properties, yielding the
    /// properties used to lay out the next stage.
    pub fn update_video_properties(&self, properties: VideoProperties) -> (r: VideoProperties)
        requires
            self.valid(),
        ensures
            r == self.spec_update(properties),
    {
        match self {
            TransformationUniform::CornersRounding { .. } => properties,
            TransformationUniform::Cropping { width_scale, height_scale } => {
                VideoProperties {
                    resolution: Vec2d {
                        x: scale(properties.resolution.x, *width_scale),
                        y: scale(properties.resolution.y, *height_scale),
                    },
                    placement: VideoPlacement {
                        position: properties.placement.position,
                        size: Vec2d {
                            x: scale(properties.placement.size.x, *width_scale),
                            y: scale(properties.placement.size.y, *height_scale),
                        },
                        z: properties.placement.z,
                    },
                }
            },
        }
    }
}

/// Scales `v` by `m` thousandths, rounding down.
fn scale(v: u32, m: u32) -> (r: u32)
    requires
        m <= SCALE_FULL,
    ensures
        r == spec_scale(v, m),
{
    assert((v as int) * (m as int) <= 0xffff_ffff * 0xffff_ffff) by (nonlinear_arith)
        requires
            v <= 0xffff_ffffu32,
            m <= 0xffff_ffffu32,
    ;
    let wide: u64 = (v as u64) * (m as u64);
    let scaled: u64 = wide / (SCALE_FULL as u64);
    assert(scaled <= v) by (nonlinear_arith)
        requires
            m <= SCALE_FULL,
            wide == v * m,
            scaled == wide as int / (SCALE_FULL as int),
    ;
    scaled as u32
}

/// Whether every transformation of the chain is meaningful.
pub open spec fn chain_valid(ts: Seq<TransformationUniform>) -> bool {
    forall|i: int| 0 <= i < ts.len() ==> #[trigger] ts[i].valid()
}

/// The properties produced by applying the whole chain in declaration order:
/// each step consumes the previous step's output.
pub open spec fn spec_apply_chain(ts: Seq<TransformationUniform>, p: VideoProperties) -> VideoProperties
    decreases ts.len(),
{
    if ts.len() == 0 {
        p
    } else {
        spec_apply_chain(ts.skip(1), ts[0].spec_update(p))
    }
}

/// Applying a concatenated chain is the same as applying its first part and
/// feeding the result to its second part: chains compose sequentially, in
/// order, with no step skipped or reordered.
pub proof fn lemma_apply_chain_concat(
    ts1: Seq<TransformationUniform>,
    ts2: Seq<TransformationUniform>,
    p: VideoProperties,
)
    ensures
        spec_apply_chain(ts1 + ts2, p) == spec_apply_chain(ts2, spec_apply_chain(ts1, p)),
    decreases ts1.len(),
{
    if ts1.len() == 0 {
        assert(ts1 + ts2 =~= ts2);
    } else {
        assert((ts1 + ts2).skip(1) =~= ts1.skip(1) + ts2);
        lemma_apply_chain_concat(ts1.skip(1), ts2, ts1[0].spec_update(p));
    }
}

/// Folds the chain over `properties` in declaration order and returns the
/// final properties, used for the layout of everything drawn after the chain.
pub fn apply_chain(ts: &Vec<TransformationUniform>, properties: VideoProperties) -> (r:
    VideoProperties)
    requires
        chain_valid(ts@),
    ensures
        r == spec_apply_chain(ts@, properties),
{
    let mut acc: VideoProperties = properties;
    let mut i: usize = 0;
    assert(ts@.skip(0) =~= ts@);
    while i < ts.len()
        invariant
            0 <= i <= ts.len(),
            chain_valid(ts@),
            spec_apply_chain(ts@, properties) == spec_apply_chain(ts@.skip(i as int), acc),
        decreases ts.len() - i,
    {
        assert(ts@.skip(i as int)[0] == ts@[i as int]);
        assert(ts@.skip(i as int).skip(1) =~= ts@.skip(i as int + 1));
        acc = ts[i].update_video_properties(acc);
        i = i + 1;
    }
    assert(ts@.skip(ts@.len() as int) =~= Seq::<TransformationUniform>::empty());
    acc
}

} // verus!
