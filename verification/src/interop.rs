//! Declarations of the `kurbo` types that flow through this crate.
//!
//! Every type below is opaque to the verifier: a value of one of these
//! types can be held and passed along, but nothing is known about its
//! contents.  All reasoning about such values happens through the
//! trusted wrapper functions next to each type of this crate.

use kurbo::Affine as KAffine;
use kurbo::Arc as KArc;
use kurbo::Circle as KCircle;
use kurbo::CircleSegment as KCircleSegment;
use kurbo::ConstPoint as KConstPoint;
use kurbo::CubicBez as KCubicBez;
use kurbo::Ellipse as KEllipse;
use kurbo::Insets as KInsets;
use kurbo::Line as KLine;
use kurbo::LineIntersection as KLineIntersection;
use kurbo::PathEl as KPathEl;
use kurbo::PathSeg as KPathSeg;
use kurbo::Point as KPoint;
use kurbo::QuadBez as KQuadBez;
use kurbo::Rect as KRect;
use kurbo::Size as KSize;
use kurbo::TranslateScale as KTranslateScale;
use kurbo::Vec2 as KVec2;
use vstd::prelude::*;

verus! {

#[verifier::external_type_specification]
#[verifier::external_body]
pub struct ExKPoint(KPoint);

#[verifier::external_type_specification]
#[verifier::external_body]
pub struct ExKVec2(KVec2);

#[verifier::external_type_specification]
#[verifier::external_body]
pub struct ExKSize(KSize);

#[verifier::external_type_specification]
#[verifier::external_body]
pub struct ExKRect(KRect);

#[verifier::external_type_specification]
#[verifier::external_body]
pub struct ExKInsets(KInsets);

#[verifier::external_type_specification]
#[verifier::external_body]
pub struct ExKAffine(KAffine);

#[verifier::external_type_specification]
#[verifier::external_body]
pub struct ExKTranslateScale(KTranslateScale);

#[verifier::external_type_specification]
#[verifier::external_body]
pub struct ExKArc(KArc);

#[verifier::external_type_specification]
#[verifier::external_body]
pub struct ExKCircle(KCircle);

#[verifier::external_type_specification]
#[verifier::external_body]
pub struct ExKCircleSegment(KCircleSegment);

#[verifier::external_type_specification]
#[verifier::external_body]
pub struct ExKEllipse(KEllipse);

#[verifier::external_type_specification]
#[verifier::external_body]
pub struct ExKConstPoint(KConstPoint);

#[verifier::external_type_specification]
#[verifier::external_body]
pub struct ExKLine(KLine);

#[verifier::external_type_specification]
#[verifier::external_body]
pub struct ExKQuadBez(KQuadBez);

#[verifier::external_type_specification]
#[verifier::external_body]
pub struct ExKCubicBez(KCubicBez);

#[verifier::external_type_specification]
#[verifier::external_body]
pub struct ExKPathEl(KPathEl);

#[verifier::external_type_specification]
#[verifier::external_body]
pub struct ExKPathSeg(KPathSeg);

#[verifier::external_type_specification]
#[verifier::external_body]
pub struct ExKLineIntersection(KLineIntersection);

} // verus!
