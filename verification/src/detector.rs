//! The detection pipeline: scores, raw candidates of the inference engine,
//! and the thresholds that turn candidates into accepted detections and
//! accepted detections into significant ones.
//!
//! Scores are carried as the bit patterns of IEEE 754 single-precision
//! numbers. The pipeline only ever compares scores, and on bit patterns a
//! comparison is exact integer arithmetic.

use vstd::prelude::*;
use crate::error::DetectionError;
use crate::text::{lines, split_lines};

verus! {

/// Bit pattern of positive infinity; larger magnitudes are not numbers.
pub const INFINITY_BITS: u32 = 0x7F80_0000;

/// The sign bit.
pub const SIGN_BIT: u32 = 0x8000_0000;

/// Bit pattern of 1.
pub const ONE_BITS: u32 = 0x3F80_0000;

/// A score: an IEEE 754 single-precision number, held as its bit pattern.
#[derive(Debug, Clone, Copy, PartialEq, Eq, Structural)]
pub struct Score {
    pub bits: u32,
}

impl Score {
    /// The bit pattern without the sign bit.
    pub open spec fn magnitude(self) -> int {
        if self.bits >= SIGN_BIT {
            self.bits - SIGN_BIT
        } else {
            self.bits as int
        }
    }

    /// Whether the pattern stands for no number.
    pub open spec fn is_nan(self) -> bool {
        self.magnitude() > INFINITY_BITS
    }

    /// The place of a number in the order of all numbers: numbers compare
    /// as their ranks do. Both zeros have rank 0.
    pub open spec fn rank(self) -> int {
        if self.bits >= SIGN_BIT {
            -self.magnitude()
        } else {
            self.magnitude()
        }
    }

    /// `self > other` as IEEE 754 defines it: false where either is not a
    /// number.
    pub open spec fn above(self, other: Score) -> bool {
        !self.is_nan() && !other.is_nan() && self.rank() > other.rank()
    }

    /// The score restricted to the range from 0 to 1: what is no number
    /// stays, what lies below 0 becomes 0, what lies above 1 becomes 1.
    pub open spec fn clamped(self) -> Score {
        if self.is_nan() {
            self
        } else if self.rank() < 0 {
            Score { bits: 0 }
        } else if self.rank() > ONE_BITS {
            Score { bits: ONE_BITS }
        } else {
            self
        }
    }

    /// The score with the given bit pattern.
    pub fn from_bits(bits: u32) -> (r: Score)
        ensures
            r.bits == bits,
    {
        Score { bits }
    }

    /// The bit pattern of the score.
    pub fn to_bits(self) -> (r: u32)
        ensures
            r == self.bits,
    {
        self.bits
    }

    /// Whether the score is no number.
    pub fn not_a_number(self) -> (r: bool)
        ensures
            r == self.is_nan(),
    {
        if self.bits >= SIGN_BIT {
            self.bits - SIGN_BIT > INFINITY_BITS
        } else {
            self.bits > INFINITY_BITS
        }
    }

    /// Whether the score is strictly greater than `threshold`.
    pub fn exceeds(self, threshold: Score) -> (r: bool)
        ensures
            r == self.above(threshold),
    {
        if self.not_a_number() || threshold.not_a_number() {
            return false;
        }
        let own_negative = self.bits >= SIGN_BIT;
        let other_negative = threshold.bits >= SIGN_BIT;
        if own_negative {
            // A negative number exceeds only negative numbers of larger
            // magnitude.
            other_negative && self.bits < threshold.bits
        } else if other_negative {
            // A number that is not negative exceeds every negative number
            // but negative zero, which equals zero.
            self.bits > 0 || threshold.bits > SIGN_BIT
        } else {
            self.bits > threshold.bits
        }
    }

    /// The score restricted to the range from 0 to 1.
    pub fn clamp_unit(self) -> (r: Score)
        ensures
            r == self.clamped(),
    {
        if self.not_a_number() {
            self
        } else if self.bits > SIGN_BIT {
            Score { bits: 0 }
        } else if self.bits < SIGN_BIT && self.bits > ONE_BITS {
            Score { bits: ONE_BITS }
        } else {
            self
        }
    }
}

/// Clamping law. A number restricted to the range from 0 to 1 lies in that
/// range, and restricting it again changes nothing.
pub proof fn lemma_clamped_in_range(s: Score)
    ensures
        !s.is_nan() ==> !s.clamped().is_nan() && 0 <= s.clamped().rank() <= ONE_BITS,
        s.is_nan() ==> s.clamped() == s,
        s.clamped().clamped() == s.clamped(),
{
}

/// Order law. No score exceeds itself, and exceeding carries over: what
/// exceeds a score exceeds all that the score exceeds.
pub proof fn lemma_above_is_an_order(a: Score, b: Score, c: Score)
    ensures
        !a.above(a),
        a.above(b) && b.above(c) ==> a.above(c),
        a.above(b) ==> !b.above(a),
{
}

/// A bounding box in coordinates relative to the image: the centre, the
/// width and the height.
#[derive(Debug, Clone, Copy, PartialEq, Eq, Structural)]
pub struct BBox {
    pub x: Score,
    pub y: Score,
    pub w: Score,
    pub h: Score,
}

/// A class and the probability that the engine gives it.
#[derive(Debug, Clone, Copy, PartialEq, Eq, Structural)]
pub struct ClassScore {
    /// Index of the class in the list of labels.
    pub index: usize,
    /// Probability of the class.
    pub probability: Score,
}

/// A raw candidate of the inference engine.
#[derive(Debug, Clone, Copy, PartialEq, Eq, Structural)]
pub struct Candidate {
    /// How sure the engine is that the box holds any object at all.
    pub objectness: Score,
    /// The most probable class, if any class has a probability.
    pub best_class: Option<ClassScore>,
    /// Where the candidate lies.
    pub bbox: BBox,
}

/// An accepted detection.
#[derive(Debug, Clone, PartialEq, Eq)]
pub struct Detection {
    /// The label of the detected class.
    pub label: String,
    /// The probability of that class.
    pub confidence: Score,
    /// Where the detection lies.
    pub bbox: BBox,
}

/// Mathematical value of a [`Detection`].
pub struct DetectionView {
    pub label: Seq<char>,
    pub confidence: Score,
    pub bbox: BBox,
}

impl View for Detection {
    type V = DetectionView;

    open spec fn view(&self) -> DetectionView {
        DetectionView { label: self.label@, confidence: self.confidence, bbox: self.bbox }
    }
}

impl DeepView for Detection {
    type V = DetectionView;

    open spec fn deep_view(&self) -> DetectionView {
        self@
    }
}

impl Detection {
    /// A detection with the given label, confidence and place.
    pub fn new(label: String, confidence: Score, bbox: BBox) -> (r: Detection)
        ensures
            r@ == (DetectionView { label: label@, confidence, bbox }),
    {
        Detection { label, confidence, bbox }
    }

    /// Horizontal centre of the bounding box.
    pub fn center_x(&self) -> (r: Score)
        ensures
            r == self@.bbox.x,
    {
        self.bbox.x
    }

    /// Vertical centre of the bounding box.
    pub fn center_y(&self) -> (r: Score)
        ensures
            r == self@.bbox.y,
    {
        self.bbox.y
    }

    /// Width of the bounding box.
    pub fn width(&self) -> (r: Score)
        ensures
            r == self@.bbox.w,
    {
        self.bbox.w
    }

    /// Height of the bounding box.
    pub fn height(&self) -> (r: Score)
        ensures
            r == self@.bbox.h,
    {
        self.bbox.h
    }

    /// The confidence in percent: its hundredfold, rounded to the nearest
    /// score.
    pub fn confidence_percent(&self) -> (r: Score)
        ensures
            !self@.confidence.is_nan() ==> r == self@.confidence.hundredfold(),
            self@.confidence.is_nan() ==> r.is_nan(),
    {
        self.confidence.times_hundred()
    }

    /// Whether the confidence is strictly greater than `threshold`.
    pub fn exceeds_threshold(&self, threshold: Score) -> (r: bool)
        ensures
            r == self@.confidence.above(threshold),
    {
        self.confidence.exceeds(threshold)
    }

    /// A copy of this detection.
    pub fn duplicate(&self) -> (r: Detection)
        ensures
            r@ == self@,
    {
        Detection { label: self.label.clone(), confidence: self.confidence, bbox: self.bbox }
    }
}

/// The label of class `index`: its entry in `labels`, or "unknown" where
/// the list has none.
pub open spec fn label_of(labels: Seq<Seq<char>>, index: int) -> Seq<char> {
    if 0 <= index < labels.len() {
        labels[index]
    } else {
        "unknown"@
    }
}

/// Whether a candidate passes both thresholds: its objectness exceeds the
/// first and the probability of its best class exceeds the second.
pub open spec fn accepts(objectness_threshold: Score, class_threshold: Score, c: Candidate) -> bool {
    &&& c.objectness.above(objectness_threshold)
    &&& c.best_class matches Some(best)
    &&& best.probability.above(class_threshold)
}

/// The detection that an accepted candidate becomes.
pub open spec fn detection_of(labels: Seq<Seq<char>>, c: Candidate) -> DetectionView {
    DetectionView {
        label: label_of(labels, c.best_class->0.index as int),
        confidence: c.best_class->0.probability,
        bbox: c.bbox,
    }
}

/// The accepted detections among `candidates`, in their order.
pub open spec fn accepted_detections(
    labels: Seq<Seq<char>>,
    objectness_threshold: Score,
    class_threshold: Score,
    candidates: Seq<Candidate>,
) -> Seq<DetectionView>
    decreases candidates.len(),
{
    if candidates.len() == 0 {
        Seq::empty()
    } else {
        let earlier = accepted_detections(
            labels,
            objectness_threshold,
            class_threshold,
            candidates.drop_last(),
        );
        if accepts(objectness_threshold, class_threshold, candidates.last()) {
            earlier.push(detection_of(labels, candidates.last()))
        } else {
            earlier
        }
    }
}

/// The detections among `detections` whose confidence exceeds `threshold`,
/// in their order.
pub open spec fn significant(detections: Seq<DetectionView>, threshold: Score) -> Seq<
    DetectionView,
>
    decreases detections.len(),
{
    if detections.len() == 0 {
        Seq::empty()
    } else {
        let earlier = significant(detections.drop_last(), threshold);
        if detections.last().confidence.above(threshold) {
            earlier.push(detections.last())
        } else {
            earlier
        }
    }
}

/// Picks the detections that are escalated: those whose confidence exceeds
/// the alert threshold. The others stay valid detections, but they count
/// towards no failure and raise no alert.
pub fn significant_detections(detections: &Vec<Detection>, alert_threshold: Score) -> (r: Vec<
    Detection,
>)
    ensures
        r.deep_view() == significant(detections.deep_view(), alert_threshold),
{
    let mut out: Vec<Detection> = Vec::new();
    let mut i: usize = 0;
    assert(detections.deep_view().take(0) =~= Seq::empty());
    assert(out.deep_view() =~= Seq::empty());
    while i < detections.len()
        invariant
            i <= detections.len(),
            out.deep_view() == significant(detections.deep_view().take(i as int), alert_threshold),
        decreases detections.len() - i,
    {
        let ghost before = out.deep_view();
        proof {
            let all = detections.deep_view();
            assert(all.take(i + 1).drop_last() =~= all.take(i as int));
            assert(all.take(i + 1).last() == detections[i as int]@);
        }
        if detections[i].exceeds_threshold(alert_threshold) {
            out.push(detections[i].duplicate());
            assert(out.deep_view() =~= before.push(detections[i as int]@));
        }
        i = i + 1;
    }
    assert(detections.deep_view().take(detections.len() as int) =~= detections.deep_view());
    out
}

/// Applies the two acceptance thresholds to the candidates of the inference
/// engine and labels what passes.
pub struct FailureDetector {
    labels: Vec<String>,
    objectness_threshold: Score,
    class_prob_threshold: Score,
}

/// Mathematical value of a [`FailureDetector`].
pub struct DetectorView {
    pub labels: Seq<Seq<char>>,
    pub objectness_threshold: Score,
    pub class_prob_threshold: Score,
}

impl View for FailureDetector {
    type V = DetectorView;

    closed spec fn view(&self) -> DetectorView {
        DetectorView {
            labels: self.labels.deep_view(),
            objectness_threshold: self.objectness_threshold,
            class_prob_threshold: self.class_prob_threshold,
        }
    }
}

impl FailureDetector {
    /// A detector for the classes named by `labels`, with the two
    /// thresholds as given.
    pub fn new(labels: Vec<String>, objectness_threshold: Score, class_prob_threshold: Score) -> (r:
        Self)
        ensures
            r@ == (DetectorView {
                labels: labels.deep_view(),
                objectness_threshold,
                class_prob_threshold,
            }),
    {
        FailureDetector { labels, objectness_threshold, class_prob_threshold }
    }

    /// A detector whose class labels are the lines of `label_text`.
    pub fn with_label_lines(
        label_text: &str,
        objectness_threshold: Score,
        class_prob_threshold: Score,
    ) -> (r: Self)
        ensures
            r@ == (DetectorView {
                labels: lines(label_text@),
                objectness_threshold,
                class_prob_threshold,
            }),
    {
        Self::new(split_lines(label_text), objectness_threshold, class_prob_threshold)
    }

    /// Turns the raw candidates of one frame into accepted detections. A
    /// candidate is accepted if its objectness exceeds the objectness
    /// threshold and the probability of its best class exceeds the class
    /// threshold; its label is that of the best class. The others are
    /// dropped without an error.
    pub fn detect_failures_from_image(&self, candidates: &Vec<Candidate>) -> (r: Result<
        Vec<Detection>,
        DetectionError,
    >)
        ensures
            r matches Ok(found) && found.deep_view() == accepted_detections(
                self@.labels,
                self@.objectness_threshold,
                self@.class_prob_threshold,
                candidates@,
            ),
    {
        let mut out: Vec<Detection> = Vec::new();
        let mut i: usize = 0;
        assert(candidates@.take(0) =~= Seq::empty());
        assert(out.deep_view() =~= Seq::empty());
        while i < candidates.len()
            invariant
                i <= candidates.len(),
                out.deep_view() == accepted_detections(
                    self@.labels,
                    self@.objectness_threshold,
                    self@.class_prob_threshold,
                    candidates@.take(i as int),
                ),
            decreases candidates.len() - i,
        {
            let ghost before = out.deep_view();
            proof {
                assert(candidates@.take(i + 1).drop_last() =~= candidates@.take(i as int));
                assert(candidates@.take(i + 1).last() == candidates[i as int]);
            }
            let c = candidates[i];
            if c.objectness.exceeds(self.objectness_threshold) {
                if let Some(best) = c.best_class {
                    if best.probability.exceeds(self.class_prob_threshold) {
                        let label = if best.index < self.labels.len() {
                            self.labels[best.index].clone()
                        } else {
                            String::from_str("unknown")
                        };
                        out.push(Detection { label, confidence: best.probability, bbox: c.bbox });
                        assert(out.deep_view() =~= before.push(
                            detection_of(self@.labels, candidates[i as int]),
                        ));
                    }
                }
            }
            i = i + 1;
        }
        assert(candidates@.take(candidates.len() as int) =~= candidates@);
        Ok(out)
    }

    /// The class labels.
    pub fn get_labels(&self) -> (r: &[String])
        ensures
            r.deep_view() == self@.labels,
    {
        let r = self.labels.as_slice();
        assert(r.deep_view() =~= self.labels.deep_view());
        r
    }

    /// The objectness threshold.
    pub fn get_objectness_threshold(&self) -> (r: Score)
        ensures
            r == self@.objectness_threshold,
    {
        self.objectness_threshold
    }

    /// The class probability threshold.
    pub fn get_class_prob_threshold(&self) -> (r: Score)
        ensures
            r == self@.class_prob_threshold,
    {
        self.class_prob_threshold
    }

    /// Sets the objectness threshold to `threshold` restricted to the range
    /// from 0 to 1.
    pub fn set_objectness_threshold(&mut self, threshold: Score)
        ensures
            final(self)@ == (DetectorView {
                objectness_threshold: threshold.clamped(),
                ..old(self)@
            }),
    {
        self.objectness_threshold = threshold.clamp_unit();
    }

    /// Sets the class probability threshold to `threshold` restricted to
    /// the range from 0 to 1.
    pub fn set_class_prob_threshold(&mut self, threshold: Score)
        ensures
            final(self)@ == (DetectorView {
                class_prob_threshold: threshold.clamped(),
                ..old(self)@
            }),
    {
        self.class_prob_threshold = threshold.clamp_unit();
    }
}

} // verus!
