//! Session statistics.
//!
//! After every processed frame the session updates its running counters:
//! the total face count grows by the faces of that frame, the active
//! face count and the processing-time breakdown are replaced by that
//! frame's values, and - for a frame with at least one face - the
//! average confidence is replaced by the mean confidence of that frame
//! (an instantaneous signal, not a cumulative mean).  The average frame
//! rate is derived at query time from the frame counter and the wall
//! clock.

use vstd::arithmetic::div_mod::lemma_multiply_divide_le;
use vstd::arithmetic::mul::lemma_mul_is_commutative;
use vstd::prelude::*;

use crate::models::{faces_view, FaceView, ProcessingTimes, TrackingStats, CONFIDENCE_SCALE};

verus! {

/// The all-zero statistics a fresh session starts from.
pub open spec fn zero_stats() -> TrackingStats {
    TrackingStats {
        total_faces_detected: 0,
        active_faces: 0,
        average_confidence: 0,
        processing_times: ProcessingTimes { detection_ms: 0, landmark_ms: 0, pose_ms: 0, total_ms: 0 },
    }
}

/// Sum of the detection confidences of a face list, in thousandths.
pub open spec fn confidence_sum(faces: Seq<FaceView>) -> int
    decreases faces.len(),
{
    if faces.len() == 0 {
        0
    } else {
        confidence_sum(faces.drop_last()) + faces.last().confidence
    }
}

/// Every face of the list carries a valid confidence (at most 1.0, held
/// in thousandths).
pub open spec fn faces_confidence_wf(faces: Seq<FaceView>) -> bool {
    forall|i: int| 0 <= i < faces.len() ==> (#[trigger] faces[i]).confidence <= CONFIDENCE_SCALE
}

/// The confidence sum of a well-formed face list is bounded by one per
/// face.
pub proof fn lemma_confidence_sum_bound(faces: Seq<FaceView>)
    requires
        faces_confidence_wf(faces),
    ensures
        0 <= confidence_sum(faces) <= faces.len() * CONFIDENCE_SCALE,
    decreases faces.len(),
{
    if faces.len() > 0 {
        assert(faces_confidence_wf(faces.drop_last()));
        lemma_confidence_sum_bound(faces.drop_last());
    }
}

/// Saturating 64-bit counter step.
pub open spec fn saturating_add_u64(a: u64, b: int) -> u64 {
    if a + b > u64::MAX {
        u64::MAX
    } else {
        (a + b) as u64
    }
}

/// A count capped at the 32-bit range.
pub open spec fn cap_u32(n: int) -> u32 {
    if n > u32::MAX {
        u32::MAX
    } else {
        n as u32
    }
}

/// The statistics after one successfully processed frame: the total face
/// count grows by the faces of the frame, the active count and the
/// timing breakdown are replaced, and the average confidence is replaced
/// by this frame's mean confidence when the frame has faces (and is kept
/// unchanged otherwise).
pub open spec fn updated_stats(
    stats: TrackingStats,
    faces: Seq<FaceView>,
    times: ProcessingTimes,
) -> TrackingStats {
    TrackingStats {
        total_faces_detected: saturating_add_u64(stats.total_faces_detected, faces.len() as int),
        active_faces: cap_u32(faces.len() as int),
        average_confidence: if faces.len() > 0 {
            (confidence_sum(faces) / faces.len() as int) as u32
        } else {
            stats.average_confidence
        },
        processing_times: times,
    }
}

/// Apply one frame's outcome to the statistics.
pub fn update_stats(stats: &mut TrackingStats, faces: &Vec<crate::models::Face>, times: ProcessingTimes)
    requires
        faces_confidence_wf(faces_view(faces@)),
    ensures
        *final(stats) == updated_stats(*old(stats), faces_view(faces@), times),
{
    let n: usize = faces.len();
    let n64: u64 = n as u64;
    stats.total_faces_detected = if u64::MAX - stats.total_faces_detected < n64 {
        u64::MAX
    } else {
        stats.total_faces_detected + n64
    };
    stats.active_faces = if n > u32::MAX as usize {
        u32::MAX
    } else {
        n as u32
    };
    if n > 0 {
        let mut sum: u128 = 0;
        let mut i: usize = 0;
        while i < n
            invariant
                i <= n,
                n == faces@.len(),
                faces_confidence_wf(faces_view(faces@)),
                sum == confidence_sum(faces_view(faces@).take(i as int)),
                sum <= i * CONFIDENCE_SCALE,
            decreases n - i,
        {
            proof {
                let fv = faces_view(faces@);
                assert(fv.take(i + 1).drop_last() =~= fv.take(i as int));
                assert(fv.take(i + 1).last() == fv[i as int]);
                assert(fv[i as int].confidence == faces@[i as int]@.confidence);
            }
            sum = sum + (faces[i].confidence as u128);
            i = i + 1;
        }
        proof {
            let fv = faces_view(faces@);
            assert(fv.take(n as int) =~= fv);
            lemma_confidence_sum_bound(fv);
            lemma_mul_is_commutative(fv.len() as int, CONFIDENCE_SCALE as int);
            lemma_multiply_divide_le(confidence_sum(fv), fv.len() as int, CONFIDENCE_SCALE as int);
        }
        let avg: u128 = sum / (n as u128);
        stats.average_confidence = avg as u32;
    }
    stats.processing_times = times;
}

/// The frame rate derived from the frame counter: frames divided by the
/// elapsed wall-clock seconds since session start, in thousandths of a
/// frame per second; zero when no time has elapsed (or the clock ran
/// backwards), and saturated at the 64-bit range.
pub open spec fn fps_millis(frames: u64, start_ms: i64, now_ms: i64) -> int {
    if now_ms <= start_ms {
        0
    } else {
        let fps = frames * 1_000_000 / (now_ms - start_ms);
        if fps > u64::MAX {
            u64::MAX as int
        } else {
            fps
        }
    }
}

/// Compute the derived average frame rate.
pub fn average_fps_millis(frames: u64, start_ms: i64, now_ms: i64) -> (r: u64)
    ensures
        r as int == fps_millis(frames, start_ms, now_ms),
{
    if now_ms <= start_ms {
        return 0;
    }
    let elapsed: i128 = (now_ms as i128) - (start_ms as i128);
    let num: u128 = (frames as u128) * 1_000_000;
    let q: u128 = num / (elapsed as u128);
    if q > u64::MAX as u128 {
        u64::MAX
    } else {
        q as u64
    }
}

} // verus!
