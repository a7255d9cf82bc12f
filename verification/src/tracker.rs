//! The tracking session.
//!
//! A `FaceTracker` binds one configuration to one external detection
//! engine and to the statistics accumulated while the session lives.
//! The engine itself is an external collaborator out of reach of
//! verification: the surrounding runtime constructs it, calls it once
//! per frame on the normalized image, and feeds its reply back into the
//! session as a `DetectionEvent` of plain values.  The session is the
//! state machine that decides everything else: whether a frame may be
//! processed, which error is returned on which input, how the engine's
//! raw faces are mapped into the public result model, how the
//! statistics advance, and what the push stream delivers.

use vstd::prelude::*;

use crate::models::{
    config_valid, faces_view, BoundingBox, CameraFrame, CameraFrameView, EyeGaze, Face, FaceView,
    FacialLandmarks, FacialLandmarksView, HeadPose, PluginError, Point2D, Point3D, ProcessingTimes,
    SessionState, TrackerConfig, TrackerStatus, TrackingStats, CONFIDENCE_SCALE,
};
use crate::pixel::{
    chroma_ok, frame_chroma_ok, frame_size_ok, frame_valid, normalize, NormalizedImage,
};
use crate::stats::{
    average_fps_millis, faces_confidence_wf, fps_millis, saturating_add_u64, update_stats,
    updated_stats, zero_stats,
};
use crate::stream::{copy_points, StreamPublisher};

verus! {

/// Raw head pose as the engine reports it: a rotation vector whose
/// components are pitch, yaw and roll, a translation vector, and a
/// confidence.
#[derive(Debug, Clone, Copy, PartialEq, Eq, Structural)]
pub struct RawPose {
    /// Rotation, componentwise (pitch, yaw, roll), in thousandths of a
    /// degree.
    pub rotation: Point3D,
    /// Translation vector, in thousandths of a unit.
    pub translation: Point3D,
    /// Pose confidence, in thousandths.
    pub confidence: u32,
}

/// Raw eye gaze as the engine reports it.
#[derive(Debug, Clone, Copy, PartialEq, Eq, Structural)]
pub struct RawGaze {
    /// Left eye direction, normalized, in thousandths.
    pub left_eye: Point3D,
    /// Right eye direction, normalized, in thousandths.
    pub right_eye: Point3D,
    /// Gaze confidence, in thousandths.
    pub confidence: u32,
}

/// One face as the engine reports it, before mapping into the public
/// result model.
#[derive(Debug, Clone)]
pub struct RawFace {
    /// Bounding box of the detection.
    pub bbox: BoundingBox,
    /// Detection confidence, in thousandths.
    pub confidence: u32,
    /// Landmark points, possibly empty when the engine produced none.
    pub landmarks: Vec<Point2D>,
    /// Head pose, when the engine produced one.
    pub pose: Option<RawPose>,
    /// Eye gaze, when the engine produced one.
    pub gaze: Option<RawGaze>,
}

/// Mathematical model of a raw face.
pub struct RawFaceView {
    pub bbox: BoundingBox,
    pub confidence: u32,
    pub landmarks: Seq<Point2D>,
    pub pose: Option<RawPose>,
    pub gaze: Option<RawGaze>,
}

impl View for RawFace {
    type V = RawFaceView;

    open spec fn view(&self) -> RawFaceView {
        RawFaceView {
            bbox: self.bbox,
            confidence: self.confidence,
            landmarks: self.landmarks@,
            pose: self.pose,
            gaze: self.gaze,
        }
    }
}

/// A direction component lies in the normalized range.
pub open spec fn unit_range(p: Point3D) -> bool {
    &&& -1000 <= p.x <= 1000
    &&& -1000 <= p.y <= 1000
    &&& -1000 <= p.z <= 1000
}

/// What the engine's contract promises of one reported face: every
/// confidence is a valid confidence and gaze directions are normalized.
pub open spec fn raw_face_wf(f: RawFaceView) -> bool {
    &&& f.confidence <= CONFIDENCE_SCALE
    &&& match f.pose {
        Some(p) => p.confidence <= CONFIDENCE_SCALE,
        None => true,
    }
    &&& match f.gaze {
        Some(g) => g.confidence <= CONFIDENCE_SCALE && unit_range(g.left_eye) && unit_range(
            g.right_eye,
        ),
        None => true,
    }
}

/// Every face of an engine reply is well-formed, and the reply is small
/// enough to enumerate with 32-bit ids.
pub open spec fn raw_faces_wf(faces: Seq<RawFace>) -> bool {
    &&& faces.len() <= u32::MAX
    &&& forall|i: int| 0 <= i < faces.len() ==> raw_face_wf((#[trigger] faces[i])@)
}

/// What the engine reported for one frame: a face list, or a detection
/// failure.
#[derive(Debug, Clone)]
pub enum DetectionOutcome {
    /// The engine returned this list of faces (possibly empty).
    Faces(Vec<RawFace>),
    /// The engine failed; the runtime maps its error to `DetectionError`.
    EngineFailure,
}

/// One engine reply together with the processing times the runtime
/// measured around the call.
#[derive(Debug, Clone)]
pub struct DetectionEvent {
    /// The engine's reply.
    pub outcome: DetectionOutcome,
    /// Measured processing times for this frame, in milliseconds.
    pub times: ProcessingTimes,
}

/// The faces of an outcome (empty for a failure).
pub open spec fn outcome_faces(o: DetectionOutcome) -> Seq<RawFace> {
    match o {
        DetectionOutcome::Faces(fs) => fs@,
        DetectionOutcome::EngineFailure => Seq::empty(),
    }
}

/// A detection event whose faces meet the engine's contract.
pub open spec fn detection_event_wf(e: DetectionEvent) -> bool {
    raw_faces_wf(outcome_faces(e.outcome))
}

/// Truncating halving, as binary arithmetic rounds: toward zero.
pub open spec fn halve_toward_zero(a: int) -> int {
    if a >= 0 {
        a / 2
    } else {
        -((-a) / 2)
    }
}

/// The componentwise midpoint of two direction vectors, rounded toward
/// zero.
pub open spec fn direction_midpoint(a: Point3D, b: Point3D) -> Point3D {
    Point3D {
        x: halve_toward_zero(a.x + b.x) as i64,
        y: halve_toward_zero(a.y + b.y) as i64,
        z: halve_toward_zero(a.z + b.z) as i64,
    }
}

/// The public model of one raw face: id from enumeration order, bounding
/// box and confidence copied, and the optional landmark, pose and gaze
/// parts populated exactly when the corresponding feature is enabled and
/// the engine produced them.  Landmark points share the face confidence,
/// one entry per point.
pub open spec fn map_raw_face(
    raw: RawFaceView,
    id: int,
    config: TrackerConfig,
    timestamp: i64,
) -> FaceView {
    FaceView {
        id: id as u32,
        bounding_box: raw.bbox,
        confidence: raw.confidence,
        landmarks: if config.enable_landmarks && raw.landmarks.len() > 0 {
            Some(
                FacialLandmarksView {
                    points: raw.landmarks,
                    confidences: Seq::new(raw.landmarks.len(), |i: int| raw.confidence),
                },
            )
        } else {
            None
        },
        pose: if config.enable_pose_estimation {
            match raw.pose {
                Some(p) => Some(
                    HeadPose {
                        pitch: p.rotation.x,
                        yaw: p.rotation.y,
                        roll: p.rotation.z,
                        translation: p.translation,
                        confidence: p.confidence,
                    },
                ),
                None => None,
            }
        } else {
            None
        },
        gaze: if config.enable_gaze_tracking {
            match raw.gaze {
                Some(g) => Some(
                    EyeGaze {
                        left_eye_direction: g.left_eye,
                        right_eye_direction: g.right_eye,
                        combined_direction: direction_midpoint(g.left_eye, g.right_eye),
                        confidence: g.confidence,
                    },
                ),
                None => None,
            }
        } else {
            None
        },
        timestamp,
    }
}

/// The public model of a whole engine reply.
pub open spec fn map_raw_faces(
    raw: Seq<RawFace>,
    config: TrackerConfig,
    timestamp: i64,
) -> Seq<FaceView> {
    Seq::new(raw.len(), |i: int| map_raw_face(raw[i]@, i, config, timestamp))
}

/// A vector of `n` copies of one confidence.
fn repeat_confidence(c: u32, n: usize) -> (r: Vec<u32>)
    ensures
        r@ == Seq::new(n as nat, |i: int| c),
{
    let mut out: Vec<u32> = Vec::new();
    let mut i: usize = 0;
    while i < n
        invariant
            i <= n,
            out@.len() == i,
            forall|j: int| 0 <= j < i ==> out@[j] == c,
        decreases n - i,
    {
        out.push(c);
        i = i + 1;
    }
    proof {
        assert(out@ =~= Seq::new(n as nat, |i: int| c));
    }
    out
}

/// Halve a sum of two normalized components, rounding toward zero.
fn halve_sum(a: i64, b: i64) -> (r: i64)
    requires
        -1000 <= a <= 1000,
        -1000 <= b <= 1000,
    ensures
        r as int == halve_toward_zero(a + b),
{
    let s: i64 = a + b;
    if s >= 0 {
        s / 2
    } else {
        -((-s) / 2)
    }
}

/// Map one raw face into the public model.
fn convert_one_face(raw: &RawFace, id: u32, config: &TrackerConfig, timestamp: i64) -> (r: Face)
    requires
        raw_face_wf(raw@),
    ensures
        r@ == map_raw_face(raw@, id as int, *config, timestamp),
{
    let landmarks: Option<FacialLandmarks> = if config.enable_landmarks && raw.landmarks.len() > 0 {
        Some(
            FacialLandmarks {
                points: copy_points(&raw.landmarks),
                confidences: repeat_confidence(raw.confidence, raw.landmarks.len()),
            },
        )
    } else {
        None
    };
    let pose: Option<HeadPose> = if config.enable_pose_estimation {
        match raw.pose {
            Some(p) => Some(
                HeadPose {
                    pitch: p.rotation.x,
                    yaw: p.rotation.y,
                    roll: p.rotation.z,
                    translation: p.translation,
                    confidence: p.confidence,
                },
            ),
            None => None,
        }
    } else {
        None
    };
    let gaze: Option<EyeGaze> = if config.enable_gaze_tracking {
        match raw.gaze {
            Some(g) => Some(
                EyeGaze {
                    left_eye_direction: g.left_eye,
                    right_eye_direction: g.right_eye,
                    combined_direction: Point3D {
                        x: halve_sum(g.left_eye.x, g.right_eye.x),
                        y: halve_sum(g.left_eye.y, g.right_eye.y),
                        z: halve_sum(g.left_eye.z, g.right_eye.z),
                    },
                    confidence: g.confidence,
                },
            ),
            None => None,
        }
    } else {
        None
    };
    Face {
        id,
        bounding_box: raw.bbox,
        confidence: raw.confidence,
        landmarks,
        pose,
        gaze,
        timestamp,
    }
}

/// Map a whole engine reply into the public result model, honoring the
/// configuration's feature toggles.  Ids follow enumeration order.
pub fn convert_detected_faces(raw: &Vec<RawFace>, config: &TrackerConfig, timestamp: i64) -> (r:
    Vec<Face>)
    requires
        raw_faces_wf(raw@),
    ensures
        r@.len() == raw@.len(),
        faces_view(r@) == map_raw_faces(raw@, *config, timestamp),
        faces_confidence_wf(faces_view(r@)),
{
    let n = raw.len();
    let mut out: Vec<Face> = Vec::new();
    let mut i: usize = 0;
    while i < n
        invariant
            i <= n,
            n == raw@.len(),
            n <= u32::MAX,
            raw_faces_wf(raw@),
            out@.len() == i,
            forall|k: int|
                0 <= k < i ==> (#[trigger] out@[k])@ == map_raw_face(
                    raw@[k]@,
                    k,
                    *config,
                    timestamp,
                ),
        decreases n - i,
    {
        let f = convert_one_face(&raw[i], i as u32, config, timestamp);
        out.push(f);
        i = i + 1;
    }
    proof {
        assert(faces_view(out@) =~= map_raw_faces(raw@, *config, timestamp));
    }
    out
}

/// A frame the session will hand to the engine: valid sizing and a
/// chroma layout the normalizer can read.
pub open spec fn frame_ok(frame: CameraFrameView) -> bool {
    frame_valid(frame) && chroma_ok(frame)
}

/// Whether one batch item produces a mapped result rather than the
/// empty substitute: the frame is acceptable and the engine returned a
/// face list.
pub open spec fn batch_item_ok(frame: CameraFrame, event: DetectionEvent) -> bool {
    frame_ok(frame@) && event.outcome is Faces
}

/// The reply recorded for one batch item: the mapped faces of a good
/// item, the empty list of a failed one.
pub open spec fn batch_item_result(
    frame: CameraFrame,
    event: DetectionEvent,
    config: TrackerConfig,
) -> Seq<FaceView> {
    if batch_item_ok(frame, event) {
        map_raw_faces(outcome_faces(event.outcome), config, frame.timestamp)
    } else {
        Seq::empty()
    }
}

/// The statistics after the first `n` items of a batch: each good item
/// applies one statistics update, each failed item leaves them alone.
pub open spec fn batch_stats(
    stats: TrackingStats,
    frames: Seq<CameraFrame>,
    events: Seq<DetectionEvent>,
    config: TrackerConfig,
    n: int,
) -> TrackingStats
    decreases n,
{
    if n <= 0 {
        stats
    } else {
        let prev = batch_stats(stats, frames, events, config, n - 1);
        if batch_item_ok(frames[n - 1], events[n - 1]) {
            updated_stats(
                prev,
                batch_item_result(frames[n - 1], events[n - 1], config),
                events[n - 1].times,
            )
        } else {
            prev
        }
    }
}

/// The frame counter after the first `n` items of a batch: one
/// (saturating) increment per good item.
pub open spec fn batch_counter(
    frames_processed: u64,
    frames: Seq<CameraFrame>,
    events: Seq<DetectionEvent>,
    n: int,
) -> u64
    decreases n,
{
    if n <= 0 {
        frames_processed
    } else {
        let prev = batch_counter(frames_processed, frames, events, n - 1);
        if batch_item_ok(frames[n - 1], events[n - 1]) {
            saturating_add_u64(prev, 1)
        } else {
            prev
        }
    }
}

/// What the stream delivers over the first `n` items of a batch: the
/// result of each good item, in input order.
pub open spec fn batch_published(
    frames: Seq<CameraFrame>,
    events: Seq<DetectionEvent>,
    config: TrackerConfig,
    n: int,
) -> Seq<Seq<FaceView>>
    decreases n,
{
    if n <= 0 {
        Seq::empty()
    } else {
        let prev = batch_published(frames, events, config, n - 1);
        if batch_item_ok(frames[n - 1], events[n - 1]) {
            prev.push(batch_item_result(frames[n - 1], events[n - 1], config))
        } else {
            prev
        }
    }
}

/// One tracking session: a configuration, the lifecycle state, the
/// frame counter, the statistics, the session start time, and the push
/// stream of results.
pub struct FaceTracker {
    /// The configuration the session was created with; immutable for
    /// the session's lifetime.
    pub config: TrackerConfig,
    /// Lifecycle state.
    pub state: SessionState,
    /// Total frames processed (monotonic).
    pub frames_processed: u64,
    /// Aggregated statistics.
    pub stats: TrackingStats,
    /// Session start, in milliseconds since the epoch; the base of the
    /// derived frame rate.
    pub start_time_ms: i64,
    /// The push stream of per-frame results.
    pub publisher: StreamPublisher,
}

/// What `prepare_frame` returns for a session and a frame: a stopped
/// session refuses; otherwise the result is exactly the normalizer's,
/// the canonical image on an acceptable frame and the fitting error on
/// any other.
pub open spec fn prepare_result(
    s: FaceTracker,
    frame: CameraFrameView,
    r: Result<NormalizedImage, PluginError>,
) -> bool {
    if s.state == SessionState::Stopped {
        r == Err::<NormalizedImage, PluginError>(PluginError::NotInitializedError)
    } else {
        &&& (r is Ok <==> frame_ok(frame))
        &&& match r {
            Ok(img) => img.width == frame.width && img.height == frame.height && img.wf()
                && forall|i: int|
                0 <= i < img@.data.len() ==> img@.data[i] as int == crate::pixel::normalized_byte(
                    frame,
                    i,
                ),
            Err(e) => if !frame_valid(frame) {
                e == PluginError::FrameValidationError
            } else {
                e == PluginError::ConversionError
            },
        }
    }
}

/// How one `process_frame` call relates the session before (`s0`) and
/// after (`s1`), for a given frame, detection event and result.
///
/// A stopped session refuses with `NotInitializedError`; an invalid
/// frame is refused before the engine outcome is considered and leaves
/// the session untouched; an engine failure is reported as
/// `DetectionError`, again leaving the session untouched.  On success
/// the reply is the mapped engine output, the statistics and the frame
/// counter advance, and - when the session is running - the result is
/// also published to every subscriber queue.
pub open spec fn process_transition(
    s0: FaceTracker,
    s1: FaceTracker,
    frame: CameraFrameView,
    event: DetectionEvent,
    r: Result<Vec<Face>, PluginError>,
) -> bool {
    match r {
        Err(PluginError::NotInitializedError) => s0.state == SessionState::Stopped && s1 == s0,
        Err(PluginError::FrameValidationError) => s0.state != SessionState::Stopped
            && !frame_valid(frame) && s1 == s0,
        Err(PluginError::ConversionError) => s0.state != SessionState::Stopped && frame_valid(
            frame,
        ) && !chroma_ok(frame) && s1 == s0,
        Err(PluginError::DetectionError) => s0.state != SessionState::Stopped && frame_ok(frame)
            && event.outcome is EngineFailure && s1 == s0,
        Err(_) => false,
        Ok(faces) => {
            &&& s0.state != SessionState::Stopped
            &&& frame_ok(frame)
            &&& event.outcome is Faces
            &&& faces@.len() == outcome_faces(event.outcome).len()
            &&& faces_view(faces@) == map_raw_faces(
                outcome_faces(event.outcome),
                s0.config,
                frame.timestamp,
            )
            &&& s1.config == s0.config
            &&& s1.state == s0.state
            &&& s1.start_time_ms == s0.start_time_ms
            &&& s1.frames_processed == saturating_add_u64(s0.frames_processed, 1)
            &&& s1.stats == updated_stats(s0.stats, faces_view(faces@), event.times)
            &&& s1.publisher.closed == s0.publisher.closed
            &&& s1.publisher.queues@.len() == s0.publisher.queues@.len()
            &&& if s0.state == SessionState::Running && !s0.publisher.closed {
                forall|j: int|
                    0 <= j < s0.publisher.queues@.len() ==> crate::stream::queue_view(
                        #[trigger] s1.publisher.queues@[j]@,
                    ) == crate::stream::queue_view(s0.publisher.queues@[j]@).push(
                        faces_view(faces@),
                    )
            } else {
                s1.publisher.queues@ == s0.publisher.queues@
            }
        },
    }
}

/// How one `process_frames_batch` call relates the session before
/// (`s0`) and after (`s1`): an empty batch is a successful no-op; an
/// oversized batch and a stopped session are structural errors that
/// touch nothing; otherwise the replies line up with the items in input
/// order and the session advances by the per-item folds.
pub open spec fn batch_transition(
    s0: FaceTracker,
    s1: FaceTracker,
    frames: Seq<CameraFrame>,
    events: Seq<DetectionEvent>,
    r: Result<Vec<Vec<Face>>, PluginError>,
) -> bool {
    match r {
        Err(PluginError::ProcessingError) => frames.len() > 100 && s1 == s0,
        Err(PluginError::NotInitializedError) => 0 < frames.len() <= 100 && s0.state
            == SessionState::Stopped && s1 == s0,
        Err(_) => false,
        Ok(results) => {
            &&& (frames.len() == 0 ==> results@.len() == 0 && s1 == s0)
            &&& (frames.len() > 0 ==> {
                &&& frames.len() <= 100
                &&& s0.state != SessionState::Stopped
                &&& results@.len() == frames.len()
                &&& forall|i: int|
                    0 <= i < frames.len() ==> faces_view((#[trigger] results@[i])@)
                        == batch_item_result(frames[i], events[i], s0.config)
                &&& s1.config == s0.config
                &&& s1.state == s0.state
                &&& s1.start_time_ms == s0.start_time_ms
                &&& s1.stats == batch_stats(s0.stats, frames, events, s0.config, frames.len() as int)
                &&& s1.frames_processed == batch_counter(
                    s0.frames_processed,
                    frames,
                    events,
                    frames.len() as int,
                )
                &&& s1.publisher.closed == s0.publisher.closed
                &&& s1.publisher.queues@.len() == s0.publisher.queues@.len()
                &&& if s0.state == SessionState::Running && !s0.publisher.closed {
                    forall|j: int|
                        0 <= j < s0.publisher.queues@.len() ==> crate::stream::queue_view(
                            #[trigger] s1.publisher.queues@[j]@,
                        ) == crate::stream::queue_view(s0.publisher.queues@[j]@) + batch_published(
                            frames,
                            events,
                            s0.config,
                            frames.len() as int,
                        )
                } else {
                    s1.publisher.queues@ == s0.publisher.queues@
                }
            })
        },
    }
}

impl FaceTracker {
    /// Create a session from a configuration, recording `now_ms` as the
    /// session start.  A threshold above 1.0, a zero face cap or a
    /// frame rate outside `1..=120` is a configuration error; otherwise
    /// the session starts idle with zeroed counters and an open, empty
    /// stream.
    pub fn new(config: TrackerConfig, now_ms: i64) -> (r: Result<FaceTracker, PluginError>)
        ensures
            r is Ok <==> config_valid(config),
            match r {
                Ok(t) => {
                    &&& t.config == config
                    &&& t.state == SessionState::Idle
                    &&& t.frames_processed == 0
                    &&& t.stats == zero_stats()
                    &&& t.start_time_ms == now_ms
                    &&& t.publisher.queues@.len() == 0
                    &&& !t.publisher.closed
                },
                Err(e) => e == PluginError::ConfigurationError,
            },
    {
        if config.confidence_threshold > CONFIDENCE_SCALE {
            return Err(PluginError::ConfigurationError);
        }
        if config.max_faces == 0 {
            return Err(PluginError::ConfigurationError);
        }
        if config.target_fps == 0 || config.target_fps > 120 {
            return Err(PluginError::ConfigurationError);
        }
        Ok(
            FaceTracker {
                config,
                state: SessionState::Idle,
                frames_processed: 0,
                stats: TrackingStats {
                    total_faces_detected: 0,
                    active_faces: 0,
                    average_confidence: 0,
                    processing_times: ProcessingTimes {
                        detection_ms: 0,
                        landmark_ms: 0,
                        pose_ms: 0,
                        total_ms: 0,
                    },
                },
                start_time_ms: now_ms,
                publisher: StreamPublisher::new(),
            },
        )
    }

    /// Validate a frame and normalize it into the canonical image the
    /// engine accepts.  Read-only: the cheap rejection happens before
    /// any engine work, and the session is untouched.
    pub fn prepare_frame(&self, frame: &CameraFrame) -> (r: Result<NormalizedImage, PluginError>)
        ensures
            prepare_result(*self, frame@, r),
    {
        if self.state == SessionState::Stopped {
            return Err(PluginError::NotInitializedError);
        }
        normalize(frame)
    }

    /// Commit one frame: re-validate it, account the engine's reply,
    /// and - while running - publish the mapped result.
    pub fn process_frame(&mut self, frame: &CameraFrame, event: &DetectionEvent) -> (r: Result<
        Vec<Face>,
        PluginError,
    >)
        requires
            detection_event_wf(*event),
        ensures
            process_transition(*old(self), *final(self), frame@, *event, r),
    {
        if self.state == SessionState::Stopped {
            return Err(PluginError::NotInitializedError);
        }
        if !frame_size_ok(frame) {
            return Err(PluginError::FrameValidationError);
        }
        if !frame_chroma_ok(frame) {
            return Err(PluginError::ConversionError);
        }
        match &event.outcome {
            DetectionOutcome::EngineFailure => Err(PluginError::DetectionError),
            DetectionOutcome::Faces(raw) => {
                let faces = convert_detected_faces(raw, &self.config, frame.timestamp);
                update_stats(&mut self.stats, &faces, event.times);
                self.frames_processed = if self.frames_processed == u64::MAX {
                    u64::MAX
                } else {
                    self.frames_processed + 1
                };
                if self.state == SessionState::Running {
                    self.publisher.publish(&faces);
                }
                Ok(faces)
            },
        }
    }

    /// Process a bounded batch of frames, one engine reply per frame,
    /// sequentially and in input order.
    ///
    /// An empty batch succeeds with no effect.  More than 100 frames is
    /// a structural error: nothing is processed and no statistic moves.
    /// A stopped session is a structural error too.  Otherwise every
    /// frame is processed in order; a frame that fails - bad sizing,
    /// bad chroma layout, or an engine failure - contributes an empty
    /// result list and the batch continues.
    pub fn process_frames_batch(
        &mut self,
        frames: &Vec<CameraFrame>,
        events: &Vec<DetectionEvent>,
    ) -> (r: Result<Vec<Vec<Face>>, PluginError>)
        requires
            events@.len() == frames@.len(),
            forall|i: int| 0 <= i < events@.len() ==> detection_event_wf(#[trigger] events@[i]),
        ensures
            batch_transition(*old(self), *final(self), frames@, events@, r),
    {
        let n = frames.len();
        if n == 0 {
            return Ok(Vec::new());
        }
        if n > 100 {
            return Err(PluginError::ProcessingError);
        }
        if self.state == SessionState::Stopped {
            return Err(PluginError::NotInitializedError);
        }
        let ghost s0 = *self;
        let mut results: Vec<Vec<Face>> = Vec::new();
        let mut i: usize = 0;
        while i < n
            invariant
                i <= n,
                n == frames@.len(),
                n == events@.len(),
                1 <= n <= 100,
                forall|k: int| 0 <= k < events@.len() ==> detection_event_wf(#[trigger] events@[k]),
                s0.state != SessionState::Stopped,
                self.state == s0.state,
                self.config == s0.config,
                self.start_time_ms == s0.start_time_ms,
                self.publisher.closed == s0.publisher.closed,
                self.publisher.queues@.len() == s0.publisher.queues@.len(),
                self.stats == batch_stats(s0.stats, frames@, events@, s0.config, i as int),
                self.frames_processed == batch_counter(
                    s0.frames_processed,
                    frames@,
                    events@,
                    i as int,
                ),
                results@.len() == i,
                forall|k: int|
                    0 <= k < i ==> faces_view((#[trigger] results@[k])@) == batch_item_result(
                        frames@[k],
                        events@[k],
                        s0.config,
                    ),
                if s0.state == SessionState::Running && !s0.publisher.closed {
                    forall|j: int|
                        0 <= j < s0.publisher.queues@.len() ==> crate::stream::queue_view(
                            #[trigger] self.publisher.queues@[j]@,
                        ) == crate::stream::queue_view(s0.publisher.queues@[j]@) + batch_published(
                            frames@,
                            events@,
                            s0.config,
                            i as int,
                        )
                } else {
                    self.publisher.queues@ == s0.publisher.queues@
                },
            decreases n - i,
        {
            let frame = &frames[i];
            let event = &events[i];
            let outcome = self.process_frame(frame, event);
            match outcome {
                Ok(faces) => {
                    proof {
                        if s0.state == SessionState::Running && !s0.publisher.closed {
                            assert forall|j: int| 0 <= j < s0.publisher.queues@.len() implies
                                crate::stream::queue_view(#[trigger] self.publisher.queues@[j]@)
                                    == crate::stream::queue_view(s0.publisher.queues@[j]@)
                                    + batch_published(
                                    frames@,
                                    events@,
                                    s0.config,
                                    i + 1,
                                ) by {
                                assert(crate::stream::queue_view(s0.publisher.queues@[j]@)
                                    + batch_published(frames@, events@, s0.config, i as int).push(
                                    faces_view(faces@),
                                ) =~= (crate::stream::queue_view(s0.publisher.queues@[j]@)
                                    + batch_published(frames@, events@, s0.config, i as int)).push(
                                    faces_view(faces@),
                                ));
                            }
                        }
                    }
                    results.push(faces);
                },
                Err(_) => {
                    proof {
                        assert(faces_view(Seq::<Face>::empty()) =~= Seq::<FaceView>::empty());
                    }
                    let empty: Vec<Face> = Vec::new();
                    results.push(empty);
                },
            }
            i = i + 1;
        }
        Ok(results)
    }

    /// Transition to `Running` and attach one more stream subscriber;
    /// the returned handle indexes the subscriber's queue.  A stopped
    /// session cannot be restarted.
    pub fn start_stream(&mut self) -> (r: Result<usize, PluginError>)
        ensures
            match r {
                Err(e) => {
                    &&& e == PluginError::NotInitializedError
                    &&& old(self).state == SessionState::Stopped
                    &&& *final(self) == *old(self)
                },
                Ok(id) => {
                    &&& old(self).state != SessionState::Stopped
                    &&& final(self).state == SessionState::Running
                    &&& final(self).config == old(self).config
                    &&& final(self).frames_processed == old(self).frames_processed
                    &&& final(self).stats == old(self).stats
                    &&& final(self).start_time_ms == old(self).start_time_ms
                    &&& final(self).publisher.closed == old(self).publisher.closed
                    &&& id == old(self).publisher.queues@.len()
                    &&& final(self).publisher.queues@.len() == old(self).publisher.queues@.len()
                        + 1
                    &&& forall|j: int|
                        0 <= j < old(self).publisher.queues@.len()
                            ==> final(self).publisher.queues@[j] == old(self).publisher.queues@[j]
                    &&& final(self).publisher.queues@[id as int]@.len() == 0
                },
            },
    {
        if self.state == SessionState::Stopped {
            return Err(PluginError::NotInitializedError);
        }
        self.state = SessionState::Running;
        let id = self.publisher.subscribe();
        Ok(id)
    }

    /// Stop the session: the state becomes `Stopped` (terminal until
    /// the session is disposed or replaced) and the stream is closed,
    /// so no further result is published.  The engine handle and the
    /// statistics are retained.
    pub fn stop(&mut self) -> (r: Result<(), PluginError>)
        ensures
            r is Ok,
            final(self).state == SessionState::Stopped,
            final(self).publisher.closed,
            final(self).publisher.queues@ == old(self).publisher.queues@,
            final(self).config == old(self).config,
            final(self).frames_processed == old(self).frames_processed,
            final(self).stats == old(self).stats,
            final(self).start_time_ms == old(self).start_time_ms,
    {
        self.state = SessionState::Stopped;
        self.publisher.close();
        Ok(())
    }

    /// A read-only status snapshot.  The average frame rate is derived
    /// from the frame counter and the elapsed wall-clock time since the
    /// session started.
    pub fn get_status(&self, now_ms: i64) -> (st: TrackerStatus)
        ensures
            st.is_initialized,
            st.is_running == (self.state == SessionState::Running),
            st.frames_processed == self.frames_processed,
            st.average_fps as int == fps_millis(self.frames_processed, self.start_time_ms, now_ms),
            st.last_error is None,
    {
        TrackerStatus {
            is_initialized: true,
            is_running: self.state == SessionState::Running,
            frames_processed: self.frames_processed,
            average_fps: average_fps_millis(self.frames_processed, self.start_time_ms, now_ms),
            last_error: None,
        }
    }
}

/// Once a session is stopped, nothing is delivered any more: a
/// `process_frame` call on a stopped session refuses with
/// `NotInitializedError` and leaves the session - every subscriber
/// queue included - exactly as it was.  Together with `stop`, which
/// closes the stream and keeps the queues, a subscriber observes
/// closure and no further deliveries.
pub proof fn lemma_stopped_session_delivers_nothing(
    s0: FaceTracker,
    s1: FaceTracker,
    frame: CameraFrameView,
    event: DetectionEvent,
    r: Result<Vec<Face>, PluginError>,
)
    requires
        s0.state == SessionState::Stopped,
        process_transition(s0, s1, frame, event, r),
    ensures
        r == Err::<Vec<Face>, PluginError>(PluginError::NotInitializedError),
        s1 == s0,
        s1.publisher.queues@ == s0.publisher.queues@,
{
}

} // verus!
