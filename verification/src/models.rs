//! Data model for the tracking session.
//!
//! Capture pipelines and detection engines report coordinates, angles
//! and confidences as binary floating point.  Verified code keeps the
//! same quantities as fixed-point integers instead:
//!
//! * lengths, coordinates, angles and direction components are held in
//!   thousandths of a unit (an `i64`);
//! * confidences are held in thousandths, ranging over `0..=1000`;
//! * durations are whole milliseconds (`u64`), timestamps are milliseconds
//!   since the epoch (`i64`), and frame rates are thousandths of a frame
//!   per second (`u64`).

use vstd::prelude::*;

verus! {

/// Confidences range over `0..=CONFIDENCE_SCALE` (thousandths of 1.0).
pub const CONFIDENCE_SCALE: u32 = 1000;

/// Supported model types for face detection.
#[derive(Debug, Clone, Copy, PartialEq, Eq, Structural)]
pub enum ModelType {
    /// RetinaFace model (recommended).
    RetinaFace,
    /// MTCNN model (fallback).
    MTCNN,
}

/// Image format for camera frames.
#[derive(Debug, Clone, Copy, PartialEq, Eq, Structural)]
pub enum ImageFormat {
    /// RGB 24-bit format.
    RGB,
    /// RGBA 32-bit format.
    RGBA,
    /// YUV420 planar format (common for cameras).
    YUV420,
    /// NV21 semi-planar format (Android cameras).
    NV21,
    /// BGRA format (iOS cameras).
    BGRA,
}

/// Camera frame data.
#[derive(Debug, Clone)]
pub struct CameraFrame {
    /// Image data bytes.
    pub image_data: Vec<u8>,
    /// Frame width in pixels.
    pub width: u32,
    /// Frame height in pixels.
    pub height: u32,
    /// Image format.
    pub format: ImageFormat,
    /// Frame timestamp in milliseconds since epoch.
    pub timestamp: i64,
    /// Camera rotation (0, 90, 180, 270 degrees).
    pub rotation: u32,
}

/// Mathematical model of a camera frame.
pub struct CameraFrameView {
    pub image_data: Seq<u8>,
    pub width: u32,
    pub height: u32,
    pub format: ImageFormat,
    pub timestamp: i64,
    pub rotation: u32,
}

impl View for CameraFrame {
    type V = CameraFrameView;

    open spec fn view(&self) -> CameraFrameView {
        CameraFrameView {
            image_data: self.image_data@,
            width: self.width,
            height: self.height,
            format: self.format,
            timestamp: self.timestamp,
            rotation: self.rotation,
        }
    }
}

/// 2D point, in thousandths of a pixel.
#[derive(Debug, Clone, Copy, PartialEq, Eq, Structural)]
pub struct Point2D {
    pub x: i64,
    pub y: i64,
}

/// 3D point, in thousandths of a unit.
#[derive(Debug, Clone, Copy, PartialEq, Eq, Structural)]
pub struct Point3D {
    pub x: i64,
    pub y: i64,
    pub z: i64,
}

/// Bounding box for face detection, in thousandths of a pixel.
#[derive(Debug, Clone, Copy, PartialEq, Eq, Structural)]
pub struct BoundingBox {
    pub x: i64,
    pub y: i64,
    pub width: i64,
    pub height: i64,
}

/// Facial landmarks (68-point model).
#[derive(Debug, Clone, PartialEq)]
pub struct FacialLandmarks {
    /// All 68 landmark points.
    pub points: Vec<Point2D>,
    /// Confidence score for each landmark, in thousandths.
    pub confidences: Vec<u32>,
}

/// Mathematical model of a landmark set.
pub struct FacialLandmarksView {
    pub points: Seq<Point2D>,
    pub confidences: Seq<u32>,
}

impl View for FacialLandmarks {
    type V = FacialLandmarksView;

    open spec fn view(&self) -> FacialLandmarksView {
        FacialLandmarksView { points: self.points@, confidences: self.confidences@ }
    }
}

impl FacialLandmarks {
    /// Get jaw line points (0-16).
    pub fn jaw_line(&self) -> (r: &[Point2D])
        requires
            self.points@.len() >= 68,
        ensures
            r@ == self.points@.subrange(0, 17),
    {
        vstd::slice::slice_subrange(self.points.as_slice(), 0, 17)
    }

    /// Get right eyebrow points (17-21).
    pub fn right_eyebrow(&self) -> (r: &[Point2D])
        requires
            self.points@.len() >= 68,
        ensures
            r@ == self.points@.subrange(17, 22),
    {
        vstd::slice::slice_subrange(self.points.as_slice(), 17, 22)
    }

    /// Get left eyebrow points (22-26).
    pub fn left_eyebrow(&self) -> (r: &[Point2D])
        requires
            self.points@.len() >= 68,
        ensures
            r@ == self.points@.subrange(22, 27),
    {
        vstd::slice::slice_subrange(self.points.as_slice(), 22, 27)
    }

    /// Get nose points (27-35).
    pub fn nose(&self) -> (r: &[Point2D])
        requires
            self.points@.len() >= 68,
        ensures
            r@ == self.points@.subrange(27, 36),
    {
        vstd::slice::slice_subrange(self.points.as_slice(), 27, 36)
    }

    /// Get right eye points (36-41).
    pub fn right_eye(&self) -> (r: &[Point2D])
        requires
            self.points@.len() >= 68,
        ensures
            r@ == self.points@.subrange(36, 42),
    {
        vstd::slice::slice_subrange(self.points.as_slice(), 36, 42)
    }

    /// Get left eye points (42-47).
    pub fn left_eye(&self) -> (r: &[Point2D])
        requires
            self.points@.len() >= 68,
        ensures
            r@ == self.points@.subrange(42, 48),
    {
        vstd::slice::slice_subrange(self.points.as_slice(), 42, 48)
    }

    /// Get mouth points (48-67).
    pub fn mouth(&self) -> (r: &[Point2D])
        requires
            self.points@.len() >= 68,
        ensures
            r@ == self.points@.subrange(48, 68),
    {
        vstd::slice::slice_subrange(self.points.as_slice(), 48, 68)
    }
}

/// Head pose estimation.  Angles are in thousandths of a degree.
#[derive(Debug, Clone, Copy, PartialEq, Eq, Structural)]
pub struct HeadPose {
    /// Rotation around the X axis (pitch).
    pub pitch: i64,
    /// Rotation around the Y axis (yaw).
    pub yaw: i64,
    /// Rotation around the Z axis (roll).
    pub roll: i64,
    /// Translation vector.
    pub translation: Point3D,
    /// Pose confidence, in thousandths.
    pub confidence: u32,
}

/// Eye gaze information.  Direction components are normalized, held in
/// thousandths and so range over `-1000..=1000`.
#[derive(Debug, Clone, Copy, PartialEq, Eq, Structural)]
pub struct EyeGaze {
    /// Left eye gaze direction.
    pub left_eye_direction: Point3D,
    /// Right eye gaze direction.
    pub right_eye_direction: Point3D,
    /// Combined gaze direction: the componentwise midpoint of the two
    /// eye directions, rounded toward zero.
    pub combined_direction: Point3D,
    /// Gaze confidence, in thousandths.
    pub confidence: u32,
}

/// Detected face information.
#[derive(Debug, Clone, PartialEq)]
pub struct Face {
    /// Face id, assigned by enumeration order of the engine output for one
    /// frame; not stable across frames.
    pub id: u32,
    /// Face bounding box.
    pub bounding_box: BoundingBox,
    /// Detection confidence, in thousandths.
    pub confidence: u32,
    /// Facial landmarks (if enabled).
    pub landmarks: Option<FacialLandmarks>,
    /// Head pose estimation (if enabled).
    pub pose: Option<HeadPose>,
    /// Eye gaze information (if enabled).
    pub gaze: Option<EyeGaze>,
    /// Frame timestamp when detected.
    pub timestamp: i64,
}

/// Mathematical model of a detected face.
pub struct FaceView {
    pub id: u32,
    pub bounding_box: BoundingBox,
    pub confidence: u32,
    pub landmarks: Option<FacialLandmarksView>,
    pub pose: Option<HeadPose>,
    pub gaze: Option<EyeGaze>,
    pub timestamp: i64,
}

impl View for Face {
    type V = FaceView;

    open spec fn view(&self) -> FaceView {
        FaceView {
            id: self.id,
            bounding_box: self.bounding_box,
            confidence: self.confidence,
            landmarks: match self.landmarks {
                Some(lm) => Some(lm@),
                None => None,
            },
            pose: self.pose,
            gaze: self.gaze,
            timestamp: self.timestamp,
        }
    }
}

/// The model of a list of faces: one `FaceView` per face.
pub open spec fn faces_view(faces: Seq<Face>) -> Seq<FaceView> {
    faces.map_values(|f: Face| f@)
}

/// Tracker status information.
#[derive(Debug, Clone, PartialEq)]
pub struct TrackerStatus {
    /// Whether the tracker is initialized.
    pub is_initialized: bool,
    /// Whether the tracker is currently running.
    pub is_running: bool,
    /// Total frames processed.
    pub frames_processed: u64,
    /// Average processing rate, in thousandths of a frame per second.
    pub average_fps: u64,
    /// Last error message (if any).
    pub last_error: Option<String>,
}

/// Face tracking statistics.
#[derive(Debug, Clone, Copy, PartialEq, Eq, Structural)]
pub struct TrackingStats {
    /// Total faces ever detected.
    pub total_faces_detected: u64,
    /// Faces tracked in the most recent frame.
    pub active_faces: u32,
    /// Mean detection confidence of the most recent non-empty frame, in
    /// thousandths.
    pub average_confidence: u32,
    /// Processing time statistics of the most recent frame.
    pub processing_times: ProcessingTimes,
}

/// Processing time breakdown, in milliseconds.
#[derive(Debug, Clone, Copy, PartialEq, Eq, Structural)]
pub struct ProcessingTimes {
    /// Face detection time.
    pub detection_ms: u64,
    /// Landmark detection time.
    pub landmark_ms: u64,
    /// Pose estimation time.
    pub pose_ms: u64,
    /// Total processing time.
    pub total_ms: u64,
}

/// Configuration for the face tracker.
#[derive(Debug, Clone, Copy, PartialEq, Eq, Structural)]
pub struct TrackerConfig {
    /// Model type to use for face detection.
    pub model_type: ModelType,
    /// Confidence threshold for face detection, in thousandths
    /// (`0..=1000`).
    pub confidence_threshold: u32,
    /// Maximum number of faces to track simultaneously.
    pub max_faces: u32,
    /// Enable facial landmark detection.
    pub enable_landmarks: bool,
    /// Enable head pose estimation.
    pub enable_pose_estimation: bool,
    /// Enable eye gaze tracking.
    pub enable_gaze_tracking: bool,
    /// Processing frame rate (frames per second), in `1..=120`.
    pub target_fps: u32,
}

/// A configuration is acceptable when the confidence threshold is a valid
/// confidence, at least one face is tracked, and the target frame rate is
/// in `1..=120`.
pub open spec fn config_valid(config: TrackerConfig) -> bool {
    &&& config.confidence_threshold <= CONFIDENCE_SCALE
    &&& config.max_faces > 0
    &&& 1 <= config.target_fps <= 120
}

impl Default for TrackerConfig {
    /// The default configuration: RetinaFace, threshold 0.8, four faces,
    /// landmarks and pose on, gaze off, 30 frames per second.
    fn default() -> (config: TrackerConfig)
        ensures
            config == default_config(),
            config_valid(config),
    {
        TrackerConfig {
            model_type: ModelType::RetinaFace,
            confidence_threshold: 800,
            max_faces: 4,
            enable_landmarks: true,
            enable_pose_estimation: true,
            enable_gaze_tracking: false,
            target_fps: 30,
        }
    }
}

/// The value produced by `TrackerConfig::default`.
pub open spec fn default_config() -> TrackerConfig {
    TrackerConfig {
        model_type: ModelType::RetinaFace,
        confidence_threshold: 800,
        max_faces: 4,
        enable_landmarks: true,
        enable_pose_estimation: true,
        enable_gaze_tracking: false,
        target_fps: 30,
    }
}

/// Supported tracker features.
#[derive(Debug, Clone, Copy, PartialEq, Eq, Structural)]
pub enum TrackerFeature {
    FaceDetection,
    LandmarkDetection,
    PoseEstimation,
    GazeTracking,
    ExpressionDetection,
    AgeEstimation,
    GenderDetection,
    EmotionDetection,
}

/// Camera device information.
#[derive(Debug, Clone)]
pub struct CameraDevice {
    pub id: String,
    pub name: String,
    pub is_front_facing: bool,
    pub supported_resolutions: Vec<Resolution>,
}

/// Resolution information.
#[derive(Debug, Clone, Copy, PartialEq, Eq, Structural)]
pub struct Resolution {
    pub width: u32,
    pub height: u32,
}

/// Version information.
#[derive(Debug, Clone)]
pub struct VersionInfo {
    pub plugin_version: String,
    pub openseeface_version: String,
    pub flutter_bridge_version: String,
    pub build_date: String,
    pub commit_hash: String,
}

/// The lifecycle state of an installed session.
///
/// A session that does not exist at all - the uninitialized state - is
/// the registry holding no session.  An installed session is created
/// idle, becomes `Running` while a stream is active, and `Stopped`
/// (terminal until the session is disposed or replaced) after an
/// explicit stop.
#[derive(Debug, Clone, Copy, PartialEq, Eq, Structural)]
pub enum SessionState {
    /// Initialized and idle: frames may be processed, no stream is active.
    Idle,
    /// A stream is active; processed results are also published.
    Running,
    /// Explicitly stopped; the engine is retained but no operation runs.
    Stopped,
}

/// The error taxonomy of the library.
///
/// `EngineInitError`, `DetectionError` and `ConcurrencyError` report
/// failures of the external collaborators (the detection engine and the
/// runtime that drives it); the surrounding runtime maps those failures to
/// these variants when it feeds events back into the session.
#[derive(Debug, Clone, Copy, PartialEq, Eq, Structural)]
pub enum PluginError {
    /// Bad threshold, face cap or frame rate at initialization.
    ConfigurationError,
    /// The operation requires an active session that does not exist.
    NotInitializedError,
    /// Zero dimensions, empty buffer, or a buffer undersized for the
    /// declared format.
    FrameValidationError,
    /// A format value outside the recognized set.
    UnsupportedFormatError,
    /// Malformed chroma layout detected during normalization.
    ConversionError,
    /// The external engine failed to initialize.
    EngineInitError,
    /// The external engine failed to detect.
    DetectionError,
    /// Lock acquisition failed in the surrounding runtime.
    ConcurrencyError,
    /// A structural processing failure, such as an oversized batch.
    ProcessingError,
}

} // verus!
