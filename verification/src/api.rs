//! Stateless API helpers: capability queries, frame validation, the
//! placeholder camera list, recommended configuration, version
//! information, and the warm-up frame.

use vstd::prelude::*;

use crate::models::{
    CameraDevice, CameraFrame, ImageFormat, ModelType, PluginError, Resolution, TrackerConfig,
    TrackerFeature, VersionInfo,
};
use crate::pixel::{frame_size_ok, frame_valid};

verus! {

/// The static capability map: detection, landmarks, pose and gaze are
/// supported; expression, age, gender and emotion analysis are not.
pub open spec fn feature_supported(feature: TrackerFeature) -> bool {
    match feature {
        TrackerFeature::FaceDetection => true,
        TrackerFeature::LandmarkDetection => true,
        TrackerFeature::PoseEstimation => true,
        TrackerFeature::GazeTracking => true,
        TrackerFeature::ExpressionDetection => false,
        TrackerFeature::AgeEstimation => false,
        TrackerFeature::GenderDetection => false,
        TrackerFeature::EmotionDetection => false,
    }
}

/// Whether the tracker supports a specific feature, independent of any
/// session state.
pub fn is_feature_supported(feature: TrackerFeature) -> (r: bool)
    ensures
        r == feature_supported(feature),
{
    match feature {
        TrackerFeature::FaceDetection => true,
        TrackerFeature::LandmarkDetection => true,
        TrackerFeature::PoseEstimation => true,
        TrackerFeature::GazeTracking => true,
        TrackerFeature::ExpressionDetection => false,
        TrackerFeature::AgeEstimation => false,
        TrackerFeature::GenderDetection => false,
        TrackerFeature::EmotionDetection => false,
    }
}

/// The static placeholder camera list: one default camera with three
/// common resolutions.  Hardware discovery is outside this library.
pub fn get_available_cameras() -> (r: Result<Vec<CameraDevice>, PluginError>)
    ensures
        match r {
            Ok(cams) => {
                &&& cams@.len() == 1
                &&& cams@[0].id@ == "0"@
                &&& cams@[0].name@ == "Default Camera"@
                &&& !cams@[0].is_front_facing
                &&& cams@[0].supported_resolutions@ == seq![
                    (Resolution { width: 640, height: 480 }),
                    (Resolution { width: 1280, height: 720 }),
                    (Resolution { width: 1920, height: 1080 }),
                ]
            },
            Err(_) => false,
        },
{
    let mut resolutions: Vec<Resolution> = Vec::new();
    resolutions.push(Resolution { width: 640, height: 480 });
    resolutions.push(Resolution { width: 1280, height: 720 });
    resolutions.push(Resolution { width: 1920, height: 1080 });
    proof {
        assert(resolutions@ =~= seq![
            (Resolution { width: 640, height: 480 }),
            (Resolution { width: 1280, height: 720 }),
            (Resolution { width: 1920, height: 1080 }),
        ]);
    }
    let device = CameraDevice {
        id: String::from_str("0"),
        name: String::from_str("Default Camera"),
        is_front_facing: false,
        supported_resolutions: resolutions,
    };
    let mut cams: Vec<CameraDevice> = Vec::new();
    cams.push(device);
    Ok(cams)
}

/// Validate a camera frame's dimensions and buffer size for its
/// declared format.  This never fails; it reports the verdict.
pub fn validate_frame(frame: CameraFrame) -> (r: Result<bool, PluginError>)
    ensures
        r == Ok::<bool, PluginError>(frame_valid(frame@)),
{
    let ok = frame_size_ok(&frame);
    Ok(ok)
}

/// The balanced configuration recommended for typical devices: like the
/// default, but capped at two faces for performance.
pub open spec fn recommended_config() -> TrackerConfig {
    TrackerConfig {
        model_type: ModelType::RetinaFace,
        confidence_threshold: 800,
        max_faces: 2,
        enable_landmarks: true,
        enable_pose_estimation: true,
        enable_gaze_tracking: false,
        target_fps: 30,
    }
}

/// Get the recommended configuration for device performance.
pub fn get_recommended_config() -> (config: TrackerConfig)
    ensures
        config == recommended_config(),
        crate::models::config_valid(config),
{
    TrackerConfig {
        model_type: ModelType::RetinaFace,
        confidence_threshold: 800,
        max_faces: 2,
        enable_landmarks: true,
        enable_pose_estimation: true,
        enable_gaze_tracking: false,
        target_fps: 30,
    }
}

/// Version information of the library and its collaborators.
pub fn get_version_info() -> (v: VersionInfo)
    ensures
        v.plugin_version@ == "0.1.0"@,
        v.openseeface_version@ == "0.1.0"@,
        v.flutter_bridge_version@ == "2.0"@,
        v.build_date@ == "unknown"@,
        v.commit_hash@ == "unknown"@,
{
    VersionInfo {
        plugin_version: String::from_str("0.1.0"),
        openseeface_version: String::from_str("0.1.0"),
        flutter_bridge_version: String::from_str("2.0"),
        build_date: String::from_str("unknown"),
        commit_hash: String::from_str("unknown"),
    }
}

/// The frame used to warm the engine up: a mid-gray 640 by 480 RGB
/// image, valid by construction.
pub fn warmup_frame(now_ms: i64) -> (frame: CameraFrame)
    ensures
        frame.width == 640,
        frame.height == 480,
        frame.format == ImageFormat::RGB,
        frame.rotation == 0,
        frame.timestamp == now_ms,
        frame.image_data@.len() == 921600,
        forall|i: int| 0 <= i < frame.image_data@.len() ==> frame.image_data@[i] == 128u8,
        frame_valid(frame@),
{
    let mut data: Vec<u8> = Vec::new();
    let mut i: usize = 0;
    while i < 921600
        invariant
            i <= 921600,
            data@.len() == i,
            forall|j: int| 0 <= j < i ==> data@[j] == 128u8,
        decreases 921600 - i,
    {
        data.push(128);
        i = i + 1;
    }
    CameraFrame {
        image_data: data,
        width: 640,
        height: 480,
        format: ImageFormat::RGB,
        timestamp: now_ms,
        rotation: 0,
    }
}

} // verus!
