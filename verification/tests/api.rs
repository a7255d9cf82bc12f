//! Tests of the stateless helpers, the data model and the result
//! mapper.

use face_tracking::api::{
    get_available_cameras, get_recommended_config, get_version_info, is_feature_supported,
    validate_frame, warmup_frame,
};
use face_tracking::models::{
    BoundingBox, CameraFrame, ImageFormat, ModelType, Point2D, Point3D, TrackerConfig,
    TrackerFeature,
};
use face_tracking::tracker::{convert_detected_faces, RawFace, RawGaze, RawPose};

#[test]
fn test_default_config() {
    let config = TrackerConfig::default();
    assert_eq!(config.model_type, ModelType::RetinaFace);
    assert_eq!(config.confidence_threshold, 800);
    assert_eq!(config.max_faces, 4);
    assert!(config.enable_landmarks);
    assert!(config.enable_pose_estimation);
    assert!(!config.enable_gaze_tracking);
    assert_eq!(config.target_fps, 30);
}

#[test]
fn test_recommended_config() {
    let config = get_recommended_config();
    assert!(config.confidence_threshold <= 1000);
    assert!(config.max_faces > 0);
    assert!(config.target_fps > 0);
}

#[test]
fn test_feature_support() {
    assert!(is_feature_supported(TrackerFeature::FaceDetection));
    assert!(is_feature_supported(TrackerFeature::LandmarkDetection));
    assert!(is_feature_supported(TrackerFeature::PoseEstimation));
    assert!(!is_feature_supported(TrackerFeature::EmotionDetection));
}

#[test]
fn test_frame_validation() {
    let valid_frame = CameraFrame {
        image_data: vec![0u8; 640 * 480 * 3],
        width: 640,
        height: 480,
        format: ImageFormat::RGB,
        rotation: 0,
        timestamp: 0,
    };

    assert!(validate_frame(valid_frame).unwrap());

    let invalid_frame = CameraFrame {
        image_data: vec![0u8; 100], // Too small
        width: 640,
        height: 480,
        format: ImageFormat::RGB,
        rotation: 0,
        timestamp: 0,
    };

    assert!(!validate_frame(invalid_frame).unwrap());
}

#[test]
fn camera_list_is_the_static_placeholder() {
    let cams = get_available_cameras().unwrap();
    assert_eq!(cams.len(), 1);
    assert_eq!(cams[0].id, "0");
    assert_eq!(cams[0].name, "Default Camera");
    assert!(!cams[0].is_front_facing);
    let res: Vec<(u32, u32)> = cams[0]
        .supported_resolutions
        .iter()
        .map(|r| (r.width, r.height))
        .collect();
    assert_eq!(res, vec![(640, 480), (1280, 720), (1920, 1080)]);
}

#[test]
fn version_info_is_static() {
    let v = get_version_info();
    assert_eq!(v.plugin_version, "0.1.0");
    assert_eq!(v.openseeface_version, "0.1.0");
    assert_eq!(v.flutter_bridge_version, "2.0");
    assert_eq!(v.build_date, "unknown");
    assert_eq!(v.commit_hash, "unknown");
}

#[test]
fn warmup_frame_is_a_valid_gray_image() {
    let frame = warmup_frame(42);
    assert_eq!(frame.width, 640);
    assert_eq!(frame.height, 480);
    assert_eq!(frame.format, ImageFormat::RGB);
    assert_eq!(frame.timestamp, 42);
    assert_eq!(frame.image_data.len(), 640 * 480 * 3);
    assert!(frame.image_data.iter().all(|&b| b == 128));
    assert!(validate_frame(frame).unwrap());
}

#[test]
fn landmark_regions_cover_the_documented_ranges() {
    let raw = vec![RawFace {
        bbox: BoundingBox { x: 0, y: 0, width: 1000, height: 1000 },
        confidence: 750,
        landmarks: (0..68).map(|i| Point2D { x: i as i64, y: (i * 2) as i64 }).collect(),
        pose: None,
        gaze: None,
    }];
    let config = TrackerConfig::default();
    let faces = convert_detected_faces(&raw, &config, 99);
    assert_eq!(faces.len(), 1);
    let lm = faces[0].landmarks.as_ref().unwrap();
    assert_eq!(lm.points.len(), 68);
    // Every per-point confidence repeats the face confidence.
    assert!(lm.confidences.iter().all(|&c| c == 750));
    assert_eq!(lm.jaw_line().len(), 17);
    assert_eq!(lm.right_eyebrow().len(), 5);
    assert_eq!(lm.left_eyebrow().len(), 5);
    assert_eq!(lm.nose().len(), 9);
    assert_eq!(lm.right_eye().len(), 6);
    assert_eq!(lm.left_eye().len(), 6);
    assert_eq!(lm.mouth().len(), 20);
    assert_eq!(lm.jaw_line()[16], Point2D { x: 16, y: 32 });
    assert_eq!(lm.mouth()[0], Point2D { x: 48, y: 96 });
}

#[test]
fn mapper_honors_feature_toggles_and_computes_gaze_midpoint() {
    let raw = vec![RawFace {
        bbox: BoundingBox { x: 1000, y: 2000, width: 3000, height: 4000 },
        confidence: 900,
        landmarks: vec![Point2D { x: 1, y: 2 }],
        pose: Some(RawPose {
            rotation: Point3D { x: 5000, y: -2000, z: 1500 },
            translation: Point3D { x: 1, y: 2, z: 3 },
            confidence: 800,
        }),
        gaze: Some(RawGaze {
            left_eye: Point3D { x: 100, y: -300, z: 1000 },
            right_eye: Point3D { x: 201, y: -400, z: 999 },
            confidence: 700,
        }),
    }];

    let mut config = TrackerConfig::default();
    config.enable_gaze_tracking = true;
    let faces = convert_detected_faces(&raw, &config, 7);
    let face = &faces[0];
    assert_eq!(face.id, 0);
    assert_eq!(face.confidence, 900);
    assert_eq!(face.timestamp, 7);
    let pose = face.pose.as_ref().unwrap();
    assert_eq!(pose.pitch, 5000);
    assert_eq!(pose.yaw, -2000);
    assert_eq!(pose.roll, 1500);
    assert_eq!(pose.confidence, 800);
    let gaze = face.gaze.as_ref().unwrap();
    // Componentwise midpoints, rounded toward zero: (100+201)/2 = 150,
    // (-300 + -400)/2 = -350, (1000+999)/2 = 999.
    assert_eq!(gaze.combined_direction, Point3D { x: 150, y: -350, z: 999 });
    assert_eq!(gaze.confidence, 700);

    // With every toggle off, the optional parts stay empty.
    let mut config = TrackerConfig::default();
    config.enable_landmarks = false;
    config.enable_pose_estimation = false;
    config.enable_gaze_tracking = false;
    let faces = convert_detected_faces(&raw, &config, 7);
    assert!(faces[0].landmarks.is_none());
    assert!(faces[0].pose.is_none());
    assert!(faces[0].gaze.is_none());
}
