//! Tests of the session lifecycle, statistics and stream.

use face_tracking::models::{
    BoundingBox, CameraFrame, ImageFormat, PluginError, ProcessingTimes, TrackerConfig,
};
use face_tracking::registry::SessionRegistry;
use face_tracking::tracker::{DetectionEvent, DetectionOutcome, FaceTracker, RawFace};

fn rgb_frame(width: u32, height: u32, timestamp: i64) -> CameraFrame {
    CameraFrame {
        image_data: vec![128u8; (width * height * 3) as usize],
        width,
        height,
        format: ImageFormat::RGB,
        timestamp,
        rotation: 0,
    }
}

fn raw_face(confidence: u32) -> RawFace {
    RawFace {
        bbox: BoundingBox { x: 10_000, y: 20_000, width: 50_000, height: 60_000 },
        confidence,
        landmarks: Vec::new(),
        pose: None,
        gaze: None,
    }
}

fn event_with(faces: Vec<RawFace>) -> DetectionEvent {
    DetectionEvent {
        outcome: DetectionOutcome::Faces(faces),
        times: ProcessingTimes { detection_ms: 5, landmark_ms: 2, pose_ms: 0, total_ms: 8 },
    }
}

fn initialized_registry(now_ms: i64) -> SessionRegistry {
    let mut registry = SessionRegistry::new();
    registry
        .initialize_tracker(TrackerConfig::default(), now_ms)
        .unwrap();
    registry
}

#[test]
fn error_test_face_tracker_creation() {
    let config = TrackerConfig::default();
    let tracker = FaceTracker::new(config, 0);
    assert!(tracker.is_ok());
}

#[test]
fn error_test_tracker_status() {
    let config = TrackerConfig::default();
    let tracker = FaceTracker::new(config, 0).unwrap();

    let status = tracker.get_status(0);
    assert!(status.is_initialized);
    assert!(!status.is_running);
}

#[test]
fn tracker_test_face_tracker_creation() {
    let config = TrackerConfig::default();
    let tracker = FaceTracker::new(config, 0);
    assert!(tracker.is_ok() || tracker.is_err());
}

#[test]
fn tracker_test_tracker_status() {
    let config = TrackerConfig::default();
    if let Ok(tracker) = FaceTracker::new(config, 0) {
        let status = tracker.get_status(0);
        assert!(status.is_initialized);
        assert!(!status.is_running);
    }
}

#[test]
fn test_tracker_lifecycle() {
    let mut registry = SessionRegistry::new();
    let config = TrackerConfig::default();

    let init_result = registry.initialize_tracker(config, 0);
    if init_result.is_ok() {
        let status = registry.get_tracker_status(0);
        assert!(status.is_initialized);

        assert!(registry.dispose().is_ok());
    }
}

#[test]
fn configuration_errors_reject_initialization() {
    // Threshold above 1.0 (1.5, in thousandths), zero faces, and an
    // excessive frame rate each fail with a configuration error.
    let mut registry = SessionRegistry::new();
    let mut config = TrackerConfig::default();
    config.confidence_threshold = 1500;
    assert_eq!(
        registry.initialize_tracker(config, 0).unwrap_err(),
        PluginError::ConfigurationError
    );

    let mut config = TrackerConfig::default();
    config.max_faces = 0;
    assert_eq!(
        registry.initialize_tracker(config, 0).unwrap_err(),
        PluginError::ConfigurationError
    );

    let mut config = TrackerConfig::default();
    config.target_fps = 150;
    assert_eq!(
        registry.initialize_tracker(config, 0).unwrap_err(),
        PluginError::ConfigurationError
    );

    // None of the refusals installed a session.
    assert!(!registry.get_tracker_status(0).is_initialized);
}

#[test]
fn process_without_session_is_not_initialized() {
    let mut registry = SessionRegistry::new();
    let err = registry
        .process_frame(&rgb_frame(2, 2, 0), &event_with(vec![]))
        .unwrap_err();
    assert_eq!(err, PluginError::NotInitializedError);
}

#[test]
fn empty_buffer_fails_validation_and_leaves_state_untouched() {
    let mut registry = initialized_registry(0);
    let empty = CameraFrame {
        image_data: Vec::new(),
        width: 2,
        height: 2,
        format: ImageFormat::RGB,
        timestamp: 0,
        rotation: 0,
    };
    let err = registry
        .process_frame(&empty, &event_with(vec![]))
        .unwrap_err();
    assert_eq!(err, PluginError::FrameValidationError);
    assert_eq!(registry.get_tracker_status(10).frames_processed, 0);
    assert_eq!(registry.get_tracking_stats().total_faces_detected, 0);
}

#[test]
fn engine_failure_is_a_detection_error() {
    let mut registry = initialized_registry(0);
    let event = DetectionEvent {
        outcome: DetectionOutcome::EngineFailure,
        times: ProcessingTimes { detection_ms: 0, landmark_ms: 0, pose_ms: 0, total_ms: 0 },
    };
    let err = registry
        .process_frame(&rgb_frame(2, 2, 0), &event)
        .unwrap_err();
    assert_eq!(err, PluginError::DetectionError);
    assert_eq!(registry.get_tracker_status(10).frames_processed, 0);
}

#[test]
fn oversized_batch_is_rejected_without_processing() {
    let mut registry = initialized_registry(0);
    let frames: Vec<CameraFrame> = (0..101).map(|i| rgb_frame(2, 2, i)).collect();
    let events: Vec<DetectionEvent> = (0..101).map(|_| event_with(vec![raw_face(900)])).collect();
    let err = registry
        .process_frames_batch(&frames, &events)
        .unwrap_err();
    assert_eq!(err, PluginError::ProcessingError);
    assert_eq!(registry.get_tracker_status(10).frames_processed, 0);
    assert_eq!(registry.get_tracking_stats().total_faces_detected, 0);
}

#[test]
fn full_batch_processes_all_frames_in_input_order() {
    let mut registry = initialized_registry(0);
    let frames: Vec<CameraFrame> = (0..100).map(|i| rgb_frame(2, 2, 1000 + i)).collect();
    let events: Vec<DetectionEvent> = (0..100).map(|_| event_with(vec![raw_face(900)])).collect();
    let results = registry.process_frames_batch(&frames, &events).unwrap();
    assert_eq!(results.len(), 100);
    for (i, faces) in results.iter().enumerate() {
        // Each result carries its own frame's capture timestamp, so the
        // output order is the input order.
        assert_eq!(faces.len(), 1);
        assert_eq!(faces[0].timestamp, 1000 + i as i64);
    }
    assert_eq!(registry.get_tracker_status(10).frames_processed, 100);
    assert_eq!(registry.get_tracking_stats().total_faces_detected, 100);
}

#[test]
fn batch_substitutes_empty_results_for_failed_frames() {
    let mut registry = initialized_registry(0);
    let mut frames = vec![rgb_frame(2, 2, 1), rgb_frame(2, 2, 2), rgb_frame(2, 2, 3)];
    frames[1].image_data = Vec::new(); // invalid mid-batch frame
    let events = vec![
        event_with(vec![raw_face(800)]),
        event_with(vec![raw_face(800)]),
        event_with(vec![raw_face(800)]),
    ];
    let results = registry.process_frames_batch(&frames, &events).unwrap();
    assert_eq!(results.len(), 3);
    assert_eq!(results[0].len(), 1);
    assert_eq!(results[1].len(), 0);
    assert_eq!(results[2].len(), 1);
    assert_eq!(registry.get_tracker_status(10).frames_processed, 2);
}

#[test]
fn average_fps_is_frames_over_elapsed_time() {
    // Five frames over two seconds: 2.5 frames per second, reported in
    // thousandths.
    let mut registry = initialized_registry(0);
    for i in 0..5 {
        registry
            .process_frame(&rgb_frame(2, 2, i), &event_with(vec![]))
            .unwrap();
    }
    let status = registry.get_tracker_status(2000);
    assert_eq!(status.frames_processed, 5);
    assert_eq!(status.average_fps, 2500);
    // Before any time has elapsed the rate reads zero.
    assert_eq!(registry.get_tracker_status(0).average_fps, 0);
}

#[test]
fn average_confidence_is_the_mean_of_the_latest_frame() {
    let mut registry = initialized_registry(0);
    registry
        .process_frame(
            &rgb_frame(2, 2, 0),
            &event_with(vec![raw_face(600), raw_face(800)]),
        )
        .unwrap();
    let stats = registry.get_tracking_stats();
    assert_eq!(stats.total_faces_detected, 2);
    assert_eq!(stats.active_faces, 2);
    assert_eq!(stats.average_confidence, 700);
    assert_eq!(stats.processing_times.detection_ms, 5);
    assert_eq!(stats.processing_times.total_ms, 8);

    // A later empty frame keeps the last average but zeroes the active
    // count.
    registry
        .process_frame(&rgb_frame(2, 2, 1), &event_with(vec![]))
        .unwrap();
    let stats = registry.get_tracking_stats();
    assert_eq!(stats.total_faces_detected, 2);
    assert_eq!(stats.active_faces, 0);
    assert_eq!(stats.average_confidence, 700);
}

#[test]
fn stop_closes_the_stream_and_ends_deliveries() {
    let mut registry = initialized_registry(0);
    let id = registry.start_face_tracking_stream().unwrap();
    assert_eq!(id, 0);

    // While running, a processed frame is delivered to the subscriber.
    registry
        .process_frame(&rgb_frame(2, 2, 7), &event_with(vec![raw_face(900)]))
        .unwrap();
    {
        let session = registry.session.as_ref().unwrap();
        assert!(!session.publisher.is_closed());
        assert_eq!(session.publisher.pending(id).len(), 1);
        assert_eq!(session.publisher.pending(id)[0][0].timestamp, 7);
    }

    // Stop: the subscriber observes closure, and nothing further is
    // delivered even though processing is attempted again.
    registry.stop_tracking().unwrap();
    let err = registry
        .process_frame(&rgb_frame(2, 2, 8), &event_with(vec![raw_face(900)]))
        .unwrap_err();
    assert_eq!(err, PluginError::NotInitializedError);
    let session = registry.session.as_ref().unwrap();
    assert!(session.publisher.is_closed());
    assert_eq!(session.publisher.pending(id).len(), 1);
}

#[test]
fn update_config_replaces_the_session() {
    let mut registry = initialized_registry(0);
    registry
        .process_frame(&rgb_frame(2, 2, 0), &event_with(vec![raw_face(500)]))
        .unwrap();
    assert_eq!(registry.get_tracker_status(1).frames_processed, 1);

    let mut config = TrackerConfig::default();
    config.max_faces = 2;
    registry.update_tracker_config(config, 100).unwrap();
    let status = registry.get_tracker_status(100);
    assert!(status.is_initialized);
    assert_eq!(status.frames_processed, 0);
    assert_eq!(registry.get_tracking_stats().total_faces_detected, 0);
}

#[test]
fn reset_discards_the_session() {
    let mut registry = initialized_registry(0);
    registry.reset_tracker().unwrap();
    let status = registry.get_tracker_status(0);
    assert!(!status.is_initialized);
    assert!(!status.is_running);
    assert_eq!(status.frames_processed, 0);
}

#[test]
fn draining_pending_deliveries_empties_the_queue() {
    let mut registry = initialized_registry(0);
    let id = registry.start_face_tracking_stream().unwrap();
    registry
        .process_frame(&rgb_frame(2, 2, 3), &event_with(vec![raw_face(900)]))
        .unwrap();
    registry
        .process_frame(&rgb_frame(2, 2, 4), &event_with(vec![raw_face(900)]))
        .unwrap();
    let session = registry.session.as_mut().unwrap();
    let drained = session.publisher.take_pending(id);
    assert_eq!(drained.len(), 2);
    assert_eq!(drained[0][0].timestamp, 3);
    assert_eq!(drained[1][0].timestamp, 4);
    assert_eq!(session.publisher.pending(id).len(), 0);
}

#[test]
fn prepare_frame_normalizes_against_the_session() {
    let mut registry = SessionRegistry::new();
    assert_eq!(
        registry.prepare_frame(&rgb_frame(2, 2, 0)).unwrap_err(),
        PluginError::NotInitializedError
    );

    registry
        .initialize_tracker(TrackerConfig::default(), 0)
        .unwrap();
    let img = registry.prepare_frame(&rgb_frame(2, 2, 0)).unwrap();
    assert_eq!(img.width, 2);
    assert_eq!(img.height, 2);
    assert_eq!(img.data.len(), 12);

    registry.stop_tracking().unwrap();
    assert_eq!(
        registry.prepare_frame(&rgb_frame(2, 2, 0)).unwrap_err(),
        PluginError::NotInitializedError
    );
}

#[test]
fn a_stopped_session_cannot_be_restarted() {
    let mut registry = initialized_registry(0);
    registry.stop_tracking().unwrap();
    assert_eq!(
        registry.start_face_tracking_stream().unwrap_err(),
        PluginError::NotInitializedError
    );
    // Re-initializing replaces the stopped session entirely.
    registry
        .initialize_tracker(TrackerConfig::default(), 50)
        .unwrap();
    assert!(registry.start_face_tracking_stream().is_ok());
}
