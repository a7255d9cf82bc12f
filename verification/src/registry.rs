//! The session registry.
//!
//! A process holds at most one active tracking session.  The registry
//! is that holder: it is constructed once at process start and passed
//! to every operation, owns the session exclusively, and governs the
//! create / replace / dispose lifecycle.  A registry with no session is
//! the uninitialized state; every session-bound operation then refuses
//! with `NotInitializedError`.
//!
//! The surrounding runtime serializes access: operations that advance
//! the session take it `&mut`, status queries take it shared.

use vstd::prelude::*;

use crate::models::{
    config_valid, CameraFrame, Face, PluginError, SessionState, TrackerConfig, TrackerStatus,
    TrackingStats,
};
use crate::pixel::NormalizedImage;
use crate::stats::{fps_millis, zero_stats};
use crate::tracker::{
    batch_transition, detection_event_wf, prepare_result, process_transition, DetectionEvent,
    FaceTracker,
};

verus! {

/// Process-wide holder of at most one active tracking session.
pub struct SessionRegistry {
    /// The active session, if one has been initialized.
    pub session: Option<FaceTracker>,
}

impl SessionRegistry {
    /// A registry with no active session: the uninitialized state.
    pub fn new() -> (r: SessionRegistry)
        ensures
            r.session is None,
    {
        SessionRegistry { session: None }
    }

    /// Validate the configuration and install a fresh idle session,
    /// replacing any prior session (which is disposed, releasing its
    /// engine and statistics).  A bad configuration is refused before
    /// anything is touched, so the prior session survives it.
    pub fn initialize_tracker(&mut self, config: TrackerConfig, now_ms: i64) -> (r: Result<
        (),
        PluginError,
    >)
        ensures
            r is Ok <==> config_valid(config),
            !config_valid(config) ==> r == Err::<(), PluginError>(PluginError::ConfigurationError)
                && final(self).session == old(self).session,
            config_valid(config) ==> match final(self).session {
                Some(t) => {
                    &&& t.config == config
                    &&& t.state == SessionState::Idle
                    &&& t.frames_processed == 0
                    &&& t.stats == zero_stats()
                    &&& t.start_time_ms == now_ms
                    &&& t.publisher.queues@.len() == 0
                    &&& !t.publisher.closed
                },
                None => false,
            },
    {
        match FaceTracker::new(config, now_ms) {
            Ok(t) => {
                self.session = Some(t);
                Ok(())
            },
            Err(e) => Err(e),
        }
    }

    /// Validate and normalize a frame against the active session,
    /// without touching any state.
    pub fn prepare_frame(&self, frame: &CameraFrame) -> (r: Result<NormalizedImage, PluginError>)
        ensures
            match self.session {
                None => r == Err::<NormalizedImage, PluginError>(PluginError::NotInitializedError),
                Some(t) => prepare_result(t, frame@, r),
            },
    {
        match &self.session {
            None => Err(PluginError::NotInitializedError),
            Some(t) => t.prepare_frame(frame),
        }
    }

    /// Process a single frame against the active session.
    pub fn process_frame(&mut self, frame: &CameraFrame, event: &DetectionEvent) -> (r: Result<
        Vec<Face>,
        PluginError,
    >)
        requires
            detection_event_wf(*event),
        ensures
            match old(self).session {
                None => r == Err::<Vec<Face>, PluginError>(PluginError::NotInitializedError)
                    && final(self).session is None,
                Some(t0) => match final(self).session {
                    Some(t1) => process_transition(t0, t1, frame@, *event, r),
                    None => false,
                },
            },
    {
        let taken = self.session.take();
        match taken {
            None => Err(PluginError::NotInitializedError),
            Some(mut t) => {
                let r = t.process_frame(frame, event);
                self.session = Some(t);
                r
            },
        }
    }

    /// Process a bounded batch of frames against the active session,
    /// sequentially and in input order.
    pub fn process_frames_batch(
        &mut self,
        frames: &Vec<CameraFrame>,
        events: &Vec<DetectionEvent>,
    ) -> (r: Result<Vec<Vec<Face>>, PluginError>)
        requires
            events@.len() == frames@.len(),
            forall|i: int| 0 <= i < events@.len() ==> detection_event_wf(#[trigger] events@[i]),
        ensures
            match old(self).session {
                None => {
                    &&& final(self).session is None
                    &&& if frames@.len() == 0 {
                        r matches Ok(results) && results@.len() == 0
                    } else if frames@.len() > 100 {
                        r == Err::<Vec<Vec<Face>>, PluginError>(PluginError::ProcessingError)
                    } else {
                        r == Err::<Vec<Vec<Face>>, PluginError>(PluginError::NotInitializedError)
                    }
                },
                Some(t0) => match final(self).session {
                    Some(t1) => batch_transition(t0, t1, frames@, events@, r),
                    None => false,
                },
            },
    {
        if frames.len() == 0 {
            return Ok(Vec::new());
        }
        if frames.len() > 100 {
            return Err(PluginError::ProcessingError);
        }
        let taken = self.session.take();
        match taken {
            None => Err(PluginError::NotInitializedError),
            Some(mut t) => {
                let r = t.process_frames_batch(frames, events);
                self.session = Some(t);
                r
            },
        }
    }

    /// Transition the active session to `Running` and attach one more
    /// stream subscriber; the handle indexes the subscriber's queue.
    pub fn start_face_tracking_stream(&mut self) -> (r: Result<usize, PluginError>)
        ensures
            match old(self).session {
                None => r == Err::<usize, PluginError>(PluginError::NotInitializedError)
                    && final(self).session is None,
                Some(t0) => match final(self).session {
                    Some(t1) => {
                        &&& (r is Err ==> r == Err::<usize, PluginError>(
                            PluginError::NotInitializedError,
                        ) && t0.state == SessionState::Stopped && t1 == t0)
                        &&& (r matches Ok(id) ==> {
                            &&& t0.state != SessionState::Stopped
                            &&& t1.state == SessionState::Running
                            &&& t1.config == t0.config
                            &&& t1.frames_processed == t0.frames_processed
                            &&& t1.stats == t0.stats
                            &&& t1.start_time_ms == t0.start_time_ms
                            &&& t1.publisher.closed == t0.publisher.closed
                            &&& id == t0.publisher.queues@.len()
                            &&& t1.publisher.queues@.len() == t0.publisher.queues@.len() + 1
                            &&& forall|j: int|
                                0 <= j < t0.publisher.queues@.len()
                                    ==> t1.publisher.queues@[j] == t0.publisher.queues@[j]
                            &&& t1.publisher.queues@[id as int]@.len() == 0
                        })
                    },
                    None => false,
                },
            },
    {
        let taken = self.session.take();
        match taken {
            None => Err(PluginError::NotInitializedError),
            Some(mut t) => {
                let r = t.start_stream();
                self.session = Some(t);
                r
            },
        }
    }

    /// Stop the active session: it becomes `Stopped` and its stream is
    /// closed, delivering nothing further; the session itself (engine
    /// and statistics) is retained until disposed or replaced.  With no
    /// session this is a harmless no-op.
    pub fn stop_tracking(&mut self) -> (r: Result<(), PluginError>)
        ensures
            r is Ok,
            match old(self).session {
                None => final(self).session is None,
                Some(t0) => match final(self).session {
                    Some(t1) => {
                        &&& t1.state == SessionState::Stopped
                        &&& t1.publisher.closed
                        &&& t1.publisher.queues@ == t0.publisher.queues@
                        &&& t1.config == t0.config
                        &&& t1.frames_processed == t0.frames_processed
                        &&& t1.stats == t0.stats
                        &&& t1.start_time_ms == t0.start_time_ms
                    },
                    None => false,
                },
            },
    {
        let taken = self.session.take();
        match taken {
            None => Ok(()),
            Some(mut t) => {
                let r = t.stop();
                self.session = Some(t);
                r
            },
        }
    }

    /// Stop whatever session is active and discard it entirely,
    /// returning the registry to the no-session state.
    pub fn reset_tracker(&mut self) -> (r: Result<(), PluginError>)
        ensures
            r is Ok,
            final(self).session is None,
    {
        let taken = self.session.take();
        match taken {
            None => Ok(()),
            Some(mut t) => {
                let r = t.stop();
                r
            },
        }
    }

    /// Dispose of the session and its resources; the registry returns
    /// to the no-session state.
    pub fn dispose(&mut self) -> (r: Result<(), PluginError>)
        ensures
            r is Ok,
            final(self).session is None,
    {
        self.reset_tracker()
    }

    /// Replace the session configuration: stop and dispose the current
    /// session, then initialize a fresh one with the new configuration.
    pub fn update_tracker_config(&mut self, new_config: TrackerConfig, now_ms: i64) -> (r: Result<
        (),
        PluginError,
    >)
        ensures
            r is Ok <==> config_valid(new_config),
            !config_valid(new_config) ==> r == Err::<(), PluginError>(
                PluginError::ConfigurationError,
            ) && final(self).session is None,
            config_valid(new_config) ==> match final(self).session {
                Some(t) => {
                    &&& t.config == new_config
                    &&& t.state == SessionState::Idle
                    &&& t.frames_processed == 0
                    &&& t.stats == zero_stats()
                    &&& t.start_time_ms == now_ms
                },
                None => false,
            },
    {
        let stopped = self.stop_tracking();
        let cleared = self.reset_tracker();
        self.initialize_tracker(new_config, now_ms)
    }

    /// A read-only status snapshot, well-defined even before
    /// initialization.
    pub fn get_tracker_status(&self, now_ms: i64) -> (st: TrackerStatus)
        ensures
            match self.session {
                None => {
                    &&& !st.is_initialized
                    &&& !st.is_running
                    &&& st.frames_processed == 0
                    &&& st.average_fps == 0
                    &&& st.last_error is None
                },
                Some(t) => {
                    &&& st.is_initialized
                    &&& st.is_running == (t.state == SessionState::Running)
                    &&& st.frames_processed == t.frames_processed
                    &&& st.average_fps as int == fps_millis(
                        t.frames_processed,
                        t.start_time_ms,
                        now_ms,
                    )
                    &&& st.last_error is None
                },
            },
    {
        match &self.session {
            None => TrackerStatus {
                is_initialized: false,
                is_running: false,
                frames_processed: 0,
                average_fps: 0,
                last_error: None,
            },
            Some(t) => t.get_status(now_ms),
        }
    }

    /// A read-only statistics snapshot, zeroed when no session exists.
    pub fn get_tracking_stats(&self) -> (st: TrackingStats)
        ensures
            match self.session {
                None => st == zero_stats(),
                Some(t) => st == t.stats,
            },
    {
        match &self.session {
            None => TrackingStats {
                total_faces_detected: 0,
                active_faces: 0,
                average_confidence: 0,
                processing_times: crate::models::ProcessingTimes {
                    detection_ms: 0,
                    landmark_ms: 0,
                    pose_ms: 0,
                    total_ms: 0,
                },
            },
            Some(t) => t.stats,
        }
    }
}

} // verus!
