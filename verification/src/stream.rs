//! The push stream of per-frame results.
//!
//! A single writer - the session - forwards every result list produced
//! while the session is running to zero or more subscribers.  Each
//! subscriber owns an unbounded pending-delivery queue; result lists are
//! appended in processing order.  Closing the publisher is an explicit,
//! final signal: a closed publisher never changes a queue again, so a
//! subscriber observes end-of-stream deterministically rather than by
//! timeout.

use vstd::prelude::*;

use crate::models::{faces_view, Face, FaceView, FacialLandmarks, Point2D};

verus! {

/// Copy a vector of landmark points.
pub(crate) fn copy_points(v: &Vec<Point2D>) -> (r: Vec<Point2D>)
    ensures
        r@ == v@,
{
    let mut out: Vec<Point2D> = Vec::new();
    let mut i: usize = 0;
    while i < v.len()
        invariant
            i <= v@.len(),
            out@ == v@.take(i as int),
        decreases v@.len() - i,
    {
        out.push(v[i]);
        proof {
            assert(out@ =~= v@.take(i + 1));
        }
        i = i + 1;
    }
    proof {
        assert(v@.take(v@.len() as int) =~= v@);
    }
    out
}

/// Copy a vector of per-landmark confidences.
pub(crate) fn copy_confidences(v: &Vec<u32>) -> (r: Vec<u32>)
    ensures
        r@ == v@,
{
    let mut out: Vec<u32> = Vec::new();
    let mut i: usize = 0;
    while i < v.len()
        invariant
            i <= v@.len(),
            out@ == v@.take(i as int),
        decreases v@.len() - i,
    {
        out.push(v[i]);
        proof {
            assert(out@ =~= v@.take(i + 1));
        }
        i = i + 1;
    }
    proof {
        assert(v@.take(v@.len() as int) =~= v@);
    }
    out
}

/// Copy one face.  The copy has the same mathematical value.
pub fn copy_face(f: &Face) -> (r: Face)
    ensures
        r@ == f@,
{
    Face {
        id: f.id,
        bounding_box: f.bounding_box,
        confidence: f.confidence,
        landmarks: match &f.landmarks {
            Some(lm) => Some(
                FacialLandmarks {
                    points: copy_points(&lm.points),
                    confidences: copy_confidences(&lm.confidences),
                },
            ),
            None => None,
        },
        pose: f.pose,
        gaze: f.gaze,
        timestamp: f.timestamp,
    }
}

/// Copy a face list.  The copy has the same mathematical value.
pub fn copy_faces(faces: &Vec<Face>) -> (r: Vec<Face>)
    ensures
        faces_view(r@) == faces_view(faces@),
        r@.len() == faces@.len(),
{
    let mut out: Vec<Face> = Vec::new();
    let mut i: usize = 0;
    while i < faces.len()
        invariant
            i <= faces@.len(),
            out@.len() == i,
            forall|j: int| 0 <= j < i ==> (#[trigger] out@[j])@ == faces@[j]@,
        decreases faces@.len() - i,
    {
        let c = copy_face(&faces[i]);
        out.push(c);
        i = i + 1;
    }
    proof {
        assert(faces_view(out@) =~= faces_view(faces@));
    }
    out
}

/// Single-writer, multi-subscriber push stream with per-subscriber
/// unbounded queues and an explicit close signal.
pub struct StreamPublisher {
    /// One pending-delivery queue per subscriber, in subscription order.
    pub queues: Vec<Vec<Vec<Face>>>,
    /// Whether the stream has been closed.
    pub closed: bool,
}

/// The model of one subscriber queue: the faces of each undelivered
/// result list, oldest first.
pub open spec fn queue_view(q: Seq<Vec<Face>>) -> Seq<Seq<FaceView>> {
    q.map_values(|v: Vec<Face>| faces_view(v@))
}

impl StreamPublisher {
    /// A fresh, open publisher with no subscribers.
    pub fn new() -> (r: StreamPublisher)
        ensures
            r.queues@.len() == 0,
            !r.closed,
    {
        StreamPublisher { queues: Vec::new(), closed: false }
    }

    /// Attach one more subscriber; its handle is its queue index.
    pub fn subscribe(&mut self) -> (id: usize)
        ensures
            final(self).closed == old(self).closed,
            id == old(self).queues@.len(),
            final(self).queues@.len() == old(self).queues@.len() + 1,
            forall|j: int|
                0 <= j < old(self).queues@.len() ==> final(self).queues@[j] == old(
                    self,
                ).queues@[j],
            final(self).queues@[id as int]@.len() == 0,
    {
        let id = self.queues.len();
        self.queues.push(Vec::new());
        id
    }

    /// Forward one result list to every subscriber, unless the stream is
    /// closed: a closed publisher delivers nothing further.
    pub fn publish(&mut self, faces: &Vec<Face>)
        ensures
            final(self).closed == old(self).closed,
            final(self).queues@.len() == old(self).queues@.len(),
            old(self).closed ==> final(self).queues@ == old(self).queues@,
            !old(self).closed ==> forall|j: int|
                0 <= j < old(self).queues@.len() ==> queue_view(
                    #[trigger] final(self).queues@[j]@,
                ) == queue_view(old(self).queues@[j]@).push(faces_view(faces@)),
    {
        if self.closed {
            return ;
        }
        let n = self.queues.len();
        let mut j: usize = 0;
        while j < n
            invariant
                j <= n,
                n == self.queues@.len(),
                n == old(self).queues@.len(),
                self.closed == old(self).closed,
                forall|k: int|
                    j <= k < n ==> #[trigger] self.queues@[k] == old(self).queues@[k],
                forall|k: int|
                    0 <= k < j ==> queue_view(#[trigger] self.queues@[k]@) == queue_view(
                        old(self).queues@[k]@,
                    ).push(faces_view(faces@)),
            decreases n - j,
        {
            let copy = copy_faces(faces);
            let mut q = self.queues.remove(j);
            q.push(copy);
            self.queues.insert(j, q);
            proof {
                assert(queue_view(self.queues@[j as int]@) =~= queue_view(
                    old(self).queues@[j as int]@,
                ).push(faces_view(faces@)));
            }
            j = j + 1;
        }
    }

    /// Close the stream.  The queues keep whatever was already pending,
    /// and nothing is published afterwards.
    pub fn close(&mut self)
        ensures
            final(self).closed,
            final(self).queues@ == old(self).queues@,
    {
        self.closed = true;
    }

    /// How many subscribers are attached.
    pub fn subscriber_count(&self) -> (n: usize)
        ensures
            n == self.queues@.len(),
    {
        self.queues.len()
    }

    /// Whether the stream has been closed.
    pub fn is_closed(&self) -> (b: bool)
        ensures
            b == self.closed,
    {
        self.closed
    }

    /// The pending deliveries of one subscriber, oldest first.
    pub fn pending(&self, id: usize) -> (q: &Vec<Vec<Face>>)
        requires
            id < self.queues@.len(),
        ensures
            *q == self.queues@[id as int],
    {
        &self.queues[id]
    }

    /// Hand over and clear one subscriber's pending deliveries: what
    /// comes out is exactly what was queued, oldest first, and the
    /// queue is empty afterwards.  The other queues and the close flag
    /// are untouched.
    pub fn take_pending(&mut self, id: usize) -> (r: Vec<Vec<Face>>)
        requires
            id < old(self).queues@.len(),
        ensures
            r == old(self).queues@[id as int],
            final(self).closed == old(self).closed,
            final(self).queues@.len() == old(self).queues@.len(),
            final(self).queues@[id as int]@.len() == 0,
            forall|j: int|
                0 <= j < old(self).queues@.len() && j != id ==> final(self).queues@[j] == old(
                    self,
                ).queues@[j],
    {
        let taken = self.queues.remove(id);
        self.queues.insert(id, Vec::new());
        taken
    }
}

} // verus!
