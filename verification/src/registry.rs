use vstd::prelude::*;

verus! {

use crate::error::FrameError;
use crate::table::Table;
use crate::transform::Transform;

/// The name of a coordinate frame. Frame names and point names are looked up
/// in separate tables, so a frame and a point may share a textual name.
#[derive(Clone, Debug, PartialEq, Eq, Hash)]
pub struct Frame {
    name: String,
}

impl View for Frame {
    type V = Seq<char>;

    closed spec fn view(&self) -> Seq<char> {
        self.name@
    }
}

impl Frame {
    /// Wrap a textual name as a frame name.
    pub fn new(name: &str) -> (r: Frame)
        ensures
            r@ == name@,
    {
        Frame { name: String::from_str(name) }
    }
}

/// The name of a point. Frame names and point names are looked up in
/// separate tables, so a frame and a point may share a textual name.
#[derive(Clone, Debug, PartialEq, Eq, Hash, Default)]
pub struct Point {
    name: String,
}

impl View for Point {
    type V = Seq<char>;

    closed spec fn view(&self) -> Seq<char> {
        self.name@
    }
}

impl Point {
    /// Wrap a textual name as a point name.
    pub fn new(name: &str) -> (r: Point)
        ensures
            r@ == name@,
    {
        Point { name: String::from_str(name) }
    }
}

/// The registry: two independent tables, one binding frame names and one
/// binding point names to placements relative to the single implicit master
/// frame. Entries are registered once and never removed or changed, and a
/// failed operation leaves both tables exactly as they were.
#[derive(Debug)]
pub struct Frames {
    frames: Table,
    points: Table,
}

impl Frames {
    /// The frame table, as a mapping from names to master-relative
    /// placements.
    pub closed spec fn frame_map(self) -> Map<Seq<char>, Transform> {
        self.frames@
    }

    /// The point table, as a mapping from names to master-relative
    /// placements.
    pub closed spec fn point_map(self) -> Map<Seq<char>, Transform> {
        self.points@
    }

    /// An empty registry.
    pub fn new() -> (r: Frames)
        ensures
            r.frame_map() == Map::<Seq<char>, Transform>::empty(),
            r.point_map() == Map::<Seq<char>, Transform>::empty(),
    {
        Frames { frames: Table::new(), points: Table::new() }
    }

    /// Register a frame's master-relative placement under a name.
    ///
    /// Fails with `AlreadyExists`, changing nothing, exactly when the name is
    /// already a registered frame; the point table is never touched.
    pub fn add_frame(&mut self, f: Frame, c: Transform) -> (r: Result<(), FrameError>)
        ensures
            !old(self).frame_map().contains_key(f@) ==> r == Ok::<(), FrameError>(())
                && final(self).frame_map() == old(self).frame_map().insert(f@, c),
            old(self).frame_map().contains_key(f@) ==> r == Err::<(), FrameError>(
                FrameError::AlreadyExists,
            ) && *final(self) == *old(self),
            final(self).point_map() == old(self).point_map(),
    {
        if self.frames.insert(f.name, c) {
            Ok(())
        } else {
            Err(FrameError::AlreadyExists)
        }
    }

    /// Register a point's placement under a name, expressed relative to the
    /// master frame.
    ///
    /// Fails with `AlreadyExists`, changing nothing, exactly when the name is
    /// already a registered point; the frame table is never touched.
    pub fn add_point(&mut self, p: Point, c: Transform) -> (r: Result<(), FrameError>)
        ensures
            !old(self).point_map().contains_key(p@) ==> r == Ok::<(), FrameError>(())
                && final(self).point_map() == old(self).point_map().insert(p@, c),
            old(self).point_map().contains_key(p@) ==> r == Err::<(), FrameError>(
                FrameError::AlreadyExists,
            ) && *final(self) == *old(self),
            final(self).frame_map() == old(self).frame_map(),
    {
        if self.points.insert(p.name, c) {
            Ok(())
        } else {
            Err(FrameError::AlreadyExists)
        }
    }

    /// Register a point whose placement `c` is expressed relative to the
    /// registered frame `f` rather than to the master frame.
    ///
    /// The value stored is the collaborator's composition of `c` with the
    /// frame's placement, computed by `compose(c, placement_of_f)`: the
    /// point's local offset applied first, the frame's placement second,
    /// which brings the point into master coordinates.
    ///
    /// Fails with `CouldNotFindFrame` when `f` is not a registered frame —
    /// that lookup comes first, so it wins over `AlreadyExists` — and with
    /// `AlreadyExists` when the point name is already taken; either failure
    /// changes nothing.
    pub fn add_point_in_context<F: FnOnce(Transform, Transform) -> Transform>(
        &mut self,
        p: Point,
        c: Transform,
        f: Frame,
        compose: F,
    ) -> (r: Result<(), FrameError>)
        requires
            forall|a: Transform, b: Transform| call_requires(compose, (a, b)),
        ensures
            !old(self).frame_map().contains_key(f@) ==> r == Err::<(), FrameError>(
                FrameError::CouldNotFindFrame,
            ) && *final(self) == *old(self),
            old(self).frame_map().contains_key(f@) && old(self).point_map().contains_key(p@)
                ==> r == Err::<(), FrameError>(FrameError::AlreadyExists)
                && *final(self) == *old(self),
            old(self).frame_map().contains_key(f@) && !old(self).point_map().contains_key(p@)
                ==> r == Ok::<(), FrameError>(()) && exists|v: Transform|
                call_ensures(compose, (c, old(self).frame_map()[f@]), v)
                    && final(self).point_map() == old(self).point_map().insert(p@, v),
            final(self).frame_map() == old(self).frame_map(),
    {
        let offset = match self.frames.lookup(&f.name) {
            Some(t) => t,
            None => {
                return Err(FrameError::CouldNotFindFrame);
            },
        };
        let stored = compose(c, offset);
        if self.points.insert(p.name, stored) {
            Ok(())
        } else {
            Err(FrameError::AlreadyExists)
        }
    }

    /// Look up a frame's master-relative placement.
    ///
    /// Fails with `CouldNotFindFrame` exactly when the name is not a
    /// registered frame.
    pub fn get_frame(&self, f: Frame) -> (r: Result<Transform, FrameError>)
        ensures
            self.frame_map().contains_key(f@) ==> r == Ok::<Transform, FrameError>(
                self.frame_map()[f@],
            ),
            !self.frame_map().contains_key(f@) ==> r == Err::<Transform, FrameError>(
                FrameError::CouldNotFindFrame,
            ),
    {
        match self.frames.lookup(&f.name) {
            Some(t) => Ok(t),
            None => Err(FrameError::CouldNotFindFrame),
        }
    }

    /// Look up a point's master-relative placement.
    ///
    /// Fails with `CouldNotFindPoint` exactly when the name is not a
    /// registered point.
    pub fn get_point(&self, p: Point) -> (r: Result<Transform, FrameError>)
        ensures
            self.point_map().contains_key(p@) ==> r == Ok::<Transform, FrameError>(
                self.point_map()[p@],
            ),
            !self.point_map().contains_key(p@) ==> r == Err::<Transform, FrameError>(
                FrameError::CouldNotFindPoint,
            ),
    {
        match self.points.lookup(&p.name) {
            Some(t) => Ok(t),
            None => Err(FrameError::CouldNotFindPoint),
        }
    }

    /// Look up a point's placement expressed relative to the registered frame
    /// `f` instead of the master frame.
    ///
    /// The value returned is the collaborator's difference
    /// `relative_to(placement_of_p, placement_of_f)`: the unique transform
    /// that, composed onto the frame's placement, gives the point's
    /// placement back.
    ///
    /// Fails with `CouldNotFindFrame` when `f` is not a registered frame —
    /// that lookup comes first — and with `CouldNotFindPoint` when `p` is not
    /// a registered point.
    pub fn get_point_in_context<F: FnOnce(Transform, Transform) -> Transform>(
        &self,
        p: Point,
        f: Frame,
        relative_to: F,
    ) -> (r: Result<Transform, FrameError>)
        requires
            forall|a: Transform, b: Transform| call_requires(relative_to, (a, b)),
        ensures
            !self.frame_map().contains_key(f@) ==> r == Err::<Transform, FrameError>(
                FrameError::CouldNotFindFrame,
            ),
            self.frame_map().contains_key(f@) && !self.point_map().contains_key(p@) ==> r
                == Err::<Transform, FrameError>(FrameError::CouldNotFindPoint),
            self.frame_map().contains_key(f@) && self.point_map().contains_key(p@) ==> (r matches
            Ok(v) && call_ensures(
                relative_to,
                (self.point_map()[p@], self.frame_map()[f@]),
                v,
            )),
    {
        let offset = match self.frames.lookup(&f.name) {
            Some(t) => t,
            None => {
                return Err(FrameError::CouldNotFindFrame);
            },
        };
        let placement = match self.points.lookup(&p.name) {
            Some(t) => t,
            None => {
                return Err(FrameError::CouldNotFindPoint);
            },
        };
        Ok(relative_to(placement, offset))
    }
}

impl Default for Frames {
    /// An empty registry.
    fn default() -> (r: Frames)
        ensures
            r.frame_map() == Map::<Seq<char>, Transform>::empty(),
            r.point_map() == Map::<Seq<char>, Transform>::empty(),
    {
        Frames::new()
    }
}

/// Frame and point namespaces are independent: a successful frame
/// registration never touches the point table, so a point can still be
/// registered under the very name the frame took. Here `mid` is the state
/// that `add_frame`'s contract yields for a fresh `name`; by `add_point`'s
/// contract, a point registration under `name` on `mid` succeeds as well.
pub proof fn lemma_namespaces_independent(pre: Frames, mid: Frames, name: Seq<char>, c: Transform)
    requires
        !pre.frame_map().contains_key(name),
        !pre.point_map().contains_key(name),
        mid.frame_map() == pre.frame_map().insert(name, c),
        mid.point_map() == pre.point_map(),
    ensures
        mid.frame_map().contains_key(name),
        !mid.point_map().contains_key(name),
{
}

/// Registering a frame name twice fails the second time and leaves the first
/// placement in force. Here `mid` is the state that `add_frame`'s contract
/// yields for a fresh `name` bound to `first`; because `name` is now a key of
/// the frame table, `add_frame`'s contract makes a second registration return
/// `AlreadyExists` and change nothing, while `get_frame`'s contract still
/// returns `first`.
pub proof fn lemma_reregistration_rejected(
    pre: Frames,
    mid: Frames,
    name: Seq<char>,
    first: Transform,
)
    requires
        !pre.frame_map().contains_key(name),
        mid.frame_map() == pre.frame_map().insert(name, first),
        mid.point_map() == pre.point_map(),
    ensures
        mid.frame_map().contains_key(name),
        mid.frame_map()[name] == first,
{
}

/// Round trip through a frame's context: `mid` is the state that
/// `add_point_in_context`'s contract yields when it stores the composed
/// placement `stored` for point `p` in frame `f`. The frame's placement is
/// unchanged, and `get_point_in_context(p, f, relative_to)` on `mid` finds
/// both names and hands `relative_to` exactly `stored` and that placement. A
/// `relative_to` that undoes the composition with the frame's placement
/// therefore recovers the point's local placement exactly.
pub proof fn lemma_context_round_trip(
    pre: Frames,
    mid: Frames,
    p: Seq<char>,
    f: Seq<char>,
    stored: Transform,
)
    requires
        pre.frame_map().contains_key(f),
        !pre.point_map().contains_key(p),
        mid.frame_map() == pre.frame_map(),
        mid.point_map() == pre.point_map().insert(p, stored),
    ensures
        mid.frame_map().contains_key(f),
        mid.frame_map()[f] == pre.frame_map()[f],
        mid.point_map().contains_key(p),
        mid.point_map()[p] == stored,
{
}

/// A context registration that failed for want of the frame inserts nothing:
/// `add_point_in_context`'s contract leaves the registry exactly as it was,
/// so by `get_point`'s contract a point that was absent before the failed
/// call is still absent after it.
pub proof fn lemma_failed_context_registration_inserts_nothing(
    pre: Frames,
    post: Frames,
    p: Seq<char>,
    f: Seq<char>,
)
    requires
        !pre.frame_map().contains_key(f),
        !pre.point_map().contains_key(p),
        post == pre,
    ensures
        !post.point_map().contains_key(p),
{
}

} // verus!
