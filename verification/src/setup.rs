//! The application interface and the render loop that drives it.
//!
//! The loop is a state machine with two phases. Its owner reads the clock
//! and asks `poll` what is due. When a frame is due the owner polls the
//! sensor if asked to, calls `tick` with the outcome and the cell buffer of
//! the display, flushes the display, and ends the frame with `complete`.
//! The loop itself never waits, reads a clock or touches a device.

use crate::area::ScreenArea;
use crate::sensor::{SensorFault, SensorReading};
use crate::surface::{
    consistent, drawable, painted_all, surface_area, surface_cells, surface_region, try_render,
    SurfaceFault,
};
use crate::widget::{all_legible, node_views, NodeView, WidgetNode};
use ratatui::buffer::Buffer;
use vstd::prelude::*;

verus! {

/// Time between two frames, in the unit of the clock readings handed to the
/// loop, unless the loop is made with another.
pub const DEFAULT_INTERVAL: u64 = 500;

/// Application interface to be implemented by the user.
///
/// `draw` is required of every application. Taking readings of a sensor is
/// a capability that an application has or has not: `polls_sensor` says
/// which, and the loop hands `read_sensor` a sample only where it has.
pub trait App: Sized {
    /// The frame for a display area: the nodes that `draw` returns.
    spec fn scene(&self, area: ScreenArea) -> Seq<NodeView>;

    /// Whether applications of this type take readings of a sensor. The
    /// capability belongs to the type: no state gains or loses it.
    spec fn has_sensor() -> bool;

    /// The state after a reading has been taken in.
    spec fn refreshed(&self, reading: SensorReading) -> Self;

    /// Describes the frame for a display area. The same state and area give
    /// the same nodes.
    fn draw(&self, area: ScreenArea) -> (nodes: Vec<WidgetNode>)
        requires
            area.wf(),
        ensures
            node_views(nodes@) == self.scene(area),
    ;

    /// Whether the loop is to poll the sensor before each frame.
    fn polls_sensor(&self) -> (polls: bool)
        ensures
            polls == Self::has_sensor(),
    ;

    /// Takes in the outcome of one poll of the sensor. A reading refreshes
    /// the state; a fault is handed back for reporting and leaves the state
    /// as it was.
    fn read_sensor(&mut self, sample: Result<SensorReading, SensorFault>) -> (outcome: Result<
        (),
        SensorFault,
    >)
        ensures
            sample matches Ok(reading) ==> outcome is Ok && *final(self) == old(self).refreshed(
                reading,
            ),
            sample matches Err(fault) ==> outcome == Err::<(), SensorFault>(fault) && *final(self)
                == *old(self),
    ;

    /// Starts the render loop for the application, at the default interval,
    /// with `now` as the reading of the clock.
    fn run(self, now: u64) -> (render_loop: RenderLoop<Self>)
        ensures
            render_loop == RenderLoop::started(self, DEFAULT_INTERVAL, now),
    {
        RenderLoop::new(self, DEFAULT_INTERVAL, now)
    }
}

/// The two states of the render loop.
#[derive(Clone, Copy, Debug, PartialEq, Eq, Structural)]
pub enum Phase {
    /// Less than one interval has passed since the last frame.
    Waiting,
    /// The interval has passed; a frame is being made.
    Rendering,
}

/// What the owner of the loop is to do next.
#[derive(Clone, Copy, Debug, PartialEq, Eq, Structural)]
pub enum Step {
    /// Nothing is due.
    Wait,
    /// A frame is due: poll the sensor first if `poll_sensor` says so, then
    /// call `tick`, flush the display and call `complete`.
    Render { poll_sensor: bool },
}

/// The render loop: the application, the interval between frames, the
/// clock reading from which the interval is counted, and the phase.
pub struct RenderLoop<A> {
    pub app: A,
    pub interval: u64,
    pub since: u64,
    pub phase: Phase,
}

/// The time that has passed from `since` to `now`; none if the clock reads
/// less than it did.
pub open spec fn elapsed(since: u64, now: u64) -> int {
    if now >= since {
        now - since
    } else {
        0
    }
}

impl<A> RenderLoop<A> {
    /// The loop as it starts: waiting, the interval counted from `now`.
    pub open spec fn started(app: A, interval: u64, now: u64) -> RenderLoop<A> {
        RenderLoop { app, interval, since: now, phase: Phase::Waiting }
    }

    /// Whether a frame is due at the clock reading `now`: the loop waits,
    /// and a full interval has passed.
    pub open spec fn due(self, now: u64) -> bool {
        self.phase == Phase::Waiting && elapsed(self.since, now) >= self.interval
    }

    /// The loop after it has been asked at `now` what is due.
    pub open spec fn polled(self, now: u64) -> RenderLoop<A> {
        if self.due(now) {
            RenderLoop { phase: Phase::Rendering, ..self }
        } else {
            self
        }
    }

    /// The loop after a frame has ended at `now`.
    pub open spec fn completed(self, now: u64) -> RenderLoop<A> {
        match self.phase {
            Phase::Rendering => RenderLoop { phase: Phase::Waiting, since: now, ..self },
            Phase::Waiting => self,
        }
    }

    /// Makes a loop for an application, with the interval between frames
    /// and the current reading of the clock.
    pub fn new(app: A, interval: u64, now: u64) -> (render_loop: Self)
        ensures
            render_loop == Self::started(app, interval, now),
    {
        RenderLoop { app, interval, since: now, phase: Phase::Waiting }
    }

    /// Ends the frame: a rendering loop goes back to waiting and counts the
    /// next interval from `now`. A waiting loop stays as it is.
    pub fn complete(&mut self, now: u64)
        ensures
            *final(self) == old(self).completed(now),
    {
        match self.phase {
            Phase::Rendering => {
                self.phase = Phase::Waiting;
                self.since = now;
            },
            Phase::Waiting => {},
        }
    }
}

impl<A: App> RenderLoop<A> {
    /// What is due at the clock reading `now`.
    pub open spec fn step_at(self, now: u64) -> Step {
        if self.due(now) {
            Step::Render { poll_sensor: A::has_sensor() }
        } else {
            Step::Wait
        }
    }

    /// The application after the outcome of a poll has been taken in. An
    /// application without a sensor takes nothing in.
    pub open spec fn sampled(app: A, sample: Option<Result<SensorReading, SensorFault>>) -> A {
        match sample {
            Some(Ok(reading)) => if A::has_sensor() {
                app.refreshed(reading)
            } else {
                app
            },
            _ => app,
        }
    }

    /// The fault that a poll ended in, to be reported; none for a reading,
    /// for no poll, and for an application without a sensor.
    pub open spec fn reported(sample: Option<Result<SensorReading, SensorFault>>) -> Option<
        SensorFault,
    > {
        match sample {
            Some(Err(fault)) => if A::has_sensor() {
                Some(fault)
            } else {
                None
            },
            _ => None,
        }
    }

    /// The application after a run of frames, one sample for each frame,
    /// the first frame first.
    pub open spec fn after_frames(
        app: A,
        samples: Seq<Option<Result<SensorReading, SensorFault>>>,
    ) -> A
        decreases samples.len(),
    {
        if samples.len() == 0 {
            app
        } else {
            Self::sampled(Self::after_frames(app, samples.drop_last()), samples.last())
        }
    }

    /// The faults reported over a run of frames, in the order of the frames.
    pub open spec fn reports(samples: Seq<Option<Result<SensorReading, SensorFault>>>) -> Seq<
        SensorFault,
    >
        decreases samples.len(),
    {
        if samples.len() == 0 {
            Seq::empty()
        } else {
            match Self::reported(samples.last()) {
                Some(fault) => Self::reports(samples.drop_last()).push(fault),
                None => Self::reports(samples.drop_last()),
            }
        }
    }

    /// The frames drawn over a run, one for each sample: each frame shows
    /// the application as it is after the samples up to its own.
    pub open spec fn frames(
        app: A,
        samples: Seq<Option<Result<SensorReading, SensorFault>>>,
        area: ScreenArea,
    ) -> Seq<Seq<NodeView>> {
        Seq::new(
            samples.len(),
            |i: int| Self::after_frames(app, samples.take(i + 1)).scene(area),
        )
    }

    /// Decides what is due at the clock reading `now`. A waiting loop whose
    /// interval has passed starts rendering and asks for a frame, once; in
    /// every other case nothing changes and nothing is due.
    pub fn poll(&mut self, now: u64) -> (step: Step)
        ensures
            *final(self) == old(self).polled(now),
            step == old(self).step_at(now),
    {
        let waited: u64 = if now >= self.since {
            now - self.since
        } else {
            0
        };
        match self.phase {
            Phase::Waiting => {
                if waited >= self.interval {
                    self.phase = Phase::Rendering;
                    Step::Render { poll_sensor: self.app.polls_sensor() }
                } else {
                    Step::Wait
                }
            },
            Phase::Rendering => Step::Wait,
        }
    }

    /// Makes the frame that `poll` has asked for: takes in the outcome of
    /// the sensor poll, if there was one and the application has a sensor,
    /// then lets the application describe the frame for the buffer's region
    /// and draws it into the buffer. The loop stays in its rendering phase
    /// until `complete` ends the frame.
    ///
    /// A fault of the sensor is handed back for reporting; the frame is
    /// then drawn from the state as it was. A buffer that cannot be drawn
    /// into is an error, and so is a frame with a node that cannot be
    /// drawn; the buffer is then left untouched.
    pub fn tick(&mut self, sample: Option<Result<SensorReading, SensorFault>>, buf: &mut Buffer) -> (outcome:
        Result<Option<SensorFault>, SurfaceFault>)
        requires
            old(self).phase == Phase::Rendering,
        ensures
            final(self).app == Self::sampled(old(self).app, sample),
            final(self).interval == old(self).interval,
            final(self).since == old(self).since,
            final(self).phase == Phase::Rendering,
            surface_area(*final(buf)) == surface_area(*old(buf)),
            consistent(*old(buf)) && all_legible(final(self).app.scene(surface_area(*old(buf))))
                ==> outcome == Ok::<Option<SensorFault>, SurfaceFault>(Self::reported(sample))
                && surface_cells(*final(buf)) == painted_all(
                surface_cells(*old(buf)),
                surface_area(*old(buf)),
                final(self).app.scene(surface_area(*old(buf))),
            ),
            !drawable(surface_area(*old(buf))) ==> outcome == Err::<
                Option<SensorFault>,
                SurfaceFault,
            >(SurfaceFault::RegionOutOfRange),
            drawable(surface_area(*old(buf))) && !consistent(*old(buf)) ==> outcome == Err::<
                Option<SensorFault>,
                SurfaceFault,
            >(SurfaceFault::CellCountMismatch),
            consistent(*old(buf)) && !all_legible(
                final(self).app.scene(surface_area(*old(buf))),
            ) ==> outcome == Err::<Option<SensorFault>, SurfaceFault>(
                SurfaceFault::IllegibleText,
            ),
            outcome is Ok ==> consistent(*final(buf)),
            outcome is Err ==> surface_cells(*final(buf)) == surface_cells(*old(buf)),
    {
        let mut fault: Option<SensorFault> = None;
        if self.app.polls_sensor() {
            if let Some(polled) = sample {
                if let Err(f) = self.app.read_sensor(polled) {
                    fault = Some(f);
                }
            }
        }
        match surface_region(buf) {
            Ok(area) => {
                let nodes = self.app.draw(area);
                match try_render(&nodes, buf) {
                    Ok(()) => Ok(fault),
                    Err(e) => Err(e),
                }
            },
            Err(e) => Err(e),
        }
    }
}

/// The number of polls in a run that ended in a fault.
pub open spec fn failed_polls(samples: Seq<Option<Result<SensorReading, SensorFault>>>) -> nat
    decreases samples.len(),
{
    if samples.len() == 0 {
        0
    } else {
        failed_polls(samples.drop_last()) + if samples.last() matches Some(Err(_)) {
            1nat
        } else {
            0nat
        }
    }
}

/// Drawing depends on nothing but the state and the area: two frames that
/// `draw` returns for one state and one area are equal, node for node.
pub proof fn lemma_draw_is_deterministic<A: App>(
    app: A,
    area: ScreenArea,
    frame_one: Seq<WidgetNode>,
    frame_two: Seq<WidgetNode>,
)
    requires
        node_views(frame_one) == app.scene(area),
        node_views(frame_two) == app.scene(area),
    ensures
        frame_one.len() == frame_two.len(),
        forall|i: int| 0 <= i < frame_one.len() ==> frame_one[i]@ == frame_two[i]@,
{
    assert(node_views(frame_one).len() == frame_one.len());
    assert(node_views(frame_two).len() == frame_two.len());
    assert forall|i: int| 0 <= i < frame_one.len() implies frame_one[i]@ == frame_two[i]@ by {
        assert(node_views(frame_one)[i] == frame_one[i]@);
        assert(node_views(frame_two)[i] == frame_two[i]@);
    }
}

/// A poll that ends in a fault leaves the application as it was: the frame
/// that follows is the frame that would have been drawn without the poll,
/// and the fault is reported where the application has a sensor.
pub proof fn lemma_fault_changes_nothing<A: App>(app: A, fault: SensorFault, area: ScreenArea)
    ensures
        RenderLoop::<A>::sampled(app, Some(Err(fault))) == app,
        RenderLoop::<A>::sampled(app, Some(Err(fault))).scene(area) == app.scene(area),
        A::has_sensor() ==> RenderLoop::<A>::reported(Some(Err(fault))) == Some(fault),
{
}

/// A reading that an application with a sensor takes in refreshes it, and
/// nothing is reported.
pub proof fn lemma_reading_refreshes<A: App>(app: A, reading: SensorReading)
    requires
        A::has_sensor(),
    ensures
        RenderLoop::<A>::sampled(app, Some(Ok(reading))) == app.refreshed(reading),
        RenderLoop::<A>::reported(Some(Ok(reading))) is None,
{
}

/// One report for each failed poll, and a frame for every sample: over a
/// run of frames an application with a sensor has as many faults reported
/// as polls have failed, one without a sensor has none reported, and
/// either way as many frames are drawn as there are samples, each from
/// the state that the samples so far have left.
pub proof fn lemma_one_report_per_failed_poll<A: App>(
    app: A,
    samples: Seq<Option<Result<SensorReading, SensorFault>>>,
    area: ScreenArea,
)
    ensures
        A::has_sensor() ==> RenderLoop::<A>::reports(samples).len() == failed_polls(samples),
        !A::has_sensor() ==> RenderLoop::<A>::reports(samples).len() == 0,
        RenderLoop::<A>::frames(app, samples, area).len() == samples.len(),
        forall|i: int|
            0 <= i < samples.len() ==> #[trigger] RenderLoop::<A>::frames(app, samples, area)[i]
                == RenderLoop::<A>::sampled(
                RenderLoop::<A>::after_frames(app, samples.take(i)),
                samples[i],
            ).scene(area),
    decreases samples.len(),
{
    if samples.len() > 0 {
        lemma_one_report_per_failed_poll(app, samples.drop_last(), area);
    }
    assert forall|i: int| 0 <= i < samples.len() implies #[trigger] RenderLoop::<A>::frames(
        app,
        samples,
        area,
    )[i] == RenderLoop::<A>::sampled(
        RenderLoop::<A>::after_frames(app, samples.take(i)),
        samples[i],
    ).scene(area) by {
        assert(samples.take(i + 1).drop_last() == samples.take(i));
        assert(samples.take(i + 1).last() == samples[i]);
    }
}

/// One frame for each interval: once a frame is due the loop asks for it
/// once and for no other until the frame has ended, and from then on the
/// next frame is due exactly when a full interval has passed since the end.
pub proof fn lemma_one_frame_per_interval<A: App>(
    render_loop: RenderLoop<A>,
    now: u64,
    later: u64,
    end: u64,
    next: u64,
)
    requires
        render_loop.due(now),
    ensures
        render_loop.step_at(now) is Render,
        render_loop.polled(now).step_at(later) == Step::Wait,
        render_loop.polled(now).polled(later) == render_loop.polled(now),
        render_loop.polled(now).completed(end).phase == Phase::Waiting,
        render_loop.polled(now).completed(end).due(next) <==> elapsed(end, next)
            >= render_loop.interval,
{
}

} // verus!
