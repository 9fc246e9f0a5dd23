use vstd::prelude::*;

use crate::render::{
    artist_plan, artists_plan_to, body_plan, figure_axes_plan_to, frame_plan, line_plan,
    line_trace, make_pen, pen_for, push_segment_ops, push_stroke_ops, push_text_ops, segment_ops,
    CanvasOp, WindowConfig,
};
use crate::scene::{Artist, Figure, LineArtist};

verus! {

/// The lifecycle state of one render invocation.
#[derive(Clone, Copy, Debug, PartialEq, Eq, Structural)]
pub enum DriverState {
    /// Constructed; no canvas exists yet.
    Uninitialized,
    /// The canvas exists and frames are being driven.
    Open,
    /// The surface asked to close, or a frame faulted: no further artist is
    /// rendered, and the canvas is to be released.
    Closing,
    /// The canvas has been released.  Absorbing: a new render invocation
    /// constructs a fresh driver.
    Terminated,
}

/// Where inside the current frame the driver stands.
#[derive(Clone, Copy, Debug, PartialEq, Eq, Structural)]
enum Cursor {
    /// Between frames.
    Idle,
    /// The path-create for the line artist at this (plot area, artist)
    /// position went out; its outcome has not been reported yet.
    AwaitPath { ax: usize, ar: usize },
    /// The pen-create for the line artist at this position went out; its
    /// outcome has not been reported yet.
    AwaitPen { ax: usize, ar: usize },
}

/// What the embedding must do next.
#[derive(Debug)]
pub enum Step {
    /// Execute the commands in order.  The last one is a resource creation:
    /// report its outcome through `resume`.
    Ops(Vec<CanvasOp>),
    /// Execute the commands in order; the frame is then complete and
    /// presented.  Poll the surface for a close request and call
    /// `begin_frame` next.
    Finish(Vec<CanvasOp>),
    /// The surface asked to close.  Release the canvas and report it
    /// through `canvas_released`.
    Closed,
    /// A resource creation failed.  Execute the commands (they release
    /// whatever the faulting artist still holds), then release the canvas,
    /// report it through `canvas_released`, and surface the fault.
    Fault(Vec<CanvasOp>),
}

/// The artist at a position of the figure's scene.
pub open spec fn artist_at(fig: Figure, ax: int, ar: int) -> Artist {
    fig.axes@[ax].artists@[ar]
}

/// Does this position name a line artist that really draws (2 or more
/// points)?
pub open spec fn valid_line_pos(fig: Figure, ax: int, ar: int) -> bool {
    &&& 0 <= ax < fig.axes@.len()
    &&& 0 <= ar < fig.axes@[ax].artists@.len()
    &&& artist_at(fig, ax, ar) is Line
    &&& line_at(fig, ax, ar).points@.len() >= 2
}

/// The line artist at a position (arbitrary where the position does not
/// name one).
pub open spec fn line_at(fig: Figure, ax: int, ar: int) -> LineArtist {
    match artist_at(fig, ax, ar) {
        Artist::Line(l) => l,
        _ => arbitrary(),
    }
}

/// Does position (`ax1`, `ar1`) come strictly before (`ax2`, `ar2`) in the
/// scene traversal (plot areas in order, artists in order within one)?
pub open spec fn pos_before(ax1: int, ar1: int, ax2: int, ar2: int) -> bool {
    ax1 < ax2 || (ax1 == ax2 && ar1 < ar2)
}

/// Traversal order, allowing equality.
pub open spec fn pos_le(ax1: int, ar1: int, ax2: int, ar2: int) -> bool {
    pos_before(ax1, ar1, ax2, ar2) || (ax1 == ax2 && ar1 == ar2)
}

/// The two commands every frame opens with.
pub open spec fn frame_start(fig: Figure) -> Seq<CanvasOp> {
    seq![CanvasOp::BeginFrame, CanvasOp::Clear(fig.face_color)]
}

/// Everything a frame has emitted when the traversal stands just before
/// artist `ar` of plot area `ax` (or, with `ax` past the last area, when
/// the whole scene is painted).
pub open spec fn frame_prefix(fig: Figure, ax: int, ar: int) -> Seq<CanvasOp> {
    if ax < fig.axes@.len() {
        frame_start(fig) + figure_axes_plan_to(fig.axes@, ax) + artists_plan_to(
            fig.axes@[ax].artists@,
            ar,
        )
    } else {
        frame_start(fig) + body_plan(fig)
    }
}

/// Everything a frame has emitted while the path-create of the line at
/// (`ax`, `ar`) awaits its outcome.
pub open spec fn await_path_emitted(fig: Figure, ax: int, ar: int) -> Seq<CanvasOp> {
    frame_prefix(fig, ax, ar) + seq![CanvasOp::CreatePath]
}

/// Everything a frame has emitted while the pen-create of the line at
/// (`ax`, `ar`) awaits its outcome: the path was created, its contour is
/// complete.
pub open spec fn await_pen_emitted(fig: Figure, ax: int, ar: int) -> Seq<CanvasOp> {
    await_path_emitted(fig, ax, ar) + segment_ops(line_at(fig, ax, ar).points@) + seq![
        CanvasOp::CreatePen(pen_for(line_at(fig, ax, ar))),
    ]
}

/// The frame driver: translates one figure, frame by frame, into canvas
/// commands.  It owns every decision; the embedding only executes commands
/// and reports back resource-creation outcomes and close requests.
pub struct FrameDriver {
    figure: Figure,
    state: DriverState,
    cursor: Cursor,
    emitted: Ghost<Seq<CanvasOp>>,
}

impl FrameDriver {
    /// The scene this driver renders.
    pub closed spec fn figure(&self) -> Figure {
        self.figure
    }

    /// The lifecycle state.
    pub closed spec fn state(&self) -> DriverState {
        self.state
    }

    /// The commands handed out since the current frame began.
    pub closed spec fn emitted(&self) -> Seq<CanvasOp> {
        self.emitted@
    }

    /// The plot-area index of the artist whose resource creation is
    /// pending.
    pub closed spec fn cur_ax(&self) -> int {
        match self.cursor {
            Cursor::Idle => 0,
            Cursor::AwaitPath { ax, ar } => ax as int,
            Cursor::AwaitPen { ax, ar } => ax as int,
        }
    }

    /// The artist index of the artist whose resource creation is pending.
    pub closed spec fn cur_ar(&self) -> int {
        match self.cursor {
            Cursor::Idle => 0,
            Cursor::AwaitPath { ax, ar } => ar as int,
            Cursor::AwaitPen { ax, ar } => ar as int,
        }
    }

    /// A path-create outcome is pending.
    pub closed spec fn awaiting_path(&self) -> bool {
        self.cursor is AwaitPath
    }

    /// A pen-create outcome is pending.
    pub closed spec fn awaiting_pen(&self) -> bool {
        self.cursor is AwaitPen
    }

    /// Internal consistency: what the cursor claims matches what has been
    /// emitted.
    closed spec fn inv(&self) -> bool {
        &&& (!(self.state is Open) ==> self.cursor is Idle)
        &&& match self.cursor {
            Cursor::Idle => true,
            Cursor::AwaitPath { ax, ar } => {
                &&& valid_line_pos(self.figure, ax as int, ar as int)
                &&& self.emitted@ == await_path_emitted(self.figure, ax as int, ar as int)
            },
            Cursor::AwaitPen { ax, ar } => {
                &&& valid_line_pos(self.figure, ax as int, ar as int)
                &&& self.emitted@ == await_pen_emitted(self.figure, ax as int, ar as int)
            },
        }
    }

    /// Constructed, canvas not yet requested.
    pub closed spec fn is_uninit(&self) -> bool {
        self.state is Uninitialized && self.cursor is Idle
    }

    /// Between frames: ready for `begin_frame`.
    pub closed spec fn ready_for_frame(&self) -> bool {
        self.state is Open && self.cursor is Idle
    }

    /// Mid-frame: a resource-creation outcome must be reported through
    /// `resume`.
    pub closed spec fn awaiting(&self) -> bool {
        self.state is Open && !(self.cursor is Idle) && self.inv()
    }

    /// The canvas is still to be released through `canvas_released`.
    pub closed spec fn is_closing(&self) -> bool {
        self.state is Closing && self.cursor is Idle
    }

    /// The lifecycle state, as a value.
    pub fn current_state(&self) -> (s: DriverState)
        ensures
            s == self.state(),
    {
        self.state
    }

    /// A fresh driver for one render invocation of `figure`.
    pub fn new(figure: Figure) -> (d: FrameDriver)
        requires
            figure.wf(),
        ensures
            d.is_uninit(),
            d.figure() == figure,
    {
        FrameDriver {
            figure,
            state: DriverState::Uninitialized,
            cursor: Cursor::Idle,
            emitted: Ghost(Seq::empty()),
        }
    }

    /// The surface configuration this figure asks for: its pixel size, a
    /// resizable window, vsync on.
    pub fn window_config(&self) -> (c: WindowConfig)
        ensures
            c == (WindowConfig {
                width: self.figure().size_pixels.0,
                height: self.figure().size_pixels.1,
                resizable: true,
                vsync: true,
            }),
    {
        WindowConfig {
            width: self.figure.size_pixels.0,
            height: self.figure.size_pixels.1,
            resizable: true,
            vsync: true,
        }
    }

    /// Report whether the canvas could be created.  Failure is fatal for
    /// this render invocation: the driver terminates and the embedding
    /// surfaces the fault; there is no retry.
    pub fn canvas_created(&mut self, ok: bool)
        requires
            old(self).is_uninit(),
        ensures
            final(self).figure() == old(self).figure(),
            ok ==> final(self).ready_for_frame(),
            !ok ==> final(self).state() == DriverState::Terminated,
    {
        if ok {
            self.state = DriverState::Open;
        } else {
            self.state = DriverState::Terminated;
        }
    }

    /// Start the next frame, handing in the close-request poll taken at the
    /// frame boundary.  On close nothing further is rendered.  Otherwise
    /// the returned commands open the frame, clear to the figure's face
    /// color and paint the scene in draw order, stopping at the first
    /// resource creation (whose outcome `resume` then takes) or, if none is
    /// needed, running through the frame's present.
    pub fn begin_frame(&mut self, close_requested: bool) -> (step: Step)
        requires
            old(self).ready_for_frame(),
        ensures
            final(self).figure() == old(self).figure(),
            close_requested ==> step is Closed && final(self).is_closing(),
            !close_requested ==> match step {
                Step::Ops(v) => {
                    &&& final(self).awaiting()
                    &&& final(self).awaiting_path()
                    &&& !final(self).awaiting_pen()
                    &&& valid_line_pos(
                        old(self).figure(),
                        final(self).cur_ax(),
                        final(self).cur_ar(),
                    )
                    &&& (forall|a: int, r2: int|
                        pos_before(a, r2, final(self).cur_ax(), final(self).cur_ar())
                            ==> !valid_line_pos(old(self).figure(), a, r2))
                    &&& v@ == await_path_emitted(
                        old(self).figure(),
                        final(self).cur_ax(),
                        final(self).cur_ar(),
                    )
                    &&& final(self).emitted() == v@
                },
                Step::Finish(v) => {
                    &&& final(self).ready_for_frame()
                    &&& (forall|a: int, r2: int| !valid_line_pos(old(self).figure(), a, r2))
                    &&& v@ == frame_plan(old(self).figure())
                    &&& final(self).emitted() == v@
                },
                Step::Closed => false,
                Step::Fault(v) => false,
            },
    {
        if close_requested {
            self.state = DriverState::Closing;
            return Step::Closed;
        }
        let mut ops: Vec<CanvasOp> = Vec::new();
        ops.push(CanvasOp::BeginFrame);
        ops.push(CanvasOp::Clear(self.figure.face_color));
        proof {
            assert(ops@ =~= frame_prefix(self.figure, 0, 0));
        }
        let r = advance(&self.figure, 0, 0, &mut ops, Ghost(Seq::empty()));
        match r {
            Some((ax, ar)) => {
                self.cursor = Cursor::AwaitPath { ax, ar };
                self.emitted = Ghost(ops@);
                Step::Ops(ops)
            },
            None => {
                self.cursor = Cursor::Idle;
                self.emitted = Ghost(ops@);
                proof {
                    assert(ops@ =~= frame_plan(self.figure));
                }
                Step::Finish(ops)
            },
        }
    }

    /// Report the outcome of the pending resource creation.  On success the
    /// frame goes on: the path's contour and pen, the stroke and the
    /// releases, then the following artists, again stopping at the next
    /// resource creation or running through the frame's present.  On
    /// failure the frame is abandoned: whatever the faulting artist still
    /// holds is released (a path acquired before a failing pen gets its
    /// destroy), no later artist is rendered, and the invocation closes.
    pub fn resume(&mut self, create_ok: bool) -> (step: Step)
        requires
            old(self).awaiting(),
        ensures
            final(self).figure() == old(self).figure(),
            match step {
                Step::Ops(v) => {
                    &&& create_ok
                    &&& final(self).awaiting()
                    &&& (final(self).awaiting_path() || final(self).awaiting_pen())
                    &&& final(self).emitted() == old(self).emitted() + v@
                    &&& valid_line_pos(
                        old(self).figure(),
                        final(self).cur_ax(),
                        final(self).cur_ar(),
                    )
                    &&& (old(self).awaiting_path() ==> final(self).awaiting_pen()
                        && !final(self).awaiting_path()
                        && final(self).cur_ax() == old(self).cur_ax()
                        && final(self).cur_ar() == old(self).cur_ar()
                        && v@ == segment_ops(
                        line_at(old(self).figure(), old(self).cur_ax(), old(self).cur_ar()).points@,
                    ) + seq![
                        CanvasOp::CreatePen(
                            pen_for(
                                line_at(old(self).figure(), old(self).cur_ax(), old(self).cur_ar()),
                            ),
                        ),
                    ])
                    &&& (old(self).awaiting_pen() ==> final(self).awaiting_path()
                        && !final(self).awaiting_pen() && pos_before(
                        old(self).cur_ax(),
                        old(self).cur_ar(),
                        final(self).cur_ax(),
                        final(self).cur_ar(),
                    ) && (forall|a: int, r2: int|
                        pos_before(old(self).cur_ax(), old(self).cur_ar(), a, r2) && pos_before(
                            a,
                            r2,
                            final(self).cur_ax(),
                            final(self).cur_ar(),
                        ) ==> !valid_line_pos(old(self).figure(), a, r2)))
                    &&& (final(self).awaiting_path() ==> final(self).emitted()
                        == await_path_emitted(
                        old(self).figure(),
                        final(self).cur_ax(),
                        final(self).cur_ar(),
                    ))
                    &&& (final(self).awaiting_pen() ==> final(self).emitted()
                        == await_pen_emitted(
                        old(self).figure(),
                        final(self).cur_ax(),
                        final(self).cur_ar(),
                    ))
                },
                Step::Finish(v) => {
                    &&& create_ok
                    &&& old(self).awaiting_pen()
                    &&& final(self).ready_for_frame()
                    &&& final(self).emitted() == old(self).emitted() + v@
                    &&& final(self).emitted() == frame_plan(old(self).figure())
                    &&& (forall|a: int, r2: int|
                        pos_before(old(self).cur_ax(), old(self).cur_ar(), a, r2)
                            ==> !valid_line_pos(old(self).figure(), a, r2))
                },
                Step::Fault(v) => {
                    &&& !create_ok
                    &&& final(self).is_closing()
                    &&& final(self).emitted() == old(self).emitted() + v@
                    &&& (old(self).awaiting_path() ==> v@ == Seq::<CanvasOp>::empty() && final(self).emitted() == frame_prefix(old(self).figure(), old(self).cur_ax(), old(self).cur_ar()) + line_trace(line_at(old(self).figure(), old(self).cur_ax(), old(self).cur_ar()), false, false))
                    &&& (old(self).awaiting_pen() ==> v@ == seq![CanvasOp::DestroyPath] && final(self).emitted() == frame_prefix(old(self).figure(), old(self).cur_ax(), old(self).cur_ar()) + line_trace(line_at(old(self).figure(), old(self).cur_ax(), old(self).cur_ar()), true, false))
                },
                Step::Closed => false,
            },
    {
        let cursor = self.cursor;
        match cursor {
            Cursor::Idle => {
                proof {
                    assert(false);
                }
                Step::Closed
            },
            Cursor::AwaitPath { ax, ar } => {
                if create_ok {
                    let mut ops: Vec<CanvasOp> = Vec::new();
                    match &self.figure.axes[ax].artists[ar] {
                        Artist::Line(line) => {
                            push_segment_ops(line, &mut ops);
                            ops.push(CanvasOp::CreatePen(make_pen(line)));
                        },
                        Artist::Text(_) => {
                            proof {
                                assert(false);
                            }
                        },
                        Artist::Unknown => {
                            proof {
                                assert(false);
                            }
                        },
                    }
                    self.cursor = Cursor::AwaitPen { ax, ar };
                    self.emitted = Ghost(self.emitted@ + ops@);
                    proof {
                        assert(self.emitted@ =~= await_pen_emitted(
                            self.figure,
                            ax as int,
                            ar as int,
                        ));
                    }
                    Step::Ops(ops)
                } else {
                    self.state = DriverState::Closing;
                    self.cursor = Cursor::Idle;
                    proof {
                        assert(self.emitted@ =~= frame_prefix(self.figure, ax as int, ar as int)
                            + line_trace(line_at(self.figure, ax as int, ar as int), false, false));
                        assert(self.emitted@ =~= self.emitted@ + Seq::<CanvasOp>::empty());
                    }
                    Step::Fault(Vec::new())
                }
            },
            Cursor::AwaitPen { ax, ar } => {
                if create_ok {
                    let mut ops: Vec<CanvasOp> = Vec::new();
                    match &self.figure.axes[ax].artists[ar] {
                        Artist::Line(line) => {
                            push_stroke_ops(line, &mut ops);
                        },
                        Artist::Text(_) => {
                            proof {
                                assert(false);
                            }
                        },
                        Artist::Unknown => {
                            proof {
                                assert(false);
                            }
                        },
                    }
                    proof {
                        let fig = self.figure;
                        let arts = fig.axes@[ax as int].artists@;
                        assert(artists_plan_to(arts, ar as int + 1) == artists_plan_to(
                            arts,
                            ar as int,
                        ) + artist_plan(arts[ar as int]));
                        assert(self.emitted@ + ops@ =~= frame_prefix(fig, ax as int, ar as int + 1));
                    }
                    let artists_len = self.figure.axes[ax].artists.len();
                    proof {
                        assert(ar < artists_len);
                    }
                    let r = advance(
                        &self.figure,
                        ax,
                        ar + 1,
                        &mut ops,
                        Ghost(self.emitted@),
                    );
                    let ghost old_emitted = self.emitted@;
                    match r {
                        Some((nax, nar)) => {
                            self.cursor = Cursor::AwaitPath { ax: nax, ar: nar };
                            self.emitted = Ghost(old_emitted + ops@);
                            proof {
                                assert(self.emitted@ =~= await_path_emitted(
                                    self.figure,
                                    nax as int,
                                    nar as int,
                                ));
                            }
                            Step::Ops(ops)
                        },
                        None => {
                            self.cursor = Cursor::Idle;
                            self.emitted = Ghost(old_emitted + ops@);
                            proof {
                                assert(self.emitted@ =~= frame_plan(self.figure));
                            }
                            Step::Finish(ops)
                        },
                    }
                } else {
                    let mut ops: Vec<CanvasOp> = Vec::new();
                    ops.push(CanvasOp::DestroyPath);
                    self.state = DriverState::Closing;
                    self.cursor = Cursor::Idle;
                    self.emitted = Ghost(self.emitted@ + ops@);
                    proof {
                        assert(self.emitted@ =~= frame_prefix(self.figure, ax as int, ar as int)
                            + line_trace(line_at(self.figure, ax as int, ar as int), true, false));
                        assert(ops@ =~= seq![CanvasOp::DestroyPath]);
                    }
                    Step::Fault(ops)
                }
            },
        }
    }

    /// Report that the canvas has been released.  The driver is then
    /// terminated for good.
    pub fn canvas_released(&mut self)
        requires
            old(self).is_closing(),
        ensures
            final(self).figure() == old(self).figure(),
            final(self).state() == DriverState::Terminated,
    {
        self.state = DriverState::Terminated;
    }
}

/// Walk the scene from the given position, appending the commands of every
/// artist that needs no resource (texts and degenerate lines), until either
/// a line that really draws is reached — its path-create is appended and
/// its position returned — or the scene ends and the frame's present is
/// appended.
fn advance(
    fig: &Figure,
    ax0: usize,
    ar0: usize,
    ops: &mut Vec<CanvasOp>,
    Ghost(prior): Ghost<Seq<CanvasOp>>,
) -> (r: Option<(usize, usize)>)
    requires
        (ax0 as int) <= fig.axes@.len(),
        (ax0 as int) < fig.axes@.len() ==> (ar0 as int) <= fig.axes@[ax0 as int].artists@.len(),
        (ax0 as int) == fig.axes@.len() ==> ar0 == 0,
        prior + old(ops)@ == frame_prefix(*fig, ax0 as int, ar0 as int),
    ensures
        match r {
            Some(pos) => {
                &&& valid_line_pos(*fig, pos.0 as int, pos.1 as int)
                &&& prior + final(ops)@ == await_path_emitted(*fig, pos.0 as int, pos.1 as int)
                &&& pos_le(ax0 as int, ar0 as int, pos.0 as int, pos.1 as int)
                &&& forall|a: int, r2: int|
                    pos_le(ax0 as int, ar0 as int, a, r2) && pos_before(
                        a,
                        r2,
                        pos.0 as int,
                        pos.1 as int,
                    ) ==> !valid_line_pos(*fig, a, r2)
            },
            None => {
                &&& prior + final(ops)@ == frame_plan(*fig)
                &&& forall|a: int, r2: int|
                    pos_le(ax0 as int, ar0 as int, a, r2) ==> !valid_line_pos(*fig, a, r2)
            },
        },
{
    let mut ax = ax0;
    let mut ar = ar0;
    loop
        invariant
            (ax as int) <= fig.axes@.len(),
            (ax as int) < fig.axes@.len() ==> (ar as int) <= fig.axes@[ax as int].artists@.len(),
            (ax as int) == fig.axes@.len() ==> ar == 0,
            prior + ops@ == frame_prefix(*fig, ax as int, ar as int),
            pos_le(ax0 as int, ar0 as int, ax as int, ar as int),
            forall|a: int, r2: int|
                pos_le(ax0 as int, ar0 as int, a, r2) && pos_before(a, r2, ax as int, ar as int)
                    ==> !valid_line_pos(*fig, a, r2),
        decreases fig.axes@.len() as int - ax as int, (if (ax as int) < fig.axes@.len() {
            fig.axes@[ax as int].artists@.len() as int - ar as int
        } else {
            0int
        }),
    {
        if ax == fig.axes.len() {
            ops.push(CanvasOp::EndFrame);
            proof {
                assert(prior + ops@ =~= frame_plan(*fig));
                assert forall|a: int, r2: int|
                    pos_le(ax0 as int, ar0 as int, a, r2) implies !valid_line_pos(
                    *fig,
                    a,
                    r2,
                ) by {
                    if !pos_before(a, r2, ax as int, ar as int) {
                        assert(a >= fig.axes@.len());
                    }
                }
            }
            return None;
        }
        let area = &fig.axes[ax];
        if ar == area.artists.len() {
            proof {
                let axes = fig.axes@;
                assert(figure_axes_plan_to(axes, ax as int + 1) == figure_axes_plan_to(
                    axes,
                    ax as int,
                ) + crate::render::axes_plan(axes[ax as int]));
                if (ax as int) + 1 < axes.len() {
                    assert(frame_prefix(*fig, ax as int + 1, 0) =~= frame_prefix(
                        *fig,
                        ax as int,
                        ar as int,
                    ));
                } else {
                    assert(frame_prefix(*fig, ax as int + 1, 0) =~= frame_prefix(
                        *fig,
                        ax as int,
                        ar as int,
                    ));
                }
                assert forall|a: int, r2: int|
                    pos_le(ax0 as int, ar0 as int, a, r2) && pos_before(
                        a,
                        r2,
                        ax as int + 1,
                        0,
                    ) implies !valid_line_pos(*fig, a, r2) by {
                    if !pos_before(a, r2, ax as int, ar as int) {
                        assert(r2 < 0 || (a == ax as int && r2 >= fig.axes@[ax as int].artists@.len()));
                    }
                }
            }
            ax = ax + 1;
            ar = 0;
            continue;
        }
        let ghost arts = fig.axes@[ax as int].artists@;
        proof {
            assert(artists_plan_to(arts, ar as int + 1) == artists_plan_to(arts, ar as int)
                + artist_plan(arts[ar as int]));
        }
        match &area.artists[ar] {
            Artist::Line(line) => {
                if line.points.len() >= 2 {
                    ops.push(CanvasOp::CreatePath);
                    proof {
                        assert(prior + ops@ =~= await_path_emitted(*fig, ax as int, ar as int));
                    }
                    return Some((ax, ar));
                } else {
                    proof {
                        assert(line_plan(*line) =~= Seq::<CanvasOp>::empty());
                        assert(frame_prefix(*fig, ax as int, ar as int + 1) =~= frame_prefix(
                            *fig,
                            ax as int,
                            ar as int,
                        ));
                        assert(!valid_line_pos(*fig, ax as int, ar as int));
                        assert forall|a: int, r2: int|
                            pos_le(ax0 as int, ar0 as int, a, r2) && pos_before(
                                a,
                                r2,
                                ax as int,
                                ar as int + 1,
                            ) implies !valid_line_pos(*fig, a, r2) by {
                            if !pos_before(a, r2, ax as int, ar as int) {
                                assert(a == ax as int && r2 == ar as int);
                            }
                        }
                    }
                    ar = ar + 1;
                }
            },
            Artist::Text(t) => {
                let ghost pre = ops@;
                push_text_ops(t, ops);
                proof {
                    assert(arts[ar as int] == Artist::Text(*t));
                    assert(artists_plan_to(arts, ar as int + 1) == artists_plan_to(arts, ar as int)
                        + crate::render::text_plan(*t));
                    assert(prior + ops@ =~= (prior + pre) + crate::render::text_plan(*t));
                    assert(frame_prefix(*fig, ax as int, ar as int) + crate::render::text_plan(*t)
                        =~= frame_prefix(*fig, ax as int, ar as int + 1));
                    assert(prior + ops@ == frame_prefix(*fig, ax as int, ar as int + 1));
                    assert(!valid_line_pos(*fig, ax as int, ar as int));
                    assert forall|a: int, r2: int|
                        pos_le(ax0 as int, ar0 as int, a, r2) && pos_before(
                            a,
                            r2,
                            ax as int,
                            ar as int + 1,
                        ) implies !valid_line_pos(*fig, a, r2) by {
                        if !pos_before(a, r2, ax as int, ar as int) {
                            assert(a == ax as int && r2 == ar as int);
                        }
                    }
                }
                ar = ar + 1;
            },
            Artist::Unknown => {
                // Forward-compatible extension point: an unrecognized
                // artist is skipped, never a fault.
                proof {
                    assert(frame_prefix(*fig, ax as int, ar as int + 1) =~= frame_prefix(
                        *fig,
                        ax as int,
                        ar as int,
                    ));
                    assert(!valid_line_pos(*fig, ax as int, ar as int));
                    assert forall|a: int, r2: int|
                        pos_le(ax0 as int, ar0 as int, a, r2) && pos_before(
                            a,
                            r2,
                            ax as int,
                            ar as int + 1,
                        ) implies !valid_line_pos(*fig, a, r2) by {
                        if !pos_before(a, r2, ax as int, ar as int) {
                            assert(a == ax as int && r2 == ar as int);
                        }
                    }
                }
                ar = ar + 1;
            },
        }
    }
}

} // verus!
