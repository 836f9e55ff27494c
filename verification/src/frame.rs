//! The frame coordinator: the plain-data side of a rendering session. It
//! owns the voxel grid, the input router and the surface size, and decides
//! what a frame consists of, in which order, and what follows a window event
//! or a failed image acquisition. Carrying the decisions out on a device is
//! left to the caller.

use crate::grid::{cube, empty_voxel, lemma_flat_index_in_range, pattern_voxel, VoxelGrid};
use crate::input::{
    intent_of, routed_action, routed_state, CameraKey, InputRouter, MoveIntent, Routed,
    RouterView, WindowEvent,
};
use vstd::prelude::*;

verus! {

/// Edge length of the grid that a session renders.
pub const GRID_SIZE: usize = 16;

/// Workgroups dispatched along each axis by the compute pass.
pub const DISPATCH_GROUPS: u32 = 2;

/// Frames that the presentation queue may hold.
pub const FRAME_LATENCY: u32 = 2;

/// Size in bytes of the camera uniform: a 4×4 matrix of 32-bit numbers.
pub const CAMERA_UNIFORM_BYTES: u64 = 64;

/// Size in bytes of one voxel record in the storage buffer.
pub const VOXEL_RECORD_BYTES: u64 = 8;

/// Inner size of the window, in pixels.
#[derive(Clone, Copy, Debug, PartialEq, Eq, Structural)]
pub struct SurfaceSize {
    pub width: u32,
    pub height: u32,
}

/// What the swap chain is configured with.
#[derive(Clone, Copy, Debug, PartialEq, Eq, Structural)]
pub struct SurfaceConfig {
    pub width: u32,
    pub height: u32,
    pub desired_maximum_frame_latency: u32,
}

/// The configuration that belongs to a surface size.
pub open spec fn config_for(size: SurfaceSize) -> SurfaceConfig {
    SurfaceConfig {
        width: size.width,
        height: size.height,
        desired_maximum_frame_latency: FRAME_LATENCY,
    }
}

/// The bind groups of a session.
#[derive(Clone, Copy, Debug, PartialEq, Eq, Structural)]
pub enum BindGroupId {
    /// The camera matrix.
    Camera,
    /// The voxel buffer as the compute stage sees it.
    VoxelCompute,
    /// The voxel buffer as the vertex stage sees it.
    VoxelRender,
}

/// The pipelines of a session.
#[derive(Clone, Copy, Debug, PartialEq, Eq, Structural)]
pub enum PipelineId {
    /// The compute pipeline that works on the voxel buffer.
    Compute,
    /// The render pipeline that draws one point per voxel.
    Voxel,
}

/// The buffers of a session.
#[derive(Clone, Copy, Debug, PartialEq, Eq, Structural)]
pub enum BufferId {
    CameraUniform,
    VoxelStorage,
}

/// The shader stage that may see a binding.
#[derive(Clone, Copy, Debug, PartialEq, Eq, Structural)]
pub enum Stage {
    Vertex,
    Compute,
}

/// How a stage may use a bound buffer.
#[derive(Clone, Copy, Debug, PartialEq, Eq, Structural)]
pub enum Access {
    Uniform,
    StorageReadOnly,
    StorageReadWrite,
}

/// The one entry of a bind group's layout.
#[derive(Clone, Copy, Debug, PartialEq, Eq, Structural)]
pub struct LayoutEntry {
    pub binding: u32,
    pub buffer: BufferId,
    pub visibility: Stage,
    pub access: Access,
    /// Least size in bytes of what is bound, where one is asked.
    pub min_binding_size: Option<u64>,
}

/// The layout that each bind group has: binding 0 everywhere; the camera
/// uniform for the vertex stage, the voxel storage writable for the compute
/// stage and read-only for the vertex stage.
pub open spec fn layout_of(group: BindGroupId) -> LayoutEntry {
    match group {
        BindGroupId::Camera => LayoutEntry {
            binding: 0,
            buffer: BufferId::CameraUniform,
            visibility: Stage::Vertex,
            access: Access::Uniform,
            min_binding_size: None,
        },
        BindGroupId::VoxelCompute => LayoutEntry {
            binding: 0,
            buffer: BufferId::VoxelStorage,
            visibility: Stage::Compute,
            access: Access::StorageReadWrite,
            min_binding_size: Some(VOXEL_RECORD_BYTES),
        },
        BindGroupId::VoxelRender => LayoutEntry {
            binding: 0,
            buffer: BufferId::VoxelStorage,
            visibility: Stage::Vertex,
            access: Access::StorageReadOnly,
            min_binding_size: Some(VOXEL_RECORD_BYTES),
        },
    }
}

/// The layout of a bind group.
pub fn bind_group_layout(group: BindGroupId) -> (entry: LayoutEntry)
    ensures
        entry == layout_of(group),
{
    match group {
        BindGroupId::Camera => LayoutEntry {
            binding: 0,
            buffer: BufferId::CameraUniform,
            visibility: Stage::Vertex,
            access: Access::Uniform,
            min_binding_size: None,
        },
        BindGroupId::VoxelCompute => LayoutEntry {
            binding: 0,
            buffer: BufferId::VoxelStorage,
            visibility: Stage::Compute,
            access: Access::StorageReadWrite,
            min_binding_size: Some(VOXEL_RECORD_BYTES),
        },
        BindGroupId::VoxelRender => LayoutEntry {
            binding: 0,
            buffer: BufferId::VoxelStorage,
            visibility: Stage::Vertex,
            access: Access::StorageReadOnly,
            min_binding_size: Some(VOXEL_RECORD_BYTES),
        },
    }
}

/// Size in bytes of a buffer of a session over a grid with edge `n`: the
/// camera uniform holds one matrix, the voxel storage one record per cell.
pub open spec fn buffer_len(buffer: BufferId, n: int) -> int {
    match buffer {
        BufferId::CameraUniform => CAMERA_UNIFORM_BYTES as int,
        BufferId::VoxelStorage => VOXEL_RECORD_BYTES * cube(n),
    }
}

/// The compute pass of a frame: one bind group in slot 0 and a fixed grid of
/// workgroups.
#[derive(Clone, Copy, Debug, PartialEq, Eq, Structural)]
pub struct ComputePass {
    pub pipeline: PipelineId,
    pub slot: u32,
    pub group: BindGroupId,
    pub groups_x: u32,
    pub groups_y: u32,
    pub groups_z: u32,
}

/// The render pass of a frame: two bind groups and one draw call.
#[derive(Clone, Copy, Debug, PartialEq, Eq, Structural)]
pub struct RenderPass {
    pub pipeline: PipelineId,
    pub camera_slot: u32,
    pub camera_group: BindGroupId,
    pub voxel_slot: u32,
    pub voxel_group: BindGroupId,
    pub vertex_count: u32,
    pub instance_count: u32,
}

/// One step of a frame.
#[derive(Clone, Copy, Debug, PartialEq, Eq, Structural)]
pub enum FrameStep {
    /// Recompute the view-projection matrix and write it to the uniform.
    WriteCameraUniform,
    /// Acquire the next image of the swap chain.
    AcquireImage,
    /// Record the compute pass.
    Compute(ComputePass),
    /// Record the render pass.
    Draw(RenderPass),
    /// Submit everything recorded as one command buffer.
    Submit,
    /// Present the acquired image.
    Present,
}

/// The compute pass of every frame.
pub open spec fn compute_pass() -> ComputePass {
    ComputePass {
        pipeline: PipelineId::Compute,
        slot: 0,
        group: BindGroupId::VoxelCompute,
        groups_x: DISPATCH_GROUPS,
        groups_y: DISPATCH_GROUPS,
        groups_z: DISPATCH_GROUPS,
    }
}

/// The render pass over a grid with edge `n`: the camera in slot 0, the
/// voxels in slot 1, one vertex per cell.
pub open spec fn render_pass(n: int) -> RenderPass {
    RenderPass {
        pipeline: PipelineId::Voxel,
        camera_slot: 0,
        camera_group: BindGroupId::Camera,
        voxel_slot: 1,
        voxel_group: BindGroupId::VoxelRender,
        vertex_count: cube(n) as u32,
        instance_count: 1,
    }
}

/// The steps of a frame over a grid with edge `n`, in the order in which
/// they are carried out: the camera's matrix is written, an image is
/// acquired, the two passes are recorded, submitted and presented. No step
/// of a frame moves the camera.
pub open spec fn frame_steps(n: int) -> Seq<FrameStep> {
    seq![
        FrameStep::WriteCameraUniform,
        FrameStep::AcquireImage,
        FrameStep::Compute(compute_pass()),
        FrameStep::Draw(render_pass(n)),
        FrameStep::Submit,
        FrameStep::Present,
    ]
}

/// How the acquisition step of a frame ended.
#[derive(Clone, Copy, Debug, PartialEq, Eq, Structural)]
pub enum Acquisition {
    /// An image is there to draw into.
    Acquired,
    /// No image could be had.
    Failed(AcquireError),
}

/// The steps of a frame that are still to be carried out once the
/// acquisition step has ended: with an image, the two passes, the
/// submission and the presentation; without one, nothing, so the frame is
/// dropped.
pub open spec fn remaining_steps(n: int, outcome: Acquisition) -> Seq<FrameStep> {
    match outcome {
        Acquisition::Acquired => seq![
            FrameStep::Compute(compute_pass()),
            FrameStep::Draw(render_pass(n)),
            FrameStep::Submit,
            FrameStep::Present,
        ],
        Acquisition::Failed(_) => Seq::empty(),
    }
}

/// Why no image of the swap chain could be acquired.
#[derive(Clone, Copy, Debug, PartialEq, Eq, Structural)]
pub enum AcquireError {
    Timeout,
    Outdated,
    Lost,
    OutOfMemory,
    Other,
}

/// What follows a failed acquisition.
#[derive(Clone, Copy, Debug, PartialEq, Eq, Structural)]
pub enum Recovery {
    /// Configure the surface anew and drop this frame.
    Reconfigure(SurfaceConfig),
    /// Nothing can be done: stop.
    Abort,
}

/// What follows a failed acquisition with a surface of the given size: an
/// outdated or lost surface is configured anew, anything else is fatal.
pub open spec fn recovery_for(size: SurfaceSize, error: AcquireError) -> Recovery {
    match error {
        AcquireError::Outdated => Recovery::Reconfigure(config_for(size)),
        AcquireError::Lost => Recovery::Reconfigure(config_for(size)),
        _ => Recovery::Abort,
    }
}

/// Whether a session still takes events.
#[derive(Clone, Copy, Debug, PartialEq, Eq, Structural)]
pub enum Phase {
    /// Frames are drawn and events are acted on.
    Ready,
    /// The window was closed: nothing is scheduled any more.
    Terminated,
}

/// What the caller is to do after a window event.
#[derive(Clone, Copy, Debug, PartialEq, Eq, Structural)]
pub enum Reaction {
    /// An input event was routed to the camera.
    Input(Routed),
    /// The surface size changed: configure the surface with this.
    Reconfigure(SurfaceConfig),
    /// A frame is due: first advance the camera by this step, which is what
    /// the held keys ask for, then carry out the steps that `render` lists,
    /// then ask for the next frame.
    Redraw(MoveIntent),
    /// The window was closed: leave the event loop.
    Exit,
    /// Nothing to do.
    Nothing,
}

/// A rendering session as contracts see it.
pub struct StateView {
    pub size: SurfaceSize,
    pub router: RouterView,
    pub phase: Phase,
}

/// The session with a new surface size and nothing else changed.
pub open spec fn resized(before: StateView, size: SurfaceSize) -> StateView {
    StateView { size, router: before.router, phase: before.phase }
}

/// The session after `event`: input events reach the router, a resize
/// replaces the size, a close request ends the session, and an ended session
/// changes no more.
pub open spec fn state_after(before: StateView, event: WindowEvent) -> StateView {
    if before.phase == Phase::Terminated {
        before
    } else {
        match event {
            WindowEvent::Resized { width, height } => resized(
                before,
                SurfaceSize { width, height },
            ),
            WindowEvent::CloseRequested => StateView {
                size: before.size,
                router: before.router,
                phase: Phase::Terminated,
            },
            _ => StateView {
                size: before.size,
                router: routed_state(before.router, event),
                phase: before.phase,
            },
        }
    }
}

/// What the caller is told after `event`.
pub open spec fn reaction_to(before: StateView, event: WindowEvent) -> Reaction {
    if before.phase == Phase::Terminated {
        Reaction::Nothing
    } else {
        match event {
            WindowEvent::KeyPressed(_) => Reaction::Input(routed_action(before.router, event)),
            WindowEvent::KeyReleased(_) => Reaction::Input(routed_action(before.router, event)),
            WindowEvent::CursorMoved => Reaction::Input(routed_action(before.router, event)),
            WindowEvent::Resized { width, height } => Reaction::Reconfigure(
                config_for(SurfaceSize { width, height }),
            ),
            WindowEvent::CloseRequested => Reaction::Exit,
            WindowEvent::RedrawRequested => Reaction::Redraw(intent_of(before.router.held)),
            WindowEvent::Other => Reaction::Nothing,
        }
    }
}

/// A rendering session: the surface size, the voxel grid that was uploaded,
/// and the input router.
pub struct State {
    size: SurfaceSize,
    voxel_grid: VoxelGrid,
    router: InputRouter,
    phase: Phase,
}

impl View for State {
    type V = StateView;

    closed spec fn view(&self) -> StateView {
        StateView { size: self.size, router: self.router@, phase: self.phase }
    }
}

impl State {
    /// The voxel grid of the session.
    pub closed spec fn grid(&self) -> VoxelGrid {
        self.voxel_grid
    }

    /// The grid is well formed and has no more cells than one draw call can
    /// count.
    pub open spec fn wf(&self) -> bool {
        &&& self.grid().wf()
        &&& cube(self.grid().spec_size() as int) <= u32::MAX
    }

    /// A session for a window of the given inner size: the grid holds the
    /// test pattern, no key is down, no cursor position was seen.
    pub fn new(size: SurfaceSize) -> (state: State)
        ensures
            state.wf(),
            state@.size == size,
            state@.phase == Phase::Ready,
            state@.router.held == Set::<CameraKey>::empty(),
            !state@.router.cursor_seen,
            state.grid().spec_size() == GRID_SIZE,
            state.grid().is_test_pattern(),
    {
        assert(cube(GRID_SIZE as int) == 4096) by (nonlinear_arith);
        let mut voxel_grid = VoxelGrid::new(GRID_SIZE);
        let ghost fresh = voxel_grid;
        voxel_grid.fill_with_test_pattern();
        proof {
            assert forall|x: int, y: int, z: int| voxel_grid.contains(x, y, z) implies (
            #[trigger] voxel_grid.at(x, y, z)) == (if y < voxel_grid.spec_size() / 2 {
                pattern_voxel()
            } else {
                empty_voxel()
            }) by {
                lemma_flat_index_in_range(GRID_SIZE as int, x, y, z);
                assert(fresh.at(x, y, z) == empty_voxel());
            }
        }
        State { size, voxel_grid, router: InputRouter::new(), phase: Phase::Ready }
    }

    /// The voxel grid of the session.
    pub fn voxel_grid(&self) -> (grid: &VoxelGrid)
        ensures
            *grid == self.grid(),
    {
        &self.voxel_grid
    }

    /// The surface size last stored.
    pub fn size(&self) -> (size: SurfaceSize)
        ensures
            size == self@.size,
    {
        self.size
    }

    /// The input router of the session.
    pub fn router(&self) -> (router: &InputRouter)
        ensures
            router@ == self@.router,
    {
        &self.router
    }

    /// Whether the session still takes events.
    pub fn phase(&self) -> (phase: Phase)
        ensures
            phase == self@.phase,
    {
        self.phase
    }

    /// Size in bytes of a buffer of the session.
    pub fn buffer_size(&self, buffer: BufferId) -> (bytes: u64)
        requires
            self.wf(),
        ensures
            bytes == buffer_len(buffer, self.grid().spec_size() as int),
    {
        match buffer {
            BufferId::CameraUniform => CAMERA_UNIFORM_BYTES,
            BufferId::VoxelStorage => {
                let cells: usize = self.voxel_grid.data().len();
                VOXEL_RECORD_BYTES * (cells as u64)
            },
        }
    }

    /// The configuration of the surface at the stored size.
    pub fn configure_surface(&self) -> (config: SurfaceConfig)
        ensures
            config == config_for(self@.size),
    {
        SurfaceConfig {
            width: self.size.width,
            height: self.size.height,
            desired_maximum_frame_latency: FRAME_LATENCY,
        }
    }

    /// Stores the new size and gives the configuration that the surface is
    /// to get. Nothing but the size changes, so the call can be repeated.
    pub fn resize(&mut self, new_size: SurfaceSize) -> (config: SurfaceConfig)
        ensures
            final(self)@ == resized(old(self)@, new_size),
            final(self).grid() == old(self).grid(),
            config == config_for(new_size),
    {
        self.size = new_size;
        self.configure_surface()
    }

    /// Routes one event to the input router.
    pub fn input(&mut self, event: &WindowEvent) -> (routed: Routed)
        ensures
            final(self)@.router == routed_state(old(self)@.router, *event),
            final(self)@.size == old(self)@.size,
            final(self)@.phase == old(self)@.phase,
            final(self).grid() == old(self).grid(),
            routed == routed_action(old(self)@.router, *event),
    {
        self.router.process_input(event)
    }

    /// The step that the camera is to take this tick: what the held keys ask
    /// for, and nothing that accumulates from tick to tick. With the reset
    /// key down it is the reset alone.
    pub fn update(&self) -> (intent: MoveIntent)
        ensures
            intent == intent_of(self@.router.held),
    {
        self.router.pressed_keys().movement()
    }

    /// The compute pass of a frame.
    pub fn run_compute_pass(&self) -> (pass: ComputePass)
        ensures
            pass == compute_pass(),
    {
        ComputePass {
            pipeline: PipelineId::Compute,
            slot: 0,
            group: BindGroupId::VoxelCompute,
            groups_x: DISPATCH_GROUPS,
            groups_y: DISPATCH_GROUPS,
            groups_z: DISPATCH_GROUPS,
        }
    }

    /// The render pass of a frame: one vertex for each cell of the grid.
    pub fn draw_voxels(&self) -> (pass: RenderPass)
        requires
            self.wf(),
        ensures
            pass == render_pass(self.grid().spec_size() as int),
    {
        let n: usize = self.voxel_grid.size();
        proof {
            assert(0 <= n * n <= n * n * n) by (nonlinear_arith)
                requires
                    0 <= n,
            ;
        }
        let count: usize = n * n * n;
        RenderPass {
            pipeline: PipelineId::Voxel,
            camera_slot: 0,
            camera_group: BindGroupId::Camera,
            voxel_slot: 1,
            voxel_group: BindGroupId::VoxelRender,
            vertex_count: count as u32,
            instance_count: 1,
        }
    }

    /// The steps of one frame, in order: the uniform is written and the
    /// image acquired, then the compute pass and after it the render pass
    /// are recorded, then both are submitted together and the image is
    /// presented. The camera is written as it is found: its step belongs to
    /// `update`.
    pub fn render(&self) -> (steps: Vec<FrameStep>)
        requires
            self.wf(),
        ensures
            steps@ == frame_steps(self.grid().spec_size() as int),
    {
        let mut steps: Vec<FrameStep> = Vec::new();
        steps.push(FrameStep::WriteCameraUniform);
        steps.push(FrameStep::AcquireImage);
        steps.push(FrameStep::Compute(self.run_compute_pass()));
        steps.push(FrameStep::Draw(self.draw_voxels()));
        steps.push(FrameStep::Submit);
        steps.push(FrameStep::Present);
        assert(steps@ =~= frame_steps(self.grid().spec_size() as int));
        steps
    }

    /// The steps of the frame that are still to be carried out after the
    /// acquisition step: the rest of the frame where an image was acquired,
    /// none where it was not.
    pub fn after_acquire(&self, outcome: Acquisition) -> (steps: Vec<FrameStep>)
        requires
            self.wf(),
        ensures
            steps@ == remaining_steps(self.grid().spec_size() as int, outcome),
    {
        let mut steps: Vec<FrameStep> = Vec::new();
        match outcome {
            Acquisition::Acquired => {
                steps.push(FrameStep::Compute(self.run_compute_pass()));
                steps.push(FrameStep::Draw(self.draw_voxels()));
                steps.push(FrameStep::Submit);
                steps.push(FrameStep::Present);
            },
            Acquisition::Failed(_) => {},
        }
        assert(steps@ =~= remaining_steps(self.grid().spec_size() as int, outcome));
        steps
    }

    /// What follows when no image could be acquired.
    pub fn recover(&self, error: AcquireError) -> (recovery: Recovery)
        ensures
            recovery == recovery_for(self@.size, error),
    {
        match error {
            AcquireError::Outdated => Recovery::Reconfigure(self.configure_surface()),
            AcquireError::Lost => Recovery::Reconfigure(self.configure_surface()),
            _ => Recovery::Abort,
        }
    }

    /// Acts on one window event and says what the caller is to do.
    pub fn window_event(&mut self, event: &WindowEvent) -> (reaction: Reaction)
        ensures
            final(self)@ == state_after(old(self)@, *event),
            final(self).grid() == old(self).grid(),
            reaction == reaction_to(old(self)@, *event),
    {
        match self.phase {
            Phase::Terminated => {
                return Reaction::Nothing;
            },
            Phase::Ready => {},
        }
        match event {
            WindowEvent::KeyPressed(_) => Reaction::Input(self.input(event)),
            WindowEvent::KeyReleased(_) => Reaction::Input(self.input(event)),
            WindowEvent::CursorMoved => Reaction::Input(self.input(event)),
            WindowEvent::Resized { width, height } => Reaction::Reconfigure(
                self.resize(SurfaceSize { width: *width, height: *height }),
            ),
            WindowEvent::CloseRequested => {
                self.phase = Phase::Terminated;
                Reaction::Exit
            },
            WindowEvent::RedrawRequested => Reaction::Redraw(self.update()),
            WindowEvent::Other => Reaction::Nothing,
        }
    }
}

/// Resizing is idempotent and the last size wins: a resize after any other
/// resize leaves the session as if it had been the only one. The input
/// router and the phase are never touched.
pub proof fn lemma_resize_last_wins(before: StateView, first: SurfaceSize, last: SurfaceSize)
    ensures
        resized(resized(before, first), last) == resized(before, last),
        resized(resized(before, last), last) == resized(before, last),
        resized(before, last).router == before.router,
        resized(before, last).phase == before.phase,
{
}

/// Going to another size and back leaves the session as it was.
pub proof fn lemma_resize_round_trip(before: StateView, other: SurfaceSize)
    ensures
        resized(resized(before, other), before.size) == before,
{
}

/// The draw call stays inside what was uploaded: the image of the grid
/// fills the voxel storage to its last byte, the draw call issues one vertex
/// per record of it, and no binding asks for more than the buffer holds.
pub proof fn lemma_draw_within_upload(state: State, image: Seq<u8>)
    requires
        state.wf(),
        image.len() == 8 * state.grid()@.len(),
    ensures
        image.len() == buffer_len(BufferId::VoxelStorage, state.grid().spec_size() as int),
        render_pass(state.grid().spec_size() as int).vertex_count * VOXEL_RECORD_BYTES
            == image.len(),
        state.grid().spec_size() > 0 ==> VOXEL_RECORD_BYTES <= image.len(),
{
    let n = state.grid().spec_size() as int;
    assert(0 < n ==> 1 <= n * n * n) by (nonlinear_arith);
}

/// The order of a tick: a redraw request to a session that is ready is
/// answered with the step that `update` gives for the keys held at that
/// moment, to be taken before the frame, and the request itself changes
/// nothing, so the frame that follows is rendered for the same session. A
/// session that has ended asks for nothing.
pub proof fn lemma_redraw_updates_first(before: StateView)
    ensures
        before.phase == Phase::Ready ==> reaction_to(before, WindowEvent::RedrawRequested)
            == Reaction::Redraw(intent_of(before.router.held)),
        before.phase == Phase::Terminated ==> reaction_to(before, WindowEvent::RedrawRequested)
            == Reaction::Nothing,
        state_after(before, WindowEvent::RedrawRequested) == before,
{
}

/// The order of a frame: the camera's matrix is written before the render
/// pass that reads it, the one compute pass is recorded before the one
/// render pass, and both go out in the one submission that follows them,
/// before the image is presented.
pub proof fn lemma_frame_order(n: int)
    ensures
        forall|i: int, j: int|
            0 <= i < frame_steps(n).len() && 0 <= j < frame_steps(n).len() && frame_steps(
                n,
            )[i] is WriteCameraUniform && frame_steps(n)[j] is Draw ==> i < j,
        forall|i: int, j: int|
            0 <= i < frame_steps(n).len() && 0 <= j < frame_steps(n).len() && frame_steps(
                n,
            )[i] is Compute && frame_steps(n)[j] is Draw ==> i < j,
        forall|i: int, j: int|
            0 <= i < frame_steps(n).len() && 0 <= j < frame_steps(n).len() && (frame_steps(
                n,
            )[i] is Compute || frame_steps(n)[i] is Draw) && frame_steps(n)[j] is Submit ==> i
                < j,
        forall|i: int, j: int|
            0 <= i < frame_steps(n).len() && 0 <= j < frame_steps(n).len() && frame_steps(
                n,
            )[i] is Submit && frame_steps(n)[j] is Submit ==> i == j,
        forall|i: int, j: int|
            0 <= i < frame_steps(n).len() && 0 <= j < frame_steps(n).len() && frame_steps(
                n,
            )[i] is Submit && frame_steps(n)[j] is Present ==> i < j,
        exists|i: int| 0 <= i < frame_steps(n).len() && frame_steps(n)[i] is Compute,
        exists|i: int| 0 <= i < frame_steps(n).len() && frame_steps(n)[i] is Draw,
        exists|i: int| 0 <= i < frame_steps(n).len() && frame_steps(n)[i] is WriteCameraUniform,
{
    let steps = frame_steps(n);
    assert(steps.len() == 6);
    assert(steps[0] is WriteCameraUniform);
    assert(steps[1] is AcquireImage);
    assert(steps[2] is Compute);
    assert(steps[3] is Draw);
    assert(steps[4] is Submit);
    assert(steps[5] is Present);
}

/// A frame is what comes up to the acquisition followed by what remains
/// after an image was acquired; after a failed acquisition, whatever the
/// failure, nothing remains.
pub proof fn lemma_frame_splits_at_acquire(n: int, error: AcquireError)
    ensures
        frame_steps(n)[1] is AcquireImage,
        frame_steps(n) == frame_steps(n).take(2) + remaining_steps(n, Acquisition::Acquired),
        remaining_steps(n, Acquisition::Failed(error)).len() == 0,
{
    assert(frame_steps(n) =~= frame_steps(n).take(2) + remaining_steps(
        n,
        Acquisition::Acquired,
    ));
}

} // verus!
