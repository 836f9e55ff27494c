use cuborum::frame::{
    bind_group_layout, Access, AcquireError, Acquisition, BindGroupId, BufferId, ComputePass, FrameStep,
    LayoutEntry, Phase, PipelineId, Reaction, Recovery, RenderPass, Stage, State, SurfaceConfig, SurfaceSize,
    CAMERA_UNIFORM_BYTES, DISPATCH_GROUPS, FRAME_LATENCY, GRID_SIZE, VOXEL_RECORD_BYTES,
};
use cuborum::input::{CameraKey, Key, MoveIntent, Routed, WindowEvent};
use cuborum::voxel::Voxel;

fn size(width: u32, height: u32) -> SurfaceSize {
    SurfaceSize { width, height }
}

fn config(width: u32, height: u32) -> SurfaceConfig {
    SurfaceConfig { width, height, desired_maximum_frame_latency: 2 }
}

fn key(text: &str) -> Key {
    Key::Character(text.to_string())
}

#[test]
fn constants_have_their_values() {
    assert_eq!(GRID_SIZE, 16);
    assert_eq!(DISPATCH_GROUPS, 2);
    assert_eq!(FRAME_LATENCY, 2);
    assert_eq!(CAMERA_UNIFORM_BYTES, 64);
    assert_eq!(VOXEL_RECORD_BYTES, 8);
}

#[test]
fn new_session_holds_the_pattern_grid() {
    let state = State::new(size(800, 600));
    assert_eq!(state.size(), size(800, 600));
    assert_eq!(state.phase(), Phase::Ready);
    let grid = state.voxel_grid();
    assert_eq!(grid.size(), 16);
    assert_eq!(grid.data().len(), 4096);
    assert_eq!(grid.data().iter().filter(|v| v.voxel_type == 1).count(), 2048);
    assert_eq!(*grid.get(0, 7, 0), Voxel { voxel_type: 1, color: 128 });
    assert_eq!(*grid.get(15, 8, 15), Voxel::empty());
    assert!(state.update().is_still());
    assert!(!state.update().reset);
}

#[test]
fn new_session_uploads_eight_bytes_per_voxel() {
    let state = State::new(size(1, 1));
    assert_eq!(state.voxel_grid().to_bytes().len(), 8 * 4096);
}

#[test]
fn buffers_have_their_sizes() {
    let state = State::new(size(800, 600));
    assert_eq!(state.buffer_size(BufferId::CameraUniform), 64);
    assert_eq!(state.buffer_size(BufferId::VoxelStorage), 32768);
    assert_eq!(
        state.voxel_grid().to_bytes().len() as u64,
        state.buffer_size(BufferId::VoxelStorage)
    );
    assert_eq!(
        state.draw_voxels().vertex_count as u64 * VOXEL_RECORD_BYTES,
        state.buffer_size(BufferId::VoxelStorage)
    );
}

#[test]
fn configure_surface_uses_the_stored_size() {
    let state = State::new(size(640, 480));
    assert_eq!(state.configure_surface(), config(640, 480));
}

#[test]
fn resize_stores_the_size_and_gives_the_configuration() {
    let mut state = State::new(size(800, 600));
    assert_eq!(state.resize(size(1024, 768)), config(1024, 768));
    assert_eq!(state.size(), size(1024, 768));
    assert_eq!(state.configure_surface(), config(1024, 768));
}

#[test]
fn resize_there_and_back_keeps_the_camera_input() {
    let mut state = State::new(size(800, 600));
    state.input(&WindowEvent::KeyPressed(key("w")));
    state.input(&WindowEvent::KeyPressed(Key::Control));
    state.input(&WindowEvent::CursorMoved);
    let intent = state.update();
    let cells = state.voxel_grid().data().clone();
    assert_eq!(state.resize(size(1024, 768)), config(1024, 768));
    assert_eq!(state.resize(size(800, 600)), config(800, 600));
    assert_eq!(state.size(), size(800, 600));
    assert_eq!(state.update(), intent);
    assert_eq!(state.update(), MoveIntent { forward: 1, strafe: 0, vertical: -1, reset: false });
    assert_eq!(state.input(&WindowEvent::CursorMoved), Routed::Turn);
    assert_eq!(*state.voxel_grid().data(), cells);
    assert_eq!(state.phase(), Phase::Ready);
}

#[test]
fn resize_can_be_repeated() {
    let mut state = State::new(size(800, 600));
    for _ in 0..10 {
        assert_eq!(state.resize(size(1024, 768)), config(1024, 768));
        assert_eq!(state.size(), size(1024, 768));
    }
    assert_eq!(state.resize(size(0, 0)), config(0, 0));
    assert_eq!(state.size(), size(0, 0));
}

#[test]
fn update_follows_the_held_keys() {
    let mut state = State::new(size(800, 600));
    state.input(&WindowEvent::KeyPressed(key("w")));
    state.input(&WindowEvent::KeyPressed(key("d")));
    assert_eq!(state.update(), MoveIntent { forward: 1, strafe: 1, vertical: 0, reset: false });
    assert_eq!(state.update(), MoveIntent { forward: 1, strafe: 1, vertical: 0, reset: false });
    state.input(&WindowEvent::KeyPressed(key("s")));
    assert_eq!(state.update(), MoveIntent { forward: 0, strafe: 1, vertical: 0, reset: false });
    state.input(&WindowEvent::KeyReleased(key("d")));
    assert!(state.update().is_still());
    state.input(&WindowEvent::KeyPressed(key("r")));
    assert!(state.update().reset);
    assert!(state.router().pressed_keys().contains(CameraKey::Reset));
}

#[test]
fn compute_pass_binds_the_voxels_and_dispatches_two_cubed() {
    let state = State::new(size(800, 600));
    assert_eq!(
        state.run_compute_pass(),
        ComputePass {
            pipeline: PipelineId::Compute,
            slot: 0,
            group: BindGroupId::VoxelCompute,
            groups_x: 2,
            groups_y: 2,
            groups_z: 2,
        }
    );
}

#[test]
fn render_pass_draws_one_vertex_per_voxel() {
    let state = State::new(size(800, 600));
    assert_eq!(
        state.draw_voxels(),
        RenderPass {
            pipeline: PipelineId::Voxel,
            camera_slot: 0,
            camera_group: BindGroupId::Camera,
            voxel_slot: 1,
            voxel_group: BindGroupId::VoxelRender,
            vertex_count: 4096,
            instance_count: 1,
        }
    );
}

#[test]
fn frame_is_write_acquire_compute_draw_submit_present() {
    let state = State::new(size(800, 600));
    let steps = state.render();
    assert_eq!(
        steps,
        vec![
            FrameStep::WriteCameraUniform,
            FrameStep::AcquireImage,
            FrameStep::Compute(state.run_compute_pass()),
            FrameStep::Draw(state.draw_voxels()),
            FrameStep::Submit,
            FrameStep::Present,
        ]
    );
}

#[test]
fn compute_pass_comes_before_the_render_pass() {
    let state = State::new(size(800, 600));
    let steps = state.render();
    let position = |wanted: fn(&FrameStep) -> bool| -> Vec<usize> {
        steps.iter().enumerate().filter(|(_, s)| wanted(s)).map(|(i, _)| i).collect()
    };
    let write = position(|s| matches!(s, FrameStep::WriteCameraUniform));
    let acquire = position(|s| matches!(s, FrameStep::AcquireImage));
    let compute = position(|s| matches!(s, FrameStep::Compute(_)));
    let draw = position(|s| matches!(s, FrameStep::Draw(_)));
    let submit = position(|s| matches!(s, FrameStep::Submit));
    let present = position(|s| matches!(s, FrameStep::Present));
    assert_eq!(steps.len(), 6);
    assert_eq!(write.len(), 1);
    assert_eq!(acquire.len(), 1);
    assert_eq!(compute.len(), 1);
    assert_eq!(draw.len(), 1);
    assert_eq!(submit.len(), 1);
    assert_eq!(present.len(), 1);
    assert!(write[0] < draw[0]);
    assert!(acquire[0] < compute[0]);
    assert!(compute[0] < draw[0]);
    assert!(draw[0] < submit[0]);
    assert!(submit[0] < present[0]);
}

#[test]
fn every_frame_is_the_same_sequence() {
    let mut state = State::new(size(800, 600));
    let first = state.render();
    state.input(&WindowEvent::KeyPressed(key("w")));
    state.input(&WindowEvent::KeyPressed(key("r")));
    state.resize(size(300, 200));
    assert_eq!(state.render(), first);
}

#[test]
fn rendering_leaves_the_session_as_it_was() {
    let mut state = State::new(size(800, 600));
    state.input(&WindowEvent::KeyPressed(key("w")));
    let intent = state.update();
    let cells = state.voxel_grid().data().clone();
    state.render();
    state.after_acquire(Acquisition::Failed(AcquireError::Outdated));
    state.recover(AcquireError::Outdated);
    state.render();
    state.after_acquire(Acquisition::Acquired);
    assert_eq!(state.update(), intent);
    assert_eq!(state.size(), size(800, 600));
    assert_eq!(*state.voxel_grid().data(), cells);
    assert_eq!(state.phase(), Phase::Ready);
}

#[test]
fn redraw_asks_for_the_step_of_the_held_keys_first() {
    let mut state = State::new(size(800, 600));
    assert_eq!(
        state.window_event(&WindowEvent::RedrawRequested),
        Reaction::Redraw(MoveIntent { forward: 0, strafe: 0, vertical: 0, reset: false })
    );
    state.window_event(&WindowEvent::KeyPressed(key("w")));
    state.window_event(&WindowEvent::KeyPressed(key("a")));
    let expected = MoveIntent { forward: 1, strafe: -1, vertical: 0, reset: false };
    assert_eq!(state.update(), expected);
    assert_eq!(state.window_event(&WindowEvent::RedrawRequested), Reaction::Redraw(expected));
    assert_eq!(state.window_event(&WindowEvent::RedrawRequested), Reaction::Redraw(expected));
    assert_eq!(state.update(), expected);
    state.window_event(&WindowEvent::KeyPressed(key("r")));
    assert_eq!(
        state.window_event(&WindowEvent::RedrawRequested),
        Reaction::Redraw(MoveIntent { forward: 0, strafe: 0, vertical: 0, reset: true })
    );
}

#[test]
fn after_an_acquired_image_the_rest_of_the_frame_remains() {
    let state = State::new(size(800, 600));
    let rest = state.after_acquire(Acquisition::Acquired);
    assert_eq!(
        rest,
        vec![
            FrameStep::Compute(state.run_compute_pass()),
            FrameStep::Draw(state.draw_voxels()),
            FrameStep::Submit,
            FrameStep::Present,
        ]
    );
    let whole = state.render();
    assert_eq!(whole[1], FrameStep::AcquireImage);
    assert_eq!(whole[2..], rest[..]);
}

#[test]
fn after_a_failed_acquisition_the_frame_is_dropped() {
    let state = State::new(size(800, 600));
    let failures = [
        AcquireError::Timeout,
        AcquireError::Outdated,
        AcquireError::Lost,
        AcquireError::OutOfMemory,
        AcquireError::Other,
    ];
    for failure in failures.iter() {
        assert!(state.after_acquire(Acquisition::Failed(*failure)).is_empty());
    }
}

#[test]
fn outdated_or_lost_surface_is_configured_anew() {
    let mut state = State::new(size(800, 600));
    assert_eq!(state.recover(AcquireError::Outdated), Recovery::Reconfigure(config(800, 600)));
    assert_eq!(state.recover(AcquireError::Lost), Recovery::Reconfigure(config(800, 600)));
    state.resize(size(1024, 768));
    assert_eq!(state.recover(AcquireError::Outdated), Recovery::Reconfigure(config(1024, 768)));
}

#[test]
fn other_acquisition_failures_are_fatal() {
    let state = State::new(size(800, 600));
    assert_eq!(state.recover(AcquireError::Timeout), Recovery::Abort);
    assert_eq!(state.recover(AcquireError::OutOfMemory), Recovery::Abort);
    assert_eq!(state.recover(AcquireError::Other), Recovery::Abort);
}

#[test]
fn window_events_get_their_reaction() {
    let mut state = State::new(size(800, 600));
    assert_eq!(
        state.window_event(&WindowEvent::KeyPressed(key("a"))),
        Reaction::Input(Routed::Keys)
    );
    assert!(state.router().pressed_keys().contains(CameraKey::Left));
    assert_eq!(
        state.window_event(&WindowEvent::CursorMoved),
        Reaction::Input(Routed::SeedCursor)
    );
    assert_eq!(state.window_event(&WindowEvent::CursorMoved), Reaction::Input(Routed::Turn));
    assert_eq!(
        state.window_event(&WindowEvent::KeyReleased(key("a"))),
        Reaction::Input(Routed::Keys)
    );
    assert!(!state.router().pressed_keys().contains(CameraKey::Left));
    assert_eq!(
        state.window_event(&WindowEvent::Resized { width: 1024, height: 768 }),
        Reaction::Reconfigure(config(1024, 768))
    );
    assert_eq!(state.size(), size(1024, 768));
    assert_eq!(
        state.window_event(&WindowEvent::RedrawRequested),
        Reaction::Redraw(MoveIntent { forward: 0, strafe: 0, vertical: 0, reset: false })
    );
    assert_eq!(state.window_event(&WindowEvent::Other), Reaction::Nothing);
    assert_eq!(state.phase(), Phase::Ready);
}

#[test]
fn close_request_ends_the_session() {
    let mut state = State::new(size(800, 600));
    state.window_event(&WindowEvent::KeyPressed(key("w")));
    assert_eq!(state.window_event(&WindowEvent::CloseRequested), Reaction::Exit);
    assert_eq!(state.phase(), Phase::Terminated);
    assert_eq!(state.window_event(&WindowEvent::RedrawRequested), Reaction::Nothing);
    assert_eq!(state.window_event(&WindowEvent::KeyReleased(key("w"))), Reaction::Nothing);
    assert_eq!(
        state.window_event(&WindowEvent::Resized { width: 1, height: 1 }),
        Reaction::Nothing
    );
    assert_eq!(state.window_event(&WindowEvent::CloseRequested), Reaction::Nothing);
    assert_eq!(state.size(), size(800, 600));
    assert!(state.router().pressed_keys().contains(CameraKey::Forward));
    assert_eq!(state.phase(), Phase::Terminated);
}

#[test]
fn layouts_match_what_the_shaders_expect() {
    assert_eq!(
        bind_group_layout(BindGroupId::Camera),
        LayoutEntry {
            binding: 0,
            buffer: BufferId::CameraUniform,
            visibility: Stage::Vertex,
            access: Access::Uniform,
            min_binding_size: None,
        }
    );
    assert_eq!(
        bind_group_layout(BindGroupId::VoxelCompute),
        LayoutEntry {
            binding: 0,
            buffer: BufferId::VoxelStorage,
            visibility: Stage::Compute,
            access: Access::StorageReadWrite,
            min_binding_size: Some(8),
        }
    );
    assert_eq!(
        bind_group_layout(BindGroupId::VoxelRender),
        LayoutEntry {
            binding: 0,
            buffer: BufferId::VoxelStorage,
            visibility: Stage::Vertex,
            access: Access::StorageReadOnly,
            min_binding_size: Some(8),
        }
    );
}
