use gfx_runtime::gl::call::{Call, DataPointer, Source, ELEMENT_ARRAY_BUFFER};
use gfx_runtime::gl::command::{is_replayable, Command, DataBuffer};
use gfx_runtime::gl::info::{Features, Limits, PrivateCaps, Version};
use gfx_runtime::gl::native::TargetView;
use gfx_runtime::gl::{CommandQueue, Share, State};

fn features(all: bool) -> Features {
    Features {
        draw_instanced: all,
        draw_instanced_base: all,
        draw_indexed_base: all,
        draw_indexed_instanced: all,
        draw_indexed_instanced_base_vertex: all,
        draw_indexed_instanced_base: all,
        srgb_color: all,
    }
}

fn share(vaos: bool, debug: bool) -> Share {
    Share::new(
        Version { is_embedded: false, major: 4, minor: 5 },
        features(true),
        Limits { max_viewports: 16 },
        PrivateCaps {
            array_buffer_supported: vaos,
            buffer_storage_supported: true,
            sync_supported: true,
        },
        debug,
    )
}

fn entries(data: &mut DataBuffer, n: usize) -> DataPointer {
    data.add(&vec![0u8; 16 * n]).unwrap()
}

#[test]
fn first_reset_binds_everything() {
    let share = share(true, false);
    let mut queue = CommandQueue::new(3);
    assert_eq!(
        queue.state,
        State { vao: false, index_buffer: None, num_viewports: 0, num_scissors: 0 }
    );
    let reset = queue.reset_state(&share);
    assert_eq!(
        reset.calls,
        vec![
            Call::BindVertexArray { array: 3 },
            Call::BindBuffer { target: ELEMENT_ARRAY_BUFFER, buffer: 0 },
        ]
    );
    assert_eq!(reset.scissors.len(), 0);
    assert_eq!(
        queue.state,
        State { vao: true, index_buffer: Some(0), num_viewports: 0, num_scissors: 0 }
    );
}

#[test]
fn second_reset_makes_no_call() {
    let share = share(true, false);
    let mut queue = CommandQueue::new(3);
    assert_eq!(queue.reset_state(&share).calls.len(), 2);
    let again = queue.reset_state(&share);
    assert_eq!(again.calls, vec![]);
    assert_eq!(again.scissors.len(), 0);
}

#[test]
fn reset_without_vertex_array_objects_binds_none() {
    let share = share(false, false);
    let mut queue = CommandQueue::new(0);
    let reset = queue.reset_state(&share);
    assert_eq!(reset.calls, vec![Call::BindBuffer { target: ELEMENT_ARRAY_BUFFER, buffer: 0 }]);
    assert!(queue.state.vao);
}

#[test]
fn invalidate_forces_the_bindings_anew() {
    let share = share(true, false);
    let mut queue = CommandQueue::new(3);
    queue.reset_state(&share);
    queue.invalidate();
    assert_eq!(queue.state.vao, false);
    assert_eq!(queue.state.index_buffer, None);
    assert_eq!(queue.reset_state(&share).calls.len(), 2);
}

#[test]
fn one_viewport_goes_the_single_way_and_four_the_array_way() {
    let share = share(true, false);
    let mut queue = CommandQueue::new(3);
    queue.reset_state(&share);
    let mut data = DataBuffer::new();
    let one_rect = entries(&mut data, 1);
    let one_range = entries(&mut data, 1);
    let four_rects = entries(&mut data, 4);
    let four_ranges = entries(&mut data, 4);

    let single = Command::SetViewports { viewport_ptr: one_rect, depth_range_ptr: one_range };
    assert!(is_replayable(&single, &data, &share.limits));
    let out = queue.process(&share, &single, &data);
    assert_eq!(
        out.calls,
        vec![Call::ViewportAt { rect: one_rect }, Call::DepthRangeAt { range: one_range }]
    );
    assert_eq!(out.rejected, None);
    assert_eq!(queue.state.num_viewports, 1);

    let array = Command::SetViewports { viewport_ptr: four_rects, depth_range_ptr: four_ranges };
    assert!(is_replayable(&array, &data, &share.limits));
    let out = queue.process(&share, &array, &data);
    assert_eq!(
        out.calls,
        vec![
            Call::ViewportArray { first: 0, count: 4, rects: Source::Data(four_rects) },
            Call::DepthRangeArray { first: 0, count: 4, ranges: Source::Data(four_ranges) },
        ]
    );
    assert_eq!(queue.state.num_viewports, 4);
}

#[test]
fn one_scissor_goes_the_single_way_and_four_the_array_way() {
    let share = share(true, false);
    let mut queue = CommandQueue::new(3);
    queue.reset_state(&share);
    let mut data = DataBuffer::new();
    let one = entries(&mut data, 1);
    let four = entries(&mut data, 4);
    let out = queue.process(&share, &Command::SetScissors(one), &data);
    assert_eq!(out.calls, vec![Call::ScissorAt { rect: one }]);
    assert_eq!(queue.state.num_scissors, 1);
    let out = queue.process(&share, &Command::SetScissors(four), &data);
    assert_eq!(out.calls, vec![Call::ScissorArray { first: 0, count: 4, rects: Source::Data(four) }]);
    assert_eq!(queue.state.num_scissors, 4);
}

#[test]
fn reset_sets_back_all_viewports_and_scissors() {
    let share = share(true, false);
    let mut queue = CommandQueue::new(3);
    queue.reset_state(&share);
    let mut data = DataBuffer::new();
    let four = entries(&mut data, 4);
    let one = entries(&mut data, 1);
    queue.process(&share, &Command::SetViewports { viewport_ptr: four, depth_range_ptr: four }, &data);
    queue.process(&share, &Command::SetScissors(four), &data);
    queue.process(&share, &Command::BindIndexBuffer(8), &data);
    assert_eq!(queue.state.index_buffer, Some(8));
    let reset = queue.reset_state(&share);
    assert_eq!(
        reset.calls,
        vec![
            Call::BindBuffer { target: ELEMENT_ARRAY_BUFFER, buffer: 0 },
            Call::ViewportArray { first: 0, count: 4, rects: Source::Neutral },
            Call::DepthRangeArray { first: 0, count: 4, ranges: Source::Neutral },
            Call::ScissorArray { first: 0, count: 4, rects: Source::Neutral },
        ]
    );
    assert_eq!(reset.scissors.to_vec(), vec![(0, 0, 0, 0); 4]);
    assert_eq!(queue.reset_state(&share).calls, vec![]);

    queue.process(&share, &Command::SetViewports { viewport_ptr: one, depth_range_ptr: one }, &data);
    queue.process(&share, &Command::SetScissors(one), &data);
    let reset = queue.reset_state(&share);
    assert_eq!(
        reset.calls,
        vec![
            Call::Viewport { x: 0, y: 0, width: 0, height: 0 },
            Call::DepthRangeNeutral,
            Call::Scissor { x: 0, y: 0, width: 0, height: 0 },
        ]
    );
    assert_eq!(reset.scissors.len(), 0);
}

#[test]
fn commands_that_cannot_be_replayed_are_told_apart() {
    let limits = Limits { max_viewports: 2 };
    let mut data = DataBuffer::new();
    let three = entries(&mut data, 3);
    let two = entries(&mut data, 2);
    let none = DataPointer { offset: 0, size: 0 };
    let beyond = DataPointer { offset: 64, size: 32 };
    let ragged = DataPointer { offset: 0, size: 20 };
    assert!(!is_replayable(&Command::BindVertexBuffers(two), &data, &limits));
    assert!(!is_replayable(&Command::SetScissors(three), &data, &limits));
    assert!(is_replayable(&Command::SetScissors(two), &data, &limits));
    assert!(!is_replayable(&Command::SetScissors(none), &data, &limits));
    assert!(!is_replayable(&Command::SetScissors(beyond), &data, &limits));
    assert!(!is_replayable(&Command::SetScissors(ragged), &data, &limits));
    assert!(!is_replayable(
        &Command::SetViewports { viewport_ptr: two, depth_range_ptr: three },
        &data,
        &limits
    ));
    assert!(is_replayable(&Command::Dispatch(1, 2, 3), &data, &limits));
}

#[test]
fn the_error_flag_is_read_after_each_command_where_errors_are_checked() {
    let share = share(true, true);
    let mut queue = CommandQueue::new(3);
    queue.reset_state(&share);
    let data = DataBuffer::new();
    let out = queue.process(&share, &Command::Dispatch(1, 2, 3), &data);
    assert_eq!(out.calls, vec![Call::DispatchCompute { x: 1, y: 2, z: 3 }, Call::GetError]);
    assert_eq!(share.check(0), Ok(()));
    assert_eq!(share.check(0x0502), Err(gfx_runtime::gl::Error::InvalidOperation));
    let quiet = self::share(true, false);
    assert_eq!(quiet.check(0x0502), Ok(()));
}

#[test]
fn targets_are_attached_by_their_kind() {
    let queue = CommandQueue::new(0);
    assert_eq!(
        queue.bind_target(1, 2, &TargetView::Surface(9)),
        Call::FramebufferRenderbuffer { point: 1, attachment: 2, target: 0x8D41, surface: 9 }
    );
    assert_eq!(
        queue.bind_target(1, 2, &TargetView::Texture(9, 3)),
        Call::FramebufferTexture { point: 1, attachment: 2, texture: 9, level: 3 }
    );
    assert_eq!(
        queue.bind_target(1, 2, &TargetView::TextureLayer(9, 3, 4)),
        Call::FramebufferTextureLayer { point: 1, attachment: 2, texture: 9, level: 3, layer: 4 }
    );
    assert_eq!(
        queue.unbind_target(1, 2),
        Call::FramebufferTexture { point: 1, attachment: 2, texture: 0, level: 0 }
    );
}
