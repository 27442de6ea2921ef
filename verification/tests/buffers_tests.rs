use rustcraft::buffers::{
    Buffers, ClearColor, CommandBufferAllocateInfo, CommandPoolCreateInfo, FramebufferCreateInfo, RecordCommand,
};
use rustcraft::constants::{
    COMMAND_BUFFER_LEVEL_PRIMARY, COMMAND_BUFFER_USAGE_SIMULTANEOUS_USE, PIPELINE_BIND_POINT_GRAPHICS,
    SUBPASS_CONTENTS_INLINE,
};
use rustcraft::surface::{Extent2D, QueueFamilyIndices};

fn expected_recording(pipeline: u64, framebuffer: u64, render_pass: u64, extent: Extent2D) -> Vec<RecordCommand> {
    vec![
        RecordCommand::Begin { flags: COMMAND_BUFFER_USAGE_SIMULTANEOUS_USE },
        RecordCommand::BeginRenderPass {
            render_pass,
            framebuffer,
            offset_x: 0,
            offset_y: 0,
            extent,
            clear_color: ClearColor { red: 0, green: 0, blue: 0, alpha: 255 },
            contents: SUBPASS_CONTENTS_INLINE,
        },
        RecordCommand::BindPipeline { bind_point: PIPELINE_BIND_POINT_GRAPHICS, pipeline },
        RecordCommand::Draw { vertex_count: 3, instance_count: 1, first_vertex: 0, first_instance: 0 },
        RecordCommand::EndRenderPass,
        RecordCommand::End,
    ]
}

#[test]
fn framebuffers_are_described_one_per_image_view() {
    let extent = Extent2D { width: 800, height: 600 };
    let infos = Buffers::create_frame_buffers(9, &vec![21, 22, 23], &extent);
    assert_eq!(
        infos,
        vec![
            FramebufferCreateInfo { render_pass: 9, attachment: 21, width: 800, height: 600, layers: 1 },
            FramebufferCreateInfo { render_pass: 9, attachment: 22, width: 800, height: 600, layers: 1 },
            FramebufferCreateInfo { render_pass: 9, attachment: 23, width: 800, height: 600, layers: 1 },
        ]
    );
    assert!(Buffers::create_frame_buffers(9, &Vec::new(), &extent).is_empty());
}

#[test]
fn command_pool_belongs_to_the_graphics_family() {
    let families = QueueFamilyIndices { graphics_family: Some(4), present_family: None };
    assert_eq!(
        Buffers::create_command_pool(&families),
        CommandPoolCreateInfo { flags: 0, queue_family_index: 4 }
    );
}

#[test]
fn one_command_buffer_is_recorded_as_a_cleared_triangle() {
    let extent = Extent2D { width: 640, height: 480 };
    assert_eq!(Buffers::record_commands(7, 31, 9, extent), expected_recording(7, 31, 9, extent));
}

#[test]
fn command_buffers_are_planned_one_per_framebuffer() {
    let extent = Extent2D { width: 640, height: 480 };
    let plan = Buffers::create_command_buffers(3, 7, &vec![31, 32], 9, extent);
    assert_eq!(
        plan.allocate,
        CommandBufferAllocateInfo { command_pool: 3, level: COMMAND_BUFFER_LEVEL_PRIMARY, command_buffer_count: 2 }
    );
    assert_eq!(plan.recordings.len(), 2);
    assert_eq!(plan.recordings[0], expected_recording(7, 31, 9, extent));
    assert_eq!(plan.recordings[1], expected_recording(7, 32, 9, extent));
}

#[test]
fn no_framebuffers_need_no_command_buffers() {
    let plan = Buffers::create_command_buffers(3, 7, &Vec::new(), 9, Extent2D { width: 1, height: 1 });
    assert_eq!(plan.allocate.command_buffer_count, 0);
    assert!(plan.recordings.is_empty());
}

#[test]
fn buffers_need_a_framebuffer_for_every_image_view() {
    assert!(Buffers::new(&vec![8, 9, 10], vec![1, 2], 3, vec![4, 5]).is_none());
    assert!(Buffers::new(&vec![8], vec![1, 2], 3, vec![4, 5]).is_none());
    assert!(Buffers::new(&Vec::new(), vec![1], 3, vec![4]).is_none());
}

#[test]
fn buffers_need_a_command_buffer_for_every_framebuffer() {
    let views = vec![8, 9];
    let whole = Buffers::new(&views, vec![1, 2], 3, vec![4, 5]).expect("two of each");
    assert_eq!(whole.framebuffers, vec![1, 2]);
    assert_eq!(whole.command_pool, 3);
    assert_eq!(whole.command_buffers, vec![4, 5]);
    assert!(Buffers::new(&views, vec![1, 2], 3, vec![4]).is_none());
    assert!(Buffers::new(&views, Vec::new(), 3, vec![4]).is_none());
    assert!(Buffers::new(&Vec::new(), Vec::new(), 3, Vec::new()).is_some());
}
