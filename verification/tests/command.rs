use vulkan_core::command::{
    ClearColor, Command, CommandRecorder, Mesh, CLEAR_DEPTH_FAR, CLEAR_STENCIL,
};
use vulkan_core::types::Extent2D;

const RENDER_PASS: u64 = 5;
const PIPELINE: u64 = 6;

fn color(red: f32, green: f32, blue: f32, alpha: f32) -> ClearColor {
    ClearColor {
        red: red.to_bits(),
        green: green.to_bits(),
        blue: blue.to_bits(),
        alpha: alpha.to_bits(),
    }
}

fn black() -> ClearColor {
    color(0.0, 0.0, 0.0, 1.0)
}

fn begin(framebuffer: u64, extent: Extent2D, clear_color: ClearColor) -> Command {
    Command::BeginRenderPass {
        render_pass: RENDER_PASS,
        framebuffer,
        extent,
        clear_color,
        clear_depth: 1.0f32.to_bits(),
        clear_stencil: 0,
    }
}

#[test]
fn depth_is_cleared_to_one() {
    assert_eq!(f32::from_bits(CLEAR_DEPTH_FAR), 1.0);
    assert_eq!(CLEAR_STENCIL, 0);
}

#[test]
fn recording_begins_clears_draws_and_ends() {
    let meshes = vec![Mesh { vertex_buffer: 40, vertex_count: 3 }];
    let recorder = CommandRecorder::new(RENDER_PASS, PIPELINE, black(), meshes);
    let extent = Extent2D { width: 800, height: 600 };
    let recording = recorder.record(1, 30, extent);
    assert_eq!(recording.slot, 1);
    assert_eq!(
        recording.commands,
        vec![
            begin(30, extent, black()),
            Command::BindPipeline { pipeline: PIPELINE },
            Command::BindVertexBuffer { buffer: 40 },
            Command::Draw { vertex_count: 3 },
            Command::EndRenderPass,
        ]
    );
}

#[test]
fn every_mesh_is_bound_and_drawn_in_order() {
    let meshes = vec![
        Mesh { vertex_buffer: 40, vertex_count: 3 },
        Mesh { vertex_buffer: 41, vertex_count: 36 },
        Mesh { vertex_buffer: 42, vertex_count: 0 },
    ];
    let recorder = CommandRecorder::new(RENDER_PASS, PIPELINE, black(), meshes);
    let extent = Extent2D { width: 1, height: 1 };
    let commands = recorder.record(0, 31, extent).commands;
    assert_eq!(commands.len(), 3 + 2 * 3);
    assert_eq!(
        commands[2..8],
        [
            Command::BindVertexBuffer { buffer: 40 },
            Command::Draw { vertex_count: 3 },
            Command::BindVertexBuffer { buffer: 41 },
            Command::Draw { vertex_count: 36 },
            Command::BindVertexBuffer { buffer: 42 },
            Command::Draw { vertex_count: 0 },
        ]
    );
    assert_eq!(commands[8], Command::EndRenderPass);
}

#[test]
fn recording_without_geometry_still_clears() {
    let recorder = CommandRecorder::new(RENDER_PASS, PIPELINE, black(), Vec::new());
    let extent = Extent2D { width: 800, height: 600 };
    assert_eq!(
        recorder.record(0, 30, extent).commands,
        vec![
            begin(30, extent, black()),
            Command::BindPipeline { pipeline: PIPELINE },
            Command::EndRenderPass,
        ]
    );
}

#[test]
fn clear_values_do_not_depend_on_the_frame() {
    let background = color(0.1, 0.2, 0.3, 1.0);
    let meshes = vec![Mesh { vertex_buffer: 40, vertex_count: 3 }];
    let recorder = CommandRecorder::new(RENDER_PASS, PIPELINE, background, meshes);
    assert_eq!(recorder.background(), background);
    let frames = [
        (0usize, 30u64, Extent2D { width: 800, height: 600 }),
        (1, 31, Extent2D { width: 800, height: 600 }),
        (0, 32, Extent2D { width: 1024, height: 768 }),
        (1, 30, Extent2D { width: 1, height: 1 }),
    ];
    for (slot, framebuffer, extent) in frames {
        let recording = recorder.record(slot, framebuffer, extent);
        match recording.commands[0] {
            Command::BeginRenderPass {
                render_pass,
                framebuffer: target,
                extent: area,
                clear_color,
                clear_depth,
                clear_stencil,
            } => {
                assert_eq!(render_pass, RENDER_PASS);
                assert_eq!(target, framebuffer);
                assert_eq!(area, extent);
                assert_eq!(clear_color, background);
                assert_eq!(f32::from_bits(clear_color.red), 0.1);
                assert_eq!(f32::from_bits(clear_color.alpha), 1.0);
                assert_eq!(f32::from_bits(clear_depth), 1.0);
                assert_eq!(clear_stencil, 0);
            }
            _ => panic!("a recording begins with the render pass"),
        }
    }
}

#[test]
fn recording_twice_gives_the_same_commands() {
    let meshes = vec![Mesh { vertex_buffer: 40, vertex_count: 3 }];
    let recorder = CommandRecorder::new(RENDER_PASS, PIPELINE, black(), meshes);
    let extent = Extent2D { width: 800, height: 600 };
    let first = recorder.record(0, 30, extent).commands;
    let second = recorder.record(0, 30, extent).commands;
    assert_eq!(first, second);
}
