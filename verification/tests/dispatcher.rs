use kernel_dispatch::dispatch::{
    buffer_byte_len, copy_output, lookup_kernel, prepare_cube_run, prepare_run,
    prepare_square_run, KernelId,
};
use kernel_dispatch::errors::DispatchError;
use kernel_dispatch::grid::plan_grid;
use kernel_dispatch::stage::{advance, Stage};
use kernel_dispatch::text::str_eq;

#[test]
fn lookup_finds_registered_kernels() {
    assert_eq!(lookup_kernel("square_kernel"), Ok(KernelId::Square));
    assert_eq!(lookup_kernel("cube_kernel"), Ok(KernelId::Cube));
}

#[test]
fn lookup_rejects_unregistered_names() {
    assert_eq!(lookup_kernel("norm_kernel"), Err(DispatchError::KernelNotFound));
    assert_eq!(lookup_kernel(""), Err(DispatchError::KernelNotFound));
    assert_eq!(lookup_kernel("square_kernel "), Err(DispatchError::KernelNotFound));
    assert_eq!(lookup_kernel("SQUARE_KERNEL"), Err(DispatchError::KernelNotFound));
}

#[test]
fn unknown_kernel_yields_no_array() {
    let r = prepare_run("other_kernel", 4, 4);
    assert_eq!(r, Err(DispatchError::KernelNotFound));
}

#[test]
fn kernel_names_round_trip_through_lookup() {
    assert_eq!(lookup_kernel(KernelId::Square.name()), Ok(KernelId::Square));
    assert_eq!(lookup_kernel(KernelId::Cube.name()), Ok(KernelId::Cube));
    assert_eq!(KernelId::Square.name(), "square_kernel");
    assert_eq!(KernelId::Cube.name(), "cube_kernel");
}

#[test]
fn empty_output_dispatches_nothing() {
    assert_eq!(prepare_run("square_kernel", 0, 0), Ok(None));
    assert_eq!(prepare_run("cube_kernel", 0, 0), Ok(None));
    assert!(prepare_square_run(0).is_none());
    assert!(prepare_cube_run(0).is_none());
    assert!(plan_grid(0).is_none());
}

#[test]
fn grid_uses_whole_output_as_one_small_group() {
    let g = plan_grid(5).unwrap();
    assert_eq!(g.thread_count, 5);
    assert_eq!(g.group_size, 5);
    assert_eq!(g.group_count, 1);
}

#[test]
fn grid_caps_group_size_at_256() {
    let g = plan_grid(256).unwrap();
    assert_eq!((g.group_size, g.group_count), (256, 1));
    let g = plan_grid(257).unwrap();
    assert_eq!((g.group_size, g.group_count), (256, 2));
    let g = plan_grid(1000).unwrap();
    assert_eq!((g.thread_count, g.group_size, g.group_count), (1000, 256, 4));
    let g = plan_grid(1024).unwrap();
    assert_eq!((g.group_size, g.group_count), (256, 4));
}

#[test]
fn output_length_is_never_rounded_to_the_grid() {
    let req = prepare_run("square_kernel", 5, 5).unwrap().unwrap();
    assert_eq!(req.output_len, 5);
    assert_eq!(req.output_byte_len, 20);
    assert_eq!(req.grid.thread_count, 5);
    let req = prepare_run("cube_kernel", 300, 300).unwrap().unwrap();
    assert_eq!(req.output_len, 300);
    assert_eq!(req.output_byte_len, 1200);
    assert_eq!(req.grid.group_size * req.grid.group_count, 512);
    let raw: Vec<u32> = (0..300).collect();
    let out = copy_output(&raw, 300).unwrap();
    assert_eq!(out.len(), 300);
}

#[test]
fn buffers_are_sized_four_bytes_per_element() {
    assert_eq!(buffer_byte_len(0), 0);
    assert_eq!(buffer_byte_len(3), 12);
    assert_eq!(buffer_byte_len(256), 1024);
    let req = prepare_run("square_kernel", 7, 7).unwrap().unwrap();
    assert_eq!(req.input_byte_len, 28);
    assert_eq!(req.input_len, 7);
}

#[test]
fn square_and_cube_prepare_equal_length_runs() {
    let sq = prepare_square_run(3).unwrap();
    assert_eq!(sq.kernel, KernelId::Square);
    assert_eq!((sq.input_len, sq.output_len), (3, 3));
    let cu = prepare_cube_run(3).unwrap();
    assert_eq!(cu.kernel, KernelId::Cube);
    assert_eq!((cu.input_len, cu.output_len), (3, 3));
    assert_eq!(sq.grid, cu.grid);
}

#[test]
fn preparing_twice_decides_the_same_run() {
    let a = prepare_run("cube_kernel", 10, 10);
    let b = prepare_run("cube_kernel", 10, 10);
    assert_eq!(a, b);
    let a = prepare_square_run(123);
    let b = prepare_square_run(123);
    assert_eq!(a, b);
}

#[test]
fn copying_twice_yields_the_same_array() {
    let raw: Vec<u32> = vec![1, 2, 3, 4];
    assert_eq!(copy_output(&raw, 4), copy_output(&raw, 4));
}

#[test]
fn copy_returns_exactly_the_requested_prefix() {
    let raw: Vec<u32> = vec![10, 20, 30, 40, 50, 60, 70, 80];
    let out = copy_output(&raw, 5).unwrap();
    assert_eq!(out, vec![10, 20, 30, 40, 50]);
    let all = copy_output(&raw, 8).unwrap();
    assert_eq!(all, raw);
    let none = copy_output(&raw, 0).unwrap();
    assert!(none.is_empty());
}

#[test]
fn copy_refuses_a_short_buffer() {
    let raw: Vec<u32> = vec![1, 2, 3];
    assert!(copy_output(&raw, 4).is_none());
    let empty: Vec<u32> = Vec::new();
    assert!(copy_output(&empty, 1).is_none());
}

#[test]
fn a_successful_run_walks_every_stage() {
    let mut s = Stage::AcquireDevice;
    s = advance(s, true);
    assert_eq!(s, Stage::CompileShader);
    s = advance(s, true);
    assert_eq!(s, Stage::LookupKernel);
    s = advance(s, true);
    assert_eq!(s, Stage::BuildPipeline);
    s = advance(s, true);
    assert_eq!(s, Stage::Execute);
    s = advance(s, true);
    assert_eq!(s, Stage::Complete);
}

#[test]
fn each_step_fails_with_its_own_error() {
    assert_eq!(
        advance(Stage::AcquireDevice, false),
        Stage::Failed(DispatchError::DeviceUnavailable)
    );
    assert_eq!(
        advance(Stage::CompileShader, false),
        Stage::Failed(DispatchError::ShaderCompileFailure)
    );
    assert_eq!(
        advance(Stage::LookupKernel, false),
        Stage::Failed(DispatchError::KernelNotFound)
    );
    assert_eq!(
        advance(Stage::BuildPipeline, false),
        Stage::Failed(DispatchError::PipelineCreationFailure)
    );
}

#[test]
fn failure_is_fatal_and_submit_cannot_fail() {
    let failed = Stage::Failed(DispatchError::DeviceUnavailable);
    assert_eq!(advance(failed, true), failed);
    assert_eq!(advance(failed, false), failed);
    assert_eq!(advance(Stage::Execute, false), Stage::Complete);
    assert_eq!(advance(Stage::Complete, false), Stage::Complete);
}

#[test]
fn string_comparison_is_exact() {
    assert!(str_eq("square_kernel", "square_kernel"));
    assert!(str_eq("", ""));
    assert!(!str_eq("square_kernel", "cube_kernel"));
    assert!(!str_eq("a", "ab"));
    assert!(!str_eq("ab", "aB"));
}
