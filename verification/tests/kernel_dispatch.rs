use compute_core::common::{cross, flatten_lines};
use compute_core::error::{missing_file_message, SessionError};
use compute_core::kernel::{
    accept_dispatch_result, plan_buffer_dispatch, positional_args, AccessMode, BufferDims, Kernel,
    KernelArg,
};
use compute_core::profiling::ProfilingEvent;

#[test]
fn flatten_lines_terminates_each_line() {
    let lines = vec!["__kernel void square(".to_string(), ") {}".to_string()];
    assert_eq!(flatten_lines(&lines), "__kernel void square(\n) {}\n");
}

#[test]
fn flatten_lines_of_nothing_is_empty() {
    let lines: Vec<String> = Vec::new();
    assert_eq!(flatten_lines(&lines), "");
}

#[test]
fn flatten_lines_keeps_empty_lines() {
    let lines = vec![String::new(), "x".to_string(), String::new()];
    assert_eq!(flatten_lines(&lines), "\nx\n\n");
}

#[test]
fn kernel_create_resolves_plan() {
    let lines = vec!["a".to_string(), "b".to_string()];
    let dims = BufferDims { width: 800, height: 600, depth: 1 };
    let k = Kernel::create(&lines, "main", dims);
    assert_eq!(k.program_source, "a\nb\n");
    assert_eq!(k.name, "main");
    assert_eq!(k.global_work_size, dims);
}

#[test]
fn building_twice_is_idempotent() {
    let lines = vec!["__kernel void main() {}".to_string()];
    let dims = BufferDims { width: 4, height: 2, depth: 1 };
    let k1 = Kernel::create(&lines, "main", dims);
    let k2 = Kernel::create(&lines, "main", dims);
    assert_eq!(k1.program_source, k2.program_source);
    assert_eq!(k1.name, k2.name);
    assert_eq!(k1.global_work_size, k2.global_work_size);
}

#[test]
fn dispatch_plan_matches_input_length() {
    let p = plan_buffer_dispatch(10);
    assert_eq!(p.input.len, 10);
    assert_eq!(p.input.mode, AccessMode::ReadOnly);
    assert_eq!(p.output.len, 10);
    assert_eq!(p.output.mode, AccessMode::WriteOnly);
    assert_eq!(p.element_count, 10);
    assert_eq!(p.global_work_size, 10);
}

#[test]
fn arguments_are_bound_in_fixed_order() {
    let p = plan_buffer_dispatch(10);
    let args = positional_args(&p);
    assert_eq!(
        args,
        vec![KernelArg::InputBuffer, KernelArg::OutputBuffer, KernelArg::ElementCount(10)]
    );
}

#[test]
fn square_kernel_round_trip() {
    let input: Vec<i32> = (0..10).collect();
    let plan = plan_buffer_dispatch(input.len());
    // What a kernel that squares each element writes into the output buffer.
    let device_output: Vec<i32> = input.iter().map(|x| x * x).collect();
    let event = ProfilingEvent { start_ns: 1_000, end_ns: 3_500 };
    let outcome = accept_dispatch_result(&plan, Ok((device_output, event))).unwrap();
    assert_eq!(outcome.output, vec![0, 1, 4, 9, 16, 25, 36, 49, 64, 81]);
    assert_eq!(outcome.output.len(), input.len());
    assert_eq!(outcome.duration_ns, 2_500);
}

#[test]
fn enqueue_failure_is_a_dispatch_error() {
    let plan = plan_buffer_dispatch(3);
    let r = accept_dispatch_result::<i32>(&plan, Err("CL_OUT_OF_RESOURCES".to_string()));
    match r {
        Err(SessionError::Dispatch(m)) => assert_eq!(m, "CL_OUT_OF_RESOURCES"),
        _ => panic!("expected a dispatch error"),
    }
}

#[test]
fn short_output_is_rejected() {
    let plan = plan_buffer_dispatch(3);
    let event = ProfilingEvent { start_ns: 0, end_ns: 1 };
    let r = accept_dispatch_result(&plan, Ok((vec![1i32], event)));
    match r {
        Err(SessionError::Dispatch(m)) => {
            assert_eq!(m, "Output buffer length does not match the dispatch plan")
        }
        _ => panic!("expected a dispatch error"),
    }
}

#[test]
fn unordered_timestamps_are_rejected() {
    let plan = plan_buffer_dispatch(1);
    let event = ProfilingEvent { start_ns: 5, end_ns: 4 };
    let r = accept_dispatch_result(&plan, Ok((vec![1i32], event)));
    match r {
        Err(SessionError::Dispatch(m)) => {
            assert_eq!(m, "Profiling timestamps are out of order")
        }
        _ => panic!("expected a dispatch error"),
    }
}

#[test]
fn duration_is_end_minus_start() {
    let e = ProfilingEvent { start_ns: 100, end_ns: 100 };
    assert_eq!(e.duration_ns(), Some(0));
    let e = ProfilingEvent { start_ns: 100, end_ns: 250 };
    assert_eq!(e.duration_ns(), Some(150));
    let e = ProfilingEvent { start_ns: 251, end_ns: 250 };
    assert_eq!(e.duration_ns(), None);
}

#[test]
fn missing_file_diagnostic_names_the_path() {
    let m = missing_file_message("src/cl/main.cl");
    assert_eq!(m, "No file found for src/cl/main.cl");
}

#[test]
fn cross_product_of_planar_vectors() {
    assert_eq!(cross((1, 0), (0, 1)), 1);
    assert_eq!(cross((0, 1), (1, 0)), -1);
    assert_eq!(cross((3, 4), (5, 6)), 3 * 6 - 4 * 5);
    assert_eq!(cross((2, 2), (4, 4)), 0);
}
