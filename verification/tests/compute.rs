use nbody::compute::{BindOrder, Dispatch, Y4AccelerationStep, BODY_STATE_SIZE};

#[test]
fn new_schedule_reads_initial_buffer() {
    let s = Y4AccelerationStep::new(3);
    assert_eq!(s.body_count(), 3);
    assert!(!s.swap_buffers());
    assert_eq!(s.draw_order(), BindOrder::AB);
}

#[test]
fn body_count_wraps_at_32_bits() {
    if usize::BITS > 32 {
        let s = Y4AccelerationStep::new((1usize << 32) + 5);
        assert_eq!(s.body_count(), 5);
    }
}

#[test]
fn buffer_size_is_body_count_times_state_size() {
    assert_eq!(BODY_STATE_SIZE, 48);
    assert_eq!(Y4AccelerationStep::buffer_size(3), 144);
    assert_eq!(Y4AccelerationStep::buffer_size(0), 0);
}

#[test]
fn workgroups_round_up() {
    assert_eq!(Y4AccelerationStep::workgroup_count(0), 0);
    assert_eq!(Y4AccelerationStep::workgroup_count(1), 1);
    assert_eq!(Y4AccelerationStep::workgroup_count(3), 1);
    assert_eq!(Y4AccelerationStep::workgroup_count(64), 1);
    assert_eq!(Y4AccelerationStep::workgroup_count(65), 2);
    assert_eq!(Y4AccelerationStep::workgroup_count(128), 2);
    assert_eq!(Y4AccelerationStep::workgroup_count(65535 * 64), 65535);
}

#[test]
fn steps_alternate_bindings() {
    let mut s = Y4AccelerationStep::new(100);
    assert_eq!(s.run(), Dispatch { order: BindOrder::AB, workgroups: 2 });
    assert!(s.swap_buffers());
    assert_eq!(s.draw_order(), BindOrder::BA);
    assert_eq!(s.run(), Dispatch { order: BindOrder::BA, workgroups: 2 });
    assert!(!s.swap_buffers());
    assert_eq!(s.draw_order(), BindOrder::AB);
}

#[test]
fn draw_reads_last_output() {
    let mut s = Y4AccelerationStep::new(3);
    let d = s.run();
    // The step wrote B; drawing binds B as the read buffer.
    assert_eq!(d.order, BindOrder::AB);
    assert_eq!(s.draw_order(), BindOrder::BA);
}

#[test]
fn bindings_alternate_with_step_parity() {
    let mut s = Y4AccelerationStep::new(10);
    for k in 1..=7u32 {
        let d = s.run();
        let expected = if k % 2 == 1 { BindOrder::AB } else { BindOrder::BA };
        assert_eq!(d.order, expected);
        assert_eq!(s.swap_buffers(), k % 2 == 1);
        assert_eq!(s.body_count(), 10);
    }
    assert_eq!(s.draw_order(), BindOrder::BA);
}
