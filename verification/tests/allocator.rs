use tskv::GlobalContext;

#[test]
fn fresh_allocator_starts_at_zero() {
    let ctx = GlobalContext::new();
    assert_eq!(ctx.file_id(), 0);
    assert_eq!(ctx.last_seq(), 0);
    assert_eq!(ctx.tsfamily_id(), 0);
}

#[test]
fn default_allocator_matches_new() {
    let ctx = GlobalContext::default();
    assert_eq!(ctx.file_id(), 0);
    assert_eq!(ctx.last_seq(), 0);
    assert_eq!(ctx.tsfamily_id(), 0);
}

#[test]
fn file_id_next_returns_then_increments() {
    let mut ctx = GlobalContext::new();
    assert_eq!(ctx.file_id_next(), 0);
    assert_eq!(ctx.file_id(), 1);
}

#[test]
fn tsfamily_id_next_returns_then_increments() {
    let mut ctx = GlobalContext::new();
    assert_eq!(ctx.tsfamily_id_next(), 0);
    assert_eq!(ctx.tsfamily_id(), 1);
}

#[test]
fn mem_seq_next_counts_up_from_zero() {
    let mut ctx = GlobalContext::new();
    assert_eq!(ctx.mem_seq_next(), 0);
    assert_eq!(ctx.mem_seq_next(), 1);
    assert_eq!(ctx.mem_seq_next(), 2);
}

#[test]
fn file_ids_from_fresh_are_dense_and_unique() {
    let mut ctx = GlobalContext::new();
    let mut returned: Vec<u64> = Vec::new();
    for _ in 0..100 {
        returned.push(ctx.file_id_next());
    }
    // Exactly {0, 1, ..., 99}: no duplicates and no gaps.
    for (i, v) in returned.iter().enumerate() {
        assert_eq!(*v, i as u64);
    }
}

#[test]
fn counters_are_independent() {
    let mut ctx = GlobalContext::new();
    ctx.file_id_next();
    ctx.file_id_next();
    ctx.file_id_next();
    // Stepping the file-id counter left the other two issuing counters alone.
    assert_eq!(ctx.mem_seq_next(), 0);
    assert_eq!(ctx.tsfamily_id_next(), 0);
    // And stepping those did not move the file-id counter.
    assert_eq!(ctx.file_id(), 3);
    // The last-applied marker is untouched by all of it.
    assert_eq!(ctx.last_seq(), 0);
    ctx.set_last_seq(17);
    assert_eq!(ctx.file_id(), 3);
    assert_eq!(ctx.mem_seq_next(), 1);
    assert_eq!(ctx.tsfamily_id_next(), 1);
}

#[test]
fn set_last_seq_then_read_yields_value() {
    let mut ctx = GlobalContext::new();
    ctx.set_last_seq(42);
    assert_eq!(ctx.last_seq(), 42);
    ctx.set_last_seq(7);
    assert_eq!(ctx.last_seq(), 7);
}

#[test]
fn current_file_id_reflects_most_recent_write() {
    let mut ctx = GlobalContext::new();
    ctx.set_file_id(7);
    assert_eq!(ctx.file_id(), 7);
    ctx.file_id_next();
    assert_eq!(ctx.file_id(), 8);
}

#[test]
fn set_tsfamily_id_then_issue_continues_from_value() {
    let mut ctx = GlobalContext::new();
    ctx.set_tsfamily_id(9);
    assert_eq!(ctx.tsfamily_id(), 9);
    assert_eq!(ctx.tsfamily_id_next(), 9);
    assert_eq!(ctx.tsfamily_id(), 10);
}

#[test]
fn fetch_add_log_seq_reserves_a_block() {
    let mut ctx = GlobalContext::new();
    assert_eq!(ctx.fetch_add_log_seq(5), 0);
    assert_eq!(ctx.file_id(), 5);
    assert_eq!(ctx.fetch_add_log_seq(3), 5);
    assert_eq!(ctx.file_id(), 8);
}

#[test]
fn file_id_can_reach_its_maximum() {
    let mut ctx = GlobalContext::new();
    ctx.set_file_id(u64::MAX - 1);
    assert_eq!(ctx.file_id_next(), u64::MAX - 1);
    assert_eq!(ctx.file_id(), u64::MAX);
}
