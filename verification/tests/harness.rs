use mc_transpiler::harness::ExecContext;

// The observable effect of one run of a toy guest program that
// increments memory cell 7 once and halts, with its dynamic
// instruction count.
fn run_toy_program(ctx: &mut ExecContext) {
    let v = ctx.memory[7];
    ctx.memory[7] = v + 1;
    ctx.record_instructions(4);
}

#[test]
fn fresh_context_is_zeroed() {
    let ctx = ExecContext::new();
    assert_eq!(ctx.memory.len(), 256);
    assert_eq!(ctx.registers.len(), 16);
    assert!(ctx.memory.iter().all(|&b| b == 0));
    assert!(ctx.registers.iter().all(|&b| b == 0));
    assert_eq!(ctx.instruction_count, 0);
}

#[test]
fn three_iterations_count_triple_and_reset_memory() {
    // The single-run count of the toy program.
    let mut single = ExecContext::new();
    single.reset_for_iteration();
    run_toy_program(&mut single);
    let single_count = single.instruction_count;

    let mut ctx = ExecContext::new();
    for _ in 0..3 {
        ctx.reset_for_iteration();
        run_toy_program(&mut ctx);
    }
    // The count accumulates across iterations...
    assert_eq!(ctx.instruction_count, 3 * single_count);
    // ...but the memory shows only the last iteration's effect.
    assert_eq!(ctx.memory[7], 1);
    for (i, &b) in ctx.memory.iter().enumerate() {
        assert_eq!(b, if i == 7 { 1 } else { 0 });
    }
    assert!(ctx.registers.iter().all(|&b| b == 0));
}

#[test]
fn reset_keeps_the_accumulated_count() {
    let mut ctx = ExecContext::new();
    ctx.record_instructions(17);
    ctx.memory[0] = 5;
    ctx.registers[3] = 9;
    ctx.reset_for_iteration();
    assert_eq!(ctx.instruction_count, 17);
    assert!(ctx.memory.iter().all(|&b| b == 0));
    assert!(ctx.registers.iter().all(|&b| b == 0));
}
