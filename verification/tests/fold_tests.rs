use brainwasm::Bf;
use brainwasm::BfError;
use brainwasm::BfInstr;
use brainwasm::is_valid_instr;

#[test]
fn noncommand_source_folds_to_nothing() {
    let bf = Bf::parse("hello world! 123 \n\t abc").unwrap();
    assert!(bf.0.is_empty());
}

#[test]
fn empty_source_folds_to_nothing() {
    let bf = Bf::parse("").unwrap();
    assert!(bf.0.is_empty());
}

#[test]
fn runs_fold_to_single_instructions() {
    let bf = Bf::parse("++++").unwrap();
    assert_eq!(bf.0, vec![BfInstr::Add(4)]);
}

#[test]
fn instruction_count_follows_run_boundaries() {
    let bf = Bf::parse("+>+>+<<.").unwrap();
    assert_eq!(
        bf.0,
        vec![
            BfInstr::Add(1),
            BfInstr::Right(1),
            BfInstr::Add(1),
            BfInstr::Right(1),
            BfInstr::Add(1),
            BfInstr::Right(-2),
            BfInstr::Output,
        ]
    );
}

#[test]
fn cell_delta_wraps_to_nothing_after_256() {
    let src = "+".repeat(256);
    let bf = Bf::parse(&src).unwrap();
    assert!(bf.0.is_empty());
}

#[test]
fn cell_delta_wraps_negative_past_127() {
    let src = "+".repeat(128);
    assert_eq!(Bf::parse(&src).unwrap().0, vec![BfInstr::Add(-128)]);
}

#[test]
fn pointer_delta_wraps_at_32_bits_not_8() {
    let src = ">".repeat(256);
    assert_eq!(Bf::parse(&src).unwrap().0, vec![BfInstr::Right(256)]);
}

#[test]
fn opposite_commands_cancel() {
    assert!(Bf::parse("+-").unwrap().0.is_empty());
    assert!(Bf::parse("><").unwrap().0.is_empty());
    assert!(Bf::parse("+->><<").unwrap().0.is_empty());
}

#[test]
fn loop_markers_match_bracket_counts() {
    let bf = Bf::parse("[[->+<]]").unwrap();
    let starts = bf.0.iter().filter(|i| matches!(i, BfInstr::StartLoop)).count();
    let ends = bf.0.iter().filter(|i| matches!(i, BfInstr::EndLoop)).count();
    assert_eq!(starts, 2);
    assert_eq!(ends, 2);
}

#[test]
fn folded_output_is_irreducible() {
    let bf = Bf::parse("+++-->>><<..++").unwrap();
    for w in bf.0.windows(2) {
        assert!(!(matches!(w[0], BfInstr::Add(_)) && matches!(w[1], BfInstr::Add(_))));
        assert!(!(matches!(w[0], BfInstr::Right(_)) && matches!(w[1], BfInstr::Right(_))));
    }
    for i in &bf.0 {
        if let BfInstr::Add(x) = i {
            assert_ne!(*x, 0);
        }
        if let BfInstr::Right(x) = i {
            assert_ne!(*x, 0);
        }
    }
}

#[test]
fn unbalanced_brackets_are_rejected() {
    assert_eq!(Bf::parse("[").unwrap_err(), BfError::BracketMismatch);
    assert_eq!(Bf::parse("]").unwrap_err(), BfError::BracketMismatch);
    assert_eq!(Bf::parse("[[]").unwrap_err(), BfError::BracketMismatch);
    assert_eq!(Bf::parse("+[>.").unwrap_err(), BfError::BracketMismatch);
}

#[test]
fn reversed_bracket_order_passes_final_balance_check() {
    // the depth counter goes negative mid-scan; only the final balance is validated
    let bf = Bf::parse("][").unwrap();
    assert_eq!(bf.0, vec![BfInstr::EndLoop, BfInstr::StartLoop]);
}

#[test]
fn command_alphabet_is_eight_symbols() {
    for c in ['+', '-', '<', '>', '.', ',', '[', ']'] {
        assert!(is_valid_instr(&c));
    }
    for c in ['a', ' ', '0', '{', '\n'] {
        assert!(!is_valid_instr(&c));
    }
}

#[test]
fn error_message_text() {
    assert_eq!(BfError::BracketMismatch.message(), "bracket mismatch");
}
