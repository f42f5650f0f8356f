use bfrscc::interpreter::{Halt, Interpreter};
use bfrscc::lexer::{lexer, Token};
use bfrscc::machine::Machine;
use bfrscc::parser::{parser, Instruction, ParseError};
use bfrscc::run::run;
use bfrscc::state::State;

fn tokens_of(prog: &str) -> Vec<Token> {
    lexer(prog).into_iter().map(|(_, t)| t).collect()
}

#[test]
fn lexer_keeps_one_token_per_character() {
    let ts = lexer("a+-<>,.[]é");
    assert_eq!(ts.len(), 10);
    for (i, (pos, _)) in ts.iter().enumerate() {
        assert_eq!(*pos, i);
    }
    assert_eq!(
        tokens_of("a+-<>,.[]é"),
        vec![
            Token::Comment,
            Token::Increase,
            Token::Decrease,
            Token::MoveLeft,
            Token::MoveRight,
            Token::Input,
            Token::Output,
            Token::LoopBegin(None),
            Token::LoopEnd(None),
            Token::Comment,
        ]
    );
}

#[test]
fn lexer_on_empty_text() {
    assert!(lexer("").is_empty());
}

#[test]
fn lexer_round_trip_recovers_instruction_characters() {
    let prog = "x+[y>.]<z";
    let back: String = lexer(prog)
        .into_iter()
        .filter_map(|(_, t)| match t {
            Token::Increase => Some('+'),
            Token::Decrease => Some('-'),
            Token::MoveLeft => Some('<'),
            Token::MoveRight => Some('>'),
            Token::Input => Some(','),
            Token::Output => Some('.'),
            Token::LoopBegin(_) => Some('['),
            Token::LoopEnd(_) => Some(']'),
            Token::Comment => None,
        })
        .collect();
    assert_eq!(back, "+[>.]<");
}

#[test]
fn parser_pairs_nested_loops() {
    let p = parser(lexer("a[+[-]>]")).unwrap();
    let toks: Vec<Token> = p.iter().map(|i| i.token).collect();
    assert_eq!(
        toks,
        vec![
            Token::LoopBegin(Some(6)),
            Token::Increase,
            Token::LoopBegin(Some(4)),
            Token::Decrease,
            Token::LoopEnd(Some(2)),
            Token::MoveRight,
            Token::LoopEnd(Some(0)),
        ]
    );
    let positions: Vec<usize> = p.iter().map(|i| i.position).collect();
    assert_eq!(positions, vec![1, 2, 3, 4, 5, 6, 7]);
    assert!(p.iter().all(|i| i.multiplier == 1));
}

#[test]
fn parser_pairs_every_loop_both_ways() {
    let p = parser(lexer("[[]][[[]]]x[]")).unwrap();
    for (i, ins) in p.iter().enumerate() {
        match ins.token {
            Token::LoopBegin(Some(j)) => {
                assert!(i < j);
                assert_eq!(p[j].token, Token::LoopEnd(Some(i)));
            }
            Token::LoopEnd(Some(j)) => {
                assert!(j < i);
                assert_eq!(p[j].token, Token::LoopBegin(Some(i)));
            }
            _ => panic!("unexpected token"),
        }
    }
}

#[test]
fn parser_rejects_unmatched_open() {
    assert_eq!(parser(lexer("[+")).unwrap_err(), ParseError::UnmatchedOpen);
    assert_eq!(parser(lexer("[[]")).unwrap_err(), ParseError::UnmatchedOpen);
}

#[test]
fn parser_rejects_unmatched_close() {
    assert_eq!(parser(lexer("+]")).unwrap_err(), ParseError::UnmatchedClose);
    assert_eq!(parser(lexer("][")).unwrap_err(), ParseError::UnmatchedClose);
}

#[test]
fn run_rejects_unmatched_open_before_running() {
    assert_eq!(run("[+", &vec![], 1000).unwrap_err(), ParseError::UnmatchedOpen);
    assert_eq!(run("+.[", &vec![], 1000).unwrap_err(), ParseError::UnmatchedOpen);
}

#[test]
fn run_rejects_unmatched_close() {
    assert_eq!(run("+]", &vec![], 1000).unwrap_err(), ParseError::UnmatchedClose);
}

#[test]
fn run_outputs_three() {
    let o = run("+++.", &vec![], 1000).unwrap();
    assert_eq!(o.halt, Halt::Finished);
    assert_eq!(o.output, vec![3]);
    assert_eq!(o.tape, vec![3]);
}

#[test]
fn run_loop_clears_cell() {
    let o = run("+[-]", &vec![], 1000).unwrap();
    assert_eq!(o.halt, Halt::Finished);
    assert_eq!(o.tape, vec![0]);
    assert!(o.output.is_empty());
}

#[test]
fn run_wraps_below_zero() {
    let o = run(">+<-", &vec![], 1000).unwrap();
    assert_eq!(o.halt, Halt::Finished);
    assert_eq!(o.tape, vec![255, 1]);
}

#[test]
fn run_wraps_above_255() {
    let prog = "+".repeat(257);
    let o = run(&prog, &vec![], 10000).unwrap();
    assert_eq!(o.tape, vec![1]);
}

#[test]
fn run_comments_only() {
    assert!(parser(lexer("hello")).unwrap().is_empty());
    let o = run("hello", &vec![], 1000).unwrap();
    assert_eq!(o.halt, Halt::Finished);
    assert!(o.output.is_empty());
    assert_eq!(o.tape, vec![0]);
}

#[test]
fn run_grows_tape_leftward() {
    let o = run("<+", &vec![], 1000).unwrap();
    assert_eq!(o.halt, Halt::Finished);
    assert_eq!(o.tape, vec![1, 0]);
}

#[test]
fn run_hello_world() {
    let prog = "++++++++[>++++[>++>+++>+++>+<<<<-]>+>+>->>+[<]<-]>>.>---.+++++++..+++.>>.<-.<.+++.------.--------.>>+.>++.";
    let o = run(prog, &vec![], 100000).unwrap();
    assert_eq!(o.halt, Halt::Finished);
    assert_eq!(String::from_utf8(o.output).unwrap(), "Hello World!\n");
}

#[test]
fn run_reads_input_then_zero() {
    let o = run(",>,>,", &vec![7, 9], 1000).unwrap();
    assert_eq!(o.tape, vec![7, 9, 0]);
    let o = run("+,.", &vec![], 1000).unwrap();
    assert_eq!(o.output, vec![0]);
}

#[test]
fn run_stops_at_step_limit() {
    let o = run("+[]", &vec![], 50).unwrap();
    assert_eq!(o.halt, Halt::StepLimit);
    assert_eq!(o.tape, vec![1]);
    let o = run("+++", &vec![], 2).unwrap();
    assert_eq!(o.halt, Halt::StepLimit);
    assert_eq!(o.tape, vec![2]);
}

#[test]
fn execute_stops_on_unresolved_target() {
    let prog = vec![
        Instruction::new(0, Token::Increase, 1),
        Instruction::new(1, Token::LoopBegin(None), 1),
        Instruction::new(2, Token::Increase, 1),
    ];
    let mut m = Interpreter::new();
    let mut out = Vec::new();
    assert_eq!(m.execute(&prog, &vec![], 100, &mut out), Halt::UnresolvedTarget);
    assert_eq!(m.get_tape(), vec![1]);
}

#[test]
fn execute_applies_multipliers() {
    let prog = vec![
        Instruction::new(0, Token::Increase, 5),
        Instruction::new(1, Token::MoveRight, 3),
        Instruction::new(2, Token::Decrease, 2),
        Instruction::new(3, Token::MoveLeft, 5),
        Instruction::new(4, Token::Output, 1),
    ];
    let mut m = Interpreter::new();
    let mut out = vec![42];
    assert_eq!(m.execute(&prog, &vec![], 100, &mut out), Halt::Finished);
    assert_eq!(m.get_tape(), vec![0, 0, 5, 0, 0, 254]);
    assert_eq!(m.get_pos(), 0);
    assert_eq!(out, vec![42, 0]);
}

#[test]
fn instruction_new_sets_fields() {
    let i = Instruction::new(4, Token::Output, 2);
    assert_eq!(i.position, 4);
    assert_eq!(i.token, Token::Output);
    assert_eq!(i.multiplier, 2);
}

#[test]
fn state_starts_with_one_zero_cell() {
    let s = State::new();
    assert_eq!(s.get_tape(), vec![0]);
    assert_eq!(s.get_pos(), 0);
    assert_eq!(State::default().get_tape(), vec![0]);
    assert_eq!(Interpreter::default().get_tape(), vec![0]);
}

#[test]
fn state_moves_and_grows() {
    let mut s = State::new();
    s.right(2);
    assert_eq!(s.get_tape(), vec![0, 0, 0]);
    assert_eq!(s.get_pos(), 2);
    s.left(1);
    assert_eq!(s.get_pos(), 1);
    s.left(3);
    assert_eq!(s.get_tape(), vec![0, 0, 0, 0, 0]);
    assert_eq!(s.get_pos(), 0);
    s.right(1);
    assert_eq!(s.get_tape().len(), 5);
    assert_eq!(s.get_pos(), 1);
}

#[test]
fn state_arithmetic_wraps() {
    let mut s = State::new();
    s.decrease(1);
    assert_eq!(s.get_val(), 255);
    s.increase(3);
    assert_eq!(s.get_val(), 2);
    s.increase(255);
    assert_eq!(s.get_val(), 1);
    s.input(77);
    assert_eq!(s.get_val(), 77);
    let mut out = Vec::new();
    s.output(&mut out);
    assert_eq!(out, vec![77]);
}

#[test]
fn interpreter_machine_methods() {
    let mut m = Interpreter::new();
    m.left(2);
    m.increase(9);
    m.right(1);
    m.decrease(4);
    assert_eq!(m.get_tape(), vec![9, 252, 0]);
    assert_eq!(m.get_val(), 252);
    m.input(5);
    let mut out = Vec::new();
    m.output(&mut out);
    assert_eq!(out, vec![5]);
}
