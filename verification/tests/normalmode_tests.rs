use modal_editor::editor::EditorModes;
use modal_editor::insertmode::{InsertAction, InsertType};
use modal_editor::normalmode::motions::{BufferAction, Motion};
use modal_editor::normalmode::operation_pending::{
    action_key, digit_of, motion_key, PendingOperations,
};
use modal_editor::normalmode::{NormalKeyError, NormalMode};

fn press(mode: &mut NormalMode, keys: &str) -> Vec<Result<BufferAction, NormalKeyError>> {
    keys.bytes().map(|c| mode.handle_keypress(c)).collect()
}

fn last_of(keys: &str) -> Result<BufferAction, NormalKeyError> {
    let mut mode = NormalMode::new();
    press(&mut mode, keys).pop().unwrap()
}

fn empty_pending() -> PendingOperations {
    PendingOperations { repeat: 0, action: '\0', modifier: '\0', motion: '\0' }
}

#[test]
fn grammar_count_operator_motion() {
    let mut mode = NormalMode::new();
    let answers = press(&mut mode, "2dw");
    assert_eq!(
        answers,
        vec![
            Err(NormalKeyError::NotMotion),
            Err(NormalKeyError::NotMotion),
            Ok(BufferAction::Delete(Motion::Word(2))),
        ]
    );
    assert_eq!(mode.pending_operations, empty_pending());
}

#[test]
fn grammar_go_to_line() {
    assert_eq!(last_of("gg"), Ok(BufferAction::Move(Motion::GoToLine(0))));
    assert_eq!(last_of("5gg"), Ok(BufferAction::Move(Motion::GoToLine(4))));
    assert_eq!(last_of("1gg"), Ok(BufferAction::Move(Motion::GoToLine(0))));
}

#[test]
fn grammar_count_then_a_key_without_meaning() {
    let mut mode = NormalMode::new();
    let answers = press(&mut mode, "5e");
    assert_eq!(answers, vec![Err(NormalKeyError::NotMotion), Ok(BufferAction::Nothing)]);
    assert_eq!(mode.pending_operations, empty_pending());
}

#[test]
fn grammar_drops_keys_that_are_no_part_of_a_command() {
    let mut mode = NormalMode::new();
    let answers = press(&mut mode, "5z");
    assert_eq!(answers, vec![Err(NormalKeyError::NotMotion), Err(NormalKeyError::NotMotion)]);
    assert_eq!(mode.pending_operations.repeat, 5);
    assert_eq!(mode.handle_keypress(b'j'), Ok(BufferAction::Move(Motion::Down(5))));
    assert_eq!(mode.pending_operations, empty_pending());
}

#[test]
fn grammar_refuses_control_characters() {
    let mut mode = NormalMode::new();
    press(&mut mode, "3d");
    let before = mode.pending_operations;
    assert_eq!(mode.handle_keypress(27), Err(NormalKeyError::InvalidKey));
    assert_eq!(mode.handle_keypress(0), Err(NormalKeyError::InvalidKey));
    assert_eq!(mode.handle_keypress(31), Err(NormalKeyError::InvalidKey));
    assert_eq!(mode.pending_operations, before);
}

#[test]
fn grammar_zero_is_a_motion_or_a_digit() {
    assert_eq!(last_of("0"), Ok(BufferAction::Move(Motion::StartOfLine)));
    assert_eq!(last_of("d0"), Ok(BufferAction::Delete(Motion::StartOfLine)));
    assert_eq!(last_of("10j"), Ok(BufferAction::Move(Motion::Down(10))));
    assert_eq!(last_of("205l"), Ok(BufferAction::Move(Motion::Right(205))));
}

#[test]
fn grammar_count_defaults_to_one() {
    assert_eq!(last_of("j"), Ok(BufferAction::Move(Motion::Down(1))));
    assert_eq!(last_of("h"), Ok(BufferAction::Move(Motion::Left(1))));
    assert_eq!(last_of("dw"), Ok(BufferAction::Delete(Motion::Word(1))));
    assert_eq!(last_of("dd"), Ok(BufferAction::Delete(Motion::Down(0))));
    assert_eq!(last_of("3dd"), Ok(BufferAction::Delete(Motion::Down(2))));
}

#[test]
fn grammar_count_saturates() {
    let mut mode = NormalMode::new();
    for _ in 0..40 {
        assert_eq!(mode.handle_keypress(b'9'), Err(NormalKeyError::NotMotion));
    }
    assert_eq!(mode.pending_operations.repeat, usize::MAX);
    assert_eq!(mode.handle_keypress(b'k'), Ok(BufferAction::Move(Motion::Up(usize::MAX))));
}

#[test]
fn grammar_plain_motions() {
    assert_eq!(last_of("2l"), Ok(BufferAction::Move(Motion::Right(2))));
    assert_eq!(last_of("2k"), Ok(BufferAction::Move(Motion::Up(2))));
    assert_eq!(last_of("2$"), Ok(BufferAction::Move(Motion::EndOfLine(2))));
    assert_eq!(last_of("G"), Ok(BufferAction::Move(Motion::EndOfFile)));
    assert_eq!(last_of("3w"), Ok(BufferAction::Move(Motion::Word(3))));
    assert_eq!(last_of("3W"), Ok(BufferAction::Move(Motion::WORD(3))));
    assert_eq!(last_of("2{"), Ok(BufferAction::Move(Motion::ParagraphStart(2))));
    assert_eq!(last_of("2}"), Ok(BufferAction::Move(Motion::ParagraphEnd(2))));
    assert_eq!(last_of("^"), Ok(BufferAction::Move(Motion::StartOfNonWhiteSpace)));
}

#[test]
fn grammar_commands_of_one_key() {
    assert_eq!(last_of("x"), Ok(BufferAction::Delete(Motion::Right(1))));
    assert_eq!(last_of("7x"), Ok(BufferAction::Delete(Motion::Right(1))));
    assert_eq!(last_of("\x7f"), Ok(BufferAction::Delete(Motion::BackSpace(1))));
    assert_eq!(
        last_of("i"),
        Ok(BufferAction::ChangeMode(EditorModes::Insert, InsertType::Nothing))
    );
    assert_eq!(last_of("a"), Ok(BufferAction::ChangeMode(EditorModes::Insert, InsertType::Append)));
    assert_eq!(
        last_of("A"),
        Ok(BufferAction::ChangeMode(EditorModes::Insert, InsertType::AppendEnd))
    );
    assert_eq!(last_of("o"), Ok(BufferAction::ChangeMode(EditorModes::Insert, InsertType::Next)));
    assert_eq!(last_of("O"), Ok(BufferAction::ChangeMode(EditorModes::Insert, InsertType::Prev)));
    assert_eq!(
        last_of(":"),
        Ok(BufferAction::ChangeMode(EditorModes::Command, InsertType::Nothing))
    );
}

#[test]
fn grammar_deletions() {
    assert_eq!(last_of("2dh"), Ok(BufferAction::Delete(Motion::Left(2))));
    assert_eq!(last_of("2dl"), Ok(BufferAction::Delete(Motion::Right(2))));
    assert_eq!(last_of("d$"), Ok(BufferAction::Delete(Motion::EndOfLine(1))));
    assert_eq!(last_of("dG"), Ok(BufferAction::Delete(Motion::EndOfFile)));
    assert_eq!(last_of("dW"), Ok(BufferAction::Delete(Motion::WORD(1))));
    assert_eq!(last_of("d{"), Ok(BufferAction::Delete(Motion::ParagraphStart(1))));
    assert_eq!(last_of("d}"), Ok(BufferAction::Delete(Motion::ParagraphEnd(1))));
    assert_eq!(last_of("d^"), Ok(BufferAction::Delete(Motion::StartOfNonWhiteSpace)));
    assert_eq!(last_of("2dj"), Ok(BufferAction::Delete(Motion::Down(2))));
    assert_eq!(last_of("2dk"), Ok(BufferAction::Delete(Motion::Up(2))));
    assert_eq!(last_of("d2w"), Ok(BufferAction::Delete(Motion::Word(2))));
    assert_eq!(last_of("d\x7f"), Ok(BufferAction::Delete(Motion::BackSpace(1))));
}

#[test]
fn grammar_pairs_without_meaning_do_nothing() {
    assert_eq!(last_of("dx"), Ok(BufferAction::Nothing));
    assert_eq!(last_of("dg"), Ok(BufferAction::Nothing));
    assert_eq!(last_of("gj"), Ok(BufferAction::Nothing));
    assert_eq!(last_of("fw"), Ok(BufferAction::Nothing));
    assert_eq!(last_of("y"), Ok(BufferAction::Nothing));
    assert_eq!(last_of("H"), Ok(BufferAction::Nothing));
    assert_eq!(last_of("I"), Err(NormalKeyError::NotMotion));
}

#[test]
fn handle_operation_reads_the_slots() {
    let mut mode = NormalMode::new();
    mode.pending_operations.motion = 'I';
    assert_eq!(
        mode.handle_operation(1),
        BufferAction::ChangeMode(EditorModes::Insert, InsertType::InsertStart)
    );
    mode.pending_operations.action = 'g';
    mode.pending_operations.motion = 'g';
    assert_eq!(mode.handle_operation(0), BufferAction::Move(Motion::GoToLine(0)));
    assert_eq!(mode.handle_operation(8), BufferAction::Move(Motion::GoToLine(7)));
    mode.pending_operations.action = 'd';
    mode.pending_operations.motion = 'd';
    assert_eq!(mode.handle_operation(0), BufferAction::Delete(Motion::Down(0)));
    mode.pending_operations.action = '\0';
    mode.pending_operations.motion = 'd';
    assert_eq!(mode.handle_operation(4), BufferAction::Move(Motion::Down(1)));
}

#[test]
fn pending_operations_slots() {
    let mut pending = PendingOperations::new();
    assert_eq!(pending, empty_pending());
    assert!(!pending.is_action_given());
    assert!(!pending.is_motion_given());
    assert!(!pending.is_modifier_given());
    pending.insert_key('4');
    pending.insert_key('2');
    assert_eq!(pending.repeat, 42);
    pending.insert_key('d');
    assert!(pending.is_action_given());
    assert_eq!(pending.action, 'd');
    pending.insert_key('g');
    assert!(pending.is_motion_given());
    assert_eq!(pending.motion, 'g');
    assert_eq!(pending.action, 'd');
    pending.insert_key('w');
    assert_eq!(pending.motion, 'g');
    pending.insert_key('a');
    assert!(!pending.is_modifier_given());
    pending.reset();
    assert_eq!(pending, empty_pending());
}

#[test]
fn pending_operations_leading_zero() {
    let mut pending = PendingOperations::new();
    pending.insert_key('0');
    assert_eq!(pending.repeat, 0);
    assert_eq!(pending.motion, '0');
    let mut pending = PendingOperations::new();
    pending.insert_key('3');
    pending.insert_key('0');
    assert_eq!(pending.repeat, 30);
    assert_eq!(pending.motion, '\0');
}

#[test]
fn key_tables() {
    for key in ['d', 'f', 'g'] {
        assert!(action_key(key));
    }
    for key in ['h', 'x', 'w', ':', 'i'] {
        assert!(!action_key(key));
    }
    for key in "hjklxdgGaiAoOHMLwWe{}:y^$0\x7f".chars() {
        assert!(motion_key(key), "{:?}", key);
    }
    for key in ['I', 'z', 'f', ' ', '1', 'b'] {
        assert!(!motion_key(key), "{:?}", key);
    }
    assert_eq!(digit_of('0'), Some(0));
    assert_eq!(digit_of('7'), Some(7));
    assert_eq!(digit_of('9'), Some(9));
    assert_eq!(digit_of('a'), None);
    assert_eq!(digit_of('\u{b2}'), None);
}

#[test]
fn insert_mode_keys() {
    assert_eq!(InsertAction::handle_key(27), InsertAction::Escape);
    assert_eq!(InsertAction::handle_key(127), InsertAction::Backspace);
    assert_eq!(InsertAction::handle_key(13), InsertAction::Newline);
    assert_eq!(InsertAction::handle_key(9), InsertAction::Chars(9));
    assert_eq!(InsertAction::handle_key(b'a'), InsertAction::Chars(b'a'));
    assert_eq!(InsertAction::handle_key(33), InsertAction::Chars(33));
    assert_eq!(InsertAction::handle_key(255), InsertAction::Chars(255));
    assert_eq!(InsertAction::handle_key(32), InsertAction::Nothing);
    assert_eq!(InsertAction::handle_key(0), InsertAction::Nothing);
    assert_eq!(InsertAction::handle_key(10), InsertAction::Nothing);
}
