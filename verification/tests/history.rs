use yappyink::error::DocumentError;
use yappyink::id::{IdSource, ObjectId, OutputId};
use yappyink::limits::MAX_UNDO_TRANSACTIONS;
use yappyink::object::Object;
use yappyink::session::Session;
use yappyink::document::Document;

type Stroke = Object<u8, (i32, i32)>;
type Board = Session<u8, (i32, i32), (u32, u32)>;

// The scenarios below draw with a colour, a width and an opacity as the style,
// the points of a stroke or the corners of a rectangle as the shape, and a
// logical width and height as the output size.
type Style = ((u8, u8, u8), f64, f64);
type Points = Vec<(f64, f64)>;
type Ink = Object<Style, Points>;
type Editor = Session<Style, Points, (f64, f64)>;

fn style() -> Style {
    ((255, 0, 255), 4.0, 1.0)
}

fn session() -> (Editor, IdSource, OutputId) {
    let output = OutputId::new("test");
    (Session::new(output.duplicate(), (1000.0, 1000.0)), IdSource::starting_at(1), output)
}

fn stroke_at(ids: &mut IdSource, output: &OutputId, y: f64) -> Ink {
    Object::new(ids.next_id(), output.duplicate(), style(), vec![(10.0, y), (200.0, y)])
}

fn ids_of(session: &Editor) -> Vec<ObjectId> {
    session.document().objects().iter().map(|o| o.id()).collect()
}

#[test]
fn core_test_sequence() {
    let (mut session, mut ids, output) = session();

    let a = session.add(stroke_at(&mut ids, &output, 10.0)).unwrap();
    let b = session
        .add(Object::new(ids.next_id(), output.duplicate(), style(), vec![(400.0, 100.0), (600.0, 180.0)]))
        .unwrap();
    let c = session.add(stroke_at(&mut ids, &output, 300.0)).unwrap();
    assert_eq!(ids_of(&session), vec![a, b, c]);

    // One eraser gesture that crossed A and C removes both as one edit.
    let erased = session.delete(&[a, c]).unwrap();
    assert_eq!(erased, 2, "one gesture, two objects");
    assert_eq!(ids_of(&session), vec![b]);

    assert!(session.undo().unwrap());
    assert_eq!(ids_of(&session), vec![a, b, c], "the eraser sweep was one transaction, and order is exact");

    assert!(session.undo().unwrap());
    assert_eq!(ids_of(&session), vec![a, b]);

    assert!(session.redo().unwrap());
    assert_eq!(ids_of(&session), vec![a, b, c]);

    assert_eq!(session.clear().unwrap(), 3);
    assert!(session.document().is_empty());

    assert!(session.undo().unwrap());
    assert_eq!(ids_of(&session), vec![a, b, c]);

    assert!(session.undo().unwrap());
    assert!(session.can_redo(), "there is something to redo before the new edit");
    session.add(stroke_at(&mut ids, &output, 500.0)).unwrap();
    assert!(!session.can_redo(), "a new edit clears the redo branch");
}

#[test]
fn an_eraser_that_touches_nothing_records_no_history() {
    let (mut session, mut ids, output) = session();
    session.add(stroke_at(&mut ids, &output, 10.0)).unwrap();
    let before = session.document().len();

    // A sweep that crossed nothing names no objects.
    let erased = session.delete(&[]).unwrap();

    assert_eq!(erased, 0);
    assert_eq!(session.document().len(), before);
    assert!(session.undo().unwrap());
    assert!(session.document().is_empty());
}

#[test]
fn undo_and_redo_report_when_there_is_nothing_to_do() {
    let (mut session, _, _) = session();

    assert!(!session.undo().unwrap());
    assert!(!session.redo().unwrap());
    assert!(!session.can_undo());
    assert!(!session.can_redo());
}

#[test]
fn clearing_an_empty_document_is_a_no_op() {
    let (mut session, mut ids, output) = session();
    session.add(stroke_at(&mut ids, &output, 10.0)).unwrap();

    assert_eq!(session.clear().unwrap(), 1);
    assert_eq!(session.clear().unwrap(), 0, "the second clear changes nothing");

    assert!(session.undo().unwrap());
    assert_eq!(session.document().len(), 1, "one undo reaches the objects");
}

#[test]
fn an_undone_edit_is_restored_with_its_exact_style() {
    let output = OutputId::new("test");
    let mut session: Editor = Session::new(output.duplicate(), (1000.0, 1000.0));
    let mut ids = IdSource::starting_at(1);
    let distinctive: Style = ((64, 224, 96), 16.0, 0.3);
    let drawn: Ink = Object::new(ids.next_id(), output, distinctive, vec![(10.0, 10.0), (90.0, 90.0)]);
    session.add(drawn.clone()).unwrap();

    session.clear().unwrap();
    session.undo().unwrap();

    let restored = session.document().objects().first().expect("restored");
    assert_eq!(restored, &drawn, "style, geometry and id all survive");
}

#[test]
fn redo_survives_until_a_new_edit_replaces_it() {
    let (mut session, mut ids, output) = session();
    session.add(stroke_at(&mut ids, &output, 10.0)).unwrap();
    session.add(stroke_at(&mut ids, &output, 20.0)).unwrap();

    session.undo().unwrap();
    assert!(session.can_redo());

    // An eraser tap on empty canvas names no objects: a no-op, not an edit.
    session.delete(&[]).unwrap();
    assert!(session.can_redo(), "a no-op erase left the branch alone");

    session.add(stroke_at(&mut ids, &output, 30.0)).unwrap();
    assert!(!session.can_redo());
}

#[test]
fn undoing_everything_empties_the_document_and_stops() {
    let (mut session, mut ids, output) = session();
    for step in 0..5 {
        session.add(stroke_at(&mut ids, &output, 10.0 + f64::from(step) * 20.0)).unwrap();
    }

    let mut undone = 0;
    while session.undo().unwrap() {
        undone += 1;
        assert!(undone <= 10, "undo is not terminating");
    }

    assert_eq!(undone, 5);
    assert!(session.document().is_empty());
}

#[test]
fn history_is_bounded_and_says_when_it_truncated() {
    let (mut session, mut ids, output) = session();
    let limit = MAX_UNDO_TRANSACTIONS;

    for step in 0..(limit + 10) {
        session.add(stroke_at(&mut ids, &output, (step % 900) as f64 + 5.0)).unwrap();
    }

    assert_eq!(session.history().undo_depth(), limit);
    assert!(session.history().was_truncated());
    assert_eq!(session.document().len(), limit + 10);
}

#[test]
fn deleting_a_selection_is_one_undoable_edit() {
    let (mut session, mut ids, output) = session();
    let a = session.add(stroke_at(&mut ids, &output, 100.0)).unwrap();
    let b = session.add(stroke_at(&mut ids, &output, 200.0)).unwrap();
    session.add(stroke_at(&mut ids, &output, 300.0)).unwrap();

    assert_eq!(session.delete(&[a, b]).unwrap(), 2);
    assert_eq!(session.document().len(), 1);

    assert!(session.undo().unwrap());
    assert_eq!(session.document().len(), 3, "one undo brings both back");
}

fn board() -> (Board, IdSource, OutputId) {
    let output = OutputId::new("test");
    (Session::new(output.duplicate(), (1000, 1000)), IdSource::starting_at(1), output)
}

fn stroke(ids: &mut IdSource, output: &OutputId, y: i32) -> Stroke {
    Object::new(ids.next_id(), output.duplicate(), 1, (10, y))
}

fn ids_in(board: &Board) -> Vec<ObjectId> {
    board.document().objects().iter().map(|o| o.id()).collect()
}

#[test]
fn deleting_nothing_is_not_a_transaction() {
    let (mut board, mut ids, output) = board();
    let a = board.add(stroke(&mut ids, &output, 10)).unwrap();
    let missing = ObjectId::from_raw(999);
    assert_eq!(board.delete(&[]).unwrap(), 0);
    assert_eq!(board.delete(&[missing]).unwrap(), 0);
    assert_eq!(board.history().undo_depth(), 1);
    assert_eq!(ids_in(&board), vec![a]);
    assert_eq!(board.clear().unwrap(), 1);
    assert_eq!(board.clear().unwrap(), 0);
    assert_eq!(board.history().undo_depth(), 2);
}

#[test]
fn an_object_for_another_output_is_refused_and_nothing_is_recorded() {
    let (mut board, mut ids, _) = board();
    let elsewhere = OutputId::new("HDMI-A-1");
    let object = stroke(&mut ids, &elsewhere, 10);
    let id = object.id();
    match board.add(object) {
        Err(DocumentError::OutputMismatch { object, expected, found }) => {
            assert_eq!(object, id);
            assert_eq!(expected.as_str(), "test");
            assert_eq!(found.as_str(), "HDMI-A-1");
        }
        other => panic!("expected a mismatch, got {other:?}"),
    }
    assert!(board.document().is_empty());
    assert!(!board.can_undo());
}

#[test]
fn the_history_keeps_a_bounded_number_of_transactions() {
    let (mut board, mut ids, output) = board();
    for y in 0..(MAX_UNDO_TRANSACTIONS as i32 + 5) {
        board.add(stroke(&mut ids, &output, y)).unwrap();
    }
    assert_eq!(board.history().undo_depth(), MAX_UNDO_TRANSACTIONS);
    assert!(board.history().was_truncated());
    let mut undone = 0;
    while board.undo().unwrap() {
        undone += 1;
    }
    assert_eq!(undone, MAX_UNDO_TRANSACTIONS);
    assert_eq!(board.document().len(), 5, "the oldest edits can no longer be undone");
}

#[test]
fn rebinding_to_another_output_works_only_while_empty() {
    let (mut board, mut ids, output) = board();
    assert!(board.rebind(OutputId::new("DP-2")));
    assert_eq!(board.document().output().as_str(), "DP-2");
    let moved = OutputId::new("DP-2");
    board.add(stroke(&mut ids, &moved, 1)).unwrap();
    assert!(!board.rebind(output));
    assert_eq!(board.document().output().as_str(), "DP-2");
}

#[test]
fn every_edit_changes_the_revision() {
    let (mut board, mut ids, output) = board();
    let first = board.document().revision();
    board.add(stroke(&mut ids, &output, 1)).unwrap();
    let second = board.document().revision();
    assert_ne!(first, second);
    board.undo().unwrap();
    assert_ne!(board.document().revision(), second);
}

#[test]
fn removed_objects_go_back_where_they_were() {
    let output = OutputId::new("r");
    let mut document: Document<u8, (i32, i32), (u32, u32)> = Document::new(output.duplicate(), (10, 10));
    for raw in 1..=4 {
        document.add(Object::new(ObjectId::from_raw(raw), output.duplicate(), 0, (0, 0))).unwrap();
    }
    let removed = document.remove_with_positions(&[ObjectId::from_raw(2), ObjectId::from_raw(4)]);
    let positions: Vec<usize> = removed.iter().map(|(p, _)| *p).collect();
    assert_eq!(positions, vec![1, 3]);
    document.insert_at(removed).unwrap();
    let order: Vec<u64> = document.objects().iter().map(|o| o.id().get()).collect();
    assert_eq!(order, vec![1, 2, 3, 4]);
    assert_eq!(document.position_of(ObjectId::from_raw(3)), Some(2));
    assert!(document.get(ObjectId::from_raw(9)).is_none());
    let bad = vec![(7, Object::new(ObjectId::from_raw(9), output.duplicate(), 0, (0, 0)))];
    assert_eq!(
        document.insert_at(bad),
        Err(DocumentError::InvalidPosition { index: 7, length: 4 })
    );
}
