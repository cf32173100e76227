use yappyink::document::Document;
use yappyink::error::DocumentError;
use yappyink::id::{IdSource, ObjectId, OutputId};
use yappyink::limits::{MAX_OBJECTS_PER_OUTPUT, MAX_STROKE_POINTS};
use yappyink::object::{check_stroke, Object};

// The document is generic over what an object looks like. Here a style is a
// colour, a width and an opacity, a shape is the points of a stroke, and an
// output size is a logical width and height.
type Style = ((u8, u8, u8), f64, f64);
type Points = Vec<(f64, f64)>;
type Size = (f64, f64);
type Ink = Object<Style, Points>;
type Page = Document<Style, Points, Size>;

fn page_style() -> Style {
    ((255, 0, 255), 4.0, 1.0)
}

fn output_size() -> Size {
    (1920.0, 1080.0)
}

fn pen_stroke(ids: &mut IdSource, output: &OutputId) -> Ink {
    Object::new(ids.next_id(), output.duplicate(), page_style(), vec![(10.0, 10.0), (20.0, 40.0)])
}

fn page_ids(document: &Page) -> Vec<ObjectId> {
    document.objects().iter().map(|object| object.id()).collect()
}

#[test]
fn a_stroke_needs_at_least_one_point() {
    let none: Points = Vec::new();
    assert_eq!(check_stroke(none.len()), Err(DocumentError::EmptyStroke));
    let dot: Points = vec![(10.0, 10.0)];
    assert_eq!(check_stroke(dot.len()), Ok(()), "a dot is a valid gesture");
}

#[test]
fn a_stroke_is_bounded_by_the_sample_limit() {
    let too_many: Points = vec![(1.0, 1.0); MAX_STROKE_POINTS + 1];
    assert!(matches!(check_stroke(too_many.len()), Err(DocumentError::StrokeTooLong { .. })));
    assert_eq!(
        check_stroke(too_many.len()),
        Err(DocumentError::StrokeTooLong { points: MAX_STROKE_POINTS + 1, limit: MAX_STROKE_POINTS })
    );
    assert_eq!(check_stroke(MAX_STROKE_POINTS), Ok(()));
}

#[test]
fn an_object_must_belong_to_the_document_it_is_added_to() {
    let mut ids = IdSource::starting_at(1);
    let here = OutputId::new("eDP-1");
    let elsewhere = OutputId::new("HDMI-1");
    let mut document: Page = Document::new(here, output_size());

    let foreign = pen_stroke(&mut ids, &elsewhere);

    assert!(matches!(document.add(foreign), Err(DocumentError::OutputMismatch { .. })));
    assert!(document.is_empty());
}

#[test]
fn documents_for_different_outputs_are_independent() {
    let mut ids = IdSource::starting_at(1);
    let laptop = OutputId::new("eDP-1");
    let monitor = OutputId::new("HDMI-1");
    let mut on_laptop: Page = Document::new(laptop.duplicate(), output_size());
    let mut on_monitor: Page = Document::new(monitor.duplicate(), output_size());

    on_laptop.add(pen_stroke(&mut ids, &laptop)).unwrap();
    on_laptop.add(pen_stroke(&mut ids, &laptop)).unwrap();
    on_monitor.add(pen_stroke(&mut ids, &monitor)).unwrap();

    assert_eq!(on_laptop.len(), 2);
    assert_eq!(on_monitor.len(), 1);

    on_laptop.clear();
    assert!(on_laptop.is_empty());
    assert_eq!(on_monitor.len(), 1, "clearing one output must not affect another");
}

#[test]
fn objects_keep_the_order_they_were_added_in() {
    let mut ids = IdSource::starting_at(1);
    let output = OutputId::new("eDP-1");
    let mut document: Page = Document::new(output.duplicate(), output_size());

    let first = document.add(pen_stroke(&mut ids, &output)).unwrap();
    let second = document.add(pen_stroke(&mut ids, &output)).unwrap();

    assert_eq!(page_ids(&document), vec![first, second]);
}

#[test]
fn removing_objects_takes_only_the_ones_named() {
    let mut ids = IdSource::starting_at(1);
    let output = OutputId::new("eDP-1");
    let mut document: Page = Document::new(output.duplicate(), output_size());

    let keep = document.add(pen_stroke(&mut ids, &output)).unwrap();
    let remove = document.add(pen_stroke(&mut ids, &output)).unwrap();

    let removed = document.remove(&[remove]);

    assert_eq!(removed.len(), 1);
    assert_eq!(removed[0].id(), remove);
    assert_eq!(document.len(), 1);
    assert_eq!(document.objects()[0].id(), keep);
}

#[test]
fn removing_an_unknown_id_is_not_an_error_and_changes_nothing() {
    let mut ids = IdSource::starting_at(1);
    let output = OutputId::new("eDP-1");
    let mut document: Page = Document::new(output.duplicate(), output_size());
    document.add(pen_stroke(&mut ids, &output)).unwrap();

    let removed = document.remove(&[ObjectId::from_raw(9999)]);

    assert!(removed.is_empty(), "a no-op removal must report that it removed nothing");
    assert_eq!(document.len(), 1);
}

#[test]
fn a_document_is_bounded_by_the_object_limit() {
    let mut ids = IdSource::starting_at(1);
    let output = OutputId::new("eDP-1");
    let mut document: Page = Document::new(output.duplicate(), output_size());

    for _ in 0..MAX_OBJECTS_PER_OUTPUT {
        document.add(pen_stroke(&mut ids, &output)).unwrap();
    }

    assert!(matches!(
        document.add(pen_stroke(&mut ids, &output)),
        Err(DocumentError::ObjectLimitReached { .. })
    ));
    assert_eq!(document.len(), MAX_OBJECTS_PER_OUTPUT);
}

#[test]
fn objects_outside_the_output_are_kept_not_clamped() {
    let mut ids = IdSource::starting_at(1);
    let output = OutputId::new("eDP-1");
    let mut document: Page = Document::new(output.duplicate(), output_size());

    let object: Ink =
        Object::new(ids.next_id(), output.duplicate(), page_style(), vec![(-50.0, 10.0), (5000.0, 10.0)]);

    assert!(document.add(object).is_ok());
    assert_eq!(document.len(), 1);
    assert_eq!(document.objects()[0].shape(), &vec![(-50.0, 10.0), (5000.0, 10.0)]);
}

#[test]
fn the_document_records_the_output_size_it_was_bound_to() {
    let document: Page = Document::new(OutputId::new("eDP-1"), output_size());

    assert_eq!(document.output_size(), &output_size());
    assert_eq!(document.output().as_str(), "eDP-1");
}

fn revision_doc() -> Page {
    Document::new(OutputId::new("r"), (100.0, 100.0))
}

fn revision_stroke(id: u64) -> Ink {
    Object::new(
        ObjectId::from_raw(id),
        OutputId::new("r"),
        ((0, 0, 0), 2.0, 1.0),
        vec![(1.0, 1.0), (9.0, 9.0)],
    )
}

#[test]
fn every_change_moves_the_revision() {
    let mut document = revision_doc();
    let mut seen = vec![document.revision()];
    let mut check = |document: &Page| {
        assert!(!seen.contains(&document.revision()), "a change kept an old revision");
        seen.push(document.revision());
    };
    document.add(revision_stroke(1)).unwrap();
    check(&document);
    document.add(revision_stroke(2)).unwrap();
    check(&document);
    let removed = document.remove_with_positions(&[ObjectId::from_raw(1)]);
    check(&document);
    document.insert_at(removed).unwrap();
    check(&document);
    document.remove(&[ObjectId::from_raw(2)]);
    check(&document);
    document.clear();
    check(&document);
}

#[test]
fn reading_does_not_move_it() {
    let document = revision_doc();
    let before = document.revision();
    let _ = document.len();
    let _ = document.objects().iter().count();
    assert_eq!(document.revision(), before);
}

#[test]
fn every_refusal_says_what_was_refused_and_why() {
    assert_eq!(DocumentError::EmptyStroke.message(), "a stroke must have at least one point");
    assert_eq!(
        DocumentError::StrokeTooLong { points: 100_001, limit: 100_000 }.message(),
        "a stroke of 100001 points exceeds the limit of 100000"
    );
    assert_eq!(
        DocumentError::DegenerateShape { shape: "rectangle" }.message(),
        "the rectangle is too small to be drawn or selected"
    );
    assert_eq!(
        DocumentError::OutputMismatch {
            object: ObjectId::from_raw(42),
            expected: OutputId::new("eDP-1"),
            found: OutputId::new("HDMI-1"),
        }
        .message(),
        "object #42 belongs to output HDMI-1, not eDP-1"
    );
    assert_eq!(
        DocumentError::ObjectLimitReached { limit: 10_000 }.message(),
        "this output already holds the maximum of 10000 objects"
    );
    assert_eq!(
        DocumentError::InvalidPosition { index: 7, length: 4 }.message(),
        "position 7 is not in a document of 4 objects"
    );
}
