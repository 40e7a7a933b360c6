use std::sync::mpsc::channel;
use watermarker::file_receiver::{FileReceiverResult, FileReceiverSource};
use watermarker::{Job, Watermarker};

fn select(app: &mut Watermarker, role: FileReceiverSource, names: &[&str]) {
    let (sender, receiver) = channel::<Vec<String>>();
    app.start_pick(role, receiver);
    sender.send(names.iter().map(|n| n.to_string()).collect()).unwrap();
    app.refresh();
}

fn ready(sources: &[&str]) -> Watermarker {
    let mut app = Watermarker::new();
    select(&mut app, FileReceiverSource::SourceImages, sources);
    select(&mut app, FileReceiverSource::Watermark, &["mark.png"]);
    select(&mut app, FileReceiverSource::DestinationFolder, &["out"]);
    app
}

#[test]
fn new_state_is_idle_and_not_ready() {
    let mut app = Watermarker::new();
    assert_eq!(app.marking(), None);
    assert!(!app.is_running());
    assert!(!app.can_apply());
    assert!(!app.apply());
    assert_eq!(app.marking(), None);
    assert_eq!(app.current_job(), None);
    app.refresh();
    assert!(app.get_receiver(FileReceiverSource::Watermark).is_none());
    assert!(!Watermarker::default().can_apply());
}

#[test]
fn apply_needs_all_three_selections() {
    let mut app = Watermarker::new();
    select(&mut app, FileReceiverSource::SourceImages, &["a.png"]);
    assert!(!app.can_apply());
    select(&mut app, FileReceiverSource::Watermark, &["mark.png"]);
    assert!(!app.can_apply());
    select(&mut app, FileReceiverSource::DestinationFolder, &["out"]);
    assert!(app.can_apply());
    assert_eq!(app.sources().to_vec(), vec!["a.png".to_string()]);
    assert_eq!(app.watermark(), Some(&"mark.png".to_string()));
    assert_eq!(app.destination(), Some(&"out".to_string()));
    assert!(app.apply());
    assert_eq!(app.marking(), Some(0));
}

#[test]
fn batch_advances_one_image_per_tick_and_ends_after_all() {
    let names = ["a.png", "b.png", "c.png", "d.png"];
    let mut app = ready(&names);
    assert!(app.apply());
    for (tick, name) in names.iter().enumerate() {
        assert_eq!(app.marking(), Some(tick));
        assert_eq!(
            app.current_job(),
            Some(Job {
                source: name.to_string(),
                destination: "out".to_string(),
                watermark: "mark.png".to_string(),
            })
        );
        assert_eq!(app.record_outcome::<String>(Ok(())), None);
    }
    assert_eq!(app.marking(), None);
    assert_eq!(app.current_job(), None);
}

#[test]
fn batch_of_one_ends_after_one_tick() {
    let mut app = ready(&["only.png"]);
    assert!(app.apply());
    assert_eq!(app.record_outcome::<String>(Ok(())), None);
    assert_eq!(app.marking(), None);
}

#[test]
fn failure_is_reported_and_the_batch_goes_on() {
    let mut app = ready(&["a.png", "broken.png", "c.png"]);
    assert!(app.apply());
    assert_eq!(app.record_outcome::<String>(Ok(())), None);
    assert_eq!(
        app.record_outcome(Err("cannot decode".to_string())),
        Some("cannot decode".to_string())
    );
    assert_eq!(app.marking(), Some(2));
    assert_eq!(app.current_job().unwrap().source, "c.png");
    assert_eq!(app.record_outcome::<String>(Ok(())), None);
    assert_eq!(app.marking(), None);
}

#[test]
fn apply_during_a_batch_changes_nothing() {
    let mut app = ready(&["a.png", "b.png", "c.png"]);
    assert!(app.apply());
    assert_eq!(app.record_outcome::<String>(Ok(())), None);
    assert!(!app.can_apply());
    assert!(!app.apply());
    assert!(app.is_running());
    assert_eq!(app.marking(), Some(1));
}

#[test]
fn selection_is_frozen_during_a_batch() {
    let mut app = ready(&["a.png", "b.png"]);
    assert!(app.apply());
    select(&mut app, FileReceiverSource::SourceImages, &["z.png"]);
    select(&mut app, FileReceiverSource::DestinationFolder, &["elsewhere"]);
    let job = app.current_job().unwrap();
    assert_eq!(job.source, "a.png");
    assert_eq!(job.destination, "out");
    assert_eq!(app.record_outcome::<String>(Ok(())), None);
    assert_eq!(app.record_outcome::<String>(Ok(())), None);
    assert_eq!(app.marking(), None);
    app.refresh();
    assert!(app.apply());
    let job = app.current_job().unwrap();
    assert_eq!(job.source, "z.png");
    assert_eq!(job.destination, "elsewhere");
}

#[test]
fn cancelled_pick_keeps_the_earlier_selection() {
    let mut app = ready(&["a.png"]);
    let (sender, receiver) = channel::<Vec<String>>();
    app.start_pick(FileReceiverSource::Watermark, receiver);
    drop(sender);
    app.refresh();
    assert!(matches!(
        app.get_receiver(FileReceiverSource::Watermark).unwrap().get_file(),
        FileReceiverResult::NoFile
    ));
    assert!(app.apply());
    assert_eq!(app.current_job().unwrap().watermark, "mark.png");
}

#[test]
fn single_pick_takes_the_first_path() {
    let mut app = Watermarker::new();
    select(&mut app, FileReceiverSource::SourceImages, &["a.png"]);
    select(&mut app, FileReceiverSource::Watermark, &["one.png", "two.png"]);
    select(&mut app, FileReceiverSource::DestinationFolder, &["out"]);
    assert!(app.apply());
    assert_eq!(app.current_job().unwrap().watermark, "one.png");
}

#[test]
fn images_before_the_index_are_marked() {
    let mut app = ready(&["a.png", "b.png", "c.png"]);
    assert!(!app.is_marked(0));
    assert!(app.apply());
    assert!(!app.is_marked(0));
    assert_eq!(app.record_outcome::<String>(Ok(())), None);
    assert!(app.is_marked(0));
    assert!(!app.is_marked(1));
    assert_eq!(app.record_outcome::<String>(Ok(())), None);
    assert!(app.is_marked(1));
    assert!(!app.is_marked(2));
    assert_eq!(app.record_outcome::<String>(Ok(())), None);
    assert!(!app.is_marked(2));
}
