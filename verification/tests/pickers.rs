use std::sync::mpsc::channel;
use watermarker::file_receiver::{
    ChannelPoll, DialogKind, FileReceievers, FileReceiver, FileReceiverResult, FileReceiverSource,
};

const ROLES: [FileReceiverSource; 3] = [
    FileReceiverSource::SourceImages,
    FileReceiverSource::Watermark,
    FileReceiverSource::DestinationFolder,
];

fn paths(names: &[&str]) -> Vec<String> {
    names.iter().map(|n| n.to_string()).collect()
}

fn is_waiting(r: &FileReceiver) -> bool {
    matches!(r.get_file(), FileReceiverResult::Waiting)
}

fn is_no_file(r: &FileReceiver) -> bool {
    matches!(r.get_file(), FileReceiverResult::NoFile)
}

fn files(r: &FileReceiver) -> Option<Vec<String>> {
    match r.get_file() {
        FileReceiverResult::File(p) => Some(p.to_vec()),
        _ => None,
    }
}

#[test]
fn extensions_of_image_roles() {
    for role in [FileReceiverSource::SourceImages, FileReceiverSource::Watermark] {
        let filters = role.extensions();
        assert_eq!(filters.len(), 1);
        assert_eq!(filters[0].0, "Image");
        assert_eq!(filters[0].1, vec!["jpg", "jpeg", "png", "bmp"]);
    }
}

#[test]
fn extensions_of_folder_role_are_empty() {
    assert!(FileReceiverSource::DestinationFolder.extensions().is_empty());
}

#[test]
fn titles_of_roles() {
    assert_eq!(FileReceiverSource::SourceImages.title(), "Source images");
    assert_eq!(FileReceiverSource::Watermark.title(), "Watermark");
    assert_eq!(FileReceiverSource::DestinationFolder.title(), "Destination folder");
}

#[test]
fn dialogs_of_roles() {
    assert_eq!(FileReceiverSource::SourceImages.dialog(), DialogKind::Files);
    assert_eq!(FileReceiverSource::Watermark.dialog(), DialogKind::File);
    assert_eq!(FileReceiverSource::DestinationFolder.dialog(), DialogKind::Folder);
}

#[test]
fn poll_before_any_pick_finds_nothing() {
    let mut all = FileReceievers::new();
    for role in ROLES {
        assert!(all.get_receiver(role).is_none());
    }
    all.receive_all();
    all.receive_all();
    for role in ROLES {
        assert!(all.get_receiver(role).is_none());
    }
    let by_default = FileReceievers::default();
    for role in ROLES {
        assert!(by_default.get_receiver(role).is_none());
    }
}

#[test]
fn fresh_pick_is_waiting() {
    let (_sender, receiver) = channel::<Vec<String>>();
    let mut all = FileReceievers::new();
    all.new_receiver(FileReceiverSource::Watermark, receiver);
    assert!(is_waiting(all.get_receiver(FileReceiverSource::Watermark).unwrap()));
    all.receive_all();
    assert!(is_waiting(all.get_receiver(FileReceiverSource::Watermark).unwrap()));
    assert!(all.get_receiver(FileReceiverSource::SourceImages).is_none());
    assert!(all.get_receiver(FileReceiverSource::DestinationFolder).is_none());
}

#[test]
fn message_settles_pick_with_paths() {
    let (sender, receiver) = channel::<Vec<String>>();
    let mut all = FileReceievers::new();
    all.new_receiver(FileReceiverSource::SourceImages, receiver);
    sender.send(paths(&["a.png", "b.png"])).unwrap();
    assert!(is_waiting(all.get_receiver(FileReceiverSource::SourceImages).unwrap()));
    all.receive_all();
    assert_eq!(
        files(all.get_receiver(FileReceiverSource::SourceImages).unwrap()),
        Some(paths(&["a.png", "b.png"]))
    );
}

#[test]
fn hang_up_settles_pick_without_file() {
    let (sender, receiver) = channel::<Vec<String>>();
    let mut all = FileReceievers::new();
    all.new_receiver(FileReceiverSource::DestinationFolder, receiver);
    drop(sender);
    all.receive_all();
    assert!(is_no_file(all.get_receiver(FileReceiverSource::DestinationFolder).unwrap()));
    all.receive_all();
    assert!(is_no_file(all.get_receiver(FileReceiverSource::DestinationFolder).unwrap()));
}

#[test]
fn settled_pick_is_not_polled_again() {
    let (sender, receiver) = channel::<Vec<String>>();
    let mut all = FileReceievers::new();
    all.new_receiver(FileReceiverSource::Watermark, receiver);
    sender.send(paths(&["first.png"])).unwrap();
    all.receive_all();
    sender.send(paths(&["second.png"])).unwrap();
    all.receive_all();
    drop(sender);
    all.receive_all();
    assert_eq!(
        files(all.get_receiver(FileReceiverSource::Watermark).unwrap()),
        Some(paths(&["first.png"]))
    );
}

#[test]
fn restart_replaces_the_pick() {
    let (first_sender, first_receiver) = channel::<Vec<String>>();
    let (second_sender, second_receiver) = channel::<Vec<String>>();
    let mut all = FileReceievers::new();
    all.new_receiver(FileReceiverSource::Watermark, first_receiver);
    all.new_receiver(FileReceiverSource::Watermark, second_receiver);
    assert!(is_waiting(all.get_receiver(FileReceiverSource::Watermark).unwrap()));
    assert!(first_sender.send(paths(&["stale.png"])).is_err());
    all.receive_all();
    assert!(is_waiting(all.get_receiver(FileReceiverSource::Watermark).unwrap()));
    second_sender.send(paths(&["fresh.png"])).unwrap();
    all.receive_all();
    assert_eq!(
        files(all.get_receiver(FileReceiverSource::Watermark).unwrap()),
        Some(paths(&["fresh.png"]))
    );
}

#[test]
fn restart_discards_a_settled_outcome() {
    let (sender, receiver) = channel::<Vec<String>>();
    let mut all = FileReceievers::new();
    all.new_receiver(FileReceiverSource::SourceImages, receiver);
    sender.send(paths(&["a.png"])).unwrap();
    all.receive_all();
    let (_again, receiver) = channel::<Vec<String>>();
    all.new_receiver(FileReceiverSource::SourceImages, receiver);
    assert!(is_waiting(all.get_receiver(FileReceiverSource::SourceImages).unwrap()));
}

#[test]
fn try_recv_reports_each_state() {
    let (sender, receiver) = channel::<Vec<String>>();
    let mut one = FileReceiver::new(receiver);
    assert!(matches!(one.try_recv(), FileReceiverResult::Waiting));
    sender.send(paths(&["x.bmp"])).unwrap();
    match one.try_recv() {
        FileReceiverResult::File(p) => assert_eq!(p.to_vec(), paths(&["x.bmp"])),
        _ => panic!("expected a selection"),
    }
    match one.try_recv() {
        FileReceiverResult::File(p) => assert_eq!(p.to_vec(), paths(&["x.bmp"])),
        _ => panic!("expected the same selection"),
    }
}

#[test]
fn settle_follows_the_event() {
    let (_sender, receiver) = channel::<Vec<String>>();
    let mut one = FileReceiver::new(receiver);
    one.settle(ChannelPoll::Empty);
    assert!(is_waiting(&one));
    one.settle(ChannelPoll::Message(paths(&["p.jpg", "q.jpg"])));
    assert_eq!(files(&one), Some(paths(&["p.jpg", "q.jpg"])));
    one.settle(ChannelPoll::Disconnected);
    assert_eq!(files(&one), Some(paths(&["p.jpg", "q.jpg"])));
    one.settle(ChannelPoll::Message(paths(&["other.jpg"])));
    assert_eq!(files(&one), Some(paths(&["p.jpg", "q.jpg"])));
}

#[test]
fn empty_message_counts_as_no_selection() {
    let (_sender, receiver) = channel::<Vec<String>>();
    let mut one = FileReceiver::new(receiver);
    one.settle(ChannelPoll::Message(Vec::new()));
    assert!(is_no_file(&one));
}

#[test]
fn hang_up_event_means_no_file() {
    let (_sender, receiver) = channel::<Vec<String>>();
    let mut one = FileReceiver::new(receiver);
    one.settle(ChannelPoll::Disconnected);
    assert!(is_no_file(&one));
    one.settle(ChannelPoll::Message(paths(&["late.png"])));
    assert!(is_no_file(&one));
}

#[test]
fn labels_of_outcomes() {
    let one = paths(&["only.png"]);
    let two = paths(&["a.png", "b.png"]);
    assert_eq!(FileReceiverResult::File(&one).label(), "only.png");
    assert_eq!(FileReceiverResult::File(&two).label(), "Multiple files selected");
    assert_eq!(FileReceiverResult::NoFile.label(), "No file selected");
    assert_eq!(FileReceiverResult::Waiting.label(), "Waiting for file");
}

#[test]
fn restart_settles_on_one_dialog_only() {
    let (first_sender, first_receiver) = channel::<Vec<String>>();
    let (second_sender, second_receiver) = channel::<Vec<String>>();
    let mut all = FileReceievers::new();
    all.new_receiver(FileReceiverSource::SourceImages, first_receiver);
    first_sender.send(paths(&["one.png", "two.png"])).unwrap();
    all.new_receiver(FileReceiverSource::SourceImages, second_receiver);
    second_sender.send(paths(&["three.png"])).unwrap();
    drop(first_sender);
    drop(second_sender);
    all.receive_all();
    assert_eq!(
        files(all.get_receiver(FileReceiverSource::SourceImages).unwrap()),
        Some(paths(&["three.png"]))
    );
    all.receive_all();
    all.receive_all();
    assert_eq!(
        files(all.get_receiver(FileReceiverSource::SourceImages).unwrap()),
        Some(paths(&["three.png"]))
    );
}

#[test]
fn restart_with_a_cancelled_second_dialog_settles_without_file() {
    let (first_sender, first_receiver) = channel::<Vec<String>>();
    let (second_sender, second_receiver) = channel::<Vec<String>>();
    let mut all = FileReceievers::new();
    all.new_receiver(FileReceiverSource::Watermark, first_receiver);
    first_sender.send(paths(&["one.png"])).unwrap();
    all.new_receiver(FileReceiverSource::Watermark, second_receiver);
    drop(second_sender);
    all.receive_all();
    assert!(is_no_file(all.get_receiver(FileReceiverSource::Watermark).unwrap()));
    all.receive_all();
    assert!(is_no_file(all.get_receiver(FileReceiverSource::Watermark).unwrap()));
}
