//! A bridge between blocking file dialogs and a frame loop that must not
//! block: each dialog reports through a channel, and the loop polls the
//! channels once per frame.

use std::sync::mpsc::Receiver;
use vstd::prelude::*;

verus! {

/// The receiving end of a channel of the standard library, carried along as
/// an opaque value.
#[verifier::external_type_specification]
#[verifier::external_body]
#[verifier::reject_recursive_types(T)]
pub struct ExReceiver<T>(std::sync::mpsc::Receiver<T>);

/// The purpose a picker serves.
#[derive(Debug, Clone, Copy, Hash, PartialEq, Eq, Structural)]
pub enum FileReceiverSource {
    SourceImages,
    Watermark,
    DestinationFolder,
}

/// What a dialog lets the user select.
#[derive(Debug, Clone, Copy, Hash, PartialEq, Eq, Structural)]
pub enum DialogKind {
    Files,
    File,
    Folder,
}

impl FileReceiverSource {
    /// The dialog filters of a role: one filter for image files where the role
    /// picks images, none where it picks a folder.
    pub open spec fn spec_extensions(self) -> Seq<(Seq<char>, Seq<Seq<char>>)> {
        match self {
            FileReceiverSource::DestinationFolder => seq![],
            _ => seq![("Image"@, seq!["jpg"@, "jpeg"@, "png"@, "bmp"@])],
        }
    }

    /// The text shown for a role.
    pub open spec fn spec_title(self) -> Seq<char> {
        match self {
            FileReceiverSource::SourceImages => "Source images"@,
            FileReceiverSource::Watermark => "Watermark"@,
            FileReceiverSource::DestinationFolder => "Destination folder"@,
        }
    }

    /// The dialog that a role opens: several files for the sources, one file
    /// for the watermark, a folder for the destination.
    pub open spec fn spec_dialog(self) -> DialogKind {
        match self {
            FileReceiverSource::SourceImages => DialogKind::Files,
            FileReceiverSource::Watermark => DialogKind::File,
            FileReceiverSource::DestinationFolder => DialogKind::Folder,
        }
    }

    pub fn extensions(&self) -> (filters: Vec<(&'static str, Vec<&'static str>)>)
        ensures
            filters.deep_view() == self.spec_extensions(),
    {
        let mut filters: Vec<(&'static str, Vec<&'static str>)> = Vec::new();
        match self {
            FileReceiverSource::SourceImages | FileReceiverSource::Watermark => {
                let mut endings: Vec<&'static str> = Vec::new();
                endings.push("jpg");
                endings.push("jpeg");
                endings.push("png");
                endings.push("bmp");
                assert(endings.deep_view() =~= seq!["jpg"@, "jpeg"@, "png"@, "bmp"@]);
                filters.push(("Image", endings));
                assert(filters.deep_view() =~= self.spec_extensions());
            },
            FileReceiverSource::DestinationFolder => {
                assert(filters.deep_view() =~= self.spec_extensions());
            },
        }
        filters
    }

    pub fn title(&self) -> (text: String)
        ensures
            text@ == self.spec_title(),
    {
        match self {
            FileReceiverSource::SourceImages => "Source images".to_owned(),
            FileReceiverSource::Watermark => "Watermark".to_owned(),
            FileReceiverSource::DestinationFolder => "Destination folder".to_owned(),
        }
    }

    pub fn dialog(&self) -> (kind: DialogKind)
        ensures
            kind == self.spec_dialog(),
    {
        match self {
            FileReceiverSource::SourceImages => DialogKind::Files,
            FileReceiverSource::Watermark => DialogKind::File,
            FileReceiverSource::DestinationFolder => DialogKind::Folder,
        }
    }
}

/// What is known of one pick.
pub ghost enum PickOutcome {
    /// The dialog has not answered yet.
    Waiting,
    /// The dialog was closed without a selection, or its worker ended silently.
    NoFile,
    /// The user selected these paths, in this order.
    File(Seq<String>),
}

/// One look at a dialog's channel.
pub enum ChannelPoll {
    /// The worker sent the selected paths.
    Message(Vec<String>),
    /// Nothing has arrived yet and the worker is still there.
    Empty,
    /// The worker has gone without sending anything.
    Disconnected,
}

/// The outcome of a pick after one more look at its channel. A settled pick
/// stays as it is; a pending one settles on a message or on a hang-up. A
/// message without paths counts as no selection.
pub open spec fn settled(before: PickOutcome, event: ChannelPoll) -> PickOutcome {
    match before {
        PickOutcome::Waiting => match event {
            ChannelPoll::Message(paths) => if paths@.len() > 0 {
                PickOutcome::File(paths@)
            } else {
                PickOutcome::NoFile
            },
            ChannelPoll::Empty => PickOutcome::Waiting,
            ChannelPoll::Disconnected => PickOutcome::NoFile,
        },
        _ => before,
    }
}

/// The listening end of one pick, with what it has heard so far.
#[derive(Debug)]
pub struct FileReceiver {
    receiver: Receiver<Vec<String>>,
    file: Option<Vec<String>>,
    has_received: bool,
}

pub enum FileReceiverResult<'p> {
    File(&'p [String]),
    NoFile,
    Waiting,
}

impl<'p> View for FileReceiverResult<'p> {
    type V = PickOutcome;

    open spec fn view(&self) -> PickOutcome {
        match self {
            FileReceiverResult::File(paths) => PickOutcome::File(paths@),
            FileReceiverResult::NoFile => PickOutcome::NoFile,
            FileReceiverResult::Waiting => PickOutcome::Waiting,
        }
    }
}

impl<'p> FileReceiverResult<'p> {
    /// The text shown beside a picker for an outcome.
    pub open spec fn spec_label(outcome: PickOutcome) -> Seq<char> {
        match outcome {
            PickOutcome::File(paths) => if paths.len() > 1 {
                "Multiple files selected"@
            } else {
                paths[0]@
            },
            PickOutcome::NoFile => "No file selected"@,
            PickOutcome::Waiting => "Waiting for file"@,
        }
    }

    pub fn label(&self) -> (text: String)
        requires
            self@ matches PickOutcome::File(paths) ==> paths.len() > 0,
        ensures
            text@ == Self::spec_label(self@),
    {
        match self {
            FileReceiverResult::File(paths) => {
                if paths.len() > 1 {
                    "Multiple files selected".to_owned()
                } else {
                    paths[0].clone()
                }
            },
            FileReceiverResult::NoFile => "No file selected".to_owned(),
            FileReceiverResult::Waiting => "Waiting for file".to_owned(),
        }
    }
}

/// `std::sync::mpsc::Receiver::try_recv`: one non-blocking look at the
/// channel. What it finds depends on the worker at the other end, so nothing
/// is claimed of the result.
#[verifier::external_body]
fn poll_channel(receiver: &Receiver<Vec<String>>) -> (event: ChannelPoll) {
    match receiver.try_recv() {
        Ok(paths) => ChannelPoll::Message(paths),
        Err(std::sync::mpsc::TryRecvError::Empty) => ChannelPoll::Empty,
        Err(std::sync::mpsc::TryRecvError::Disconnected) => ChannelPoll::Disconnected,
    }
}

impl FileReceiver {
    #[verifier::type_invariant]
    spec fn holds_paths(&self) -> bool {
        self.file matches Some(paths) ==> paths@.len() > 0
    }

    /// What this pick has come to.
    pub closed spec fn outcome(&self) -> PickOutcome {
        if !self.has_received {
            PickOutcome::Waiting
        } else {
            match self.file {
                Some(paths) => PickOutcome::File(paths@),
                None => PickOutcome::NoFile,
            }
        }
    }

    /// The channel on which this pick listens for its dialog.
    pub closed spec fn channel(&self) -> Receiver<Vec<String>> {
        self.receiver
    }

    /// A pending pick that listens on `receiver`.
    pub fn new(receiver: Receiver<Vec<String>>) -> (fresh: Self)
        ensures
            fresh.channel() == receiver,
            fresh.outcome() == PickOutcome::Waiting,
    {
        FileReceiver { receiver, file: None, has_received: false }
    }

    pub fn get_file(&self) -> (result: FileReceiverResult<'_>)
        ensures
            result@ == self.outcome(),
            result@ matches PickOutcome::File(paths) ==> paths.len() > 0,
    {
        proof {
            use_type_invariant(self);
        }
        if self.has_received {
            match &self.file {
                Some(f) => FileReceiverResult::File(f.as_slice()),
                None => FileReceiverResult::NoFile,
            }
        } else {
            FileReceiverResult::Waiting
        }
    }

    /// Takes in what one look at the channel found.
    pub fn settle(&mut self, event: ChannelPoll)
        ensures
            final(self).outcome() == settled(old(self).outcome(), event),
            final(self).channel() == old(self).channel(),
    {
        if self.has_received {
            return ;
        }
        match event {
            ChannelPoll::Message(paths) => {
                if paths.len() > 0 {
                    self.file = Some(paths);
                } else {
                    self.file = None;
                }
                self.has_received = true;
            },
            ChannelPoll::Empty => {},
            ChannelPoll::Disconnected => {
                self.file = None;
                self.has_received = true;
            },
        }
    }

    /// Looks at the channel once, unless the pick has settled already, and
    /// reports where the pick stands afterwards.
    pub fn try_recv(&mut self) -> (result: FileReceiverResult<'_>)
        ensures
            exists|event: ChannelPoll|
                final(self).outcome() == #[trigger] settled(old(self).outcome(), event),
            final(self).channel() == old(self).channel(),
            result@ == final(self).outcome(),
            result@ matches PickOutcome::File(paths) ==> paths.len() > 0,
    {
        if !self.has_received {
            let event = poll_channel(&self.receiver);
            self.settle(event);
        } else {
            assert(self.outcome() == settled(self.outcome(), ChannelPoll::Empty));
        }
        self.get_file()
    }
}

/// How the bookkeeping of one role may change in one round of polling: a role
/// without a pick stays without one, and a role with a pick has taken in one
/// look at its channel.
pub open spec fn poll_step(before: Option<PickOutcome>, after: Option<PickOutcome>) -> bool {
    match before {
        None => after is None,
        Some(outcome) => exists|event: ChannelPoll|
            after == Some(#[trigger] settled(outcome, event)),
    }
}

/// The picks of all roles, at most one per role.
#[derive(Debug)]
pub struct FileReceievers {
    source_images: Option<FileReceiver>,
    watermark: Option<FileReceiver>,
    destination_folder: Option<FileReceiver>,
}

fn poll_slot(slot: &mut Option<FileReceiver>)
    ensures
        poll_step(slot_outcome(*old(slot)), slot_outcome(*final(slot))),
        slot_channel(*final(slot)) == slot_channel(*old(slot)),
{
    let taken = slot.take();
    match taken {
        Some(mut receiver) => {
            let _ = receiver.try_recv();
            *slot = Some(receiver);
        },
        None => {},
    }
}

/// The outcome held in one slot, if the slot holds a pick.
pub open spec fn slot_outcome(slot: Option<FileReceiver>) -> Option<PickOutcome> {
    match slot {
        Some(receiver) => Some(receiver.outcome()),
        None => None,
    }
}

/// The channel on which the pick in one slot listens, if the slot holds a pick.
pub open spec fn slot_channel(slot: Option<FileReceiver>) -> Option<Receiver<Vec<String>>> {
    match slot {
        Some(receiver) => Some(receiver.channel()),
        None => None,
    }
}

impl FileReceievers {
    /// The channel kept for a role: that of the pick started last for it.
    pub closed spec fn channel_for(&self, source: FileReceiverSource) -> Option<
        Receiver<Vec<String>>,
    > {
        match source {
            FileReceiverSource::SourceImages => slot_channel(self.source_images),
            FileReceiverSource::Watermark => slot_channel(self.watermark),
            FileReceiverSource::DestinationFolder => slot_channel(self.destination_folder),
        }
    }

    /// The outcome kept for a role: `None` while no pick was ever started for it.
    pub closed spec fn result_for(&self, source: FileReceiverSource) -> Option<PickOutcome> {
        match source {
            FileReceiverSource::SourceImages => slot_outcome(self.source_images),
            FileReceiverSource::Watermark => slot_outcome(self.watermark),
            FileReceiverSource::DestinationFolder => slot_outcome(self.destination_folder),
        }
    }

    /// Bookkeeping without any pick.
    pub fn new() -> (fresh: Self)
        ensures
            forall|source: FileReceiverSource| fresh.result_for(source) is None,
    {
        FileReceievers { source_images: None, watermark: None, destination_folder: None }
    }

    /// Registers a pending pick for `source` that listens on `receiver`, in
    /// place of whatever was kept for that role.
    pub fn new_receiver(&mut self, source: FileReceiverSource, receiver: Receiver<Vec<String>>)
        ensures
            registered(*old(self), *final(self), source),
            final(self).channel_for(source) == Some(receiver),
            forall|other: FileReceiverSource|
                other != source ==> final(self).channel_for(other) == old(self).channel_for(
                    other,
                ),
    {
        let fresh = FileReceiver::new(receiver);
        match source {
            FileReceiverSource::SourceImages => {
                self.source_images = Some(fresh);
            },
            FileReceiverSource::Watermark => {
                self.watermark = Some(fresh);
            },
            FileReceiverSource::DestinationFolder => {
                self.destination_folder = Some(fresh);
            },
        }
    }

    pub fn get_receiver(&self, source: FileReceiverSource) -> (found: Option<&FileReceiver>)
        ensures
            match found {
                Some(receiver) => self.result_for(source) == Some(receiver.outcome())
                    && self.channel_for(source) == Some(receiver.channel()),
                None => self.result_for(source) is None && self.channel_for(source) is None,
            },
    {
        match source {
            FileReceiverSource::SourceImages => self.source_images.as_ref(),
            FileReceiverSource::Watermark => self.watermark.as_ref(),
            FileReceiverSource::DestinationFolder => self.destination_folder.as_ref(),
        }
    }

    /// Looks once at the channel of every pick that has not settled yet.
    pub fn receive_all(&mut self)
        ensures
            forall|source: FileReceiverSource|
                poll_step(
                    old(self).result_for(source),
                    #[trigger] final(self).result_for(source),
                ),
            forall|source: FileReceiverSource|
                final(self).channel_for(source) == old(self).channel_for(source),
    {
        poll_slot(&mut self.source_images);
        poll_slot(&mut self.watermark);
        poll_slot(&mut self.destination_folder);
    }
}

impl Default for FileReceievers {
    fn default() -> (fresh: Self)
        ensures
            forall|source: FileReceiverSource| fresh.result_for(source) is None,
    {
        FileReceievers::new()
    }
}

/// A role has a channel exactly while it has a pick.
pub proof fn lemma_channel_with_pick(all: FileReceievers, source: FileReceiverSource)
    ensures
        all.channel_for(source) is Some <==> all.result_for(source) is Some,
{
}

/// After two starts in a row for one role the bookkeeping listens on the
/// channel of the second start alone. Once a round of polling finds on that
/// channel that its dialog has ended, by a message or by a hang-up, the role
/// has settled on what that one dialog gave: the paths of the message, whole
/// and in their order, or no file. Every later round of polling keeps that
/// outcome.
pub proof fn lemma_restart_settles_on_the_kept_dialog(
    before: FileReceievers,
    once: FileReceievers,
    twice: FileReceievers,
    polled: FileReceievers,
    later: FileReceievers,
    source: FileReceiverSource,
    second: Receiver<Vec<String>>,
    event: ChannelPoll,
)
    requires
        registered(before, once, source),
        registered(once, twice, source),
        twice.channel_for(source) == Some(second),
        !(event is Empty),
        polled.channel_for(source) == twice.channel_for(source),
        polled.result_for(source) == Some(settled(twice.result_for(source).unwrap(), event)),
        poll_step(polled.result_for(source), later.result_for(source)),
    ensures
        polled.channel_for(source) == Some(second),
        polled.result_for(source) == Some(
            match event {
                ChannelPoll::Message(paths) => if paths@.len() > 0 {
                    PickOutcome::File(paths@)
                } else {
                    PickOutcome::NoFile
                },
                _ => PickOutcome::NoFile,
            },
        ),
        polled.result_for(source) != Some(PickOutcome::Waiting),
        later.result_for(source) == polled.result_for(source),
{
}

/// Polling before any pick was started finds no pick for any role.
pub proof fn lemma_poll_before_any_pick(
    fresh: FileReceievers,
    polled: FileReceievers,
    source: FileReceiverSource,
)
    requires
        forall|role: FileReceiverSource| fresh.result_for(role) is None,
        forall|role: FileReceiverSource|
            poll_step(fresh.result_for(role), #[trigger] polled.result_for(role)),
    ensures
        polled.result_for(source) is None,
{
}

/// A settled pick stays as it is, whatever a later look at its channel finds.
pub proof fn lemma_settled_stays(outcome: PickOutcome, event: ChannelPoll)
    requires
        outcome != PickOutcome::Waiting,
    ensures
        settled(outcome, event) == outcome,
{
}

/// Polling a role for which no pick was started leaves it without a pick; and
/// polling a role whose pick has settled leaves the outcome as it was.
pub proof fn lemma_poll_keeps_absent_and_settled(
    before: Option<PickOutcome>,
    after: Option<PickOutcome>,
)
    requires
        poll_step(before, after),
    ensures
        before is None ==> after is None,
        before is Some ==> after is Some,
        before is Some && before != Some(PickOutcome::Waiting) ==> after == before,
{
}

/// What starting a pick for `source` does to the bookkeeping: that role is
/// pending afterwards, and every other role is as it was.
pub open spec fn registered(
    before: FileReceievers,
    after: FileReceievers,
    source: FileReceiverSource,
) -> bool {
    &&& after.result_for(source) == Some(PickOutcome::Waiting)
    &&& forall|other: FileReceiverSource|
        other != source ==> after.result_for(other) == before.result_for(other)
}

/// Starting a pick twice in a row for one role leaves every role as a single
/// start does, and a round of polling afterwards leaves that role with exactly
/// one outcome: still pending, no selection, or a selection that is not empty.
pub proof fn lemma_restart_is_one_pending_pick(
    before: FileReceievers,
    once: FileReceievers,
    twice: FileReceievers,
    later: FileReceievers,
    source: FileReceiverSource,
)
    requires
        registered(before, once, source),
        registered(once, twice, source),
        poll_step(twice.result_for(source), later.result_for(source)),
    ensures
        registered(before, twice, source),
        forall|role: FileReceiverSource| twice.result_for(role) == once.result_for(role),
        later.result_for(source) == Some(PickOutcome::Waiting)
            || later.result_for(source) == Some(PickOutcome::NoFile)
            || (later.result_for(source) matches Some(PickOutcome::File(paths)) && paths.len()
            > 0),
{
}

} // verus!
