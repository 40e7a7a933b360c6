//! Watermark stamping: the bookkeeping behind the file pickers, the
//! arithmetic that sizes and places a watermark, and the frame-by-frame
//! batch that runs over the selected images.

use crate::file_receiver::{
    poll_step, registered, FileReceievers, FileReceiverResult, FileReceiverSource, PickOutcome,
};
use std::sync::mpsc::Receiver;
use vstd::prelude::*;

pub mod file_receiver;
pub mod watermark;

verus! {

/// One image to stamp: where it is read, which watermark goes onto it, and the
/// folder that takes the result.
#[derive(Debug, PartialEq, Eq)]
pub struct Job {
    pub source: String,
    pub destination: String,
    pub watermark: String,
}

/// The index of the batch after one more image: the next index, or none once
/// the last of `count` images is done.
pub open spec fn advanced(marking: Option<int>, count: int) -> Option<int> {
    match marking {
        Some(index) => if index + 1 >= count {
            None
        } else {
            Some(index + 1)
        },
        None => None,
    }
}

/// The index of the batch after `ticks` images more.
pub open spec fn after_ticks(marking: Option<int>, count: int, ticks: nat) -> Option<int>
    decreases ticks,
{
    if ticks == 0 {
        marking
    } else {
        advanced(after_ticks(marking, count, (ticks - 1) as nat), count)
    }
}

/// The list of sources after looking at a picker: what was selected, or else
/// what was kept before.
pub open spec fn chosen_many(outcome: Option<PickOutcome>, kept: Seq<String>) -> Seq<String> {
    match outcome {
        Some(PickOutcome::File(paths)) => paths,
        _ => kept,
    }
}

/// A single path after looking at a picker: the first one selected, or else
/// what was kept before.
pub open spec fn chosen_one(outcome: Option<PickOutcome>, kept: Option<String>) -> Option<String> {
    match outcome {
        Some(PickOutcome::File(paths)) => if paths.len() > 0 {
            Some(paths[0])
        } else {
            None
        },
        _ => kept,
    }
}

fn clone_paths(paths: &[String]) -> (copy: Vec<String>)
    ensures
        copy@ == paths@,
{
    let mut copy: Vec<String> = Vec::new();
    let mut index: usize = 0;
    while index < paths.len()
        invariant
            index <= paths@.len(),
            copy@ == paths@.subrange(0, index as int),
        decreases paths@.len() - index,
    {
        copy.push(paths[index].clone());
        index = index + 1;
        assert(copy@ =~= paths@.subrange(0, index as int));
    }
    assert(copy@ =~= paths@);
    copy
}

fn first_path(receivers: &FileReceievers, source: FileReceiverSource, kept: Option<String>) -> (one:
    Option<String>)
    ensures
        one == chosen_one(receivers.result_for(source), kept),
{
    match receivers.get_receiver(source) {
        Some(receiver) => match receiver.get_file() {
            FileReceiverResult::File(paths) => {
                if paths.len() > 0 {
                    Some(paths[0].clone())
                } else {
                    None
                }
            },
            _ => kept,
        },
        None => kept,
    }
}

fn selected_paths(receivers: &FileReceievers, source: FileReceiverSource) -> (many: Option<
    Vec<String>,
>)
    ensures
        match many {
            Some(paths) => receivers.result_for(source) == Some(PickOutcome::File(paths@)),
            None => !(receivers.result_for(source) matches Some(PickOutcome::File(_))),
        },
{
    match receivers.get_receiver(source) {
        Some(receiver) => match receiver.get_file() {
            FileReceiverResult::File(paths) => Some(clone_paths(paths)),
            _ => None,
        },
        None => None,
    }
}

/// The state of the application between two frames: the pickers, what was
/// selected, and how far a running batch has come.
#[derive(Debug)]
pub struct Watermarker {
    file_recievers: FileReceievers,
    sources: Vec<String>,
    watermark: Option<String>,
    destination: Option<String>,
    marking: Option<usize>,
}

impl Watermarker {
    /// The pickers.
    pub closed spec fn pickers(&self) -> FileReceievers {
        self.file_recievers
    }

    /// The selected source images, in the order of the selection.
    pub closed spec fn spec_sources(&self) -> Seq<String> {
        self.sources@
    }

    /// The selected watermark.
    pub closed spec fn spec_watermark(&self) -> Option<String> {
        self.watermark
    }

    /// The selected destination folder.
    pub closed spec fn spec_destination(&self) -> Option<String> {
        self.destination
    }

    /// The index of the next image to stamp while a batch runs.
    pub closed spec fn spec_marking(&self) -> Option<int> {
        match self.marking {
            Some(index) => Some(index as int),
            None => None,
        }
    }

    /// Whether a batch may start: none is running, and a watermark, a
    /// destination and at least one source are selected.
    pub open spec fn spec_ready(&self) -> bool {
        &&& self.spec_marking() is None
        &&& self.spec_destination() is Some
        &&& self.spec_watermark() is Some
        &&& self.spec_sources().len() > 0
    }

    /// What holds of a running batch: its index lies inside the sources, and a
    /// watermark and a destination are selected.
    pub open spec fn batch_has_work(&self) -> bool {
        self.spec_marking() matches Some(index) ==> 0 <= index < self.spec_sources().len()
            && self.spec_watermark() is Some && self.spec_destination() is Some
    }

    /// Whether the two states hold the same selection.
    pub open spec fn same_selection(&self, other: &Watermarker) -> bool {
        &&& self.spec_sources() == other.spec_sources()
        &&& self.spec_watermark() == other.spec_watermark()
        &&& self.spec_destination() == other.spec_destination()
    }

    /// An idle state with nothing selected and no pick started.
    pub fn new() -> (fresh: Self)
        ensures
            fresh.batch_has_work(),
            fresh.spec_marking() is None,
            fresh.spec_sources().len() == 0,
            fresh.spec_watermark() is None,
            fresh.spec_destination() is None,
            forall|source: FileReceiverSource| fresh.pickers().result_for(source) is None,
    {
        Watermarker {
            file_recievers: FileReceievers::new(),
            sources: Vec::new(),
            watermark: None,
            destination: None,
            marking: None,
        }
    }

    /// Starts a pick for `source` that listens on `receiver`.
    pub fn start_pick(&mut self, source: FileReceiverSource, receiver: Receiver<Vec<String>>)
        ensures
            registered(old(self).pickers(), final(self).pickers(), source),
            final(self).pickers().channel_for(source) == Some(receiver),
            final(self).same_selection(old(self)),
            final(self).spec_marking() == old(self).spec_marking(),
            old(self).batch_has_work() ==> final(self).batch_has_work(),
    {
        self.file_recievers.new_receiver(source, receiver);
    }

    /// The first step of a frame: polls the pickers and, while no batch runs,
    /// takes over what they have settled on.
    pub fn refresh(&mut self)
        ensures
            forall|source: FileReceiverSource|
                poll_step(
                    old(self).pickers().result_for(source),
                    #[trigger] final(self).pickers().result_for(source),
                ),
            final(self).spec_marking() == old(self).spec_marking(),
            old(self).batch_has_work() ==> final(self).batch_has_work(),
            old(self).spec_marking() is Some ==> final(self).same_selection(old(self)),
            old(self).spec_marking() is None ==> {
                &&& final(self).spec_sources() == chosen_many(
                    final(self).pickers().result_for(FileReceiverSource::SourceImages),
                    old(self).spec_sources(),
                )
                &&& final(self).spec_watermark() == chosen_one(
                    final(self).pickers().result_for(FileReceiverSource::Watermark),
                    old(self).spec_watermark(),
                )
                &&& final(self).spec_destination() == chosen_one(
                    final(self).pickers().result_for(FileReceiverSource::DestinationFolder),
                    old(self).spec_destination(),
                )
            },
    {
        self.file_recievers.receive_all();
        if self.marking.is_none() {
            match selected_paths(&self.file_recievers, FileReceiverSource::SourceImages) {
                Some(paths) => {
                    self.sources = paths;
                },
                None => {},
            }
            let kept_watermark = self.watermark.take();
            self.watermark = first_path(
                &self.file_recievers,
                FileReceiverSource::Watermark,
                kept_watermark,
            );
            let kept_destination = self.destination.take();
            self.destination = first_path(
                &self.file_recievers,
                FileReceiverSource::DestinationFolder,
                kept_destination,
            );
        }
    }

    pub fn get_receiver(&self, source: FileReceiverSource) -> (found: Option<
        &crate::file_receiver::FileReceiver,
    >)
        ensures
            match found {
                Some(receiver) => self.pickers().result_for(source) == Some(receiver.outcome()),
                None => self.pickers().result_for(source) is None,
            },
    {
        self.file_recievers.get_receiver(source)
    }

    /// The selected source images.
    pub fn sources(&self) -> (paths: &[String])
        ensures
            paths@ == self.spec_sources(),
    {
        self.sources.as_slice()
    }

    /// The selected watermark.
    pub fn watermark(&self) -> (path: Option<&String>)
        ensures
            match path {
                Some(text) => self.spec_watermark() == Some(*text),
                None => self.spec_watermark() is None,
            },
    {
        self.watermark.as_ref()
    }

    /// The selected destination folder.
    pub fn destination(&self) -> (path: Option<&String>)
        ensures
            match path {
                Some(text) => self.spec_destination() == Some(*text),
                None => self.spec_destination() is None,
            },
    {
        self.destination.as_ref()
    }

    /// Whether a batch may start now.
    pub fn can_apply(&self) -> (ready: bool)
        ensures
            ready == self.spec_ready(),
    {
        self.marking.is_none() && self.destination.is_some() && self.watermark.is_some()
            && self.sources.len() > 0
    }

    /// Starts a batch at the first source if one may start; otherwise, and in
    /// particular while a batch runs, changes nothing.
    pub fn apply(&mut self) -> (started: bool)
        ensures
            started == old(self).spec_ready(),
            started ==> final(self).spec_marking() == Some(0int),
            !started ==> final(self).spec_marking() == old(self).spec_marking(),
            old(self).batch_has_work() ==> final(self).batch_has_work(),
            final(self).same_selection(old(self)),
            final(self).pickers() == old(self).pickers(),
    {
        if self.can_apply() {
            self.marking = Some(0);
            true
        } else {
            false
        }
    }

    /// The index of the next image to stamp, while a batch runs.
    pub fn marking(&self) -> (index: Option<usize>)
        ensures
            match index {
                Some(at) => self.spec_marking() == Some(at as int),
                None => self.spec_marking() is None,
            },
    {
        self.marking
    }

    /// Whether a batch runs, so that the next frame is wanted at once.
    pub fn is_running(&self) -> (running: bool)
        ensures
            running == self.spec_marking() is Some,
    {
        self.marking.is_some()
    }

    /// Whether the image at `index` was stamped already in the running batch.
    pub fn is_marked(&self, index: usize) -> (marked: bool)
        ensures
            marked == (self.spec_marking() matches Some(at) && index < at),
    {
        match self.marking {
            Some(at) => index < at,
            None => false,
        }
    }

    /// Whether there is an image to stamp in this frame: a batch runs, its
    /// index lies inside the sources, and a watermark and a destination are
    /// selected.
    pub open spec fn spec_has_job(&self) -> bool {
        &&& self.spec_marking() matches Some(at) && 0 <= at < self.spec_sources().len()
        &&& self.spec_watermark() is Some
        &&& self.spec_destination() is Some
    }

    /// The image to stamp in this frame: the one at the batch's index, with
    /// the selected watermark and destination.
    pub fn current_job(&self) -> (job: Option<Job>)
        ensures
            job is Some <==> self.spec_has_job(),
            self.spec_marking() is Some && self.batch_has_work() ==> job is Some,
            job matches Some(work) ==> {
                &&& work.source == self.spec_sources()[self.spec_marking().unwrap()]
                &&& self.spec_watermark() == Some(work.watermark)
                &&& self.spec_destination() == Some(work.destination)
            },
    {
        match self.marking {
            Some(at) => match (&self.watermark, &self.destination) {
                (Some(watermark), Some(destination)) => {
                    if at < self.sources.len() {
                        Some(
                            Job {
                                source: self.sources[at].clone(),
                                destination: destination.clone(),
                                watermark: watermark.clone(),
                            },
                        )
                    } else {
                        None
                    }
                },
                _ => None,
            },
            None => None,
        }
    }

    /// The last step of a frame in which a batch runs: moves on to the next
    /// image whether or not the current one could be stamped, ends the batch
    /// after the last image, and hands back the failure for the caller to log.
    pub fn record_outcome<E>(&mut self, outcome: Result<(), E>) -> (report: Option<E>)
        ensures
            final(self).spec_marking() == advanced(
                old(self).spec_marking(),
                old(self).spec_sources().len() as int,
            ),
            report == match outcome {
                Ok(_) => None,
                Err(failure) => Some(failure),
            },
            old(self).batch_has_work() ==> final(self).batch_has_work(),
            final(self).same_selection(old(self)),
            final(self).pickers() == old(self).pickers(),
    {
        match self.marking {
            Some(at) => {
                if at >= self.sources.len() || at + 1 >= self.sources.len() {
                    self.marking = None;
                } else {
                    self.marking = Some(at + 1);
                }
            },
            None => {},
        }
        match outcome {
            Ok(_) => None,
            Err(failure) => Some(failure),
        }
    }
}

impl Default for Watermarker {
    fn default() -> (fresh: Self)
        ensures
            fresh.batch_has_work(),
            fresh.spec_marking() is None,
            fresh.spec_sources().len() == 0,
            fresh.spec_watermark() is None,
            fresh.spec_destination() is None,
            forall|source: FileReceiverSource| fresh.pickers().result_for(source) is None,
    {
        Watermarker::new()
    }
}

/// A batch over `count` images that starts at the first one stands at image
/// `ticks` after `ticks` frames, and has ended after exactly `count` frames.
pub proof fn lemma_batch_ends_after_count_ticks(count: int, ticks: nat)
    requires
        count > 0,
        ticks <= count,
    ensures
        ticks < count ==> after_ticks(Some(0int), count, ticks) == Some(ticks as int),
        ticks == count ==> after_ticks(Some(0int), count, ticks) is None,
    decreases ticks,
{
    if ticks > 0 {
        lemma_batch_ends_after_count_ticks(count, (ticks - 1) as nat);
    }
}

/// Asking for a batch while one runs changes nothing: no state with a running
/// batch is ready for another.
pub proof fn lemma_running_batch_is_not_ready(state: Watermarker)
    requires
        state.spec_marking() is Some,
    ensures
        !state.spec_ready(),
{
}

} // verus!
