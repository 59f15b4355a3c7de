//! How a sink enters a pipeline and leaves it.
//!
//! Linking takes several steps, and each of them can fail. The caller performs
//! the step that a [`LinkProcess`] asks for, reports how it went and is told what
//! comes next. A step that fails starts the way back, on which what was done so
//! far is undone.

use crate::error::SinkError;
use vstd::prelude::*;

verus! {

/// A step on the way into a pipeline.
#[derive(Clone, Copy, Debug, PartialEq, Eq, Structural)]
pub enum LinkStep {
    /// Block the data flow on the tee's source pad: data that arrives before the
    /// elements play would be an error.
    BlockTeePad,
    /// Add the queue and the WebRTC element to the pipeline.
    AddElements,
    /// Link the queue's source pad to the WebRTC element's sink pad.
    LinkQueue,
    /// Link the tee's source pad to the queue's sink pad.
    LinkTee,
    /// Bring the added elements to the state of the pipeline.
    SyncStates,
    /// Let the data through. This cannot fail.
    UnblockTeePad,
    /// Watch the transport of the transceiver's sender.
    WatchTransport,
}

/// A step on the way back.
#[derive(Clone, Copy, Debug, PartialEq, Eq, Structural)]
pub enum UndoStep {
    /// Unlink the queue's source pad from the WebRTC element's sink pad.
    UnlinkQueue,
    /// Unlink the tee's source pad from the queue's sink pad.
    UnlinkTee,
    /// Give the tee's source pad back to the tee, if it still has one.
    ReleaseTeePad,
    /// Remove the queue and the WebRTC element from the pipeline.
    RemoveElements,
}

/// The step that failed, and what the pipeline said.
#[derive(Debug, PartialEq, Eq)]
pub struct LinkFailure {
    pub step: LinkStep,
    pub detail: String,
}

/// Where the linking of a sink stands.
#[derive(Debug, PartialEq, Eq)]
pub enum LinkProcess {
    /// The step is to be performed.
    Linking(LinkStep),
    /// The failure stands, and the step is to be performed on the way back.
    Undoing(UndoStep, LinkFailure),
    Linked,
    Failed(LinkFailure),
}

/// What is to be performed next.
#[derive(Clone, Copy, Debug, PartialEq, Eq, Structural)]
pub enum LinkAction {
    Link(LinkStep),
    Undo(UndoStep),
}

impl LinkStep {
    pub open spec fn position(self) -> int {
        match self {
            LinkStep::BlockTeePad => 0,
            LinkStep::AddElements => 1,
            LinkStep::LinkQueue => 2,
            LinkStep::LinkTee => 3,
            LinkStep::SyncStates => 4,
            LinkStep::UnblockTeePad => 5,
            LinkStep::WatchTransport => 6,
        }
    }

    /// The step that follows, if any: the one at the next position.
    pub open spec fn following(self) -> Option<LinkStep> {
        match self {
            LinkStep::BlockTeePad => Some(LinkStep::AddElements),
            LinkStep::AddElements => Some(LinkStep::LinkQueue),
            LinkStep::LinkQueue => Some(LinkStep::LinkTee),
            LinkStep::LinkTee => Some(LinkStep::SyncStates),
            LinkStep::SyncStates => Some(LinkStep::UnblockTeePad),
            LinkStep::UnblockTeePad => Some(LinkStep::WatchTransport),
            LinkStep::WatchTransport => None,
        }
    }

    /// The way back from a step that failed.
    pub open spec fn undo_steps(self) -> Seq<UndoStep> {
        match self {
            LinkStep::BlockTeePad => seq![UndoStep::ReleaseTeePad],
            LinkStep::AddElements => seq![UndoStep::ReleaseTeePad],
            LinkStep::LinkQueue => seq![UndoStep::ReleaseTeePad, UndoStep::RemoveElements],
            LinkStep::LinkTee => seq![
                UndoStep::UnlinkQueue,
                UndoStep::ReleaseTeePad,
                UndoStep::RemoveElements,
            ],
            LinkStep::SyncStates => seq![
                UndoStep::UnlinkQueue,
                UndoStep::UnlinkTee,
                UndoStep::ReleaseTeePad,
                UndoStep::RemoveElements,
            ],
            LinkStep::UnblockTeePad => seq![],
            LinkStep::WatchTransport => seq![],
        }
    }
}

impl LinkFailure {
    pub open spec fn spec_message(self) -> Seq<char> {
        match self.step {
            LinkStep::BlockTeePad => {
                "Failed adding probe to Tee's src pad to block data before going to playing state"@
            },
            LinkStep::AddElements => {
                "Failed to add WebRTCSink's elements to the Pipeline: "@ + self.detail@
            },
            LinkStep::LinkQueue => {
                "Failed to link Queue's src pad with WebRTCBin's sink pad: "@ + self.detail@
            },
            LinkStep::LinkTee => {
                "Failed to link Tee's src pad with Queue's sink pad: "@ + self.detail@
            },
            LinkStep::SyncStates => "Failed to synchronize children states: "@ + self.detail@,
            LinkStep::UnblockTeePad => self.detail@,
            LinkStep::WatchTransport => "Failed getting transceiver's RTP sender element"@,
        }
    }

    /// What a log says of the failure.
    pub fn message(&self) -> (r: String)
        ensures
            r@ == self.spec_message(),
    {
        match self.step {
            LinkStep::BlockTeePad => {
                "Failed adding probe to Tee's src pad to block data before going to playing state".to_owned()
            },
            LinkStep::AddElements => {
                "Failed to add WebRTCSink's elements to the Pipeline: ".to_owned().concat(
                    self.detail.as_str(),
                )
            },
            LinkStep::LinkQueue => {
                "Failed to link Queue's src pad with WebRTCBin's sink pad: ".to_owned().concat(
                    self.detail.as_str(),
                )
            },
            LinkStep::LinkTee => {
                "Failed to link Tee's src pad with Queue's sink pad: ".to_owned().concat(
                    self.detail.as_str(),
                )
            },
            LinkStep::SyncStates => {
                "Failed to synchronize children states: ".to_owned().concat(self.detail.as_str())
            },
            LinkStep::UnblockTeePad => self.detail.clone(),
            LinkStep::WatchTransport => {
                "Failed getting transceiver's RTP sender element".to_owned()
            },
        }
    }

    /// Where linking stands once the first `n` steps of the way back were
    /// performed.
    pub open spec fn undone(self, n: int) -> LinkProcess {
        if n < self.step.undo_steps().len() {
            LinkProcess::Undoing(self.step.undo_steps()[n], self)
        } else {
            LinkProcess::Failed(self)
        }
    }
}

impl LinkProcess {
    pub open spec fn is_finished(self) -> bool {
        self is Linked || self is Failed
    }

    /// A step of the way back belongs to the failure that it is taken for.
    pub open spec fn is_valid(self) -> bool {
        self matches LinkProcess::Undoing(undo, failure) ==> failure.step.undo_steps().contains(
            undo,
        )
    }

    /// Where linking stands once the step at hand was performed. A step of the
    /// way in that fails starts the way back; on the way back, failures do not
    /// count.
    pub open spec fn after(self, outcome: Result<(), String>) -> LinkProcess {
        match self {
            LinkProcess::Linking(step) => match outcome {
                Err(detail) if !(step is UnblockTeePad) => (LinkFailure { step, detail }).undone(0),
                _ => match step.following() {
                    Some(next) => LinkProcess::Linking(next),
                    None => LinkProcess::Linked,
                },
            },
            LinkProcess::Undoing(undo, failure) => failure.undone(
                failure.step.undo_steps().index_of(undo) + 1,
            ),
            LinkProcess::Linked => self,
            LinkProcess::Failed(_) => self,
        }
    }

    /// The process of a sink that has just got its pad of the tee.
    pub fn start() -> (r: LinkProcess)
        ensures
            r == LinkProcess::Linking(LinkStep::BlockTeePad),
            r.is_valid(),
    {
        LinkProcess::Linking(LinkStep::BlockTeePad)
    }

    /// What is to be performed; nothing once the process is finished.
    pub fn action(&self) -> (r: Option<LinkAction>)
        ensures
            match *self {
                LinkProcess::Linking(step) => r == Some(LinkAction::Link(step)),
                LinkProcess::Undoing(step, _) => r == Some(LinkAction::Undo(step)),
                _ => r is None,
            },
    {
        match self {
            LinkProcess::Linking(step) => Some(LinkAction::Link(*step)),
            LinkProcess::Undoing(step, _) => Some(LinkAction::Undo(*step)),
            LinkProcess::Linked => None,
            LinkProcess::Failed(_) => None,
        }
    }

    /// Takes the report on the step at hand.
    pub fn advance(self, outcome: Result<(), String>) -> (r: LinkProcess)
        requires
            self.is_valid(),
        ensures
            r == self.after(outcome),
            r.is_valid(),
    {
        proof {
            lemma_undo_positions();
        }
        match self {
            LinkProcess::Linking(step) => match outcome {
                Ok(()) => LinkProcess::proceed(step),
                Err(detail) => match step {
                    LinkStep::BlockTeePad | LinkStep::AddElements | LinkStep::LinkQueue => {
                        LinkProcess::Undoing(UndoStep::ReleaseTeePad, LinkFailure { step, detail })
                    },
                    LinkStep::LinkTee | LinkStep::SyncStates => {
                        LinkProcess::Undoing(UndoStep::UnlinkQueue, LinkFailure { step, detail })
                    },
                    LinkStep::UnblockTeePad => LinkProcess::proceed(step),
                    LinkStep::WatchTransport => LinkProcess::Failed(LinkFailure { step, detail }),
                },
            },
            LinkProcess::Undoing(undo, failure) => match (undo, failure.step) {
                (UndoStep::UnlinkQueue, LinkStep::SyncStates) => {
                    LinkProcess::Undoing(UndoStep::UnlinkTee, failure)
                },
                (UndoStep::UnlinkQueue, _) => {
                    LinkProcess::Undoing(UndoStep::ReleaseTeePad, failure)
                },
                (UndoStep::UnlinkTee, _) => LinkProcess::Undoing(UndoStep::ReleaseTeePad, failure),
                (UndoStep::ReleaseTeePad, LinkStep::BlockTeePad) => LinkProcess::Failed(failure),
                (UndoStep::ReleaseTeePad, LinkStep::AddElements) => LinkProcess::Failed(failure),
                (UndoStep::ReleaseTeePad, _) => {
                    LinkProcess::Undoing(UndoStep::RemoveElements, failure)
                },
                (UndoStep::RemoveElements, _) => LinkProcess::Failed(failure),
            },
            finished => finished,
        }
    }

    /// How linking ended.
    pub fn finish(self) -> (r: Result<(), SinkError>)
        requires
            self.is_finished(),
        ensures
            match self {
                LinkProcess::Failed(failure) => r == Err::<(), SinkError>(
                    SinkError::LinkFailed(failure),
                ),
                _ => r is Ok,
            },
    {
        match self {
            LinkProcess::Failed(failure) => Err(SinkError::LinkFailed(failure)),
            _ => Ok(()),
        }
    }

    fn proceed(step: LinkStep) -> (r: LinkProcess)
        ensures
            r == (match step.following() {
                Some(next) => LinkProcess::Linking(next),
                None => LinkProcess::Linked,
            }),
    {
        match step {
            LinkStep::BlockTeePad => LinkProcess::Linking(LinkStep::AddElements),
            LinkStep::AddElements => LinkProcess::Linking(LinkStep::LinkQueue),
            LinkStep::LinkQueue => LinkProcess::Linking(LinkStep::LinkTee),
            LinkStep::LinkTee => LinkProcess::Linking(LinkStep::SyncStates),
            LinkStep::SyncStates => LinkProcess::Linking(LinkStep::UnblockTeePad),
            LinkStep::UnblockTeePad => LinkProcess::Linking(LinkStep::WatchTransport),
            LinkStep::WatchTransport => LinkProcess::Linked,
        }
    }
}

/// A step on the way out of a pipeline. The sink leaves through a temporary
/// pipeline, in which its elements get an end of stream before they are stopped:
/// without it the queue can hang.
#[derive(Clone, Copy, Debug, PartialEq, Eq, Structural)]
pub enum UnlinkStep {
    /// Block the data flow on the tee's source pad: data on its way would keep
    /// the pipeline's elements alive.
    BlockTeePad,
    /// Unlink the tee's source pad from the queue's sink pad.
    UnlinkTee,
    /// Give the tee's source pad back to the tee, if it still has one.
    ReleaseTeePad,
    /// Remove the queue and the WebRTC element from the pipeline.
    RemoveElements,
    /// Add the queue and the WebRTC element to the temporary pipeline.
    AddToTemporaryPipeline,
    /// Post an end of stream in the temporary pipeline.
    PostEos,
    /// Stop the temporary pipeline.
    SetNull,
}

/// The way out.
pub open spec fn unlink_steps() -> Seq<UnlinkStep> {
    seq![
        UnlinkStep::BlockTeePad,
        UnlinkStep::UnlinkTee,
        UnlinkStep::ReleaseTeePad,
        UnlinkStep::RemoveElements,
        UnlinkStep::AddToTemporaryPipeline,
        UnlinkStep::PostEos,
        UnlinkStep::SetNull,
    ]
}

impl UnlinkStep {
    pub open spec fn position(self) -> int {
        match self {
            UnlinkStep::BlockTeePad => 0,
            UnlinkStep::UnlinkTee => 1,
            UnlinkStep::ReleaseTeePad => 2,
            UnlinkStep::RemoveElements => 3,
            UnlinkStep::AddToTemporaryPipeline => 4,
            UnlinkStep::PostEos => 5,
            UnlinkStep::SetNull => 6,
        }
    }

    /// The step that follows, if any, however this one went.
    pub fn following(self) -> (r: Option<UnlinkStep>)
        ensures
            match r {
                Some(next) => self.position() + 1 < unlink_steps().len() && next
                    == unlink_steps()[self.position() + 1],
                None => self.position() + 1 == unlink_steps().len(),
            },
    {
        match self {
            UnlinkStep::BlockTeePad => Some(UnlinkStep::UnlinkTee),
            UnlinkStep::UnlinkTee => Some(UnlinkStep::ReleaseTeePad),
            UnlinkStep::ReleaseTeePad => Some(UnlinkStep::RemoveElements),
            UnlinkStep::RemoveElements => Some(UnlinkStep::AddToTemporaryPipeline),
            UnlinkStep::AddToTemporaryPipeline => Some(UnlinkStep::PostEos),
            UnlinkStep::PostEos => Some(UnlinkStep::SetNull),
            UnlinkStep::SetNull => None,
        }
    }

    /// Whether the way out goes on when the step fails: it does in the pipeline
    /// that the sink leaves, and does not in the temporary one.
    pub fn may_fail(self) -> (r: bool)
        ensures
            r <==> self.position() < UnlinkStep::AddToTemporaryPipeline.position(),
    {
        match self {
            UnlinkStep::BlockTeePad => true,
            UnlinkStep::UnlinkTee => true,
            UnlinkStep::ReleaseTeePad => true,
            UnlinkStep::RemoveElements => true,
            UnlinkStep::AddToTemporaryPipeline => false,
            UnlinkStep::PostEos => false,
            UnlinkStep::SetNull => false,
        }
    }
}

/// How a sink is wired, as far as the reports on the steps tell.
pub struct Wiring {
    /// The tee has a source pad for the sink.
    pub pad_held: bool,
    /// Data is blocked on that pad.
    pub blocked: bool,
    /// The elements are in the pipeline.
    pub elements_added: bool,
    /// The queue is linked to the WebRTC element.
    pub queue_linked: bool,
    /// The tee is linked to the queue.
    pub tee_linked: bool,
    /// The elements have the state of the pipeline.
    pub synchronized: bool,
    /// The transport is watched.
    pub watched: bool,
    /// The elements got an end of stream.
    pub eos_posted: bool,
    /// The elements were stopped.
    pub stopped: bool,
}

impl Wiring {
    /// A sink that has a pad of the tee, and nothing more.
    pub open spec fn initial() -> Wiring {
        Wiring {
            pad_held: true,
            blocked: false,
            elements_added: false,
            queue_linked: false,
            tee_linked: false,
            synchronized: false,
            watched: false,
            eos_posted: false,
            stopped: false,
        }
    }

    /// Nothing of the sink is left in the pipeline or on the tee.
    pub open spec fn is_detached(self) -> bool {
        !self.pad_held && !self.elements_added && !self.tee_linked
    }

    pub open spec fn after_link_step(self, step: LinkStep) -> Wiring {
        match step {
            LinkStep::BlockTeePad => Wiring { blocked: true, ..self },
            LinkStep::AddElements => Wiring { elements_added: true, ..self },
            LinkStep::LinkQueue => Wiring { queue_linked: true, ..self },
            LinkStep::LinkTee => Wiring { tee_linked: true, ..self },
            LinkStep::SyncStates => Wiring { synchronized: true, ..self },
            LinkStep::UnblockTeePad => Wiring { blocked: false, ..self },
            LinkStep::WatchTransport => Wiring { watched: true, ..self },
        }
    }

    pub open spec fn after_undo_step(self, step: UndoStep) -> Wiring {
        match step {
            UndoStep::UnlinkQueue => Wiring { queue_linked: false, ..self },
            UndoStep::UnlinkTee => Wiring { tee_linked: false, ..self },
            UndoStep::ReleaseTeePad => Wiring { pad_held: false, ..self },
            UndoStep::RemoveElements => Wiring { elements_added: false, ..self },
        }
    }

    pub open spec fn after_unlink_step(self, step: UnlinkStep) -> Wiring {
        match step {
            UnlinkStep::BlockTeePad => Wiring { blocked: true, ..self },
            UnlinkStep::UnlinkTee => Wiring { tee_linked: false, ..self },
            UnlinkStep::ReleaseTeePad => Wiring { pad_held: false, ..self },
            UnlinkStep::RemoveElements => Wiring { elements_added: false, ..self },
            UnlinkStep::AddToTemporaryPipeline => self,
            UnlinkStep::PostEos => Wiring { eos_posted: true, ..self },
            UnlinkStep::SetNull => Wiring { stopped: true, ..self },
        }
    }

    /// The wiring once the step at hand was performed, with this report: a step
    /// that failed changed nothing.
    pub open spec fn after(self, process: LinkProcess, outcome: Result<(), String>) -> Wiring {
        match process {
            LinkProcess::Linking(step) if outcome is Ok || step is UnblockTeePad => {
                self.after_link_step(step)
            },
            LinkProcess::Undoing(step, _) if outcome is Ok => self.after_undo_step(step),
            _ => self,
        }
    }

    /// The wiring once the first steps of the way out were performed, with these
    /// reports: a step that failed changed nothing, and the next one follows.
    pub open spec fn unlinked(self, outcomes: Seq<Result<(), String>>) -> Wiring
        decreases outcomes.len(),
    {
        if outcomes.len() == 0 {
            self
        } else if outcomes.last() is Ok {
            self.unlinked(outcomes.drop_last()).after_unlink_step(
                unlink_steps()[outcomes.len() - 1],
            )
        } else {
            self.unlinked(outcomes.drop_last())
        }
    }
}

/// The step of the way out at this position was performed and went well.
pub open spec fn went_well(outcomes: Seq<Result<(), String>>, step: UnlinkStep) -> bool {
    step.position() < outcomes.len() && outcomes[step.position()] is Ok
}

/// Where linking stands once the reports came in, from the first on.
pub open spec fn process_after(outcomes: Seq<Result<(), String>>) -> LinkProcess
    decreases outcomes.len(),
{
    if outcomes.len() == 0 {
        LinkProcess::Linking(LinkStep::BlockTeePad)
    } else {
        process_after(outcomes.drop_last()).after(outcomes.last())
    }
}

/// The wiring once the reports came in, from the first on.
pub open spec fn wiring_after(outcomes: Seq<Result<(), String>>) -> Wiring
    decreases outcomes.len(),
{
    if outcomes.len() == 0 {
        Wiring::initial()
    } else {
        wiring_after(outcomes.drop_last()).after(
            process_after(outcomes.drop_last()),
            outcomes.last(),
        )
    }
}

/// No step of the way back was reported as failed.
pub open spec fn undone_cleanly(outcomes: Seq<Result<(), String>>) -> bool {
    forall|i: int|
        0 <= i < outcomes.len() && process_after(#[trigger] outcomes.take(i)) is Undoing
            ==> outcomes[i] is Ok
}

/// How many reports can still come in.
spec fn reports_left(process: LinkProcess) -> int {
    match process {
        LinkProcess::Linking(step) => if step.position() <= 4 {
            9 - step.position()
        } else {
            7 - step.position()
        },
        LinkProcess::Undoing(undo, failure) => {
            failure.step.undo_steps().len() - failure.step.undo_steps().index_of(undo)
        },
        _ => 0,
    }
}

/// The wiring that belongs to a process, where the way back goes well.
spec fn is_wired_for(wiring: Wiring, process: LinkProcess) -> bool {
    match process {
        LinkProcess::Linking(step) => wiring == (Wiring {
            blocked: 0 < step.position() <= 5,
            elements_added: step.position() > 1,
            queue_linked: step.position() > 2,
            tee_linked: step.position() > 3,
            synchronized: step.position() > 4,
            ..Wiring::initial()
        }),
        LinkProcess::Undoing(undo, failure) => {
            let left = failure.step.undo_steps().skip(
                failure.step.undo_steps().index_of(undo),
            );
            &&& wiring.pad_held == left.contains(UndoStep::ReleaseTeePad)
            &&& wiring.elements_added == left.contains(UndoStep::RemoveElements)
            &&& wiring.queue_linked == left.contains(UndoStep::UnlinkQueue)
            &&& wiring.tee_linked == left.contains(UndoStep::UnlinkTee)
            &&& !wiring.watched
        },
        LinkProcess::Linked => wiring == (Wiring {
            elements_added: true,
            queue_linked: true,
            tee_linked: true,
            synchronized: true,
            watched: true,
            ..Wiring::initial()
        }),
        LinkProcess::Failed(failure) => if failure.step is WatchTransport {
            wiring == (Wiring {
                elements_added: true,
                queue_linked: true,
                tee_linked: true,
                synchronized: true,
                ..Wiring::initial()
            })
        } else {
            wiring.is_detached() && !wiring.queue_linked && !wiring.watched
        },
    }
}

/// No step occurs twice on a way back: each has one position.
proof fn lemma_undo_positions()
    ensures
        forall|step: LinkStep, i: int|
            0 <= i < step.undo_steps().len() ==> #[trigger] step.undo_steps().index_of(
                step.undo_steps()[i],
            ) == i,
{
    assert forall|step: LinkStep, i: int| 0 <= i < step.undo_steps().len() implies #[trigger] step.undo_steps().index_of(
        step.undo_steps()[i],
    ) == i by {
        let steps = step.undo_steps();
        let j = steps.index_of(steps[i]);
        assert(0 <= j < steps.len() && steps[j] == steps[i]);
    }
}

/// What is left of a way back after one more of its steps.
proof fn lemma_skip_one(steps: Seq<UndoStep>, n: int)
    requires
        0 <= n < steps.len(),
    ensures
        forall|undo: UndoStep| #[trigger]
            steps.skip(n).contains(undo) <==> undo == steps[n] || steps.skip(n + 1).contains(undo),
{
    assert forall|undo: UndoStep| #[trigger] steps.skip(n).contains(undo) <==> undo == steps[n]
        || steps.skip(n + 1).contains(undo) by {
        if steps.skip(n).contains(undo) {
            let i = choose|i: int| 0 <= i < steps.skip(n).len() && steps.skip(n)[i] == undo;
            if i > 0 {
                assert(steps.skip(n + 1)[i - 1] == undo);
            }
        }
        if undo == steps[n] {
            assert(steps.skip(n)[0] == undo);
        }
        if steps.skip(n + 1).contains(undo) {
            let left = steps.skip(n + 1);
            let i = choose|i: int| 0 <= i < left.len() && left[i] == undo;
            assert(steps.skip(n)[i + 1] == undo);
        }
    }
}

proof fn lemma_one_report(process: LinkProcess, outcome: Result<(), String>)
    requires
        process.is_valid(),
    ensures
        process.after(outcome).is_valid(),
        !process.is_finished() ==> reports_left(process.after(outcome)) < reports_left(process),
        reports_left(process) >= 0,
        reports_left(process) == 0 ==> process.is_finished(),
{
    lemma_undo_positions();
}

proof fn lemma_reports(outcomes: Seq<Result<(), String>>)
    ensures
        process_after(outcomes).is_valid(),
        reports_left(process_after(outcomes)) == 0 || reports_left(process_after(outcomes))
            + outcomes.len() <= 9,
    decreases outcomes.len(),
{
    if outcomes.len() > 0 {
        lemma_reports(outcomes.drop_last());
        lemma_one_report(process_after(outcomes.drop_last()), outcomes.last());
        lemma_one_report(process_after(outcomes), outcomes.last());
    }
}

/// Linking ends after at most nine reports, whatever they say.
pub proof fn law_linking_ends(outcomes: Seq<Result<(), String>>)
    requires
        outcomes.len() >= 9,
    ensures
        process_after(outcomes).is_finished(),
{
    lemma_reports(outcomes);
    lemma_one_report(process_after(outcomes), Ok(()));
}

proof fn lemma_wiring_step(wiring: Wiring, process: LinkProcess, outcome: Result<(), String>)
    requires
        process.is_valid(),
        is_wired_for(wiring, process),
        process is Undoing ==> outcome is Ok,
    ensures
        is_wired_for(wiring.after(process, outcome), process.after(outcome)),
{
    lemma_undo_positions();
    match process {
        LinkProcess::Undoing(undo, failure) => {
            let steps = failure.step.undo_steps();
            lemma_skip_one(steps, steps.index_of(undo));
        },
        LinkProcess::Linking(step) => {
            let steps = step.undo_steps();
            assert(steps.skip(0) =~= steps);
            if steps.len() > 0 {
                assert(steps.index_of(steps[0]) == 0);
                assert(steps.contains(steps[0]));
                assert(steps.len() > 1 ==> steps.contains(steps[1]));
                assert(steps.len() > 2 ==> steps.contains(steps[2]));
                assert(steps.len() > 3 ==> steps.contains(steps[3]));
            }
        },
        _ => {},
    }
}

proof fn lemma_wiring(outcomes: Seq<Result<(), String>>)
    requires
        undone_cleanly(outcomes),
    ensures
        is_wired_for(wiring_after(outcomes), process_after(outcomes)),
    decreases outcomes.len(),
{
    if outcomes.len() > 0 {
        let before = outcomes.drop_last();
        assert(outcomes.take(outcomes.len() - 1) =~= before);
        assert forall|i: int|
            0 <= i < before.len() && process_after(#[trigger] before.take(i)) is Undoing implies before[i] is Ok by {
            assert(before.take(i) =~= outcomes.take(i));
        }
        lemma_wiring(before);
        lemma_reports(before);
        lemma_wiring_step(wiring_after(before), process_after(before), outcomes.last());
    }
}

/// A sink that is linked is linked from the tee to the WebRTC element, has the
/// state of the pipeline, is not blocked, and its transport is watched.
pub proof fn law_linked_is_wired(outcomes: Seq<Result<(), String>>)
    requires
        process_after(outcomes) is Linked,
    ensures
        wiring_after(outcomes) == (Wiring {
            elements_added: true,
            queue_linked: true,
            tee_linked: true,
            synchronized: true,
            watched: true,
            ..Wiring::initial()
        }),
{
    lemma_no_way_back_from_linked(outcomes);
    lemma_wiring(outcomes);
}

/// A process that is on its way in, or linked, was never on the way back.
proof fn lemma_no_way_back_from_linked(outcomes: Seq<Result<(), String>>)
    requires
        process_after(outcomes) is Linking || process_after(outcomes) is Linked,
    ensures
        undone_cleanly(outcomes),
        forall|i: int|
            0 <= i <= outcomes.len() ==> !(process_after(#[trigger] outcomes.take(i)) is Undoing),
    decreases outcomes.len(),
{
    assert(outcomes.take(outcomes.len() as int) =~= outcomes);
    if outcomes.len() > 0 {
        let before = outcomes.drop_last();
        lemma_no_way_back_from_linked(before);
        assert forall|i: int| 0 <= i <= outcomes.len() implies !(process_after(
            #[trigger] outcomes.take(i),
        ) is Undoing) by {
            if i < outcomes.len() {
                assert(outcomes.take(i) =~= before.take(i));
            }
        }
    }
}

/// A link that failed leaves nothing of the sink in the pipeline or on the tee,
/// if the steps back went well. The one exception is a transport that cannot be
/// watched: the sink stays linked then.
pub proof fn law_failed_link_is_undone(outcomes: Seq<Result<(), String>>)
    requires
        undone_cleanly(outcomes),
        process_after(outcomes) is Failed,
    ensures
        if process_after(outcomes)->Failed_0.step is WatchTransport {
            wiring_after(outcomes) == (Wiring {
                elements_added: true,
                queue_linked: true,
                tee_linked: true,
                synchronized: true,
                ..Wiring::initial()
            })
        } else {
            &&& wiring_after(outcomes).is_detached()
            &&& !wiring_after(outcomes).queue_linked
            &&& !wiring_after(outcomes).watched
        },
{
    lemma_wiring(outcomes);
}

/// Data reaches the elements only after they have the state of the pipeline: as
/// long as the tee is linked to the queue and the elements are behind, the pad is
/// blocked.
pub proof fn law_no_data_before_synchronized(outcomes: Seq<Result<(), String>>)
    ensures
        wiring_after(outcomes).tee_linked && !wiring_after(outcomes).synchronized ==> wiring_after(
            outcomes,
        ).blocked,
{
    lemma_blocked(outcomes);
}

proof fn lemma_blocked(outcomes: Seq<Result<(), String>>)
    ensures
        match process_after(outcomes) {
            LinkProcess::Linking(step) => {
                &&& 0 < step.position() <= 5 ==> wiring_after(outcomes).blocked
                &&& step.position() > 4 ==> wiring_after(outcomes).synchronized
                &&& step.position() <= 3 ==> !wiring_after(outcomes).tee_linked
            },
            _ => wiring_after(outcomes).tee_linked && !wiring_after(outcomes).synchronized
                ==> wiring_after(outcomes).blocked,
        },
    decreases outcomes.len(),
{
    if outcomes.len() > 0 {
        lemma_blocked(outcomes.drop_last());
    }
}

proof fn lemma_unlinked(wiring: Wiring, outcomes: Seq<Result<(), String>>)
    requires
        outcomes.len() <= unlink_steps().len(),
    ensures
        wiring.unlinked(outcomes) == (Wiring {
            blocked: wiring.blocked || went_well(outcomes, UnlinkStep::BlockTeePad),
            tee_linked: wiring.tee_linked && !went_well(outcomes, UnlinkStep::UnlinkTee),
            pad_held: wiring.pad_held && !went_well(outcomes, UnlinkStep::ReleaseTeePad),
            elements_added: wiring.elements_added && !went_well(
                outcomes,
                UnlinkStep::RemoveElements,
            ),
            eos_posted: wiring.eos_posted || went_well(outcomes, UnlinkStep::PostEos),
            stopped: wiring.stopped || went_well(outcomes, UnlinkStep::SetNull),
            ..wiring
        }),
    decreases outcomes.len(),
{
    if outcomes.len() > 0 {
        lemma_unlinked(wiring, outcomes.drop_last());
    }
}

/// On the way out each step does its own part, whichever others failed: a linked
/// sink is unlinked from the tee, gives its pad back and leaves the pipeline
/// exactly where the step for it went well, and the rest of its wiring stays.
pub proof fn law_a_failed_step_out_leaves_its_part(
    linking: Seq<Result<(), String>>,
    outcomes: Seq<Result<(), String>>,
)
    requires
        process_after(linking) is Linked,
        outcomes.len() <= unlink_steps().len(),
    ensures
        wiring_after(linking).unlinked(outcomes) == (Wiring {
            blocked: went_well(outcomes, UnlinkStep::BlockTeePad),
            tee_linked: !went_well(outcomes, UnlinkStep::UnlinkTee),
            pad_held: !went_well(outcomes, UnlinkStep::ReleaseTeePad),
            elements_added: !went_well(outcomes, UnlinkStep::RemoveElements),
            eos_posted: went_well(outcomes, UnlinkStep::PostEos),
            stopped: went_well(outcomes, UnlinkStep::SetNull),
            queue_linked: true,
            synchronized: true,
            watched: true,
        }),
{
    law_linked_is_wired(linking);
    lemma_unlinked(wiring_after(linking), outcomes);
}

/// The way out ends with the elements stopped after an end of stream, whichever of
/// the steps that may fail did. Where none failed, nothing of the sink is left in
/// the pipeline or on the tee.
pub proof fn law_unlinking_undoes_linking(
    linking: Seq<Result<(), String>>,
    outcomes: Seq<Result<(), String>>,
)
    requires
        process_after(linking) is Linked,
        outcomes.len() == unlink_steps().len(),
        forall|i: int|
            UnlinkStep::AddToTemporaryPipeline.position() <= i < outcomes.len() ==> (
            #[trigger] outcomes[i]) is Ok,
    ensures
        wiring_after(linking).unlinked(outcomes).eos_posted,
        wiring_after(linking).unlinked(outcomes).stopped,
        (forall|i: int| 0 <= i < outcomes.len() ==> (#[trigger] outcomes[i]) is Ok)
            ==> wiring_after(linking).unlinked(outcomes).is_detached(),
{
    law_a_failed_step_out_leaves_its_part(linking, outcomes);
    assert(outcomes[5] is Ok && outcomes[6] is Ok);
}

/// The elements are stopped only after an end of stream: as long as the steps that
/// may not fail did not, a sink that was stopped got one.
pub proof fn law_end_of_stream_before_stop(
    linking: Seq<Result<(), String>>,
    outcomes: Seq<Result<(), String>>,
)
    requires
        process_after(linking) is Linked,
        outcomes.len() <= unlink_steps().len(),
        forall|i: int|
            UnlinkStep::AddToTemporaryPipeline.position() <= i < outcomes.len() ==> (
            #[trigger] outcomes[i]) is Ok,
    ensures
        wiring_after(linking).unlinked(outcomes).stopped ==> wiring_after(linking).unlinked(
            outcomes,
        ).eos_posted,
{
    law_a_failed_step_out_leaves_its_part(linking, outcomes);
    if outcomes.len() == unlink_steps().len() {
        assert(outcomes[5] is Ok);
    }
}

/// A step of the way in that goes well is followed by the next one, in the order
/// block, add, link the queue, link the tee, synchronize, unblock, watch; the last one
/// ends the way.
pub proof fn law_order_of_the_way_in(step: LinkStep)
    ensures
        LinkProcess::Linking(step).after(Ok(())) == match step {
            LinkStep::BlockTeePad => LinkProcess::Linking(LinkStep::AddElements),
            LinkStep::AddElements => LinkProcess::Linking(LinkStep::LinkQueue),
            LinkStep::LinkQueue => LinkProcess::Linking(LinkStep::LinkTee),
            LinkStep::LinkTee => LinkProcess::Linking(LinkStep::SyncStates),
            LinkStep::SyncStates => LinkProcess::Linking(LinkStep::UnblockTeePad),
            LinkStep::UnblockTeePad => LinkProcess::Linking(LinkStep::WatchTransport),
            LinkStep::WatchTransport => LinkProcess::Linked,
        },
{
}

/// A step of the way in that fails, whatever the pipeline said, starts the way back for
/// this step with all that was said. There is none for a transport that cannot be
/// watched, and to unblock does not fail.
pub proof fn law_failures_start_the_way_back(step: LinkStep, detail: String)
    ensures
        ({
            let failure = LinkFailure { step, detail };
            LinkProcess::Linking(step).after(Err(detail)) == match step {
                LinkStep::BlockTeePad => LinkProcess::Undoing(UndoStep::ReleaseTeePad, failure),
                LinkStep::AddElements => LinkProcess::Undoing(UndoStep::ReleaseTeePad, failure),
                LinkStep::LinkQueue => LinkProcess::Undoing(UndoStep::ReleaseTeePad, failure),
                LinkStep::LinkTee => LinkProcess::Undoing(UndoStep::UnlinkQueue, failure),
                LinkStep::SyncStates => LinkProcess::Undoing(UndoStep::UnlinkQueue, failure),
                LinkStep::UnblockTeePad => LinkProcess::Linking(LinkStep::WatchTransport),
                LinkStep::WatchTransport => LinkProcess::Failed(failure),
            }
        }),
{
}

/// On the way back the failure stays as it is and reports do not count: the queue is
/// unlinked before the tee, both before the pad is released, and the elements are
/// removed last, each only where the step that failed came after its counterpart.
pub proof fn law_order_of_the_way_back(
    undo: UndoStep,
    failure: LinkFailure,
    outcome: Result<(), String>,
)
    requires
        LinkProcess::Undoing(undo, failure).is_valid(),
    ensures
        LinkProcess::Undoing(undo, failure).after(outcome) == match undo {
            UndoStep::UnlinkQueue => if failure.step is SyncStates {
                LinkProcess::Undoing(UndoStep::UnlinkTee, failure)
            } else {
                LinkProcess::Undoing(UndoStep::ReleaseTeePad, failure)
            },
            UndoStep::UnlinkTee => LinkProcess::Undoing(UndoStep::ReleaseTeePad, failure),
            UndoStep::ReleaseTeePad => if failure.step is BlockTeePad
                || failure.step is AddElements {
                LinkProcess::Failed(failure)
            } else {
                LinkProcess::Undoing(UndoStep::RemoveElements, failure)
            },
            UndoStep::RemoveElements => LinkProcess::Failed(failure),
        },
{
    lemma_undo_positions();
    let steps = failure.step.undo_steps();
    let i = steps.index_of(undo);
    assert(0 <= i < steps.len() && steps[i] == undo);
}

/// A process that is finished stays as it is, and no other is finished.
pub proof fn law_finished_processes_stay(process: LinkProcess, outcome: Result<(), String>)
    ensures
        process.is_finished() <==> (process is Linked || process is Failed),
        process.is_finished() ==> process.after(outcome) == process,
{
}

/// Which steps of a way back belong to which failure.
pub proof fn law_steps_of_the_ways_back(process: LinkProcess)
    ensures
        process matches LinkProcess::Undoing(undo, failure) ==> (process.is_valid() <==> match undo {
            UndoStep::UnlinkQueue => failure.step is LinkTee || failure.step is SyncStates,
            UndoStep::UnlinkTee => failure.step is SyncStates,
            UndoStep::ReleaseTeePad => !(failure.step is UnblockTeePad)
                && !(failure.step is WatchTransport),
            UndoStep::RemoveElements => failure.step is LinkQueue || failure.step is LinkTee
                || failure.step is SyncStates,
        }),
        !(process is Undoing) ==> process.is_valid(),
{
    if let LinkProcess::Undoing(undo, failure) = process {
        let steps = failure.step.undo_steps();
        assert(steps.len() > 0 ==> steps.contains(steps[0]));
        assert(steps.len() > 1 ==> steps.contains(steps[1]));
        assert(steps.len() > 2 ==> steps.contains(steps[2]));
        assert(steps.len() > 3 ==> steps.contains(steps[3]));
    }
}

/// A failed link is told with the step that failed and all that the pipeline said of
/// it, where it says something.
pub proof fn law_failed_links_are_told_whole(failure: LinkFailure)
    ensures
        failure.step is BlockTeePad ==> failure.spec_message()
            == "Failed adding probe to Tee's src pad to block data before going to playing state"@,
        failure.step is AddElements ==> failure.spec_message()
            == "Failed to add WebRTCSink's elements to the Pipeline: "@ + failure.detail@,
        failure.step is LinkQueue ==> failure.spec_message()
            == "Failed to link Queue's src pad with WebRTCBin's sink pad: "@ + failure.detail@,
        failure.step is LinkTee ==> failure.spec_message()
            == "Failed to link Tee's src pad with Queue's sink pad: "@ + failure.detail@,
        failure.step is SyncStates ==> failure.spec_message()
            == "Failed to synchronize children states: "@ + failure.detail@,
        failure.step is WatchTransport ==> failure.spec_message()
            == "Failed getting transceiver's RTP sender element"@,
{
}

/// The way out has seven steps, each at its place: block, unlink from the tee, release
/// the pad, remove the elements, add them to the temporary pipeline, post the end of
/// stream, stop.
pub proof fn law_order_of_the_way_out(step: UnlinkStep)
    ensures
        unlink_steps().len() == 7,
        unlink_steps()[step.position()] == step,
        unlink_steps()[0] == UnlinkStep::BlockTeePad,
        unlink_steps()[1] == UnlinkStep::UnlinkTee,
        unlink_steps()[2] == UnlinkStep::ReleaseTeePad,
        unlink_steps()[3] == UnlinkStep::RemoveElements,
        unlink_steps()[4] == UnlinkStep::AddToTemporaryPipeline,
        unlink_steps()[5] == UnlinkStep::PostEos,
        unlink_steps()[6] == UnlinkStep::SetNull,
{
}

/// Linking starts with blocking the pad, and each report is taken after those before
/// it.
pub proof fn law_reports_are_taken_in_order(
    outcomes: Seq<Result<(), String>>,
    outcome: Result<(), String>,
)
    ensures
        process_after(Seq::empty()) == LinkProcess::Linking(LinkStep::BlockTeePad),
        process_after(outcomes.push(outcome)) == process_after(outcomes).after(outcome),
{
    assert(outcomes.push(outcome).drop_last() =~= outcomes);
}

} // verus!
