//! The message loop of one association, as a state machine.
//!
//! The caller receives a PDU and hands it to [`Session::handle_pdu`], then
//! performs the actions that come back, in order, before it receives the
//! next PDU. Where an action fails it says so with
//! [`Session::action_failed`], and where receiving fails, with
//! [`Session::receive_failed`]. The loop ends as soon as
//! [`Session::completion`] has an answer.
//!
//! A command unit is taken to arrive in a single fragment: a fragment of a
//! command set that is not the last one is passed over, and the last one
//! is decoded by itself.

use vstd::prelude::*;
use crate::command::decode_command;
use crate::command::decoded_command;
use crate::command::encode_response;
use crate::command::response_encoding;
use crate::command::PendingRequest;
use crate::command::PendingRequestView;
use crate::error::StoreError;
use crate::limits::starts_as_file;
use crate::pdu::context_views;
use crate::pdu::find_transfer_syntax;
use crate::pdu::negotiated_transfer_syntax;
use crate::pdu::pdv_views;
use crate::pdu::Pdu;
use crate::pdu::PduView;
use crate::pdu::Pdv;
use crate::pdu::PdvKind;
use crate::pdu::PdvView;
use crate::pdu::PresentationContext;
use crate::pdu::PresentationContextView;
use crate::store::file_contents;
use crate::store::file_name_of;
use crate::store::storage_file_name;
use crate::store::stored_contents;

verus! {

/// Where the message loop of an association stands.
#[derive(Clone, Copy, Debug, PartialEq, Eq, Structural)]
pub enum Phase {
    /// The loop receives and dispatches PDUs.
    Running,
    /// The peer asked for release.
    Released,
    /// The peer aborted.
    Aborted,
    /// The association failed.
    Failed(StoreError),
}

/// What is done with one presentation data value.
#[derive(Clone, Copy, Debug, PartialEq, Eq, Structural)]
pub enum Dispatch {
    /// A fragment of a data unit that is not the last: it is appended to the
    /// reassembly buffer.
    Accumulate,
    /// The last fragment of a command unit: its payload is decoded as the
    /// whole command set.
    CompleteCommand,
    /// The last fragment of a data unit: it is appended, and the buffer is
    /// decoded and stored.
    CompleteData,
    /// A fragment of a command unit that is not the last: nothing is done.
    Ignore,
}

/// The decision for a fragment of the given kind.
pub open spec fn dispatch_of(kind: PdvKind, is_last: bool) -> Dispatch {
    match kind {
        PdvKind::Data => if is_last {
            Dispatch::CompleteData
        } else {
            Dispatch::Accumulate
        },
        PdvKind::Command => if is_last {
            Dispatch::CompleteCommand
        } else {
            Dispatch::Ignore
        },
    }
}

/// Decides what is done with a fragment of the given kind.
pub fn dispatch(kind: PdvKind, is_last: bool) -> (r: Dispatch)
    ensures
        r == dispatch_of(kind, is_last),
{
    match kind {
        PdvKind::Data => if is_last {
            Dispatch::CompleteData
        } else {
            Dispatch::Accumulate
        },
        PdvKind::Command => if is_last {
            Dispatch::CompleteCommand
        } else {
            Dispatch::Ignore
        },
    }
}

/// Something that the caller has to do for the session.
#[derive(Clone, Debug, PartialEq, Eq)]
pub enum Action {
    /// Write a file of this name, in the output directory, with these
    /// contents.
    Store { file_name: String, contents: Vec<u8> },
    /// Send this PDU to the peer.
    Send { pdu: Pdu },
}

/// The mathematical value of an [`Action`].
#[verifier::ext_equal]
pub enum ActionView {
    Store { file_name: Seq<char>, contents: Seq<u8> },
    Send { pdu: PduView },
}

impl View for Action {
    type V = ActionView;

    open spec fn view(&self) -> ActionView {
        match self {
            Action::Store { file_name, contents } => ActionView::Store {
                file_name: file_name@,
                contents: contents@,
            },
            Action::Send { pdu } => ActionView::Send { pdu: pdu@ },
        }
    }
}

/// The values of a vector of actions, in order.
pub open spec fn action_views(actions: Seq<Action>) -> Seq<ActionView> {
    actions.map_values(|a: Action| a@)
}

/// Whether every file among the actions begins as a DICOM file does.
pub open spec fn files_are_framed(actions: Seq<ActionView>) -> bool {
    forall|i: int|
        0 <= i < actions.len() ==> match #[trigger] actions[i] {
            ActionView::Store { contents, .. } => starts_as_file(contents),
            ActionView::Send { .. } => true,
        }
}

/// The mathematical value of a [`Session`].
#[verifier::ext_equal]
pub struct SessionView {
    /// The fragments of the data unit in progress, concatenated.
    pub buffer: Seq<u8>,
    /// The request that the next data unit belongs to.
    pub pending: PendingRequestView,
    /// Where the loop stands.
    pub phase: Phase,
}

/// A state together with the actions that led to it.
#[verifier::ext_equal]
pub struct Outcome {
    pub state: SessionView,
    pub actions: Seq<ActionView>,
}

/// The state of a session on which nothing has arrived yet.
pub open spec fn initial_session() -> SessionView {
    SessionView { buffer: Seq::empty(), pending: PendingRequest::initial(), phase: Phase::Running }
}

/// The state `s` with nothing to do.
pub open spec fn unchanged(s: SessionView) -> Outcome {
    Outcome { state: s, actions: Seq::empty() }
}

/// The PDU that carries a response: one presentation data value on the
/// given presentation context, of kind command, marked last.
pub open spec fn response_pdu(presentation_context_id: u8, command: Seq<u8>) -> PduView {
    PduView::PData {
        data: seq![
            PdvView {
                presentation_context_id,
                kind: PdvKind::Command,
                is_last: true,
                data: command,
            },
        ],
    }
}

/// What a complete command unit does to the session: the request read from
/// it becomes the pending one and the buffer is emptied, or the session
/// fails.
pub open spec fn complete_command(s: SessionView, unit: Seq<u8>) -> Outcome {
    match decoded_command(unit) {
        Ok(request) => unchanged(
            SessionView { buffer: Seq::empty(), pending: request, phase: Phase::Running },
        ),
        Err(e) => unchanged(SessionView { phase: Phase::Failed(e), ..s }),
    }
}

/// What a complete data unit, arrived on the given presentation context,
/// does to the session. The unit is decoded in the transfer syntax
/// negotiated for the context and made into a file, named after the
/// pending request; then the response to the pending request is built. The
/// file is to be written before the response is sent, and the buffer is
/// empty afterwards. Where anything fails, the session fails, and keeps the
/// unit in its buffer.
pub open spec fn complete_data(
    s: SessionView,
    presentation_context_id: u8,
    unit: Seq<u8>,
    contexts: Seq<PresentationContextView>,
) -> Outcome {
    let kept = SessionView { buffer: unit, ..s };
    match negotiated_transfer_syntax(contexts, presentation_context_id) {
        None => unchanged(
            SessionView { phase: Phase::Failed(StoreError::MissingPresentationContext), ..kept },
        ),
        Some(transfer_syntax) => match stored_contents(unit, transfer_syntax) {
            Err(e) => unchanged(SessionView { phase: Phase::Failed(e), ..kept }),
            Ok(contents) => {
                let store = ActionView::Store {
                    file_name: file_name_of(s.pending.sop_instance_uid),
                    contents,
                };
                match response_encoding(s.pending) {
                    None => Outcome {
                        state: SessionView {
                            phase: Phase::Failed(StoreError::ResponseEncodingFailed),
                            ..kept
                        },
                        actions: seq![store],
                    },
                    Some(command) => Outcome {
                        state: SessionView { buffer: Seq::empty(), ..s },
                        actions: seq![
                            store,
                            ActionView::Send {
                                pdu: response_pdu(presentation_context_id, command),
                            },
                        ],
                    },
                }
            },
        },
    }
}

/// What one presentation data value does to the session. A session that is
/// not running takes nothing in.
pub open spec fn step_pdv(
    s: SessionView,
    pdv: PdvView,
    contexts: Seq<PresentationContextView>,
) -> Outcome {
    if s.phase != Phase::Running {
        unchanged(s)
    } else {
        match dispatch_of(pdv.kind, pdv.is_last) {
            Dispatch::Accumulate => unchanged(SessionView { buffer: s.buffer + pdv.data, ..s }),
            Dispatch::CompleteCommand => complete_command(s, pdv.data),
            Dispatch::CompleteData => complete_data(
                s,
                pdv.presentation_context_id,
                s.buffer + pdv.data,
                contexts,
            ),
            Dispatch::Ignore => unchanged(s),
        }
    }
}

/// What presentation data values do to the session, one after the other.
pub open spec fn run_pdvs(
    s: SessionView,
    pdvs: Seq<PdvView>,
    contexts: Seq<PresentationContextView>,
) -> Outcome
    decreases pdvs.len(),
{
    if pdvs.len() == 0 {
        unchanged(s)
    } else {
        let before = run_pdvs(s, pdvs.drop_last(), contexts);
        let last = step_pdv(before.state, pdvs.last(), contexts);
        Outcome { state: last.state, actions: before.actions + last.actions }
    }
}

/// What one PDU does to the session. The values of a P-DATA PDU are taken
/// in order; a release request is answered and ends the loop; an abort ends
/// it without an answer; any other PDU is passed over. A session that is
/// not running takes nothing in.
pub open spec fn step_pdu(
    s: SessionView,
    pdu: PduView,
    contexts: Seq<PresentationContextView>,
) -> Outcome {
    if s.phase != Phase::Running {
        unchanged(s)
    } else {
        match pdu {
            PduView::PData { data } => run_pdvs(s, data, contexts),
            PduView::ReleaseRq => Outcome {
                state: SessionView { phase: Phase::Released, ..s },
                actions: seq![ActionView::Send { pdu: PduView::ReleaseRp }],
            },
            PduView::AbortRq => unchanged(SessionView { phase: Phase::Aborted, ..s }),
            PduView::ReleaseRp => unchanged(s),
            PduView::Other => unchanged(s),
        }
    }
}

/// What received PDUs do to the session, one after the other.
pub open spec fn run_pdus(
    s: SessionView,
    pdus: Seq<PduView>,
    contexts: Seq<PresentationContextView>,
) -> Outcome
    decreases pdus.len(),
{
    if pdus.len() == 0 {
        unchanged(s)
    } else {
        let before = run_pdus(s, pdus.drop_last(), contexts);
        let last = step_pdu(before.state, pdus.last(), contexts);
        Outcome { state: last.state, actions: before.actions + last.actions }
    }
}

/// The state after receiving failed: a running session fails, with the
/// peer's orderly disconnection told apart from any other failure.
pub open spec fn after_receive_failure(s: SessionView, orderly: bool) -> SessionView {
    if s.phase != Phase::Running {
        s
    } else if orderly {
        SessionView { phase: Phase::Failed(StoreError::PeerDisconnected), ..s }
    } else {
        SessionView { phase: Phase::Failed(StoreError::TransportFailed), ..s }
    }
}

/// The state after the caller could not perform `action`. A file that was
/// not written and a response that was not sent are fatal; a release
/// response that was not sent changes nothing.
pub open spec fn after_action_failure(s: SessionView, action: ActionView) -> SessionView {
    match action {
        ActionView::Store { .. } => SessionView {
            phase: Phase::Failed(StoreError::WriteFailed),
            ..s
        },
        ActionView::Send { pdu } => if pdu == PduView::ReleaseRp {
            s
        } else {
            SessionView { phase: Phase::Failed(StoreError::SendFailed), ..s }
        },
    }
}

/// What the caller of the loop is told when it has ended: nothing while
/// the session runs; `Ok(true)` after a release, an abort or a failure of
/// the transport; the error after any other failure.
pub open spec fn completion_of(phase: Phase) -> Option<Result<bool, StoreError>> {
    match phase {
        Phase::Running => None,
        Phase::Released => Some(Ok(true)),
        Phase::Aborted => Some(Ok(true)),
        Phase::Failed(e) => if e.is_transport() {
            Some(Ok(true))
        } else {
            Some(Err(e))
        },
    }
}

/// The record of one association: the reassembly buffer, the pending
/// request, and where the loop stands.
#[derive(Clone, Debug, PartialEq, Eq)]
pub struct Session {
    buffer: Vec<u8>,
    pending: PendingRequest,
    phase: Phase,
}

impl View for Session {
    type V = SessionView;

    closed spec fn view(&self) -> SessionView {
        SessionView { buffer: self.buffer@, pending: self.pending@, phase: self.phase }
    }
}

impl Session {
    /// Starts the record of an association that has just been established.
    pub fn new() -> (r: Session)
        ensures
            r@ == initial_session(),
    {
        Session {
            buffer: Vec::with_capacity(1024 * 1024),
            pending: PendingRequest::new(),
            phase: Phase::Running,
        }
    }

    /// Where the loop stands.
    pub fn phase(&self) -> (r: Phase)
        ensures
            r == self@.phase,
    {
        self.phase
    }

    /// The request that the next data unit belongs to.
    pub fn pending(&self) -> (r: &PendingRequest)
        ensures
            r@ == self@.pending,
    {
        &self.pending
    }

    /// The fragments of the data unit in progress, concatenated.
    pub fn buffered(&self) -> (r: &[u8])
        ensures
            r@ == self@.buffer,
    {
        self.buffer.as_slice()
    }

    /// What the caller of the loop is told, once the loop has ended.
    pub fn completion(&self) -> (r: Option<Result<bool, StoreError>>)
        ensures
            r == completion_of(self@.phase),
    {
        match self.phase {
            Phase::Running => None,
            Phase::Released => Some(Ok(true)),
            Phase::Aborted => Some(Ok(true)),
            Phase::Failed(e) => if e.is_transport() {
                Some(Ok(true))
            } else {
                Some(Err(e))
            },
        }
    }

    /// Records that receiving from the peer failed: `orderly` where the
    /// peer closed the connection.
    pub fn receive_failed(&mut self, orderly: bool)
        ensures
            final(self)@ == after_receive_failure(old(self)@, orderly),
    {
        match self.phase {
            Phase::Running => {
                if orderly {
                    self.phase = Phase::Failed(StoreError::PeerDisconnected);
                } else {
                    self.phase = Phase::Failed(StoreError::TransportFailed);
                }
            },
            _ => {},
        }
    }

    /// Records that the caller could not perform `action`.
    pub fn action_failed(&mut self, action: &Action)
        ensures
            final(self)@ == after_action_failure(old(self)@, action@),
    {
        match action {
            Action::Store { .. } => {
                self.phase = Phase::Failed(StoreError::WriteFailed);
            },
            Action::Send { pdu } => match pdu {
                Pdu::ReleaseRp => {},
                _ => {
                    self.phase = Phase::Failed(StoreError::SendFailed);
                },
            },
        }
    }

    /// Takes a complete data unit out of the buffer: decodes it, makes the
    /// file and the response.
    fn finish_data_unit(
        &mut self,
        presentation_context_id: u8,
        contexts: &Vec<PresentationContext>,
    ) -> (actions: Vec<Action>)
        ensures
            complete_data(
                old(self)@,
                presentation_context_id,
                old(self)@.buffer,
                context_views(contexts@),
            ) == (Outcome { state: final(self)@, actions: action_views(actions@) }),
            files_are_framed(action_views(actions@)),
    {
        let mut actions: Vec<Action> = Vec::new();
        let transfer_syntax = match find_transfer_syntax(contexts, presentation_context_id) {
            None => {
                self.phase = Phase::Failed(StoreError::MissingPresentationContext);
                assert(action_views(actions@) =~= Seq::empty());
                return actions;
            },
            Some(transfer_syntax) => transfer_syntax,
        };
        let contents = match file_contents(self.buffer.as_slice(), transfer_syntax.as_str()) {
            Err(e) => {
                self.phase = Phase::Failed(e);
                assert(action_views(actions@) =~= Seq::empty());
                return actions;
            },
            Ok(contents) => contents,
        };
        let file_name = storage_file_name(self.pending.sop_instance_uid.as_str());
        let ghost store = ActionView::Store { file_name: file_name@, contents: contents@ };
        actions.push(Action::Store { file_name, contents });
        match encode_response(&self.pending) {
            Err(e) => {
                self.phase = Phase::Failed(e);
                assert(action_views(actions@) =~= seq![store]);
            },
            Ok(command) => {
                let ghost send = ActionView::Send {
                    pdu: response_pdu(presentation_context_id, command@),
                };
                let mut data: Vec<Pdv> = Vec::with_capacity(1);
                data.push(
                    Pdv {
                        presentation_context_id,
                        kind: PdvKind::Command,
                        is_last: true,
                        data: command,
                    },
                );
                let pdu = Pdu::PData { data };
                assert(pdu@ == send->pdu) by {
                    assert(pdv_views(data@) =~= send->pdu->data);
                }
                actions.push(Action::Send { pdu });
                self.buffer.clear();
                assert(action_views(actions@) =~= seq![store, send]);
            },
        }
        actions
    }

    /// Takes one presentation data value in.
    pub fn handle_pdv(&mut self, pdv: &Pdv, contexts: &Vec<PresentationContext>) -> (actions: Vec<
        Action,
    >)
        ensures
            step_pdv(old(self)@, pdv@, context_views(contexts@)) == (Outcome {
                state: final(self)@,
                actions: action_views(actions@),
            }),
            files_are_framed(action_views(actions@)),
    {
        match self.phase {
            Phase::Running => {},
            _ => {
                let actions: Vec<Action> = Vec::new();
                assert(action_views(actions@) =~= Seq::empty());
                return actions;
            },
        }
        match dispatch(pdv.kind, pdv.is_last) {
            Dispatch::Accumulate => {
                append_bytes(&mut self.buffer, &pdv.data);
                let actions: Vec<Action> = Vec::new();
                assert(action_views(actions@) =~= Seq::empty());
                actions
            },
            Dispatch::CompleteCommand => {
                match decode_command(pdv.data.as_slice()) {
                    Ok(request) => {
                        self.pending = request;
                        self.buffer.clear();
                    },
                    Err(e) => {
                        self.phase = Phase::Failed(e);
                    },
                }
                let actions: Vec<Action> = Vec::new();
                assert(action_views(actions@) =~= Seq::empty());
                actions
            },
            Dispatch::CompleteData => {
                append_bytes(&mut self.buffer, &pdv.data);
                self.finish_data_unit(pdv.presentation_context_id, contexts)
            },
            Dispatch::Ignore => {
                let actions: Vec<Action> = Vec::new();
                assert(action_views(actions@) =~= Seq::empty());
                actions
            },
        }
    }

    /// Takes one received PDU in and says what the caller has to do, in
    /// order, before it receives the next one.
    pub fn handle_pdu(&mut self, pdu: &Pdu, contexts: &Vec<PresentationContext>) -> (actions: Vec<
        Action,
    >)
        ensures
            step_pdu(old(self)@, pdu@, context_views(contexts@)) == (Outcome {
                state: final(self)@,
                actions: action_views(actions@),
            }),
            files_are_framed(action_views(actions@)),
    {
        let mut actions: Vec<Action> = Vec::new();
        assert(action_views(actions@) =~= Seq::empty());
        match self.phase {
            Phase::Running => {},
            _ => {
                return actions;
            },
        }
        match pdu {
            Pdu::PData { data } => {
                let ghost start = self@;
                let ghost views = pdv_views(data@);
                let ghost tables = context_views(contexts@);
                let mut i: usize = 0;
                while i < data.len()
                    invariant
                        0 <= i <= data.len(),
                        views == pdv_views(data@),
                        tables == context_views(contexts@),
                        run_pdvs(start, views.take(i as int), tables) == (Outcome {
                            state: self@,
                            actions: action_views(actions@),
                        }),
                        files_are_framed(action_views(actions@)),
                    decreases data.len() - i,
                {
                    let ghost before = action_views(actions@);
                    let mut more = self.handle_pdv(&data[i], contexts);
                    proof {
                        assert(views.take(i + 1).drop_last() =~= views.take(i as int));
                        assert(views.take(i + 1).last() == data[i as int]@);
                        assert(action_views(actions@ + more@) =~= before + action_views(more@));
                    }
                    actions.append(&mut more);
                    i += 1;
                }
                proof {
                    assert(views.take(i as int) =~= views);
                }
            },
            Pdu::ReleaseRq => {
                self.phase = Phase::Released;
                actions.push(Action::Send { pdu: Pdu::ReleaseRp });
                assert(action_views(actions@) =~= seq![
                    ActionView::Send { pdu: PduView::ReleaseRp },
                ]);
            },
            Pdu::AbortRq => {
                self.phase = Phase::Aborted;
            },
            Pdu::ReleaseRp => {},
            Pdu::Other => {},
        }
        actions
    }
}

/// Appends the bytes of `more` to `buffer`.
fn append_bytes(buffer: &mut Vec<u8>, more: &Vec<u8>)
    ensures
        final(buffer)@ == old(buffer)@ + more@,
{
    buffer.extend_from_slice(more.as_slice());
    assert(buffer@ =~= old(buffer)@ + more@);
}

} // verus!
