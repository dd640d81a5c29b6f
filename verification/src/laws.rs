//! What holds of the message loop, whatever arrives.

use vstd::prelude::*;
use dicom_object::meta::FileMetaTable;
use crate::codec::command_set_of;
use crate::codec::data_set_encoding;
use crate::codec::file_encoding;
use crate::codec::file_meta_table;
use crate::codec::parsed_data_set;
use crate::codec::registered_transfer_syntax;
use crate::codec::DataSet;
use crate::command::decoded_command;
use crate::command::response_elements;
use crate::command::response_encoding;
use crate::command::text_at;
use crate::command::Lookup;
use crate::command::PendingRequestView;
use crate::error::StoreError;
use crate::limits::byte_len;
use crate::limits::IDENTIFIER_LIMIT;
use crate::pdu::negotiated_transfer_syntax;
use crate::pdu::PduView;
use crate::pdu::PdvKind;
use crate::pdu::PdvView;
use crate::pdu::PresentationContextView;
use crate::session::after_action_failure;
use crate::session::after_receive_failure;
use crate::session::completion_of;
use crate::session::dispatch_of;
use crate::session::response_pdu;
use crate::session::run_pdus;
use crate::session::run_pdvs;
use crate::session::step_pdu;
use crate::session::step_pdv;
use crate::session::unchanged;
use crate::session::ActionView;
use crate::session::Dispatch;
use crate::session::Outcome;
use crate::session::Phase;
use crate::session::SessionView;
use crate::store::file_name_of;
use crate::store::strip_trailing_nul;
use crate::uids::IMPLICIT_VR_LITTLE_ENDIAN;
use crate::uids::SOP_CLASS_UID;
use crate::uids::SOP_INSTANCE_UID;

verus! {

/// The payloads of presentation data values, concatenated in order.
pub open spec fn payload(pdvs: Seq<PdvView>) -> Seq<u8>
    decreases pdvs.len(),
{
    if pdvs.len() == 0 {
        Seq::empty()
    } else {
        payload(pdvs.drop_last()) + pdvs.last().data
    }
}

/// Whether the values are the fragments of one data unit: at least one,
/// all of kind data, and the last of them alone marked last.
pub open spec fn is_fragmented_data_unit(pdvs: Seq<PdvView>) -> bool {
    &&& pdvs.len() > 0
    &&& forall|i: int| 0 <= i < pdvs.len() ==> (#[trigger] pdvs[i]).kind == PdvKind::Data
    &&& forall|i: int| 0 <= i < pdvs.len() ==> ((#[trigger] pdvs[i]).is_last <==> i == pdvs.len() - 1)
}

/// The single value that carries the whole of a fragmented data unit, on
/// the presentation context of its last fragment.
pub open spec fn whole_unit(pdvs: Seq<PdvView>) -> PdvView {
    PdvView {
        presentation_context_id: pdvs.last().presentation_context_id,
        kind: PdvKind::Data,
        is_last: true,
        data: payload(pdvs),
    }
}

/// The number of release responses among the actions.
pub open spec fn release_responses(actions: Seq<ActionView>) -> nat
    decreases actions.len(),
{
    if actions.len() == 0 {
        0
    } else if actions.last() == (ActionView::Send { pdu: PduView::ReleaseRp }) {
        release_responses(actions.drop_last()) + 1
    } else {
        release_responses(actions.drop_last())
    }
}

/// A single value does what a step on it does.
pub proof fn lemma_run_single(
    s: SessionView,
    pdv: PdvView,
    contexts: Seq<PresentationContextView>,
)
    ensures
        run_pdvs(s, seq![pdv], contexts) == step_pdv(s, pdv, contexts),
{
    reveal_with_fuel(run_pdvs, 2);
    let pdvs = seq![pdv];
    assert(pdvs.drop_last() =~= Seq::empty());
    assert(pdvs.last() == pdv);
    let step = step_pdv(s, pdv, contexts);
    assert(Seq::<ActionView>::empty() + step.actions =~= step.actions);
}

/// Values taken in one after the other do what the first part does, and
/// then the second part on the state that the first has left.
pub proof fn lemma_run_pdvs_in_two_parts(
    s: SessionView,
    first: Seq<PdvView>,
    second: Seq<PdvView>,
    contexts: Seq<PresentationContextView>,
)
    ensures
        ({
            let a = run_pdvs(s, first, contexts);
            let b = run_pdvs(a.state, second, contexts);
            run_pdvs(s, first + second, contexts) == (Outcome {
                state: b.state,
                actions: a.actions + b.actions,
            })
        }),
    decreases second.len(),
{
    let a = run_pdvs(s, first, contexts);
    if second.len() == 0 {
        assert(first + second =~= first);
        assert(a.actions + Seq::<ActionView>::empty() =~= a.actions);
    } else {
        lemma_run_pdvs_in_two_parts(s, first, second.drop_last(), contexts);
        assert((first + second).drop_last() =~= first + second.drop_last());
        assert((first + second).last() == second.last());
        let b0 = run_pdvs(a.state, second.drop_last(), contexts);
        let last = step_pdv(b0.state, second.last(), contexts);
        assert((a.actions + b0.actions) + last.actions =~= a.actions + (b0.actions
            + last.actions));
    }
}

/// Where one P-DATA PDU ends and the next begins does not matter: the
/// values of one PDU do what the same values do when they arrive in two
/// PDUs, one after the other.
pub proof fn lemma_pdu_boundaries_do_not_matter(
    s: SessionView,
    first: Seq<PdvView>,
    second: Seq<PdvView>,
    contexts: Seq<PresentationContextView>,
)
    ensures
        step_pdu(s, PduView::PData { data: first + second }, contexts) == run_pdus(
            s,
            seq![PduView::PData { data: first }, PduView::PData { data: second }],
            contexts,
        ),
{
    let one = PduView::PData { data: first };
    let two = PduView::PData { data: second };
    let pdus = seq![one, two];
    reveal_with_fuel(run_pdus, 3);
    assert(pdus.drop_last() =~= seq![one]);
    assert(pdus.drop_last().drop_last() =~= Seq::empty());
    let a = step_pdu(s, one, contexts);
    assert(Seq::<ActionView>::empty() + a.actions =~= a.actions);
    if s.phase != Phase::Running {
        assert(Seq::<ActionView>::empty() + Seq::<ActionView>::empty() =~= Seq::<
            ActionView,
        >::empty());
    } else {
        lemma_run_pdvs_in_two_parts(s, first, second, contexts);
        if a.state.phase != Phase::Running {
            lemma_stopped_takes_no_values(a.state, second, contexts);
        }
    }
}

/// PDUs taken in one after the other do what the first part of them does,
/// and then the second part on the state that the first has left.
pub proof fn lemma_run_pdus_in_two_parts(
    s: SessionView,
    first: Seq<PduView>,
    second: Seq<PduView>,
    contexts: Seq<PresentationContextView>,
)
    ensures
        ({
            let a = run_pdus(s, first, contexts);
            let b = run_pdus(a.state, second, contexts);
            run_pdus(s, first + second, contexts) == (Outcome {
                state: b.state,
                actions: a.actions + b.actions,
            })
        }),
    decreases second.len(),
{
    let a = run_pdus(s, first, contexts);
    if second.len() == 0 {
        assert(first + second =~= first);
        assert(a.actions + Seq::<ActionView>::empty() =~= a.actions);
    } else {
        lemma_run_pdus_in_two_parts(s, first, second.drop_last(), contexts);
        assert((first + second).drop_last() =~= first + second.drop_last());
        assert((first + second).last() == second.last());
        let b0 = run_pdus(a.state, second.drop_last(), contexts);
        let last = step_pdu(b0.state, second.last(), contexts);
        assert((a.actions + b0.actions) + last.actions =~= a.actions + (b0.actions
            + last.actions));
    }
}

/// A single PDU does what a step on it does.
pub proof fn lemma_run_single_pdu(
    s: SessionView,
    pdu: PduView,
    contexts: Seq<PresentationContextView>,
)
    ensures
        run_pdus(s, seq![pdu], contexts) == step_pdu(s, pdu, contexts),
{
    reveal_with_fuel(run_pdus, 2);
    let pdus = seq![pdu];
    assert(pdus.drop_last() =~= Seq::empty());
    assert(pdus.last() == pdu);
    let step = step_pdu(s, pdu, contexts);
    assert(Seq::<ActionView>::empty() + step.actions =~= step.actions);
}

/// A P-DATA PDU without any presentation data value, wherever it stands
/// among the PDUs of an association, changes nothing: the same files are
/// written, the same PDUs sent, and the session is left the same as if it
/// had not arrived.
pub proof fn lemma_empty_pdata_anywhere(
    s: SessionView,
    before: Seq<PduView>,
    after: Seq<PduView>,
    contexts: Seq<PresentationContextView>,
)
    ensures
        run_pdus(
            s,
            before + seq![PduView::PData { data: Seq::empty() }] + after,
            contexts,
        ) == run_pdus(s, before + after, contexts),
{
    let empty = PduView::PData { data: Seq::<PdvView>::empty() };
    let a = run_pdus(s, before, contexts);
    lemma_run_pdus_in_two_parts(s, before, seq![empty], contexts);
    lemma_run_single_pdu(a.state, empty, contexts);
    assert(a.actions + Seq::<ActionView>::empty() =~= a.actions);
    lemma_run_pdus_in_two_parts(s, before + seq![empty], after, contexts);
    lemma_run_pdus_in_two_parts(s, before, after, contexts);
}

/// The presentation data values of the parts, in order.
pub open spec fn joined(parts: Seq<Seq<PdvView>>) -> Seq<PdvView>
    decreases parts.len(),
{
    if parts.len() == 0 {
        Seq::empty()
    } else {
        joined(parts.drop_last()) + parts.last()
    }
}

/// One P-DATA PDU for each part, in order.
pub open spec fn pdata_pdus(parts: Seq<Seq<PdvView>>) -> Seq<PduView> {
    Seq::new(parts.len(), |i: int| PduView::PData { data: parts[i] })
}

/// Presentation data values spread over any number of P-DATA PDUs do what
/// the same values do in a single PDU.
pub proof fn lemma_values_spread_over_pdus(
    s: SessionView,
    parts: Seq<Seq<PdvView>>,
    contexts: Seq<PresentationContextView>,
)
    ensures
        run_pdus(s, pdata_pdus(parts), contexts) == step_pdu(
            s,
            PduView::PData { data: joined(parts) },
            contexts,
        ),
    decreases parts.len(),
{
    if parts.len() > 0 {
        let front = parts.drop_last();
        lemma_values_spread_over_pdus(s, front, contexts);
        assert(pdata_pdus(parts).drop_last() =~= pdata_pdus(front));
        assert(pdata_pdus(parts).last() == (PduView::PData { data: parts.last() }));
        if s.phase != Phase::Running {
            assert(Seq::<ActionView>::empty() + Seq::<ActionView>::empty() =~= Seq::<
                ActionView,
            >::empty());
        } else {
            lemma_run_pdvs_in_two_parts(s, joined(front), parts.last(), contexts);
            let a = run_pdvs(s, joined(front), contexts);
            if a.state.phase != Phase::Running {
                lemma_stopped_takes_no_values(a.state, parts.last(), contexts);
            }
        }
    }
}

/// A data unit whose fragments are spread over P-DATA PDUs in any way, one
/// fragment to a PDU or several, does what the same unit does in one
/// fragment marked last.
pub proof fn lemma_fragments_over_pdus_equal_whole_unit(
    s: SessionView,
    parts: Seq<Seq<PdvView>>,
    contexts: Seq<PresentationContextView>,
)
    requires
        is_fragmented_data_unit(joined(parts)),
    ensures
        run_pdus(s, pdata_pdus(parts), contexts) == step_pdu(
            s,
            PduView::PData { data: seq![whole_unit(joined(parts))] },
            contexts,
        ),
{
    lemma_values_spread_over_pdus(s, parts, contexts);
    lemma_fragments_equal_whole_unit(s, joined(parts), contexts);
}

/// A session that is not running takes no presentation data value in.
pub proof fn lemma_stopped_takes_no_values(
    s: SessionView,
    pdvs: Seq<PdvView>,
    contexts: Seq<PresentationContextView>,
)
    requires
        s.phase != Phase::Running,
    ensures
        run_pdvs(s, pdvs, contexts) == unchanged(s),
    decreases pdvs.len(),
{
    if pdvs.len() > 0 {
        lemma_stopped_takes_no_values(s, pdvs.drop_last(), contexts);
        assert(Seq::<ActionView>::empty() + Seq::<ActionView>::empty() =~= Seq::<
            ActionView,
        >::empty());
    }
}

/// Once the loop has left the running phase, nothing that arrives changes
/// the session or asks anything of the caller: there is no way back.
pub proof fn lemma_stopped_stays_stopped(
    s: SessionView,
    pdus: Seq<PduView>,
    contexts: Seq<PresentationContextView>,
)
    requires
        s.phase != Phase::Running,
    ensures
        run_pdus(s, pdus, contexts) == unchanged(s),
    decreases pdus.len(),
{
    if pdus.len() > 0 {
        lemma_stopped_stays_stopped(s, pdus.drop_last(), contexts);
        assert(Seq::<ActionView>::empty() + Seq::<ActionView>::empty() =~= Seq::<
            ActionView,
        >::empty());
    }
}

/// A failure that the caller reports never sets a stopped session running
/// again, and a session that has an answer for its caller keeps one.
pub proof fn lemma_failures_never_resume(s: SessionView, action: ActionView, orderly: bool)
    requires
        s.phase != Phase::Running,
    ensures
        after_action_failure(s, action).phase != Phase::Running,
        after_receive_failure(s, orderly) == s,
        completion_of(s.phase) is Some,
        completion_of(after_action_failure(s, action).phase) is Some,
{
}

/// Fragments that are not the last of a data unit only fill the buffer.
proof fn lemma_fragments_accumulate(
    s: SessionView,
    pdvs: Seq<PdvView>,
    contexts: Seq<PresentationContextView>,
)
    requires
        s.phase == Phase::Running,
        forall|i: int|
            0 <= i < pdvs.len() ==> (#[trigger] pdvs[i]).kind == PdvKind::Data && !pdvs[i].is_last,
    ensures
        run_pdvs(s, pdvs, contexts) == unchanged(
            SessionView { buffer: s.buffer + payload(pdvs), ..s },
        ),
    decreases pdvs.len(),
{
    if pdvs.len() == 0 {
        assert(s.buffer + payload(pdvs) =~= s.buffer);
    } else {
        let front = pdvs.drop_last();
        assert forall|i: int| 0 <= i < front.len() implies (#[trigger] front[i]).kind
            == PdvKind::Data && !front[i].is_last by {
            assert(front[i] == pdvs[i]);
        }
        lemma_fragments_accumulate(s, front, contexts);
        assert(pdvs[pdvs.len() - 1] == pdvs.last());
        assert((s.buffer + payload(front)) + pdvs.last().data =~= s.buffer + payload(pdvs));
        assert(Seq::<ActionView>::empty() + Seq::<ActionView>::empty() =~= Seq::<
            ActionView,
        >::empty());
    }
}

/// A data unit split into fragments, all but the last not marked last, does
/// what the same unit does in one fragment marked last: the same file is
/// to be written, the same response to be sent, and the session is left
/// the same.
pub proof fn lemma_fragments_equal_whole_unit(
    s: SessionView,
    pdvs: Seq<PdvView>,
    contexts: Seq<PresentationContextView>,
)
    requires
        is_fragmented_data_unit(pdvs),
    ensures
        run_pdvs(s, pdvs, contexts) == run_pdvs(s, seq![whole_unit(pdvs)], contexts),
{
    lemma_run_single(s, whole_unit(pdvs), contexts);
    if s.phase != Phase::Running {
        lemma_stopped_takes_no_values(s, pdvs, contexts);
    } else {
        let front = pdvs.drop_last();
        assert forall|i: int| 0 <= i < front.len() implies (#[trigger] front[i]).kind
            == PdvKind::Data && !front[i].is_last by {
            assert(front[i] == pdvs[i]);
        }
        lemma_fragments_accumulate(s, front, contexts);
        let filled = SessionView { buffer: s.buffer + payload(front), ..s };
        let last = pdvs.last();
        assert(pdvs[pdvs.len() - 1] == last);
        assert(dispatch_of(last.kind, last.is_last) == Dispatch::CompleteData);
        assert(filled.buffer + last.data =~= s.buffer + payload(pdvs));
        let step = step_pdv(filled, last, contexts);
        assert(Seq::<ActionView>::empty() + step.actions =~= step.actions);
        assert(step == step_pdv(s, whole_unit(pdvs), contexts));
    }
}

/// The file of a stored object is named after the request, not after the
/// object: whatever data unit follows a command unit whose Affected SOP
/// Instance UID is `request.sop_instance_uid`, if a file is to be written
/// for it, the name of the file is that identifier without the NUL
/// characters at its end, followed by `.dcm`.
pub proof fn lemma_file_named_after_request(
    s: SessionView,
    command: PdvView,
    data: PdvView,
    request: PendingRequestView,
    contexts: Seq<PresentationContextView>,
)
    requires
        s.phase == Phase::Running,
        dispatch_of(command.kind, command.is_last) == Dispatch::CompleteCommand,
        dispatch_of(data.kind, data.is_last) == Dispatch::CompleteData,
        decoded_command(command.data) == Ok::<PendingRequestView, StoreError>(request),
    ensures
        ({
            let actions = run_pdvs(s, seq![command, data], contexts).actions;
            forall|i: int|
                0 <= i < actions.len() ==> match #[trigger] actions[i] {
                    ActionView::Store { file_name, .. } => file_name == strip_trailing_nul(
                        request.sop_instance_uid,
                    ) + ".dcm"@,
                    ActionView::Send { .. } => true,
                }
        }),
{
    lemma_run_single(s, command, contexts);
    lemma_run_single(step_pdv(s, command, contexts).state, data, contexts);
    lemma_run_pdvs_in_two_parts(s, seq![command], seq![data], contexts);
    assert(seq![command] + seq![data] =~= seq![command, data]);
}

/// The file of a stored object holds what the data unit decodes to:
/// whenever a complete data unit leads to a file, the unit decodes in the
/// transfer syntax negotiated for its presentation context, the object
/// has a SOP Class UID and a SOP Instance UID, and the contents of the
/// file are the codec's encoding of that object behind the meta group
/// built from the object's own two identifiers and the negotiated
/// transfer syntax.
pub proof fn lemma_file_holds_the_decoded_object(
    s: SessionView,
    data: PdvView,
    contexts: Seq<PresentationContextView>,
)
    requires
        s.phase == Phase::Running,
        dispatch_of(data.kind, data.is_last) == Dispatch::CompleteData,
        step_pdv(s, data, contexts).actions.len() > 0,
    ensures
        ({
            let unit = s.buffer + data.data;
            let negotiated = negotiated_transfer_syntax(contexts, data.presentation_context_id);
            &&& negotiated is Some
            &&& registered_transfer_syntax(negotiated->0)
            &&& parsed_data_set(unit, negotiated->0) matches Some(obj)
            &&& text_at(obj, SOP_CLASS_UID) matches Lookup::Found(sop_class_uid)
            &&& text_at(obj, SOP_INSTANCE_UID) matches Lookup::Found(sop_instance_uid)
            &&& file_meta_table(sop_class_uid, sop_instance_uid, negotiated->0) matches Some(
                table,
            )
            &&& file_encoding(obj, table) matches Some(contents)
            &&& step_pdv(s, data, contexts).actions[0] == (ActionView::Store {
                file_name: file_name_of(s.pending.sop_instance_uid),
                contents,
            })
        }),
{
}

/// One object from request to release. A command unit that holds a
/// storage request arrives, then a data unit in fragments spread over
/// P-DATA PDUs in any way, then a release request. Where the unit decodes
/// to an object with both identifiers, the codec encodes the file, and the
/// response encodes, the caller is asked for exactly three things in this
/// order: to write one file, named after the request, whose contents are
/// the codec's encoding of the object that the unit decodes to, behind the
/// meta group of that object's own identifiers and the negotiated transfer
/// syntax; to send the response on the presentation context of the data
/// unit; and to send the release response. The loop ends with `Ok(true)`.
pub proof fn lemma_one_object_from_request_to_release(
    s: SessionView,
    command: PdvView,
    parts: Seq<Seq<PdvView>>,
    contexts: Seq<PresentationContextView>,
    request: PendingRequestView,
    transfer_syntax: Seq<char>,
    obj: DataSet,
    table: FileMetaTable,
    contents: Seq<u8>,
    answer: Seq<u8>,
)
    requires
        s.phase == Phase::Running,
        dispatch_of(command.kind, command.is_last) == Dispatch::CompleteCommand,
        decoded_command(command.data) == Ok::<PendingRequestView, StoreError>(request),
        is_fragmented_data_unit(joined(parts)),
        negotiated_transfer_syntax(contexts, joined(parts).last().presentation_context_id)
            == Some(transfer_syntax),
        registered_transfer_syntax(transfer_syntax),
        parsed_data_set(payload(joined(parts)), transfer_syntax) == Some(obj),
        text_at(obj, SOP_CLASS_UID) is Found,
        text_at(obj, SOP_INSTANCE_UID) is Found,
        byte_len(text_at(obj, SOP_CLASS_UID)->Found_0) <= IDENTIFIER_LIMIT,
        byte_len(text_at(obj, SOP_INSTANCE_UID)->Found_0) <= IDENTIFIER_LIMIT,
        byte_len(transfer_syntax) <= IDENTIFIER_LIMIT,
        file_meta_table(
            text_at(obj, SOP_CLASS_UID)->Found_0,
            text_at(obj, SOP_INSTANCE_UID)->Found_0,
            transfer_syntax,
        ) == Some(table),
        file_encoding(obj, table) == Some(contents),
        response_encoding(request) == Some(answer),
    ensures
        run_pdus(
            s,
            seq![PduView::PData { data: seq![command] }] + pdata_pdus(parts) + seq![
                PduView::ReleaseRq,
            ],
            contexts,
        ) == (Outcome {
            state: SessionView {
                buffer: Seq::empty(),
                pending: request,
                phase: Phase::Released,
            },
            actions: seq![
                ActionView::Store {
                    file_name: strip_trailing_nul(request.sop_instance_uid) + ".dcm"@,
                    contents,
                },
                ActionView::Send {
                    pdu: response_pdu(joined(parts).last().presentation_context_id, answer),
                },
                ActionView::Send { pdu: PduView::ReleaseRp },
            ],
        }),
        completion_of(Phase::Released) == Some(Ok::<bool, StoreError>(true)),
{
    let first = seq![PduView::PData { data: seq![command] }];
    let middle = pdata_pdus(parts);
    let last = seq![PduView::ReleaseRq];
    let whole = whole_unit(joined(parts));
    // the command
    lemma_run_single_pdu(s, first[0], contexts);
    lemma_run_single(s, command, contexts);
    let a = run_pdus(s, first, contexts);
    assert(a == step_pdv(s, command, contexts));
    // the data unit
    lemma_fragments_over_pdus_equal_whole_unit(a.state, parts, contexts);
    lemma_run_single(a.state, whole, contexts);
    assert(a.state.buffer + whole.data =~= payload(joined(parts)));
    let b = run_pdus(a.state, middle, contexts);
    assert(b == step_pdv(a.state, whole, contexts));
    // the release
    lemma_run_single_pdu(b.state, PduView::ReleaseRq, contexts);
    let c = run_pdus(b.state, last, contexts);
    lemma_run_pdus_in_two_parts(s, first, middle, contexts);
    lemma_run_pdus_in_two_parts(s, first + middle, last, contexts);
    assert((a.actions + b.actions) + c.actions =~= seq![
        b.actions[0],
        b.actions[1],
        ActionView::Send { pdu: PduView::ReleaseRp },
    ]);
}

/// The response to a stored object answers the pending request: where a
/// complete data unit leads to a response, the response is sent after the
/// file is written, as one presentation data value of kind command, marked
/// last, on the presentation context of the data unit, and it holds the
/// encoding of the response elements made from the request, in implicit VR
/// little endian whatever the transfer syntax of the data unit.
pub proof fn lemma_response_answers_request(
    s: SessionView,
    data: PdvView,
    contexts: Seq<PresentationContextView>,
)
    requires
        s.phase == Phase::Running,
        dispatch_of(data.kind, data.is_last) == Dispatch::CompleteData,
    ensures
        ({
            let out = step_pdv(s, data, contexts);
            let response = response_elements(
                s.pending.message_id,
                s.pending.sop_class_uid,
                s.pending.sop_instance_uid,
            );
            &&& out.actions.len() <= 2
            &&& out.actions.len() >= 1 ==> out.actions[0] is Store
            &&& out.actions.len() == 2 <==> out.state.phase == Phase::Running
            &&& out.actions.len() == 2 ==> data_set_encoding(
                command_set_of(response),
                IMPLICIT_VR_LITTLE_ENDIAN@,
            ) is Some && out.actions[1] == (ActionView::Send {
                pdu: response_pdu(
                    data.presentation_context_id,
                    data_set_encoding(command_set_of(response), IMPLICIT_VR_LITTLE_ENDIAN@)->0,
                ),
            })
            &&& out.state.pending == s.pending
        }),
{
}

/// Between units the buffer is empty: a session that still runs after the
/// last fragment of a unit starts the next unit from nothing. After a
/// command unit the pending request is the one read from it; a data unit
/// leaves the pending request as it was.
pub proof fn lemma_buffer_empty_between_units(
    s: SessionView,
    pdv: PdvView,
    contexts: Seq<PresentationContextView>,
)
    requires
        s.phase == Phase::Running,
        pdv.is_last,
    ensures
        ({
            let out = step_pdv(s, pdv, contexts);
            &&& out.state.phase == Phase::Running ==> out.state.buffer == Seq::<u8>::empty()
            &&& out.state.phase == Phase::Running && pdv.kind == PdvKind::Command
                ==> decoded_command(pdv.data) == Ok::<PendingRequestView, StoreError>(
                out.state.pending,
            )
            &&& pdv.kind == PdvKind::Data ==> out.state.pending == s.pending
        }),
{
}

/// A P-DATA PDU without any presentation data value changes nothing and
/// asks nothing of the caller.
pub proof fn lemma_empty_pdata_is_ignored(s: SessionView, contexts: Seq<PresentationContextView>)
    ensures
        step_pdu(s, PduView::PData { data: Seq::empty() }, contexts) == unchanged(s),
{
}

/// A release request that reaches a running session is answered by exactly
/// one release response, and ends the loop.
pub proof fn lemma_release_is_answered(s: SessionView, contexts: Seq<PresentationContextView>)
    requires
        s.phase == Phase::Running,
    ensures
        ({
            let out = step_pdu(s, PduView::ReleaseRq, contexts);
            &&& out.actions == seq![ActionView::Send { pdu: PduView::ReleaseRp }]
            &&& out.state == (SessionView { phase: Phase::Released, ..s })
            &&& completion_of(out.state.phase) == Some(Ok::<bool, StoreError>(true))
            &&& after_action_failure(out.state, out.actions[0]) == out.state
        }),
{
}

/// An abort that reaches a running session ends the loop, and nothing is
/// sent in reply.
pub proof fn lemma_abort_is_silent(s: SessionView, contexts: Seq<PresentationContextView>)
    requires
        s.phase == Phase::Running,
    ensures
        ({
            let out = step_pdu(s, PduView::AbortRq, contexts);
            &&& out.actions == Seq::<ActionView>::empty()
            &&& out.state == (SessionView { phase: Phase::Aborted, ..s })
            &&& completion_of(out.state.phase) == Some(Ok::<bool, StoreError>(true))
        }),
{
}

/// Whether the action is one that a session asks for: a file to write, a
/// response to send as a single command value marked last, or a release
/// response.
pub open spec fn is_session_action(action: ActionView) -> bool {
    match action {
        ActionView::Store { .. } => true,
        ActionView::Send { pdu } => pdu == PduView::ReleaseRp || exists|id: u8, command: Seq<u8>|
            pdu == #[trigger] response_pdu(id, command),
    }
}

/// A session asks for nothing but files to be written, responses to be
/// sent, and a release response.
pub proof fn lemma_actions_are_session_actions(
    s: SessionView,
    pdus: Seq<PduView>,
    contexts: Seq<PresentationContextView>,
)
    ensures
        forall|i: int|
            0 <= i < run_pdus(s, pdus, contexts).actions.len() ==> is_session_action(
                #[trigger] run_pdus(s, pdus, contexts).actions[i],
            ),
    decreases pdus.len(),
{
    if pdus.len() > 0 {
        lemma_actions_are_session_actions(s, pdus.drop_last(), contexts);
        let before = run_pdus(s, pdus.drop_last(), contexts);
        match pdus.last() {
            PduView::PData { data } => {
                lemma_values_lead_to_session_actions(before.state, data, contexts);
            },
            _ => {},
        }
    }
}

/// Presentation data values lead to nothing but files to be written and
/// responses to be sent.
proof fn lemma_values_lead_to_session_actions(
    s: SessionView,
    pdvs: Seq<PdvView>,
    contexts: Seq<PresentationContextView>,
)
    ensures
        forall|i: int|
            0 <= i < run_pdvs(s, pdvs, contexts).actions.len() ==> is_session_action(
                #[trigger] run_pdvs(s, pdvs, contexts).actions[i],
            ),
    decreases pdvs.len(),
{
    if pdvs.len() > 0 {
        lemma_values_lead_to_session_actions(s, pdvs.drop_last(), contexts);
    }
}

/// The release responses of two runs of actions add up.
proof fn lemma_release_responses_add(a: Seq<ActionView>, b: Seq<ActionView>)
    ensures
        release_responses(a + b) == release_responses(a) + release_responses(b),
    decreases b.len(),
{
    if b.len() == 0 {
        assert(a + b =~= a);
    } else {
        lemma_release_responses_add(a, b.drop_last());
        assert((a + b).drop_last() =~= a + b.drop_last());
        assert((a + b).last() == b.last());
    }
}

/// Presentation data values never lead to a release response, nor to a
/// release or an abort.
proof fn lemma_values_never_release(
    s: SessionView,
    pdvs: Seq<PdvView>,
    contexts: Seq<PresentationContextView>,
)
    ensures
        release_responses(run_pdvs(s, pdvs, contexts).actions) == 0,
        run_pdvs(s, pdvs, contexts).state.phase == s.phase || run_pdvs(
            s,
            pdvs,
            contexts,
        ).state.phase is Failed,
    decreases pdvs.len(),
{
    if pdvs.len() > 0 {
        lemma_values_never_release(s, pdvs.drop_last(), contexts);
        let before = run_pdvs(s, pdvs.drop_last(), contexts);
        let step = step_pdv(before.state, pdvs.last(), contexts);
        lemma_release_responses_add(before.actions, step.actions);
        reveal_with_fuel(release_responses, 3);
    }
}

/// Over the whole of an association, whatever was stored before: the
/// caller is asked for one release response if the loop ended by a release
/// request, and for none in any other case.
pub proof fn lemma_release_answered_once(
    s: SessionView,
    pdus: Seq<PduView>,
    contexts: Seq<PresentationContextView>,
)
    requires
        s.phase == Phase::Running,
    ensures
        release_responses(run_pdus(s, pdus, contexts).actions) == (if run_pdus(
            s,
            pdus,
            contexts,
        ).state.phase == Phase::Released {
            1nat
        } else {
            0nat
        }),
    decreases pdus.len(),
{
    if pdus.len() > 0 {
        lemma_release_answered_once(s, pdus.drop_last(), contexts);
        let before = run_pdus(s, pdus.drop_last(), contexts);
        let step = step_pdu(before.state, pdus.last(), contexts);
        lemma_release_responses_add(before.actions, step.actions);
        reveal_with_fuel(release_responses, 2);
        if before.state.phase == Phase::Running {
            match pdus.last() {
                PduView::PData { data } => {
                    lemma_values_never_release(before.state, data, contexts);
                },
                _ => {},
            }
        }
    }
}

} // verus!
