use store_scp::error::StoreError;
use store_scp::pdu::Pdu;
use store_scp::pdu::Pdv;
use store_scp::pdu::PdvKind;
use store_scp::pdu::PresentationContext;
use store_scp::session::dispatch;
use store_scp::session::Action;
use store_scp::session::Dispatch;
use store_scp::session::Phase;
use store_scp::session::Session;

fn flow_contexts() -> Vec<PresentationContext> {
    vec![PresentationContext { id: 1, transfer_syntax: "1.2.840.10008.1.2".to_string() }]
}

fn release_response() -> Action {
    Action::Send { pdu: Pdu::ReleaseRp }
}

#[test]
fn new_session_is_running_and_empty() {
    let session = Session::new();
    assert_eq!(session.phase(), Phase::Running);
    assert!(session.buffered().is_empty());
    assert_eq!(session.pending().message_id, 1);
    assert_eq!(session.pending().sop_class_uid, "");
    assert_eq!(session.pending().sop_instance_uid, "");
    assert_eq!(session.completion(), None);
}

#[test]
fn dispatch_is_a_four_way_decision() {
    assert_eq!(dispatch(PdvKind::Data, false), Dispatch::Accumulate);
    assert_eq!(dispatch(PdvKind::Data, true), Dispatch::CompleteData);
    assert_eq!(dispatch(PdvKind::Command, true), Dispatch::CompleteCommand);
    assert_eq!(dispatch(PdvKind::Command, false), Dispatch::Ignore);
}

#[test]
fn empty_pdata_changes_nothing() {
    let contexts = flow_contexts();
    let mut session = Session::new();
    let fragment =
        Pdv { presentation_context_id: 1, kind: PdvKind::Data, is_last: false, data: vec![9, 8] };
    session.handle_pdu(&Pdu::PData { data: vec![fragment] }, &contexts);
    let actions = session.handle_pdu(&Pdu::PData { data: Vec::new() }, &contexts);
    assert!(actions.is_empty());
    assert_eq!(session.phase(), Phase::Running);
    assert_eq!(session.buffered(), &[9_u8, 8][..]);
    assert_eq!(session.pending().message_id, 1);
    assert_eq!(session.completion(), None);
}

#[test]
fn release_request_is_answered_once() {
    let contexts = flow_contexts();
    let mut session = Session::new();
    let actions = session.handle_pdu(&Pdu::ReleaseRq, &contexts);
    assert_eq!(actions, vec![release_response()]);
    assert_eq!(session.phase(), Phase::Released);
    assert_eq!(session.completion(), Some(Ok(true)));
    // nothing more is answered once the loop has ended
    assert!(session.handle_pdu(&Pdu::ReleaseRq, &contexts).is_empty());
    assert_eq!(session.phase(), Phase::Released);
}

#[test]
fn abort_is_not_answered() {
    let contexts = flow_contexts();
    let mut session = Session::new();
    let actions = session.handle_pdu(&Pdu::AbortRq, &contexts);
    assert!(actions.is_empty());
    assert_eq!(session.phase(), Phase::Aborted);
    assert_eq!(session.completion(), Some(Ok(true)));
}

#[test]
fn other_pdus_are_passed_over() {
    let contexts = flow_contexts();
    let mut session = Session::new();
    assert!(session.handle_pdu(&Pdu::Other, &contexts).is_empty());
    assert!(session.handle_pdu(&Pdu::ReleaseRp, &contexts).is_empty());
    assert_eq!(session.phase(), Phase::Running);
    assert_eq!(session.completion(), None);
}

#[test]
fn stopped_session_takes_nothing_in() {
    let contexts = flow_contexts();
    for stop in [Pdu::ReleaseRq, Pdu::AbortRq] {
        let mut session = Session::new();
        session.handle_pdu(&stop, &contexts);
        let phase = session.phase();
        let fragment =
            Pdv { presentation_context_id: 1, kind: PdvKind::Data, is_last: false, data: vec![1] };
        assert!(session.handle_pdu(&Pdu::PData { data: vec![fragment.clone()] }, &contexts).is_empty());
        assert!(session.handle_pdv(&fragment, &contexts).is_empty());
        assert!(session.handle_pdu(&Pdu::AbortRq, &contexts).is_empty());
        assert!(session.handle_pdu(&Pdu::ReleaseRq, &contexts).is_empty());
        session.receive_failed(true);
        assert_eq!(session.phase(), phase);
        assert!(session.buffered().is_empty());
    }
}

#[test]
fn receive_failure_ends_the_loop_without_an_error() {
    let mut session = Session::new();
    session.receive_failed(true);
    assert_eq!(session.phase(), Phase::Failed(StoreError::PeerDisconnected));
    assert_eq!(session.completion(), Some(Ok(true)));

    let mut session = Session::new();
    session.receive_failed(false);
    assert_eq!(session.phase(), Phase::Failed(StoreError::TransportFailed));
    assert_eq!(session.completion(), Some(Ok(true)));
    assert!(session.handle_pdu(&Pdu::ReleaseRq, &flow_contexts()).is_empty());
}

#[test]
fn failed_release_response_is_not_fatal() {
    let contexts = flow_contexts();
    let mut session = Session::new();
    let actions = session.handle_pdu(&Pdu::ReleaseRq, &contexts);
    session.action_failed(&actions[0]);
    assert_eq!(session.phase(), Phase::Released);
    assert_eq!(session.completion(), Some(Ok(true)));
}

#[test]
fn failed_write_and_failed_send_are_fatal() {
    let mut session = Session::new();
    session.action_failed(&Action::Store { file_name: "1.dcm".to_string(), contents: vec![0] });
    assert_eq!(session.phase(), Phase::Failed(StoreError::WriteFailed));
    assert_eq!(session.completion(), Some(Err(StoreError::WriteFailed)));

    let mut session = Session::new();
    let answer = Pdv { presentation_context_id: 1, kind: PdvKind::Command, is_last: true, data: vec![] };
    session.action_failed(&Action::Send { pdu: Pdu::PData { data: vec![answer] } });
    assert_eq!(session.phase(), Phase::Failed(StoreError::SendFailed));
    assert_eq!(session.completion(), Some(Err(StoreError::SendFailed)));
}

#[test]
fn malformed_command_fails_the_association() {
    let contexts = flow_contexts();
    let mut session = Session::new();
    let command = Pdv {
        presentation_context_id: 1,
        kind: PdvKind::Command,
        is_last: true,
        data: vec![0x00, 0x00, 0x00, 0x01, 0xff],
    };
    let actions = session.handle_pdu(&Pdu::PData { data: vec![command] }, &contexts);
    assert!(actions.is_empty());
    assert_eq!(session.phase(), Phase::Failed(StoreError::MalformedCommand));
    assert_eq!(session.completion(), Some(Err(StoreError::MalformedCommand)));
}

#[test]
fn unknown_presentation_context_fails_the_association() {
    let contexts = flow_contexts();
    let mut session = Session::new();
    let data = Pdv { presentation_context_id: 5, kind: PdvKind::Data, is_last: true, data: vec![] };
    let later =
        Pdv { presentation_context_id: 1, kind: PdvKind::Data, is_last: false, data: vec![1] };
    let actions = session.handle_pdu(&Pdu::PData { data: vec![data, later] }, &contexts);
    assert!(actions.is_empty());
    assert_eq!(session.phase(), Phase::Failed(StoreError::MissingPresentationContext));
    // what came after the failure in the same PDU was not taken in
    assert!(session.buffered().is_empty());
}

#[test]
fn unregistered_transfer_syntax_fails_the_association() {
    let contexts = vec![PresentationContext { id: 1, transfer_syntax: "1.2.3.4".to_string() }];
    let mut session = Session::new();
    let data = Pdv { presentation_context_id: 1, kind: PdvKind::Data, is_last: true, data: vec![] };
    let actions = session.handle_pdu(&Pdu::PData { data: vec![data] }, &contexts);
    assert!(actions.is_empty());
    assert_eq!(session.phase(), Phase::Failed(StoreError::UnsupportedTransferSyntax));
}

#[test]
fn malformed_data_fails_the_association_and_keeps_the_unit() {
    let contexts = flow_contexts();
    let mut session = Session::new();
    // a SOP Class UID of four bytes, of which one arrives
    let first = Pdv {
        presentation_context_id: 1,
        kind: PdvKind::Data,
        is_last: false,
        data: vec![8, 0, 0x16, 0, 4, 0],
    };
    let last = Pdv {
        presentation_context_id: 1,
        kind: PdvKind::Data,
        is_last: true,
        data: vec![0, 0, 0x31],
    };
    let actions = session.handle_pdu(&Pdu::PData { data: vec![first, last] }, &contexts);
    assert!(actions.is_empty());
    assert_eq!(session.phase(), Phase::Failed(StoreError::MalformedDataSet));
    assert_eq!(session.buffered(), &[8_u8, 0, 0x16, 0, 4, 0, 0, 0, 0x31][..]);
}

#[test]
fn every_failure_has_a_message() {
    assert_eq!(StoreError::MalformedCommand.message(), "failed to read incoming DICOM command");
    assert_eq!(StoreError::MissingCommandField.message(), "Missing Command Field");
    assert_eq!(StoreError::UnreadableCommandField.message(), "Command Field is not an integer");
    assert_eq!(StoreError::MissingMessageId.message(), "Missing Message ID");
    assert_eq!(StoreError::UnreadableMessageId.message(), "Message ID is not an integer");
    assert_eq!(StoreError::MissingPresentationContext.message(), "missing presentation context");
    assert_eq!(StoreError::MalformedDataSet.message(), "failed to read DICOM data object");
    assert_eq!(StoreError::MissingSopClassUid.message(), "missing SOP Class UID");
    assert_eq!(StoreError::MissingSopInstanceUid.message(), "missing SOP Instance UID");
    assert_eq!(StoreError::WriteFailed.message(), "could not save DICOM object to file");
    assert_eq!(StoreError::SendFailed.message(), "failed to send response object to SCU");
    assert!(StoreError::PeerDisconnected.is_transport());
    assert!(StoreError::TransportFailed.is_transport());
    assert!(!StoreError::SendFailed.is_transport());
    assert!(!StoreError::MalformedCommand.is_transport());
}

#[test]
fn sessions_can_be_compared_and_copied() {
    let contexts = flow_contexts();
    let mut session = Session::new();
    let fragment =
        Pdv { presentation_context_id: 1, kind: PdvKind::Data, is_last: false, data: vec![7] };
    session.handle_pdv(&fragment, &contexts);
    let copy = session.clone();
    assert_eq!(copy, session);
    session.handle_pdu(&Pdu::Other, &contexts);
    assert_eq!(copy, session);
    session.handle_pdv(&fragment, &contexts);
    assert_ne!(copy, session);
    assert_eq!(session.buffered(), &[7_u8, 7][..]);
}
