//! What can end an association early.

use vstd::prelude::*;

verus! {

/// Why an association failed.
///
/// Every failure is fatal to the association that it occurs on; none is
/// retried.
#[derive(Clone, Copy, Debug, PartialEq, Eq, Structural)]
pub enum StoreError {
    /// The bytes of a command unit do not decode.
    MalformedCommand,
    /// The command set has no Command Field.
    MissingCommandField,
    /// The Command Field is not held as an unsigned 16-bit number.
    UnreadableCommandField,
    /// The command set has no Message ID.
    MissingMessageId,
    /// The Message ID does not convert to an unsigned 16-bit number.
    UnreadableMessageId,
    /// The command set has no Affected SOP Class UID.
    MissingAffectedSopClassUid,
    /// The Affected SOP Class UID is not a primitive value.
    UnreadableAffectedSopClassUid,
    /// The command set has no Affected SOP Instance UID.
    MissingAffectedSopInstanceUid,
    /// The Affected SOP Instance UID is not a primitive value.
    UnreadableAffectedSopInstanceUid,
    /// No presentation context was negotiated under the identifier that a
    /// data unit arrived on.
    MissingPresentationContext,
    /// The transfer syntax of the presentation context is not one that the
    /// registry holds.
    UnsupportedTransferSyntax,
    /// The bytes of a data unit do not decode in the negotiated transfer
    /// syntax.
    MalformedDataSet,
    /// The data set has no SOP Class UID.
    MissingSopClassUid,
    /// The SOP Class UID is not a primitive value.
    UnreadableSopClassUid,
    /// The data set has no SOP Instance UID.
    MissingSopInstanceUid,
    /// The SOP Instance UID is not a primitive value.
    UnreadableSopInstanceUid,
    /// The file meta group could not be built.
    FileMetaFailed,
    /// The object could not be encoded as a file.
    FileEncodingFailed,
    /// The file could not be written to storage.
    WriteFailed,
    /// The response could not be encoded.
    ResponseEncodingFailed,
    /// The response could not be sent to the peer.
    SendFailed,
    /// The peer closed the connection.
    PeerDisconnected,
    /// Receiving from the peer failed in any other way.
    TransportFailed,
}

impl StoreError {
    /// Whether the failure lies with the transport: such a failure ends the
    /// association but is no error to the caller.
    pub open spec fn spec_is_transport(self) -> bool {
        self == StoreError::PeerDisconnected || self == StoreError::TransportFailed
    }

    /// Whether the failure lies with the transport.
    #[verifier::when_used_as_spec(spec_is_transport)]
    pub fn is_transport(self) -> (r: bool)
        ensures
            r == self.spec_is_transport(),
    {
        match self {
            StoreError::PeerDisconnected => true,
            StoreError::TransportFailed => true,
            _ => false,
        }
    }

    /// What the failure is called in a report.
    pub open spec fn message_of(self) -> Seq<char> {
        match self {
            StoreError::MalformedCommand => "failed to read incoming DICOM command"@,
            StoreError::MissingCommandField => "Missing Command Field"@,
            StoreError::UnreadableCommandField => "Command Field is not an integer"@,
            StoreError::MissingMessageId => "Missing Message ID"@,
            StoreError::UnreadableMessageId => "Message ID is not an integer"@,
            StoreError::MissingAffectedSopClassUid => "missing Affected SOP Class UID"@,
            StoreError::UnreadableAffectedSopClassUid => "could not retrieve Affected SOP Class UID"@,
            StoreError::MissingAffectedSopInstanceUid => "missing Affected SOP Instance UID"@,
            StoreError::UnreadableAffectedSopInstanceUid => "could not retrieve Affected SOP Instance UID"@,
            StoreError::MissingPresentationContext => "missing presentation context"@,
            StoreError::UnsupportedTransferSyntax => "unsupported transfer syntax"@,
            StoreError::MalformedDataSet => "failed to read DICOM data object"@,
            StoreError::MissingSopClassUid => "missing SOP Class UID"@,
            StoreError::UnreadableSopClassUid => "could not retrieve SOP Class UID"@,
            StoreError::MissingSopInstanceUid => "missing SOP Instance UID"@,
            StoreError::UnreadableSopInstanceUid => "could not retrieve SOP Instance UID"@,
            StoreError::FileMetaFailed => "failed to build DICOM meta file information"@,
            StoreError::FileEncodingFailed => "could not save DICOM object to file"@,
            StoreError::WriteFailed => "could not save DICOM object to file"@,
            StoreError::ResponseEncodingFailed => "could not write response object"@,
            StoreError::SendFailed => "failed to send response object to SCU"@,
            StoreError::PeerDisconnected => "connection closed by peer"@,
            StoreError::TransportFailed => "failed to receive from SCU"@,
        }
    }

    /// Names the failure for a report.
    pub fn message(self) -> (r: &'static str)
        ensures
            r@ == self.message_of(),
    {
        match self {
            StoreError::MalformedCommand => "failed to read incoming DICOM command",
            StoreError::MissingCommandField => "Missing Command Field",
            StoreError::UnreadableCommandField => "Command Field is not an integer",
            StoreError::MissingMessageId => "Missing Message ID",
            StoreError::UnreadableMessageId => "Message ID is not an integer",
            StoreError::MissingAffectedSopClassUid => "missing Affected SOP Class UID",
            StoreError::UnreadableAffectedSopClassUid => "could not retrieve Affected SOP Class UID",
            StoreError::MissingAffectedSopInstanceUid => "missing Affected SOP Instance UID",
            StoreError::UnreadableAffectedSopInstanceUid => "could not retrieve Affected SOP Instance UID",
            StoreError::MissingPresentationContext => "missing presentation context",
            StoreError::UnsupportedTransferSyntax => "unsupported transfer syntax",
            StoreError::MalformedDataSet => "failed to read DICOM data object",
            StoreError::MissingSopClassUid => "missing SOP Class UID",
            StoreError::UnreadableSopClassUid => "could not retrieve SOP Class UID",
            StoreError::MissingSopInstanceUid => "missing SOP Instance UID",
            StoreError::UnreadableSopInstanceUid => "could not retrieve SOP Instance UID",
            StoreError::FileMetaFailed => "failed to build DICOM meta file information",
            StoreError::FileEncodingFailed => "could not save DICOM object to file",
            StoreError::WriteFailed => "could not save DICOM object to file",
            StoreError::ResponseEncodingFailed => "could not write response object",
            StoreError::SendFailed => "failed to send response object to SCU",
            StoreError::PeerDisconnected => "connection closed by peer",
            StoreError::TransportFailed => "failed to receive from SCU",
        }
    }
}

} // verus!
