//! Command sets: the storage request that is read from one, and the
//! response that answers it.

use vstd::prelude::*;
use crate::codec::build_command_set;
use crate::codec::command_set_of;
use crate::codec::element_integer;
use crate::codec::element_of;
use crate::codec::element_text;
use crate::codec::element_uint16;
use crate::codec::encode_command_set;
use crate::codec::find_element;
use crate::codec::integer_of;
use crate::codec::data_set_encoding;
use crate::codec::parsed_data_set;
use crate::codec::read_command_set;
use crate::codec::text_of;
use crate::codec::uint16_of;
use crate::codec::DataSet;
use crate::error::StoreError;
use crate::limits::byte_len;
use crate::limits::text_byte_len;
use crate::limits::IDENTIFIER_LIMIT;
use crate::uids::AFFECTED_SOP_CLASS_UID;
use crate::uids::AFFECTED_SOP_INSTANCE_UID;
use crate::uids::COMMAND_DATA_SET_TYPE;
use crate::uids::COMMAND_FIELD;
use crate::uids::C_STORE_RSP;
use crate::uids::IMPLICIT_VR_LITTLE_ENDIAN;
use crate::uids::MESSAGE_ID;
use crate::uids::MESSAGE_ID_BEING_RESPONDED_TO;
use crate::uids::NO_DATA_SET;
use crate::uids::STATUS;
use crate::uids::STATUS_SUCCESS;

verus! {

/// What looking an element up in a decoded set, and reading its value in
/// one form, came to.
#[derive(Clone, Debug, PartialEq, Eq)]
pub enum Lookup<T> {
    /// The set holds no element under the tag.
    Missing,
    /// The set holds the element, but its value cannot be read in the form
    /// that was asked for.
    Unreadable,
    /// The value.
    Found(T),
}

/// The mathematical value of a text lookup.
pub open spec fn text_lookup_view(l: Lookup<String>) -> Lookup<Seq<char>> {
    match l {
        Lookup::Missing => Lookup::Missing,
        Lookup::Unreadable => Lookup::Unreadable,
        Lookup::Found(s) => Lookup::Found(s@),
    }
}

/// The first value of the element of `obj` under `tag`, read as an element
/// that holds unsigned 16-bit numbers.
pub open spec fn uint16_at(obj: DataSet, tag: (u16, u16)) -> Lookup<u16> {
    match element_of(obj, tag.0, tag.1) {
        None => Lookup::Missing,
        Some(e) => match uint16_of(e) {
            None => Lookup::Unreadable,
            Some(v) => Lookup::Found(v),
        },
    }
}

/// The value of the element of `obj` under `tag`, converted to an unsigned
/// 16-bit number.
pub open spec fn integer_at(obj: DataSet, tag: (u16, u16)) -> Lookup<u16> {
    match element_of(obj, tag.0, tag.1) {
        None => Lookup::Missing,
        Some(e) => match integer_of(e) {
            None => Lookup::Unreadable,
            Some(v) => Lookup::Found(v),
        },
    }
}

/// The value of the element of `obj` under `tag`, as one string.
pub open spec fn text_at(obj: DataSet, tag: (u16, u16)) -> Lookup<Seq<char>> {
    match element_of(obj, tag.0, tag.1) {
        None => Lookup::Missing,
        Some(e) => match text_of(e) {
            None => Lookup::Unreadable,
            Some(s) => Lookup::Found(s),
        },
    }
}

/// Reads the element under `tag` as an unsigned 16-bit number, without
/// conversion.
pub fn lookup_uint16(obj: &DataSet, tag: (u16, u16)) -> (r: Lookup<u16>)
    ensures
        r == uint16_at(*obj, tag),
{
    match find_element(obj, tag.0, tag.1) {
        None => Lookup::Missing,
        Some(e) => match element_uint16(e) {
            None => Lookup::Unreadable,
            Some(v) => Lookup::Found(v),
        },
    }
}

/// Reads the element under `tag` as an integer that fits 16 bits.
pub fn lookup_integer(obj: &DataSet, tag: (u16, u16)) -> (r: Lookup<u16>)
    ensures
        r == integer_at(*obj, tag),
{
    match find_element(obj, tag.0, tag.1) {
        None => Lookup::Missing,
        Some(e) => match element_integer(e) {
            None => Lookup::Unreadable,
            Some(v) => Lookup::Found(v),
        },
    }
}

/// Reads the element under `tag` as a string.
pub fn lookup_text(obj: &DataSet, tag: (u16, u16)) -> (r: Lookup<String>)
    ensures
        text_lookup_view(r) == text_at(*obj, tag),
{
    match find_element(obj, tag.0, tag.1) {
        None => Lookup::Missing,
        Some(e) => match element_text(e) {
            None => Lookup::Unreadable,
            Some(s) => Lookup::Found(s),
        },
    }
}

/// The four elements of a command set that a storage request is read from.
#[derive(Clone, Debug, PartialEq, Eq)]
pub struct CommandFields {
    /// Command Field, as held.
    pub command_field: Lookup<u16>,
    /// Message ID, converted to a number.
    pub message_id: Lookup<u16>,
    /// Affected SOP Class UID.
    pub affected_sop_class_uid: Lookup<String>,
    /// Affected SOP Instance UID.
    pub affected_sop_instance_uid: Lookup<String>,
}

/// The mathematical value of [`CommandFields`].
#[verifier::ext_equal]
pub struct CommandFieldsView {
    pub command_field: Lookup<u16>,
    pub message_id: Lookup<u16>,
    pub affected_sop_class_uid: Lookup<Seq<char>>,
    pub affected_sop_instance_uid: Lookup<Seq<char>>,
}

impl View for CommandFields {
    type V = CommandFieldsView;

    open spec fn view(&self) -> CommandFieldsView {
        CommandFieldsView {
            command_field: self.command_field,
            message_id: self.message_id,
            affected_sop_class_uid: text_lookup_view(self.affected_sop_class_uid),
            affected_sop_instance_uid: text_lookup_view(self.affected_sop_instance_uid),
        }
    }
}

/// The four elements as the decoded command set `obj` holds them.
pub open spec fn command_fields_of(obj: DataSet) -> CommandFieldsView {
    CommandFieldsView {
        command_field: uint16_at(obj, COMMAND_FIELD),
        message_id: integer_at(obj, MESSAGE_ID),
        affected_sop_class_uid: text_at(obj, AFFECTED_SOP_CLASS_UID),
        affected_sop_instance_uid: text_at(obj, AFFECTED_SOP_INSTANCE_UID),
    }
}

/// Looks the four elements up in a decoded command set.
pub fn read_command_fields(obj: &DataSet) -> (r: CommandFields)
    ensures
        r@ == command_fields_of(*obj),
{
    CommandFields {
        command_field: lookup_uint16(obj, COMMAND_FIELD),
        message_id: lookup_integer(obj, MESSAGE_ID),
        affected_sop_class_uid: lookup_text(obj, AFFECTED_SOP_CLASS_UID),
        affected_sop_instance_uid: lookup_text(obj, AFFECTED_SOP_INSTANCE_UID),
    }
}

/// The storage request that is waiting for its data set: what the response
/// has to echo, and what the file is named after.
#[derive(Clone, Debug, PartialEq, Eq)]
pub struct PendingRequest {
    /// The Message ID of the request.
    pub message_id: u16,
    /// The Affected SOP Class UID of the request.
    pub sop_class_uid: String,
    /// The Affected SOP Instance UID of the request.
    pub sop_instance_uid: String,
}

/// The mathematical value of a [`PendingRequest`].
#[verifier::ext_equal]
pub struct PendingRequestView {
    pub message_id: u16,
    pub sop_class_uid: Seq<char>,
    pub sop_instance_uid: Seq<char>,
}

impl View for PendingRequest {
    type V = PendingRequestView;

    open spec fn view(&self) -> PendingRequestView {
        PendingRequestView {
            message_id: self.message_id,
            sop_class_uid: self.sop_class_uid@,
            sop_instance_uid: self.sop_instance_uid@,
        }
    }
}

/// The request that the four elements make, or the first of them that is
/// wanting: Command Field, Message ID, Affected SOP Class UID, Affected SOP
/// Instance UID, in this order. The Command Field has to be there and to be
/// a number; which number is not looked at.
pub open spec fn request_of(fields: CommandFieldsView) -> Result<PendingRequestView, StoreError> {
    match fields.command_field {
        Lookup::Missing => Err(StoreError::MissingCommandField),
        Lookup::Unreadable => Err(StoreError::UnreadableCommandField),
        Lookup::Found(_) => match fields.message_id {
            Lookup::Missing => Err(StoreError::MissingMessageId),
            Lookup::Unreadable => Err(StoreError::UnreadableMessageId),
            Lookup::Found(message_id) => match fields.affected_sop_class_uid {
                Lookup::Missing => Err(StoreError::MissingAffectedSopClassUid),
                Lookup::Unreadable => Err(StoreError::UnreadableAffectedSopClassUid),
                Lookup::Found(sop_class_uid) => match fields.affected_sop_instance_uid {
                    Lookup::Missing => Err(StoreError::MissingAffectedSopInstanceUid),
                    Lookup::Unreadable => Err(StoreError::UnreadableAffectedSopInstanceUid),
                    Lookup::Found(sop_instance_uid) => Ok(
                        PendingRequestView { message_id, sop_class_uid, sop_instance_uid },
                    ),
                },
            },
        },
    }
}

/// The request that the bytes of a complete command unit hold. A command
/// set is in implicit VR little endian, whatever was negotiated for data
/// sets.
pub open spec fn decoded_command(bytes: Seq<u8>) -> Result<PendingRequestView, StoreError> {
    match parsed_data_set(bytes, IMPLICIT_VR_LITTLE_ENDIAN@) {
        None => Err(StoreError::MalformedCommand),
        Some(obj) => request_of(command_fields_of(obj)),
    }
}

impl PendingRequest {
    /// The request that is pending before any command has arrived: message 1
    /// with empty identifiers.
    pub open spec fn initial() -> PendingRequestView {
        PendingRequestView { message_id: 1, sop_class_uid: Seq::empty(), sop_instance_uid: Seq::empty() }
    }

    /// Makes the request that is pending before any command has arrived.
    pub fn new() -> (r: PendingRequest)
        ensures
            r@ == PendingRequest::initial(),
    {
        PendingRequest { message_id: 1, sop_class_uid: String::new(), sop_instance_uid: String::new() }
    }

    /// Makes the request from the four elements of a command set, or says
    /// which of them is wanting.
    pub fn from_fields(fields: CommandFields) -> (r: Result<PendingRequest, StoreError>)
        ensures
            match r {
                Ok(request) => request_of(fields@) == Ok::<PendingRequestView, StoreError>(request@),
                Err(e) => request_of(fields@) == Err::<PendingRequestView, StoreError>(e),
            },
    {
        let CommandFields {
            command_field,
            message_id,
            affected_sop_class_uid,
            affected_sop_instance_uid,
        } = fields;
        match command_field {
            Lookup::Missing => { return Err(StoreError::MissingCommandField); },
            Lookup::Unreadable => { return Err(StoreError::UnreadableCommandField); },
            Lookup::Found(_) => {},
        }
        let message_id: u16 = match message_id {
            Lookup::Missing => { return Err(StoreError::MissingMessageId); },
            Lookup::Unreadable => { return Err(StoreError::UnreadableMessageId); },
            Lookup::Found(v) => v,
        };
        let sop_class_uid = match affected_sop_class_uid {
            Lookup::Missing => { return Err(StoreError::MissingAffectedSopClassUid); },
            Lookup::Unreadable => { return Err(StoreError::UnreadableAffectedSopClassUid); },
            Lookup::Found(s) => s,
        };
        let sop_instance_uid = match affected_sop_instance_uid {
            Lookup::Missing => { return Err(StoreError::MissingAffectedSopInstanceUid); },
            Lookup::Unreadable => { return Err(StoreError::UnreadableAffectedSopInstanceUid); },
            Lookup::Found(s) => s,
        };
        Ok(PendingRequest { message_id, sop_class_uid, sop_instance_uid })
    }
}

/// Decodes a complete command unit, always in implicit VR little endian,
/// and reads the storage request from it.
pub fn decode_command(bytes: &[u8]) -> (r: Result<PendingRequest, StoreError>)
    ensures
        match r {
            Ok(request) => decoded_command(bytes@) == Ok::<PendingRequestView, StoreError>(
                request@,
            ),
            Err(e) => decoded_command(bytes@) == Err::<PendingRequestView, StoreError>(e),
        },
{
    match read_command_set(bytes) {
        None => Err(StoreError::MalformedCommand),
        Some(obj) => PendingRequest::from_fields(read_command_fields(&obj)),
    }
}

/// The value of an element of a command set that this service builds.
#[derive(Clone, Debug, PartialEq, Eq)]
pub enum CommandValue {
    /// A unique identifier, of value representation UI.
    Uid(String),
    /// One unsigned 16-bit number, of value representation US.
    Unsigned(u16),
}

/// The mathematical value of a [`CommandValue`].
#[verifier::ext_equal]
pub enum CommandValueView {
    Uid(Seq<char>),
    Unsigned(u16),
}

/// An element of a command set that this service builds.
#[derive(Clone, Debug, PartialEq, Eq)]
pub struct CommandElement {
    /// The group number of the tag.
    pub group: u16,
    /// The element number of the tag.
    pub element: u16,
    /// The value.
    pub value: CommandValue,
}

/// The mathematical value of a [`CommandElement`].
#[verifier::ext_equal]
pub struct CommandElementView {
    pub tag: (u16, u16),
    pub value: CommandValueView,
}

impl View for CommandValue {
    type V = CommandValueView;

    open spec fn view(&self) -> CommandValueView {
        match self {
            CommandValue::Uid(s) => CommandValueView::Uid(s@),
            CommandValue::Unsigned(v) => CommandValueView::Unsigned(*v),
        }
    }
}

impl View for CommandElement {
    type V = CommandElementView;

    open spec fn view(&self) -> CommandElementView {
        CommandElementView { tag: (self.group, self.element), value: self.value@ }
    }
}

impl CommandElement {
    /// The number of bytes that the value takes before padding.
    pub open spec fn value_byte_len(self) -> nat {
        match self.value {
            CommandValue::Uid(s) => byte_len(s@),
            CommandValue::Unsigned(_) => 2,
        }
    }
}

/// The values of a vector of command elements, in order.
pub open spec fn element_views(elements: Seq<CommandElement>) -> Seq<CommandElementView> {
    elements.map_values(|e: CommandElement| e@)
}

/// The elements of the response to a storage request: the Affected SOP
/// Class UID and Affected SOP Instance UID of the request, its Message ID
/// as Message ID Being Responded To, and the three fixed codes of a
/// successful C-STORE response without data set.
pub open spec fn response_elements(
    message_id: u16,
    sop_class_uid: Seq<char>,
    sop_instance_uid: Seq<char>,
) -> Seq<CommandElementView> {
    seq![
        CommandElementView {
            tag: AFFECTED_SOP_CLASS_UID,
            value: CommandValueView::Uid(sop_class_uid),
        },
        CommandElementView { tag: COMMAND_FIELD, value: CommandValueView::Unsigned(C_STORE_RSP) },
        CommandElementView {
            tag: MESSAGE_ID_BEING_RESPONDED_TO,
            value: CommandValueView::Unsigned(message_id),
        },
        CommandElementView {
            tag: COMMAND_DATA_SET_TYPE,
            value: CommandValueView::Unsigned(NO_DATA_SET),
        },
        CommandElementView { tag: STATUS, value: CommandValueView::Unsigned(STATUS_SUCCESS) },
        CommandElementView {
            tag: AFFECTED_SOP_INSTANCE_UID,
            value: CommandValueView::Uid(sop_instance_uid),
        },
    ]
}

/// Builds the elements of the C-STORE response to the request with the
/// given Message ID and identifiers.
pub fn create_cstore_response(message_id: u16, sop_class_uid: &str, sop_instance_uid: &str) -> (r:
    Vec<CommandElement>)
    ensures
        element_views(r@) == response_elements(message_id, sop_class_uid@, sop_instance_uid@),
        r@.len() == 6,
        r@[0].value_byte_len() == byte_len(sop_class_uid@),
        r@[5].value_byte_len() == byte_len(sop_instance_uid@),
        forall|i: int| 1 <= i < 5 ==> (#[trigger] r@[i]).value_byte_len() == 2,
{
    let mut r: Vec<CommandElement> = Vec::with_capacity(6);
    r.push(
        CommandElement {
            group: AFFECTED_SOP_CLASS_UID.0,
            element: AFFECTED_SOP_CLASS_UID.1,
            value: CommandValue::Uid(sop_class_uid.to_owned()),
        },
    );
    r.push(
        CommandElement {
            group: COMMAND_FIELD.0,
            element: COMMAND_FIELD.1,
            value: CommandValue::Unsigned(C_STORE_RSP),
        },
    );
    r.push(
        CommandElement {
            group: MESSAGE_ID_BEING_RESPONDED_TO.0,
            element: MESSAGE_ID_BEING_RESPONDED_TO.1,
            value: CommandValue::Unsigned(message_id),
        },
    );
    r.push(
        CommandElement {
            group: COMMAND_DATA_SET_TYPE.0,
            element: COMMAND_DATA_SET_TYPE.1,
            value: CommandValue::Unsigned(NO_DATA_SET),
        },
    );
    r.push(
        CommandElement {
            group: STATUS.0,
            element: STATUS.1,
            value: CommandValue::Unsigned(STATUS_SUCCESS),
        },
    );
    r.push(
        CommandElement {
            group: AFFECTED_SOP_INSTANCE_UID.0,
            element: AFFECTED_SOP_INSTANCE_UID.1,
            value: CommandValue::Uid(sop_instance_uid.to_owned()),
        },
    );
    proof {
        assert(element_views(r@) =~= response_elements(
            message_id,
            sop_class_uid@,
            sop_instance_uid@,
        ));
    }
    r
}

/// The value of the first element of `elements` under `tag`.
pub open spec fn value_under(elements: Seq<CommandElementView>, tag: (u16, u16)) -> Option<
    CommandValueView,
>
    decreases elements.len(),
{
    if elements.len() == 0 {
        None
    } else if elements.first().tag == tag {
        Some(elements.first().value)
    } else {
        value_under(elements.drop_first(), tag)
    }
}

/// The response echoes the request: its Message ID Being Responded To is
/// the Message ID of the request, and its Affected SOP Class UID and
/// Affected SOP Instance UID are those of the request. It reports success,
/// as a C-STORE response that no data set follows, and holds nothing else.
pub proof fn lemma_response_echoes_request(request: PendingRequestView)
    ensures
        ({
            let response = response_elements(
                request.message_id,
                request.sop_class_uid,
                request.sop_instance_uid,
            );
            &&& response.len() == 6
            &&& value_under(response, MESSAGE_ID_BEING_RESPONDED_TO) == Some(
                CommandValueView::Unsigned(request.message_id),
            )
            &&& value_under(response, AFFECTED_SOP_CLASS_UID) == Some(
                CommandValueView::Uid(request.sop_class_uid),
            )
            &&& value_under(response, AFFECTED_SOP_INSTANCE_UID) == Some(
                CommandValueView::Uid(request.sop_instance_uid),
            )
            &&& value_under(response, COMMAND_FIELD) == Some(CommandValueView::Unsigned(0x8001))
            &&& value_under(response, COMMAND_DATA_SET_TYPE) == Some(
                CommandValueView::Unsigned(0x0101),
            )
            &&& value_under(response, STATUS) == Some(CommandValueView::Unsigned(0))
        }),
{
    reveal_with_fuel(value_under, 7);
}

/// The bytes of the response to `request`: its elements as a command set
/// in implicit VR little endian. `None` where an identifier of the request
/// is longer than the codec can take, or the codec cannot encode the set.
pub open spec fn response_encoding(request: PendingRequestView) -> Option<Seq<u8>> {
    if byte_len(request.sop_class_uid) > IDENTIFIER_LIMIT || byte_len(request.sop_instance_uid)
        > IDENTIFIER_LIMIT {
        None
    } else {
        data_set_encoding(
            command_set_of(
                response_elements(
                    request.message_id,
                    request.sop_class_uid,
                    request.sop_instance_uid,
                ),
            ),
            IMPLICIT_VR_LITTLE_ENDIAN@,
        )
    }
}

/// Builds the response to `request` and encodes it, always in implicit VR
/// little endian.
pub fn encode_response(request: &PendingRequest) -> (r: Result<Vec<u8>, StoreError>)
    ensures
        match r {
            Ok(bytes) => response_encoding(request@) == Some(bytes@),
            Err(e) => e == StoreError::ResponseEncodingFailed && response_encoding(request@)
                is None,
        },
{
    if text_byte_len(request.sop_class_uid.as_str()) > IDENTIFIER_LIMIT || text_byte_len(
        request.sop_instance_uid.as_str(),
    ) > IDENTIFIER_LIMIT {
        return Err(StoreError::ResponseEncodingFailed);
    }
    let elements = create_cstore_response(
        request.message_id,
        request.sop_class_uid.as_str(),
        request.sop_instance_uid.as_str(),
    );
    let command_set = build_command_set(&elements);
    match encode_command_set(&command_set) {
        Some(bytes) => Ok(bytes),
        None => Err(StoreError::ResponseEncodingFailed),
    }
}

} // verus!
