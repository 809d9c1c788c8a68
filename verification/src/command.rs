use vstd::prelude::*;
use vstd::string::StrSliceExecFns;
use vstd::utf8::encode_utf8;

use crate::wire::{push_u16_le, push_u32_le, u16_le_bytes, u32_le_bytes};

verus! {

/// The commands a client can write to the Control Point. The wire value of
/// each is its position in this list.
#[derive(Debug, Clone, Copy, PartialEq, Eq, PartialOrd, Ord, Structural)]
pub enum CommandID {
    GetNotificationAttributes,
    GetAppAttributes,
    PerformNotificationAction,
}

impl CommandID {
    /// The byte that stands for this command on the wire.
    pub open spec fn ordinal(self) -> u8 {
        match self {
            CommandID::GetNotificationAttributes => 0,
            CommandID::GetAppAttributes => 1,
            CommandID::PerformNotificationAction => 2,
        }
    }

    /// The wire byte of this command.
    pub fn to_u8(self) -> (n: u8)
        ensures
            n == self.ordinal(),
    {
        match self {
            CommandID::GetNotificationAttributes => 0,
            CommandID::GetAppAttributes => 1,
            CommandID::PerformNotificationAction => 2,
        }
    }
}

/// The attributes of a notification that a client can ask for. The wire
/// value of each is its position in this list, 0 to 7.
#[derive(Debug, Clone, Copy, PartialEq, Eq, Structural)]
pub enum NotificationAttributeID {
    AppIdentifier,
    Title,
    Subtitle,
    Message,
    MessageSize,
    Date,
    PositiveActionLabel,
    NegativeActionLabel,
}

impl NotificationAttributeID {
    /// The byte that stands for this attribute on the wire.
    pub open spec fn ordinal(self) -> u8 {
        match self {
            NotificationAttributeID::AppIdentifier => 0,
            NotificationAttributeID::Title => 1,
            NotificationAttributeID::Subtitle => 2,
            NotificationAttributeID::Message => 3,
            NotificationAttributeID::MessageSize => 4,
            NotificationAttributeID::Date => 5,
            NotificationAttributeID::PositiveActionLabel => 6,
            NotificationAttributeID::NegativeActionLabel => 7,
        }
    }

    /// The attribute that `n` stands for, if any.
    pub open spec fn of_ordinal(n: u8) -> Option<NotificationAttributeID> {
        if n == 0 {
            Some(NotificationAttributeID::AppIdentifier)
        } else if n == 1 {
            Some(NotificationAttributeID::Title)
        } else if n == 2 {
            Some(NotificationAttributeID::Subtitle)
        } else if n == 3 {
            Some(NotificationAttributeID::Message)
        } else if n == 4 {
            Some(NotificationAttributeID::MessageSize)
        } else if n == 5 {
            Some(NotificationAttributeID::Date)
        } else if n == 6 {
            Some(NotificationAttributeID::PositiveActionLabel)
        } else if n == 7 {
            Some(NotificationAttributeID::NegativeActionLabel)
        } else {
            None
        }
    }

    /// Whether a request for this attribute carries a maximum length: true
    /// of the title, the subtitle and the message.
    pub open spec fn is_variable_length(self) -> bool {
        self == NotificationAttributeID::Title || self == NotificationAttributeID::Subtitle
            || self == NotificationAttributeID::Message
    }

    /// Attribute for a wire byte: `Some` for 0 to 7, `None` above.
    pub fn from_u8(n: u8) -> (attribute: Option<NotificationAttributeID>)
        ensures
            attribute == NotificationAttributeID::of_ordinal(n),
            attribute is Some <==> n <= 7,
            attribute matches Some(a) ==> a.ordinal() == n,
    {
        match n {
            0 => Some(NotificationAttributeID::AppIdentifier),
            1 => Some(NotificationAttributeID::Title),
            2 => Some(NotificationAttributeID::Subtitle),
            3 => Some(NotificationAttributeID::Message),
            4 => Some(NotificationAttributeID::MessageSize),
            5 => Some(NotificationAttributeID::Date),
            6 => Some(NotificationAttributeID::PositiveActionLabel),
            7 => Some(NotificationAttributeID::NegativeActionLabel),
            _ => None,
        }
    }

    /// The wire byte of this attribute.
    pub fn to_u8(self) -> (n: u8)
        ensures
            n == self.ordinal(),
            NotificationAttributeID::of_ordinal(n) == Some(self),
    {
        match self {
            NotificationAttributeID::AppIdentifier => 0,
            NotificationAttributeID::Title => 1,
            NotificationAttributeID::Subtitle => 2,
            NotificationAttributeID::Message => 3,
            NotificationAttributeID::MessageSize => 4,
            NotificationAttributeID::Date => 5,
            NotificationAttributeID::PositiveActionLabel => 6,
            NotificationAttributeID::NegativeActionLabel => 7,
        }
    }

    /// Whether a request for this attribute carries a maximum length.
    pub fn carries_length(self) -> (yes: bool)
        ensures
            yes == self.is_variable_length(),
    {
        match self {
            NotificationAttributeID::Title => true,
            NotificationAttributeID::Subtitle => true,
            NotificationAttributeID::Message => true,
            _ => false,
        }
    }
}

/// The attributes of an app that a client can ask for.
#[derive(Debug, Clone, Copy, PartialEq, Eq, Structural)]
pub enum AppAttributeID {
    DisplayName,
}

impl AppAttributeID {
    /// The byte that stands for this attribute on the wire.
    pub open spec fn ordinal(self) -> u8 {
        0
    }

    /// The attribute that `n` stands for, if any.
    pub open spec fn of_ordinal(n: u8) -> Option<AppAttributeID> {
        if n == 0 {
            Some(AppAttributeID::DisplayName)
        } else {
            None
        }
    }

    /// Attribute for a wire byte: `Some` for 0, `None` above.
    pub fn from_u8(n: u8) -> (attribute: Option<AppAttributeID>)
        ensures
            attribute == AppAttributeID::of_ordinal(n),
            attribute is Some <==> n == 0,
    {
        match n {
            0 => Some(AppAttributeID::DisplayName),
            _ => None,
        }
    }

    /// The wire byte of this attribute.
    pub fn to_u8(self) -> (n: u8)
        ensures
            n == self.ordinal(),
            AppAttributeID::of_ordinal(n) == Some(self),
    {
        match self {
            AppAttributeID::DisplayName => 0,
        }
    }
}

/// One requested attribute with the maximum length asked for, if any.
pub type AttributeRequest = (NotificationAttributeID, Option<u16>);

/// Every request for a variable-length attribute names a maximum length.
pub open spec fn requests_complete(requests: Seq<AttributeRequest>) -> bool {
    forall|i: int|
        0 <= i < requests.len() && (#[trigger] requests[i]).0.is_variable_length()
            ==> requests[i].1 is Some
}

/// The bytes of one request: the attribute's byte, followed for the title,
/// the subtitle and the message by the maximum length, least significant
/// byte first. A length given for any other attribute is not sent.
pub open spec fn request_bytes(request: AttributeRequest) -> Seq<u8> {
    if request.0.is_variable_length() && request.1 is Some {
        seq![request.0.ordinal()] + u16_le_bytes(request.1->0)
    } else {
        seq![request.0.ordinal()]
    }
}

/// In a complete list, a request is three bytes long if it is for the title,
/// the subtitle or the message, and one byte long otherwise: the length is
/// sent for those three attributes and for no other.
pub proof fn lemma_length_sent_iff_variable(requests: Seq<AttributeRequest>, i: int)
    requires
        requests_complete(requests),
        0 <= i < requests.len(),
    ensures
        requests[i].0.is_variable_length() ==> request_bytes(requests[i]) == seq![
            requests[i].0.ordinal(),
            (requests[i].1->0 % 0x100) as u8,
            (requests[i].1->0 / 0x100) as u8,
        ],
        !requests[i].0.is_variable_length() ==> request_bytes(requests[i]) == seq![
            requests[i].0.ordinal(),
        ],
{
}

/// The bytes of a list of requests, in the order of the list.
pub open spec fn requests_bytes(requests: Seq<AttributeRequest>) -> Seq<u8>
    decreases requests.len(),
{
    if requests.len() == 0 {
        Seq::empty()
    } else {
        requests_bytes(requests.drop_last()) + request_bytes(requests.last())
    }
}

/// The bytes of a request for attributes of the notification `uid`: the
/// command byte 0, the UID least significant byte first, then the requests.
pub open spec fn notification_attributes_encoding(
    uid: u32,
    requests: Seq<AttributeRequest>,
) -> Seq<u8> {
    seq![CommandID::GetNotificationAttributes.ordinal()] + u32_le_bytes(uid) + requests_bytes(
        requests,
    )
}

/// The wire bytes of a list of app attributes, one byte each.
pub open spec fn app_attribute_bytes(attribute_ids: Seq<AppAttributeID>) -> Seq<u8> {
    Seq::new(attribute_ids.len(), |i: int| attribute_ids[i].ordinal())
}

/// The bytes of a request for attributes of the app `app_identifier`: the
/// command byte 1, the identifier in UTF-8, a NUL byte, then one byte for
/// each attribute.
pub open spec fn app_attributes_encoding(
    app_identifier: Seq<char>,
    attribute_ids: Seq<AppAttributeID>,
) -> Seq<u8> {
    seq![CommandID::GetAppAttributes.ordinal()] + encode_utf8(app_identifier) + seq![0u8]
        + app_attribute_bytes(attribute_ids)
}

/// What a `GetNotificationAttributesCommand` asks for.
pub struct NotificationAttributesRequest {
    pub uid: u32,
    pub requests: Seq<AttributeRequest>,
}

/// A request for attributes of one notification. The attributes of the reply
/// come in the order of the requests.
///
/// A value of this type always names a maximum length for each
/// variable-length attribute it asks for.
#[derive(Debug, PartialEq, Eq)]
pub struct GetNotificationAttributesCommand {
    notification_id: u32,
    attribute_ids: Vec<AttributeRequest>,
}

impl View for GetNotificationAttributesCommand {
    type V = NotificationAttributesRequest;

    closed spec fn view(&self) -> NotificationAttributesRequest {
        NotificationAttributesRequest {
            uid: self.notification_id,
            requests: self.attribute_ids@,
        }
    }
}

impl GetNotificationAttributesCommand {
    #[verifier::type_invariant]
    spec fn complete(&self) -> bool {
        requests_complete(self.attribute_ids@)
    }

    /// Builds the command, or `None` if a request for the title, the
    /// subtitle or the message comes without a maximum length.
    pub fn new(notification_id: u32, attribute_ids: Vec<AttributeRequest>) -> (command: Option<
        GetNotificationAttributesCommand,
    >)
        ensures
            command is Some <==> requests_complete(attribute_ids@),
            command matches Some(c) ==> c@.uid == notification_id && c@.requests
                == attribute_ids@,
    {
        let mut i: usize = 0;
        while i < attribute_ids.len()
            invariant
                i <= attribute_ids.len(),
                requests_complete(attribute_ids@.take(i as int)),
            decreases attribute_ids.len() - i,
        {
            let (attribute, length) = attribute_ids[i];
            if attribute.carries_length() && length.is_none() {
                return None;
            }
            i += 1;
        }
        proof {
            assert(attribute_ids@.take(i as int) =~= attribute_ids@);
        }
        Some(GetNotificationAttributesCommand { notification_id, attribute_ids })
    }

    /// The notification asked about.
    pub fn notification_id(&self) -> (uid: u32)
        ensures
            uid == self@.uid,
    {
        self.notification_id
    }

    /// The requests, in order.
    pub fn attribute_ids(&self) -> (requests: &Vec<AttributeRequest>)
        ensures
            requests@ == self@.requests,
            requests_complete(requests@),
    {
        proof {
            use_type_invariant(self);
        }
        &self.attribute_ids
    }

    /// The command as written to the Control Point.
    pub fn to_bytes(&self) -> (bytes: Vec<u8>)
        ensures
            bytes@ == notification_attributes_encoding(self@.uid, self@.requests),
    {
        proof {
            use_type_invariant(self);
        }
        let mut bytes: Vec<u8> = Vec::new();
        bytes.push(CommandID::GetNotificationAttributes.to_u8());
        push_u32_le(&mut bytes, self.notification_id);
        let ghost head = bytes@;
        let mut i: usize = 0;
        while i < self.attribute_ids.len()
            invariant
                i <= self.attribute_ids.len(),
                requests_complete(self.attribute_ids@),
                bytes@ == head + requests_bytes(self.attribute_ids@.take(i as int)),
            decreases self.attribute_ids.len() - i,
        {
            let (attribute, length) = self.attribute_ids[i];
            proof {
                assert(self.attribute_ids@.take(i + 1).drop_last() =~= self.attribute_ids@.take(
                    i as int,
                ));
            }
            bytes.push(attribute.to_u8());
            if attribute.carries_length() {
                if let Some(max_length) = length {
                    push_u16_le(&mut bytes, max_length);
                }
            }
            i += 1;
        }
        proof {
            assert(self.attribute_ids@.take(i as int) =~= self.attribute_ids@);
        }
        bytes
    }
}

/// A request for attributes of one app.
#[derive(Debug, Clone, PartialEq, Eq)]
pub struct GetAppAttributesCommand {
    pub app_identifier: String,
    pub attribute_ids: Vec<AppAttributeID>,
}

impl GetAppAttributesCommand {
    /// The request for the display name of the app `app_identifier`.
    pub fn display_name(app_identifier: &str) -> (command: GetAppAttributesCommand)
        ensures
            command.app_identifier@ == app_identifier@,
            command.attribute_ids@ == seq![AppAttributeID::DisplayName],
    {
        let mut attribute_ids: Vec<AppAttributeID> = Vec::new();
        attribute_ids.push(AppAttributeID::DisplayName);
        GetAppAttributesCommand { app_identifier: app_identifier.to_owned(), attribute_ids }
    }

    /// The command as written to the Control Point.
    pub fn to_bytes(&self) -> (bytes: Vec<u8>)
        ensures
            bytes@ == app_attributes_encoding(self.app_identifier@, self.attribute_ids@),
    {
        let mut bytes: Vec<u8> = Vec::new();
        bytes.push(CommandID::GetAppAttributes.to_u8());
        let mut identifier = self.app_identifier.as_str().as_bytes_vec();
        bytes.append(&mut identifier);
        bytes.push(0);
        let ghost head = bytes@;
        let mut i: usize = 0;
        while i < self.attribute_ids.len()
            invariant
                i <= self.attribute_ids.len(),
                bytes@ == head + app_attribute_bytes(self.attribute_ids@.take(i as int)),
            decreases self.attribute_ids.len() - i,
        {
            bytes.push(self.attribute_ids[i].to_u8());
            i += 1;
        }
        bytes
    }
}

} // verus!
