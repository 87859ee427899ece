//! Messages, and the decision whether what arrived from Zenoh becomes one.
use crate::attachment::{self, AttachmentError, AttachmentErrorView};
use crate::attributes::{self, AttributesView, UAttributes};
use crate::status::{self, StatusView, UCode, UStatus};
use crate::text;
use vstd::prelude::*;

verus! {

/// A message with an optional payload.
#[derive(Debug)]
pub struct UMessage {
    pub attributes: UAttributes,
    pub payload: Option<Vec<u8>>,
}

/// A message as a mathematical value.
#[verifier::ext_equal]
pub struct MessageView {
    pub attributes: AttributesView,
    pub payload: Option<Seq<u8>>,
}

/// The model of an optional sequence of bytes.
pub open spec fn owned_bytes(bytes: Option<Vec<u8>>) -> Option<Seq<u8>> {
    match bytes {
        Some(b) => Some(b@),
        None => None,
    }
}

/// The model of an optional sequence of bytes that is borrowed.
pub open spec fn opt_bytes(bytes: Option<&[u8]>) -> Option<Seq<u8>> {
    match bytes {
        Some(b) => Some(b@),
        None => None,
    }
}

impl View for UMessage {
    type V = MessageView;

    open spec fn view(&self) -> MessageView {
        MessageView { attributes: self.attributes@, payload: owned_bytes(self.payload) }
    }
}

/// Message attributes together with the bytes that came with them.
#[derive(Debug)]
pub struct UOwnedFrame {
    pub attributes: UAttributes,
    pub payload: Vec<u8>,
}

impl UOwnedFrame {
    /// The message that the frame carries: it has a payload only if the attributes give the
    /// format of one.
    pub fn into_message(self) -> (message: UMessage)
        ensures
            message@ == (MessageView {
                attributes: self.attributes@,
                payload: delivered_payload(self.attributes@, Some(self.payload@)),
            }),
            self.attributes.payload_format != 0 ==> (message.payload matches Some(bytes) && bytes@
                == self.payload@),
            self.attributes.payload_format == 0 ==> message.payload is None,
    {
        let payload = if self.attributes.payload_format == 0 {
            None
        } else {
            Some(self.payload)
        };
        UMessage { attributes: self.attributes, payload }
    }
}

/// Why something that arrived was not delivered.
#[derive(Debug)]
pub enum Dropped {
    /// It had no attachment.
    MissingAttachment,
    /// Its attachment holds no attributes.
    Unreadable(AttachmentError),
    /// Its attributes are not those of a message.
    Invalid(UStatus),
    /// It came too late.
    Expired,
}

/// The reason as a mathematical value.
pub enum DroppedView {
    MissingAttachment,
    Unreadable(AttachmentErrorView),
    Invalid(StatusView),
    Expired,
}

impl View for Dropped {
    type V = DroppedView;

    open spec fn view(&self) -> DroppedView {
        match *self {
            Dropped::MissingAttachment => DroppedView::MissingAttachment,
            Dropped::Unreadable(error) => DroppedView::Unreadable(error@),
            Dropped::Invalid(status) => DroppedView::Invalid(status@),
            Dropped::Expired => DroppedView::Expired,
        }
    }
}

/// The status for attributes that were refused with the given text.
pub open spec fn invalid_sample(refusal: Seq<char>) -> StatusView {
    status::failure(
        UCode::InvalidArgument,
        "Unable to create UFrameMetadata from Zenoh sample: "@ + refusal,
    )
}

/// Makes a message of its parts, given the verdict on its attributes.
pub fn message_from_checked_parts(
    attributes: &UAttributes,
    payload: Option<Vec<u8>>,
    verdict: Result<(), String>,
) -> (r: Result<UMessage, UStatus>)
    ensures
        match verdict {
            Ok(_) => r matches Ok(m) && m@ == (MessageView {
                attributes: attributes@,
                payload: owned_bytes(payload),
            }),
            Err(refusal) => r matches Err(e) && e@ == invalid_sample(refusal@),
        },
{
    match verdict {
        Ok(_) => Ok(UMessage { attributes: attributes.clone(), payload }),
        Err(refusal) => Err(
            UStatus::fail_with_code(
                UCode::InvalidArgument,
                text::join(
                    "Unable to create UFrameMetadata from Zenoh sample: ",
                    refusal.as_str(),
                ),
            ),
        ),
    }
}

/// Makes a message of its parts, if its attributes are those of a message.
pub fn message_from_parts(attributes: &UAttributes, payload: Option<Vec<u8>>) -> (r: Result<
    UMessage,
    UStatus,
>)
    ensures
        r is Ok <==> attributes@.valid(),
        r matches Ok(m) ==> m@ == (MessageView {
            attributes: attributes@,
            payload: owned_bytes(payload),
        }),
        r matches Err(e) ==> e@ == invalid_sample(
            attributes::attributes_refusal(attributes@.checked()),
        ),
{
    let verdict = attributes.validate();
    message_from_checked_parts(attributes, payload, verdict)
}

/// What becomes of a sample, given what its attachment was found to hold.
pub open spec fn decoded_sample_verdict(
    decoded: Result<AttributesView, AttachmentErrorView>,
    now: Option<u128>,
) -> Result<AttributesView, DroppedView> {
    match decoded {
        Err(error) => Err(DroppedView::Unreadable(error)),
        Ok(attributes) => if !attributes.valid() {
            Err(
                DroppedView::Invalid(
                    invalid_sample(attributes::attributes_refusal(attributes.checked())),
                ),
            )
        } else if attributes.expired(now) {
            Err(DroppedView::Expired)
        } else {
            Ok(attributes)
        },
    }
}

/// What becomes of a sample that arrives with an optional attachment.
pub open spec fn sample_verdict(attachment: Option<Seq<u8>>, now: Option<u128>) -> Result<
    AttributesView,
    DroppedView,
> {
    match attachment {
        None => Err(DroppedView::MissingAttachment),
        Some(bytes) => decoded_sample_verdict(attachment::attachment_attributes(bytes), now),
    }
}

/// The model of a decoded attachment.
pub open spec fn decoded_view(decoded: Result<UAttributes, AttachmentError>) -> Result<
    AttributesView,
    AttachmentErrorView,
> {
    match decoded {
        Ok(attributes) => Ok(attributes@),
        Err(error) => Err(error@),
    }
}

/// Decides on a sample, given what its attachment was found to hold.
pub fn admit_decoded_sample(
    decoded: Result<UAttributes, AttachmentError>,
    payload: Vec<u8>,
    now: Option<u128>,
) -> (r: Result<UOwnedFrame, Dropped>)
    ensures
        match decoded_sample_verdict(decoded_view(decoded), now) {
            Ok(attributes) => r matches Ok(frame) && frame.attributes@ == attributes
                && frame.payload@ == payload@,
            Err(reason) => r matches Err(dropped) && dropped@ == reason,
        },
{
    let attributes = match decoded {
        Ok(attributes) => attributes,
        Err(error) => {
            return Err(Dropped::Unreadable(error));
        },
    };
    if let Err(status) = message_from_parts(&attributes, None) {
        return Err(Dropped::Invalid(status));
    }
    if attributes.is_expired(now) {
        return Err(Dropped::Expired);
    }
    Ok(UOwnedFrame { attributes, payload })
}

/// Decides on a sample that arrives for a subscriber.
///
/// A sample without an attachment, one whose attachment does not hold the attributes of a
/// message, and one that is expired are dropped.
pub fn admit_sample(attachment: Option<&[u8]>, payload: Vec<u8>, now: Option<u128>) -> (r: Result<
    UOwnedFrame,
    Dropped,
>)
    ensures
        match sample_verdict(opt_bytes(attachment), now) {
            Ok(attributes) => r matches Ok(frame) && frame.attributes@ == attributes
                && frame.payload@ == payload@,
            Err(reason) => r matches Err(dropped) && dropped@ == reason,
        },
{
    match attachment {
        None => Err(Dropped::MissingAttachment),
        Some(bytes) => admit_decoded_sample(
            attachment::attachment_to_uattributes(bytes),
            payload,
            now,
        ),
    }
}

/// What becomes of a query, given what its attachment was found to hold.
pub open spec fn decoded_query_verdict(
    decoded: Result<AttributesView, AttachmentErrorView>,
    now: Option<u128>,
) -> Result<AttributesView, DroppedView> {
    match decoded {
        Err(error) => Err(DroppedView::Unreadable(error)),
        Ok(attributes) => if attributes.expired(now) {
            Err(DroppedView::Expired)
        } else if !attributes.valid() {
            Err(
                DroppedView::Invalid(
                    invalid_sample(attributes::attributes_refusal(attributes.checked())),
                ),
            )
        } else {
            Ok(attributes)
        },
    }
}

/// What becomes of a query that arrives with an optional attachment.
pub open spec fn query_verdict(attachment: Option<Seq<u8>>, now: Option<u128>) -> Result<
    AttributesView,
    DroppedView,
> {
    match attachment {
        None => Err(DroppedView::MissingAttachment),
        Some(bytes) => decoded_query_verdict(attachment::attachment_attributes(bytes), now),
    }
}

/// The payload that is delivered with a message: none unless its format is given.
pub open spec fn delivered_payload(attributes: AttributesView, payload: Option<Seq<u8>>) -> Option<
    Seq<u8>,
> {
    if attributes.payload_format == 0 {
        None
    } else {
        payload
    }
}

/// Decides on a query, given what its attachment was found to hold.
pub fn admit_decoded_query(
    decoded: Result<UAttributes, AttachmentError>,
    payload: Option<Vec<u8>>,
    now: Option<u128>,
) -> (r: Result<UMessage, Dropped>)
    ensures
        match decoded_query_verdict(decoded_view(decoded), now) {
            Ok(attributes) => r matches Ok(m) && m@ == (MessageView {
                attributes,
                payload: delivered_payload(attributes, owned_bytes(payload)),
            }),
            Err(reason) => r matches Err(dropped) && dropped@ == reason,
        },
        r matches Ok(m) ==> m@.payload == (if m@.attributes.payload_format == 0 {
            None::<Seq<u8>>
        } else {
            owned_bytes(payload)
        }),
{
    let attributes = match decoded {
        Ok(attributes) => attributes,
        Err(error) => {
            return Err(Dropped::Unreadable(error));
        },
    };
    if attributes.is_expired(now) {
        return Err(Dropped::Expired);
    }
    let payload = if attributes.payload_format == 0 {
        None
    } else {
        payload
    };
    match message_from_parts(&attributes, payload) {
        Ok(message) => Ok(message),
        Err(status) => Err(Dropped::Invalid(status)),
    }
}

/// Subscribers and services agree on what is delivered: exactly what carries the valid
/// attributes of a message that is not expired.
pub proof fn law_only_valid_fresh_messages_are_delivered(
    attachment: Option<Seq<u8>>,
    now: Option<u128>,
)
    ensures
        sample_verdict(attachment, now) is Ok <==> query_verdict(attachment, now) is Ok,
        match sample_verdict(attachment, now) {
            Ok(attributes) => {
                &&& attachment matches Some(bytes)
                &&& attachment::attachment_attributes(bytes) matches Ok(read)
                &&& read == attributes
                &&& attributes.valid()
                &&& !attributes.expired(now)
            },
            Err(_) => match attachment {
                Some(bytes) => attachment::attachment_attributes(bytes) matches Ok(read) ==> (
                !read.valid() || read.expired(now)),
                None => true,
            },
        },
{
}

/// The payload that arrived with a message is delivered with it, whatever its format is, as
/// long as the attributes give one. Without a format there is no payload.
pub proof fn law_payload_is_delivered_in_every_format(
    attributes: AttributesView,
    payload: Option<Seq<u8>>,
)
    ensures
        attributes.payload_format != 0 ==> delivered_payload(attributes, payload) == payload,
        attributes.payload_format == 0 ==> delivered_payload(attributes, payload) is None,
{
}

/// What is delivered of a payload depends on nothing but whether a format is given.
pub proof fn law_delivery_treats_formats_alike(
    a: AttributesView,
    b: AttributesView,
    payload: Option<Seq<u8>>,
)
    requires
        a.payload_format == 0 <==> b.payload_format == 0,
    ensures
        delivered_payload(a, payload) == delivered_payload(b, payload),
{
}

/// A sample or a query is delivered with the attributes that its attachment holds, and
/// exactly if these are valid and not expired.
pub proof fn law_delivery_gives_the_attributes_that_arrived(
    attachment: Seq<u8>,
    attributes: AttributesView,
    now: Option<u128>,
)
    requires
        attachment::attachment_attributes(attachment) == Ok::<AttributesView, AttachmentErrorView>(
            attributes,
        ),
    ensures
        attributes.valid() && !attributes.expired(now) ==> sample_verdict(Some(attachment), now)
            == Ok::<AttributesView, DroppedView>(attributes) && query_verdict(
            Some(attachment),
            now,
        ) == Ok::<AttributesView, DroppedView>(attributes),
        !attributes.valid() || attributes.expired(now) ==> sample_verdict(
            Some(attachment),
            now,
        ) is Err && query_verdict(Some(attachment), now) is Err,
{
}

/// Why something is dropped: for want of an attachment, for an attachment that holds no
/// attributes, for attributes that are not valid, or for being late. Where both of the last
/// two hold a sample is dropped as invalid and a query as expired.
pub proof fn law_reasons_for_dropping(attachment: Seq<u8>, now: Option<u128>)
    ensures
        sample_verdict(None, now) == Err::<AttributesView, DroppedView>(
            DroppedView::MissingAttachment,
        ),
        query_verdict(None, now) == Err::<AttributesView, DroppedView>(
            DroppedView::MissingAttachment,
        ),
        match attachment::attachment_attributes(attachment) {
            Err(error) => {
                &&& sample_verdict(Some(attachment), now) == Err::<AttributesView, DroppedView>(
                    DroppedView::Unreadable(error),
                )
                &&& query_verdict(Some(attachment), now) == Err::<AttributesView, DroppedView>(
                    DroppedView::Unreadable(error),
                )
            },
            Ok(attributes) => {
                &&& !attributes.valid() ==> (sample_verdict(Some(attachment), now) matches Err(
                    DroppedView::Invalid(_),
                ))
                &&& attributes.valid() && attributes.expired(now) ==> sample_verdict(
                    Some(attachment),
                    now,
                ) == Err::<AttributesView, DroppedView>(DroppedView::Expired)
                &&& attributes.expired(now) ==> query_verdict(Some(attachment), now) == Err::<
                    AttributesView,
                    DroppedView,
                >(DroppedView::Expired)
                &&& !attributes.valid() && !attributes.expired(now) ==> (query_verdict(
                    Some(attachment),
                    now,
                ) matches Err(DroppedView::Invalid(_)))
            },
        },
{
}

/// Attributes that are not valid are an invalid argument, and the status says why.
pub proof fn law_invalid_sample_is_an_invalid_argument(
    attributes: AttributesView,
    now: Option<u128>,
)
    requires
        !attributes.valid(),
    ensures
        decoded_sample_verdict(Ok(attributes), now) matches Err(DroppedView::Invalid(s)) && s.code
            == UCode::InvalidArgument && s.message
            == "Unable to create UFrameMetadata from Zenoh sample: "@
            + attributes::attributes_refusal(attributes.checked()),
        !attributes.expired(now) ==> decoded_query_verdict(Ok(attributes), now)
            == decoded_sample_verdict(Ok(attributes), now),
{
}

/// The model of a message holds its attributes and the bytes of its payload.
pub proof fn law_message_is_attributes_and_payload(message: UMessage)
    ensures
        message@.attributes == message.attributes@,
        match message.payload {
            Some(bytes) => message@.payload == Some(bytes@),
            None => message@.payload is None,
        },
{
}

/// The models of optional bytes and of decoded attachments hold what is there.
pub proof fn law_models_of_what_arrives(
    owned: Option<Vec<u8>>,
    borrowed: Option<&[u8]>,
    decoded: Result<UAttributes, AttachmentError>,
)
    ensures
        match owned {
            Some(bytes) => owned_bytes(owned) == Some(bytes@),
            None => owned_bytes(owned) is None,
        },
        match borrowed {
            Some(bytes) => opt_bytes(borrowed) == Some(bytes@),
            None => opt_bytes(borrowed) is None,
        },
        match decoded {
            Ok(attributes) => decoded_view(decoded) == Ok::<AttributesView, AttachmentErrorView>(
                attributes@,
            ),
            Err(error) => decoded_view(decoded) == Err::<AttributesView, AttachmentErrorView>(
                error@,
            ),
        },
{
}

/// The model of a reason for dropping something is that reason, with what it tells.
pub proof fn law_reasons_are_told_apart(error: AttachmentError, status: UStatus)
    ensures
        Dropped::MissingAttachment@ is MissingAttachment,
        Dropped::Unreadable(error)@ matches DroppedView::Unreadable(e) && e == error@,
        Dropped::Invalid(status)@ matches DroppedView::Invalid(s) && s == status@,
        Dropped::Expired@ is Expired,
{
}

} // verus!
