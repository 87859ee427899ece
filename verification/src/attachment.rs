//! The attachment of a Zenoh message: a version byte, followed by the message attributes.
use crate::attributes::{self, AttributesView, UAttributes};
use crate::status::{self, StatusView, UCode, UStatus};
use crate::text;
use vstd::prelude::*;

verus! {

/// The major version of uProtocol, which is the first byte of an attachment.
pub const UPROTOCOL_MAJOR_VERSION: u8 = 1;

/// The attachment that carries encoded attributes.
pub open spec fn framed(encoded: Seq<u8>) -> Seq<u8> {
    seq![UPROTOCOL_MAJOR_VERSION] + encoded
}

/// What is left of an attachment once its version was checked, or the message of the
/// failure.
pub open spec fn unframed(attachment: Seq<u8>) -> Result<Seq<u8>, Seq<char>> {
    if attachment.len() == 0 {
        Err("Unable to get the UAttributes version"@)
    } else if attachment[0] != UPROTOCOL_MAJOR_VERSION {
        Err(
            "UAttributes version is "@ + text::numeral(attachment[0] as nat, 10, false)
                + " (should be 1)"@,
        )
    } else if attachment.len() == 1 {
        Err("Unable to get the UAttributes"@)
    } else {
        Ok(attachment.skip(1))
    }
}

/// Why an attachment holds no attributes.
#[derive(Debug)]
pub enum AttachmentError {
    /// The attachment does not have the form of one.
    Rejected(UStatus),
    /// The bytes after the version are not attributes.
    Malformed(String),
}

/// The reason as a mathematical value.
pub enum AttachmentErrorView {
    Rejected(StatusView),
    Malformed(Seq<char>),
}

impl View for AttachmentError {
    type V = AttachmentErrorView;

    open spec fn view(&self) -> AttachmentErrorView {
        match *self {
            AttachmentError::Rejected(status) => AttachmentErrorView::Rejected(status@),
            AttachmentError::Malformed(text) => AttachmentErrorView::Malformed(text@),
        }
    }
}

/// The attributes that an attachment holds, or why it holds none.
pub open spec fn attachment_attributes(attachment: Seq<u8>) -> Result<
    AttributesView,
    AttachmentErrorView,
> {
    match unframed(attachment) {
        Err(message) => Err(
            AttachmentErrorView::Rejected(status::failure(UCode::InvalidArgument, message)),
        ),
        Ok(bytes) => match attributes::attributes_decoding(bytes) {
            Ok(attributes) => Ok(attributes),
            Err(error) => Err(AttachmentErrorView::Malformed(error)),
        },
    }
}

/// The attachment for attributes, or the text of the error.
pub open spec fn attributes_attachment(attributes: AttributesView) -> Result<Seq<u8>, Seq<char>> {
    match attributes::attributes_encoding(attributes) {
        Ok(encoded) => Ok(framed(encoded)),
        Err(error) => Err(error),
    }
}

/// Puts the version in front of encoded attributes.
pub fn frame_attributes(encoded: &[u8]) -> (attachment: Vec<u8>)
    ensures
        attachment@ == framed(encoded@),
{
    let mut attachment: Vec<u8> = Vec::new();
    attachment.push(UPROTOCOL_MAJOR_VERSION);
    attachment.extend_from_slice(encoded);
    assert(attachment@ =~= framed(encoded@));
    attachment
}

/// Checks the version of an attachment and gives the encoded attributes.
pub fn unframe_attributes(attachment: &[u8]) -> (r: Result<&[u8], UStatus>)
    ensures
        match unframed(attachment@) {
            Ok(bytes) => r matches Ok(b) && b@ == bytes,
            Err(message) => r matches Err(e) && e@ == status::failure(
                UCode::InvalidArgument,
                message,
            ),
        },
{
    if attachment.len() == 0 {
        return Err(
            UStatus::fail_with(UCode::InvalidArgument, "Unable to get the UAttributes version"),
        );
    }
    let version: u8 = attachment[0];
    if version != UPROTOCOL_MAJOR_VERSION {
        let mut message = text::join(
            "UAttributes version is ",
            text::to_numeral(version as u64, 10, false).as_str(),
        );
        message.append(" (should be 1)");
        return Err(UStatus::fail_with_code(UCode::InvalidArgument, message));
    }
    if attachment.len() == 1 {
        return Err(UStatus::fail_with(UCode::InvalidArgument, "Unable to get the UAttributes"));
    }
    let bytes = vstd::slice::slice_subrange(attachment, 1, attachment.len());
    assert(bytes@ =~= attachment@.skip(1));
    Ok(bytes)
}

/// The attachment that carries attributes.
pub fn uattributes_to_attachment(uattributes: &UAttributes) -> (r: Result<Vec<u8>, String>)
    ensures
        match attributes_attachment(uattributes@) {
            Ok(attachment) => r matches Ok(a) && a@ == attachment,
            Err(error) => r matches Err(e) && e@ == error,
        },
        r is Ok,
        uattributes@.id is Some ==> (r matches Ok(attachment) ==> attachment@.len() > 1),
        uattributes@.moderate() ==> (r matches Ok(attachment) ==> (attachment@.len() > 1 ==> (
        attachment_attributes(attachment@) matches Ok(read) && read == uattributes@))),
{
    match uattributes.to_bytes() {
        Ok(encoded) => {
            let attachment = frame_attributes(encoded.as_slice());
            proof {
                if encoded@.len() > 0 {
                    law_framing_round_trip(encoded@);
                }
            }
            Ok(attachment)
        },
        Err(error) => Err(error),
    }
}

/// The attributes that an attachment carries.
pub fn attachment_to_uattributes(attachment: &[u8]) -> (r: Result<UAttributes, AttachmentError>)
    ensures
        match attachment_attributes(attachment@) {
            Ok(attributes) => r matches Ok(a) && a@ == attributes,
            Err(error) => r matches Err(e) && e@ == error,
        },
{
    match unframe_attributes(attachment) {
        Ok(bytes) => match UAttributes::from_bytes(bytes) {
            Ok(attributes) => Ok(attributes),
            Err(error) => Err(AttachmentError::Malformed(error)),
        },
        Err(status) => Err(AttachmentError::Rejected(status)),
    }
}

/// Taking off the version gives back the encoded attributes, unless they are empty.
pub proof fn law_framing_round_trip(encoded: Seq<u8>)
    requires
        encoded.len() > 0,
    ensures
        unframed(framed(encoded)) == Ok::<Seq<u8>, Seq<char>>(encoded),
{
    assert(framed(encoded).skip(1) =~= encoded);
}

/// An attachment passes only if it is the frame of what it passes on.
pub proof fn law_unframed_is_framed(attachment: Seq<u8>)
    ensures
        unframed(attachment) matches Ok(bytes) ==> framed(bytes) == attachment && bytes.len() > 0,
        unframed(attachment) is Ok <==> attachment.len() > 1 && attachment[0]
            == UPROTOCOL_MAJOR_VERSION,
{
    if let Ok(bytes) = unframed(attachment) {
        assert(framed(bytes) =~= attachment);
    }
}

/// An attachment is the byte 1, which is the version, followed by the encoded attributes.
pub proof fn law_attachment_begins_with_the_version(encoded: Seq<u8>)
    ensures
        framed(encoded).len() == encoded.len() + 1,
        framed(encoded)[0] == 1,
        forall|i: int| 0 <= i < encoded.len() ==> #[trigger] framed(encoded)[i + 1] == encoded[i],
{
}

/// An attachment holds the attributes that are read from what follows the version, and only
/// an attachment of version 1 with something after the version holds any.
pub proof fn law_attachment_holds_what_follows_the_version(
    attachment: Seq<u8>,
    attributes: AttributesView,
)
    ensures
        attachment_attributes(attachment) == Ok::<AttributesView, AttachmentErrorView>(attributes)
            <==> {
            &&& attachment.len() >= 2
            &&& attachment[0] == 1
            &&& attributes::attributes_decoding(attachment.skip(1)) == Ok::<
                AttributesView,
                Seq<char>,
            >(attributes)
        },
{
}

/// An attachment that is too short or of another version is an invalid argument; what cannot
/// be read after the right version is malformed, with the error that reading it gave.
pub proof fn law_attachment_errors(attachment: Seq<u8>)
    ensures
        attachment.len() == 0 ==> (attachment_attributes(attachment) matches Err(
            AttachmentErrorView::Rejected(s),
        ) && s.code == UCode::InvalidArgument && s.message
            == "Unable to get the UAttributes version"@),
        attachment.len() > 0 && attachment[0] != 1 ==> (attachment_attributes(attachment) matches Err(
            AttachmentErrorView::Rejected(s),
        ) && s.code == UCode::InvalidArgument && s.message == "UAttributes version is "@
            + text::numeral(attachment[0] as nat, 10, false) + " (should be 1)"@),
        attachment.len() == 1 && attachment[0] == 1 ==> (attachment_attributes(
            attachment,
        ) matches Err(AttachmentErrorView::Rejected(s)) && s.code == UCode::InvalidArgument
            && s.message == "Unable to get the UAttributes"@),
        attachment.len() > 1 && attachment[0] == 1 ==> (attributes::attributes_decoding(
            attachment.skip(1),
        ) matches Err(error) ==> attachment_attributes(attachment) == Err::<
            AttributesView,
            AttachmentErrorView,
        >(AttachmentErrorView::Malformed(error))),
{
}

/// The attachment for attributes is the version with the encoded attributes, and it holds
/// these attributes again if their encoding can be read.
pub proof fn law_attachment_carries_the_attributes(attributes: AttributesView, encoded: Seq<u8>)
    requires
        attributes::attributes_encoding(attributes) == Ok::<Seq<u8>, Seq<char>>(encoded),
    ensures
        attributes_attachment(attributes) == Ok::<Seq<u8>, Seq<char>>(seq![1u8] + encoded),
        encoded.len() > 0 && attributes::attributes_decoding(encoded) == Ok::<
            AttributesView,
            Seq<char>,
        >(attributes) ==> attachment_attributes(seq![1u8] + encoded) == Ok::<
            AttributesView,
            AttachmentErrorView,
        >(attributes),
{
    assert(seq![1u8] + encoded =~= framed(encoded));
    assert((seq![1u8] + encoded).skip(1) =~= encoded);
}

/// The model of an attachment error is that error, with what it tells.
pub proof fn law_attachment_errors_are_told_apart(status: UStatus, text: String)
    ensures
        AttachmentError::Rejected(status)@ matches AttachmentErrorView::Rejected(s) && s
            == status@,
        AttachmentError::Malformed(text)@ matches AttachmentErrorView::Malformed(t) && t
            == text@,
{
}

} // verus!
