//! Images for buttons: a file's bytes become an image when the file is one.

use vstd::prelude::*;
use crate::configurator::EditError;
use crate::ui::Base64Image;

verus! {

/// The families of file types that can be told from a file's first bytes.
#[derive(Clone, Copy, Debug, PartialEq, Eq, Structural, Hash)]
pub enum FileKind {
    App,
    Archive,
    Audio,
    Book,
    Doc,
    Font,
    Image,
    Text,
    Video,
    Custom,
}

/// The family and the MIME type that `infer::get` finds for a file with
/// these bytes, if it finds any.
pub uninterp spec fn inferred(bytes: Seq<u8>) -> Option<(FileKind, Seq<char>)>;

/// The text that `base64::encode` makes of these bytes.
pub uninterp spec fn base64_of(bytes: Seq<u8>) -> Seq<char>;

/// Whether the machine's word has 64 bits or more. The detection of a
/// file's type adds lengths that it reads from the file as 32-bit numbers,
/// and a shorter word cannot hold every such sum.
pub open spec fn wide_word() -> bool {
    usize::MAX >= 0xFFFF_FFFF_FFFF_FFFF
}

/// Whether a file of these bytes can be examined and encoded on this
/// machine: the word is wide, and the length of the base64 text fits it.
pub open spec fn examinable(bytes: Seq<u8>) -> bool {
    wide_word() && (bytes.len() / 3) * 4 + 4 <= usize::MAX
}

/// Whether a file of these bytes can be examined and encoded on this
/// machine.
pub fn is_examinable(raw: &Vec<u8>) -> (ok: bool)
    ensures
        ok == examinable(raw@),
{
    usize::BITS >= 64 && raw.len() / 3 <= (usize::MAX - 4) / 4
}

/// Calls `infer::get` on the bytes of a file. The contract claims that the
/// family and the MIME type found depend on the bytes alone, and names
/// them; which type is found for which bytes is `infer`'s matter. On a
/// machine whose word is shorter than 64 bits the call can panic, on sums
/// of lengths read from the file; such machines are left out.
#[verifier::external_body]
fn infer_kind(bytes: &Vec<u8>) -> (found: Option<(FileKind, String)>)
    requires
        usize::MAX >= 0xFFFF_FFFF_FFFF_FFFF,
    ensures
        match found {
            Some((kind, mime)) => inferred(bytes@) == Some((kind, mime@)),
            None => inferred(bytes@) is None,
        },
{
    let found = infer::get(bytes.as_slice())?;
    let kind = match found.matcher_type() {
        infer::MatcherType::App => FileKind::App,
        infer::MatcherType::Archive => FileKind::Archive,
        infer::MatcherType::Audio => FileKind::Audio,
        infer::MatcherType::Book => FileKind::Book,
        infer::MatcherType::Doc => FileKind::Doc,
        infer::MatcherType::Font => FileKind::Font,
        infer::MatcherType::Image => FileKind::Image,
        infer::MatcherType::Text => FileKind::Text,
        infer::MatcherType::Video => FileKind::Video,
        infer::MatcherType::Custom => FileKind::Custom,
    };
    Some((kind, found.mime_type().to_string()))
}

/// Calls `base64::encode` on the bytes of a file. The contract claims that
/// the text depends on the bytes alone, and names it. The call panics where
/// the length of the text does not fit the machine's word; such input is
/// left out.
#[verifier::external_body]
#[allow(deprecated)]
fn base64_encode(bytes: &Vec<u8>) -> (text: String)
    requires
        (bytes@.len() / 3) * 4 + 4 <= usize::MAX,
    ensures
        text@ == base64_of(bytes@),
{
    base64::encode(bytes)
}

/// Whether `image` is the image that a file of the given bytes makes.
pub open spec fn is_image_of(image: Base64Image, kind: (FileKind, String), bytes: Seq<u8>) -> bool {
    image.format == kind.1 && image.data@ == base64_of(bytes)
}

/// Makes an image of a file's bytes, given what was found out about the
/// file's type: the file must be of a known type, and that type an image's.
pub fn image_of_kind(found: Option<(FileKind, String)>, raw: &Vec<u8>) -> (r: Result<
    Base64Image,
    EditError,
>)
    requires
        (raw@.len() / 3) * 4 + 4 <= usize::MAX,
    ensures
        match found {
            None => r == Err::<Base64Image, EditError>(EditError::UnknownFileType),
            Some(kind) => if kind.0 is Image {
                r is Ok && is_image_of(r->Ok_0, kind, raw@)
            } else {
                r == Err::<Base64Image, EditError>(EditError::NotAnImage)
            },
        },
{
    match found {
        None => Err(EditError::UnknownFileType),
        Some((kind, mime)) => match kind {
            FileKind::Image => Ok(Base64Image { format: mime, data: base64_encode(raw) }),
            _ => Err(EditError::NotAnImage),
        },
    }
}

/// Whether `r` is what the bytes of a file give: an image of the file's
/// MIME type with the file's bytes in base64, or the refusal of a file that
/// is of no known type or not an image.
pub open spec fn is_image_from(r: Result<Base64Image, EditError>, bytes: Seq<u8>) -> bool {
    match inferred(bytes) {
        None => r == Err::<Base64Image, EditError>(EditError::UnknownFileType),
        Some(kind) => if kind.0 is Image {
            r is Ok && r->Ok_0.format@ == kind.1 && r->Ok_0.data@ == base64_of(bytes)
        } else {
            r == Err::<Base64Image, EditError>(EditError::NotAnImage)
        },
    }
}

/// Makes an image of the bytes of a file that this machine can examine.
pub fn get_base64image_from_bytes(raw: &Vec<u8>) -> (r: Result<Base64Image, EditError>)
    requires
        examinable(raw@),
    ensures
        is_image_from(r, raw@),
{
    image_of_kind(infer_kind(raw), raw)
}

} // verus!
