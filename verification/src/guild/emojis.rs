//! The decisions of the custom emoji handlers: upload form, image type,
//! storage keys, who may edit, and how each refusal is answered.

use vstd::prelude::*;

use super::types::{emoji_name_violations, CreateEmojiRequest};
use crate::ids::{uuid_string, uuid_text};
use crate::text::{decimal, push_decimal, push_str, push_unsigned};
use crate::validation::{violations_text, violations_view};

verus! {

/// A refused emoji request.
#[derive(Debug, Clone)]
pub enum EmojiError {
    GuildNotFound,
    EmojiNotFound,
    Forbidden,
    InvalidFilename,
    FileTooLarge { max_size: usize },
    InvalidFileType,
    NoFile,
    Storage(String),
    Validation(String),
    LimitExceeded(String),
    Database(String),
}

/// The text of an emoji error.
pub open spec fn emoji_error_text(e: EmojiError) -> Seq<char> {
    match e {
        EmojiError::GuildNotFound => "Guild not found"@,
        EmojiError::EmojiNotFound => "Emoji not found"@,
        EmojiError::Forbidden => "Insufficient permissions"@,
        EmojiError::InvalidFilename => "Invalid filename"@,
        EmojiError::FileTooLarge { max_size } => "File too large (maximum "@ + decimal(
            max_size as int,
        ) + " bytes)"@,
        EmojiError::InvalidFileType => "Invalid file type (must be PNG, JPEG, GIF, or WebP)"@,
        EmojiError::NoFile => "No file provided"@,
        EmojiError::Storage(m) => "Storage error: "@ + m@,
        EmojiError::Validation(m) => "Validation error: "@ + m@,
        EmojiError::LimitExceeded(m) => "Limit exceeded: "@ + m@,
        EmojiError::Database(m) => "Database error: "@ + m@,
    }
}

/// The HTTP status, error code and message that answer an emoji error, and
/// the size limit in bytes for a file that is too large. That message shows
/// the limit as `max_size_text`, the text the server's file-size formatter
/// writes for it.
pub open spec fn emoji_error_response(e: EmojiError, max_size_text: Seq<char>) -> (
    u16,
    Seq<char>,
    Seq<char>,
    Option<usize>,
) {
    match e {
        EmojiError::GuildNotFound => (404, "GUILD_NOT_FOUND"@, "Guild not found"@, None),
        EmojiError::EmojiNotFound => (404, "EMOJI_NOT_FOUND"@, "Emoji not found"@, None),
        EmojiError::Forbidden => (403, "FORBIDDEN"@, "Insufficient permissions"@, None),
        EmojiError::InvalidFilename => (400, "INVALID_FILENAME"@, "Invalid filename"@, None),
        EmojiError::FileTooLarge { max_size } => (
            413,
            "FILE_TOO_LARGE"@,
            "File too large (max "@ + max_size_text + " for emojis)"@,
            Some(max_size),
        ),
        EmojiError::InvalidFileType => (415, "INVALID_FILE_TYPE"@, "Invalid file type"@, None),
        EmojiError::NoFile => (400, "NO_FILE"@, "No file provided"@, None),
        EmojiError::Storage(m) => (500, "STORAGE_ERROR"@, m@, None),
        EmojiError::Validation(m) => (400, "VALIDATION_ERROR"@, m@, None),
        EmojiError::LimitExceeded(m) => (403, "LIMIT_EXCEEDED"@, m@, None),
        EmojiError::Database(_) => (500, "INTERNAL_ERROR"@, "Database error"@, None),
    }
}

fn owned(s: &str) -> (r: String)
    ensures
        r@ == s@,
{
    s.to_owned()
}

impl EmojiError {
    /// The error's text.
    pub fn message(&self) -> (r: String)
        ensures
            r@ == emoji_error_text(*self),
    {
        let (prefix, detail): (&str, Option<&String>) = match self {
            EmojiError::GuildNotFound => ("Guild not found", None),
            EmojiError::EmojiNotFound => ("Emoji not found", None),
            EmojiError::Forbidden => ("Insufficient permissions", None),
            EmojiError::InvalidFilename => ("Invalid filename", None),
            EmojiError::FileTooLarge { max_size } => {
                let mut out = owned("File too large (maximum ");
                push_unsigned(&mut out, *max_size as u64);
                push_str(&mut out, " bytes)");
                return out;
            },
            EmojiError::InvalidFileType => (
                "Invalid file type (must be PNG, JPEG, GIF, or WebP)",
                None,
            ),
            EmojiError::NoFile => ("No file provided", None),
            EmojiError::Storage(m) => ("Storage error: ", Some(m)),
            EmojiError::Validation(m) => ("Validation error: ", Some(m)),
            EmojiError::LimitExceeded(m) => ("Limit exceeded: ", Some(m)),
            EmojiError::Database(m) => ("Database error: ", Some(m)),
        };
        let mut out = owned(prefix);
        if let Some(m) = detail {
            push_str(&mut out, m.as_str());
        }
        out
    }

    /// The HTTP status, error code and message of the answer, and the size
    /// limit in bytes for a file that is too large. `max_size_text` is that
    /// limit as the server's file-size formatter writes it; only the answer
    /// to a file that is too large shows it.
    pub fn response(&self, max_size_text: &str) -> (r: (u16, &'static str, String, Option<usize>))
        ensures
            (r.0, r.1@, r.2@, r.3) == emoji_error_response(*self, max_size_text@),
    {
        match self {
            EmojiError::GuildNotFound => (404, "GUILD_NOT_FOUND", owned("Guild not found"), None),
            EmojiError::EmojiNotFound => (404, "EMOJI_NOT_FOUND", owned("Emoji not found"), None),
            EmojiError::Forbidden => (403, "FORBIDDEN", owned("Insufficient permissions"), None),
            EmojiError::InvalidFilename => (400, "INVALID_FILENAME", owned("Invalid filename"), None),
            EmojiError::FileTooLarge { max_size } => {
                let mut m = owned("File too large (max ");
                push_str(&mut m, max_size_text);
                push_str(&mut m, " for emojis)");
                (413, "FILE_TOO_LARGE", m, Some(*max_size))
            },
            EmojiError::InvalidFileType => (415, "INVALID_FILE_TYPE", owned("Invalid file type"), None),
            EmojiError::NoFile => (400, "NO_FILE", owned("No file provided"), None),
            EmojiError::Storage(m) => (500, "STORAGE_ERROR", m.clone(), None),
            EmojiError::Validation(m) => (400, "VALIDATION_ERROR", m.clone(), None),
            EmojiError::LimitExceeded(m) => (403, "LIMIT_EXCEEDED", m.clone(), None),
            EmojiError::Database(_) => (500, "INTERNAL_ERROR", owned("Database error"), None),
        }
    }
}

/// Emoji requests are for guild members; to others the guild does not exist.
pub fn require_emoji_member(is_member: bool) -> (r: Result<(), EmojiError>)
    ensures
        is_member ==> r is Ok,
        !is_member ==> r matches Err(EmojiError::GuildNotFound),
{
    if is_member {
        Ok(())
    } else {
        Err(EmojiError::GuildNotFound)
    }
}

/// The refusal when a guild holds its maximum number of emojis.
pub open spec fn emoji_limit_message(max: i64) -> Seq<char> {
    "Maximum number of emojis per guild reached ("@ + decimal(max as int) + ")"@
}

/// A guild at its emoji limit takes no new emoji.
pub fn check_emoji_limit(emoji_count: i64, max_emojis: i64) -> (r: Result<(), EmojiError>)
    ensures
        emoji_count >= max_emojis ==> (r matches Err(EmojiError::LimitExceeded(m)) && m@
            == emoji_limit_message(max_emojis)),
        emoji_count < max_emojis ==> r is Ok,
{
    if emoji_count >= max_emojis {
        let mut m = owned("Maximum number of emojis per guild reached (");
        push_decimal(&mut m, max_emojis);
        push_str(&mut m, ")");
        Err(EmojiError::LimitExceeded(m))
    } else {
        Ok(())
    }
}

/// Uploads need file storage.
pub fn require_storage(configured: bool) -> (r: Result<(), EmojiError>)
    ensures
        configured ==> r is Ok,
        !configured ==> (r matches Err(EmojiError::Storage(m)) && m@ == "S3 not configured"@),
{
    if configured {
        Ok(())
    } else {
        Err(EmojiError::Storage(owned("S3 not configured")))
    }
}

/// The fields of an emoji upload form received so far: the last `name` and
/// the last `file` given win.
#[derive(Debug, Clone)]
pub struct EmojiUploadForm {
    pub name: Option<String>,
    pub file: Option<Vec<u8>>,
}

impl EmojiUploadForm {
    /// A form with no field received.
    pub fn new() -> (r: Self)
        ensures
            r.name is None,
            r.file is None,
    {
        EmojiUploadForm { name: None, file: None }
    }

    /// Takes one form field; fields other than `name` and `file` are ignored,
    /// and a file larger than `max_size` bytes refuses the upload.
    pub fn accept_field(&mut self, field_name: &str, text: Option<String>, data: Option<Vec<u8>>, max_size: usize) -> (r:
        Result<(), EmojiError>)
        requires
            field_name@ == "name"@ ==> text is Some,
            field_name@ == "file"@ ==> data is Some,
        ensures
            field_name@ == "name"@ ==> r is Ok && final(self).name == text && final(self).file
                == old(self).file,
            field_name@ == "file"@ && data->0@.len() > max_size ==> (r matches Err(
                EmojiError::FileTooLarge { max_size: m },
            ) && m == max_size && *final(self) == *old(self)),
            field_name@ == "file"@ && data->0@.len() <= max_size ==> r is Ok && final(self).file
                == data && final(self).name == old(self).name,
            field_name@ != "name"@ && field_name@ != "file"@ ==> r is Ok && *final(self)
                == *old(self),
    {
        proof {
            reveal_strlit("name");
            reveal_strlit("file");
            assert("name"@[0] == 'n' && "file"@[0] == 'f');
        }
        if crate::text::str_eq(field_name, "name") {
            self.name = text;
            Ok(())
        } else if crate::text::str_eq(field_name, "file") {
            match data {
                Some(d) => {
                    if d.len() > max_size {
                        return Err(EmojiError::FileTooLarge { max_size });
                    }
                    self.file = Some(d);
                    Ok(())
                },
                None => Ok(()),
            }
        } else {
            Ok(())
        }
    }

    /// The emoji's name and image once the form is complete: a file is
    /// required, then a name, which must have 2 to 32 characters.
    pub fn finish(self) -> (r: Result<(String, Vec<u8>), EmojiError>)
        ensures
            self.file is None ==> r matches Err(EmojiError::NoFile),
            self.file is Some && self.name is None ==> (r matches Err(EmojiError::Validation(m))
                && m@ == "Name required"@),
            self.file is Some && self.name is Some && emoji_name_violations(self.name->0@).len()
                > 0 ==> (r matches Err(EmojiError::Validation(m)) && m@ == "name"@ + ": "@
                + "Name must be 2-32 characters"@),
            self.file is Some && self.name is Some && emoji_name_violations(self.name->0@).len()
                == 0 ==> r == Ok::<(String, Vec<u8>), EmojiError>((self.name->0, self.file->0)),
    {
        let file = match self.file {
            None => return Err(EmojiError::NoFile),
            Some(f) => f,
        };
        let name = match self.name {
            None => return Err(EmojiError::Validation(owned("Name required"))),
            Some(n) => n,
        };
        let req = CreateEmojiRequest { name };
        let violations = req.validate();
        if violations.len() > 0 {
            proof {
                assert(violations_view(violations@)[0] == (violations@[0].field@, violations@[0].message@));
            }
            return Err(EmojiError::Validation(violations_text(&violations)));
        }
        Ok((req.name, file))
    }
}

/// An image format told from a file's first bytes.
#[derive(Debug, Clone, Copy, PartialEq, Eq, Structural)]
pub enum ImageFormatKind {
    Png,
    Jpeg,
    Gif,
    WebP,
    /// A format that emojis do not accept.
    Other,
}

/// Whether `b` begins with `prefix`.
pub open spec fn starts_with_bytes(b: Seq<u8>, prefix: Seq<u8>) -> bool {
    prefix.len() <= b.len() && b.subrange(0, prefix.len() as int) == prefix
}

/// The emoji formats told by their magic bytes, in the order they are tried:
/// PNG (`89 'PNG' 0D 0A 1A 0A`), JPEG (`FF D8 FF`), GIF (`GIF89a` or
/// `GIF87a`), WebP (`RIFF`, any four bytes, `WEBP`); `None` for any other
/// start.
pub open spec fn emoji_magic(b: Seq<u8>) -> Option<ImageFormatKind> {
    if starts_with_bytes(b, seq![0x89u8, 0x50, 0x4E, 0x47, 0x0D, 0x0A, 0x1A, 0x0A]) {
        Some(ImageFormatKind::Png)
    } else if starts_with_bytes(b, seq![0xFFu8, 0xD8, 0xFF]) {
        Some(ImageFormatKind::Jpeg)
    } else if starts_with_bytes(b, seq![0x47u8, 0x49, 0x46, 0x38, 0x39, 0x61])
        || starts_with_bytes(b, seq![0x47u8, 0x49, 0x46, 0x38, 0x37, 0x61]) {
        Some(ImageFormatKind::Gif)
    } else if b.len() >= 12 && b.subrange(0, 4) == seq![0x52u8, 0x49, 0x46, 0x46]
        && b.subrange(8, 12) == seq![0x57u8, 0x45, 0x42, 0x50] {
        Some(ImageFormatKind::WebP)
    } else {
        None
    }
}

/// Whether a file starts with the signature of an image format that emojis
/// do not accept, in `image`'s table of magic bytes: TIFF (`MM 00 2A`,
/// `II 2A 00`), DDS (`DDS `), BMP (`BM`), ICO (`00 00 01 00`), HDR
/// (`#?RADIANCE`), AVIF (`00 00`, any two bytes, `ftypavif`), OpenEXR
/// (`76 2F 31 01`), QOI (`qoif`), PNM (`P1` to `P7`), farbfeld (`farbfeld`).
pub open spec fn other_image_magic(b: Seq<u8>) -> bool {
    ||| starts_with_bytes(b, seq![0x4Du8, 0x4D, 0x00, 0x2A])
    ||| starts_with_bytes(b, seq![0x49u8, 0x49, 0x2A, 0x00])
    ||| starts_with_bytes(b, seq![0x44u8, 0x44, 0x53, 0x20])
    ||| starts_with_bytes(b, seq![0x42u8, 0x4D])
    ||| starts_with_bytes(b, seq![0x00u8, 0x00, 0x01, 0x00])
    ||| starts_with_bytes(b, seq![0x23u8, 0x3F, 0x52, 0x41, 0x44, 0x49, 0x41, 0x4E, 0x43, 0x45])
    ||| (b.len() >= 12 && b[0] == 0u8 && b[1] == 0u8 && b.subrange(4, 12) == seq![
        0x66u8,
        0x74,
        0x79,
        0x70,
        0x61,
        0x76,
        0x69,
        0x66,
    ])
    ||| starts_with_bytes(b, seq![0x76u8, 0x2F, 0x31, 0x01])
    ||| starts_with_bytes(b, seq![0x71u8, 0x6F, 0x69, 0x66])
    ||| (b.len() >= 2 && b[0] == 0x50u8 && 0x31u8 <= b[1] && b[1] <= 0x37u8)
    ||| starts_with_bytes(b, seq![0x66u8, 0x61, 0x72, 0x62, 0x66, 0x65, 0x6C, 0x64])
}

/// The format `image::guess_format` reads from a file's first bytes: the
/// emoji formats, whose signatures come first in its table; `Other` for any
/// other format in the table; `None` when no signature matches.
pub open spec fn guessed_image_format(b: Seq<u8>) -> Option<ImageFormatKind> {
    if emoji_magic(b) is Some {
        emoji_magic(b)
    } else if other_image_magic(b) {
        Some(ImageFormatKind::Other)
    } else {
        None
    }
}

/// `image::guess_format`: the format named by the file's magic bytes.
///
/// The crate tries the signatures of its fixed table in order and answers
/// with the first that matches; the contract states that table.
#[verifier::external_body]
fn guess_image_format(bytes: &[u8]) -> (r: Option<ImageFormatKind>)
    ensures
        r == guessed_image_format(bytes@),
{
    match image::guess_format(bytes) {
        Err(_) => None,
        Ok(image::ImageFormat::Png) => Some(ImageFormatKind::Png),
        Ok(image::ImageFormat::Jpeg) => Some(ImageFormatKind::Jpeg),
        Ok(image::ImageFormat::Gif) => Some(ImageFormatKind::Gif),
        Ok(image::ImageFormat::WebP) => Some(ImageFormatKind::WebP),
        Ok(_) => Some(ImageFormatKind::Other),
    }
}

/// The content type and file extension stored for an emoji image of a
/// format: PNG, JPEG, GIF and WebP are accepted.
pub open spec fn emoji_media(format: Option<ImageFormatKind>) -> Result<
    (Seq<char>, Seq<char>),
    Seq<char>,
> {
    match format {
        None => Err("Unable to detect image format"@),
        Some(ImageFormatKind::Png) => Ok(("image/png"@, "png"@)),
        Some(ImageFormatKind::Jpeg) => Ok(("image/jpeg"@, "jpg"@)),
        Some(ImageFormatKind::Gif) => Ok(("image/gif"@, "gif"@)),
        Some(ImageFormatKind::WebP) => Ok(("image/webp"@, "webp"@)),
        Some(ImageFormatKind::Other) => Err(
            "Unsupported image format. Only PNG, JPEG, GIF, and WebP are allowed."@,
        ),
    }
}

/// The content type and extension for a detected format, or the validation
/// error that refuses it.
pub fn media_for_format(format: Option<ImageFormatKind>) -> (r: Result<
    (&'static str, &'static str),
    EmojiError,
>)
    ensures
        match (r, emoji_media(format)) {
            (Ok((t, e)), Ok((st, se))) => t@ == st && e@ == se,
            (Err(EmojiError::Validation(m)), Err(sm)) => m@ == sm,
            _ => false,
        },
{
    match format {
        None => Err(EmojiError::Validation(owned("Unable to detect image format"))),
        Some(ImageFormatKind::Png) => Ok(("image/png", "png")),
        Some(ImageFormatKind::Jpeg) => Ok(("image/jpeg", "jpg")),
        Some(ImageFormatKind::Gif) => Ok(("image/gif", "gif")),
        Some(ImageFormatKind::WebP) => Ok(("image/webp", "webp")),
        Some(ImageFormatKind::Other) => Err(
            EmojiError::Validation(
                owned("Unsupported image format. Only PNG, JPEG, GIF, and WebP are allowed."),
            ),
        ),
    }
}

/// The content type and extension of an uploaded emoji image, read from its
/// bytes, or the validation error that refuses it.
pub fn emoji_media_type(bytes: &[u8]) -> (r: Result<(&'static str, &'static str), EmojiError>)
    ensures
        match (r, emoji_media(guessed_image_format(bytes@))) {
            (Ok((t, e)), Ok((st, se))) => t@ == st && e@ == se,
            (Err(EmojiError::Validation(m)), Err(sm)) => m@ == sm,
            _ => false,
        },
        emoji_magic(bytes@) is Some ==> (r matches Ok((t, e)) && emoji_media(emoji_magic(bytes@))
            == Ok::<(Seq<char>, Seq<char>), Seq<char>>((t@, e@))),
        emoji_magic(bytes@) is None ==> r is Err,
{
    media_for_format(guess_image_format(bytes))
}

/// Whether an emoji with this content type is animated: GIFs are.
pub fn is_animated(content_type: &str) -> (r: bool)
    ensures
        r == (content_type@ == "image/gif"@),
{
    crate::text::str_eq(content_type, "image/gif")
}

/// The storage key of an emoji image: `emojis/{guild}/{emoji}.{ext}`.
pub open spec fn emoji_object_key_text(guild_id: u128, emoji_id: u128, ext: Seq<char>) -> Seq<
    char,
> {
    "emojis/"@ + uuid_text(guild_id) + "/"@ + uuid_text(emoji_id) + "."@ + ext
}

/// The storage key of an emoji image.
pub fn emoji_object_key(guild_id: u128, emoji_id: u128, ext: &str) -> (r: String)
    ensures
        r@ == emoji_object_key_text(guild_id, emoji_id, ext@),
{
    let mut out = owned("emojis/");
    push_str(&mut out, uuid_string(guild_id).as_str());
    push_str(&mut out, "/");
    push_str(&mut out, uuid_string(emoji_id).as_str());
    push_str(&mut out, ".");
    push_str(&mut out, ext);
    out
}

/// The URL through which an emoji image is served.
pub fn emoji_image_url(guild_id: u128, emoji_id: u128) -> (r: String)
    ensures
        r@ == "/api/guilds/"@ + uuid_text(guild_id) + "/emojis/"@ + uuid_text(emoji_id)
            + "/image"@,
{
    let mut out = owned("/api/guilds/");
    push_str(&mut out, uuid_string(guild_id).as_str());
    push_str(&mut out, "/emojis/");
    push_str(&mut out, uuid_string(emoji_id).as_str());
    push_str(&mut out, "/image");
    out
}

/// The storage keys removed with an emoji: one per accepted extension.
pub fn emoji_cleanup_keys(guild_id: u128, emoji_id: u128) -> (r: Vec<String>)
    ensures
        r@.len() == 4,
        r@[0]@ == emoji_object_key_text(guild_id, emoji_id, "png"@),
        r@[1]@ == emoji_object_key_text(guild_id, emoji_id, "jpg"@),
        r@[2]@ == emoji_object_key_text(guild_id, emoji_id, "gif"@),
        r@[3]@ == emoji_object_key_text(guild_id, emoji_id, "webp"@),
{
    let mut out: Vec<String> = Vec::new();
    out.push(emoji_object_key(guild_id, emoji_id, "png"));
    out.push(emoji_object_key(guild_id, emoji_id, "jpg"));
    out.push(emoji_object_key(guild_id, emoji_id, "gif"));
    out.push(emoji_object_key(guild_id, emoji_id, "webp"));
    out
}

/// An emoji must exist to be changed or deleted: `uploaded_by` is its
/// uploader, `None` when no such emoji is in the guild.
pub fn require_emoji(uploaded_by: Option<u128>) -> (r: Result<u128, EmojiError>)
    ensures
        uploaded_by is None ==> r matches Err(EmojiError::EmojiNotFound),
        uploaded_by matches Some(u) ==> r == Ok::<u128, EmojiError>(u),
{
    match uploaded_by {
        None => Err(EmojiError::EmojiNotFound),
        Some(u) => Ok(u),
    }
}

/// Whether changing an emoji needs the MANAGE_GUILD permission: it does for
/// anyone but its uploader.
pub fn emoji_edit_needs_permission(uploaded_by: u128, user_id: u128) -> (r: bool)
    ensures
        r == (uploaded_by != user_id),
{
    uploaded_by != user_id
}

/// The outcome of the MANAGE_GUILD check for someone else's emoji: any
/// failure of it is answered as forbidden.
pub fn emoji_permission_outcome(granted: bool) -> (r: Result<(), EmojiError>)
    ensures
        granted ==> r is Ok,
        !granted ==> r matches Err(EmojiError::Forbidden),
{
    if granted {
        Ok(())
    } else {
        Err(EmojiError::Forbidden)
    }
}

} // verus!
