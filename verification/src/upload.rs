//! Uploads: which files are accepted, and under which name, path and URL an
//! accepted file is stored.
//!
//! Nothing here touches a disk or a bucket. The caller stores the bytes
//! under the path that the plan names.

use crate::clock::unix_now;
use crate::text::decimal_text;
use crate::text::int_to_text;
use crate::text::same_text;
use vstd::prelude::*;

verus! {

/// The content types of the images that are accepted.
pub const ALLOWED_IMAGE_TYPES: [&'static str; 4] = [
    "image/jpeg",
    "image/jpg",
    "image/png",
    "image/gif",
];

/// The content types of the spreadsheets that are accepted.
pub const ALLOWED_EXCEL_TYPES: [&'static str; 2] = [
    "application/vnd.ms-excel",
    "application/vnd.openxmlformats-officedocument.spreadsheetml.sheet",
];

/// The directory for images where none is configured.
pub const DEFAULT_IMAGE_DIR: &'static str = "uploads/images";

/// The directory for spreadsheets where none is configured.
pub const DEFAULT_EXCEL_DIR: &'static str = "uploads/excels";

/// The address under which stored files are reached where none is
/// configured.
pub const DEFAULT_BASE_URL: &'static str = "http://localhost:8002";

/// The region of the bucket where none is configured.
pub const DEFAULT_BUCKET_REGION: &'static str = "ap-southeast-1";

/// The largest upload that is accepted where nothing else is configured:
/// ten mebibytes.
pub const DEFAULT_MAX_SIZE: usize = 10485760;

/// What an upload may be and where it goes.
#[derive(Debug, Clone)]
pub struct UploadConfig {
    pub max_size: usize,
    pub allowed_types: Vec<String>,
    pub upload_dir: String,
}

impl Default for UploadConfig {
    /// Images of up to ten mebibytes, stored under `uploads/images`.
    fn default() -> (config: Self)
        ensures
            config.max_size == DEFAULT_MAX_SIZE,
            config.upload_dir@ == DEFAULT_IMAGE_DIR@,
            config.allowed_types@.len() == 4,
            config.allowed_types@[0]@ == "image/jpeg"@,
            config.allowed_types@[1]@ == "image/jpg"@,
            config.allowed_types@[2]@ == "image/png"@,
            config.allowed_types@[3]@ == "image/gif"@,
    {
        let mut allowed_types: Vec<String> = Vec::new();
        allowed_types.push(String::from_str("image/jpeg"));
        allowed_types.push(String::from_str("image/jpg"));
        allowed_types.push(String::from_str("image/png"));
        allowed_types.push(String::from_str("image/gif"));
        UploadConfig {
            max_size: DEFAULT_MAX_SIZE,
            allowed_types,
            upload_dir: String::from_str(DEFAULT_IMAGE_DIR),
        }
    }
}

/// Where an upload was stored.
#[derive(Debug, Clone)]
pub struct UploadResult {
    pub filename: String,
    pub path: String,
    pub url: String,
    pub size: usize,
}

/// The characters of each text.
pub open spec fn texts_of(texts: Seq<&str>) -> Seq<Seq<char>> {
    Seq::new(texts.len(), |i: int| texts[i]@)
}

/// Whether `content_type` is one of `allowed_types`, character for
/// character.
pub fn allow_file_type(content_type: &str, allowed_types: &[&str]) -> (allowed: bool)
    ensures
        allowed == texts_of(allowed_types@).contains(content_type@),
{
    let mut at: usize = 0;
    while at < allowed_types.len()
        invariant
            at <= allowed_types.len(),
            forall|i: int| 0 <= i < at ==> texts_of(allowed_types@)[i] != content_type@,
        decreases allowed_types.len() - at,
    {
        if same_text(allowed_types[at], content_type) {
            assert(texts_of(allowed_types@)[at as int] == content_type@);
            return true;
        }
        at = at + 1;
    }
    false
}

/// Whether a file name is one component of a path on every platform: it
/// holds no slash, no backslash and no colon, so that no platform cuts it
/// into directories or reads a drive from it.
pub open spec fn is_plain_name(name: Seq<char>) -> bool {
    !name.contains('/') && !name.contains('\\') && !name.contains(':')
}

/// The extension of a plain file name: what stands behind its last dot. A
/// name without a dot has none, nor has a name whose only dot leads it,
/// nor has the name `..`.
pub open spec fn plain_extension(name: Seq<char>) -> Option<Seq<char>> {
    if name.index_of_last('.') is None || name.index_of_last('.') == Some(0int) || name == ".."@ {
        None
    } else {
        Some(name.skip(name.index_of_last('.')->0 + 1))
    }
}

/// Whether `extension` can be the extension of `filename`: it holds no dot,
/// and somewhere in the file name a dot is followed by it.
pub open spec fn may_be_extension(filename: Seq<char>, extension: Seq<char>) -> bool {
    &&& !extension.contains('.')
    &&& exists|at: int|
        0 <= at && at + 1 + extension.len() <= filename.len() && filename[at] == '.'
            && #[trigger] filename.subrange(at + 1, at + 1 + extension.len()) == extension
}

/// Whether a file with this extension is accepted: it must have an
/// extension, and the extension must be one of `allowed_extensions`.
pub fn extension_allowed(extension: Option<&str>, allowed_extensions: &[&str]) -> (allowed: bool)
    ensures
        allowed == match extension {
            Some(found) => texts_of(allowed_extensions@).contains(found@),
            None => false,
        },
{
    match extension {
        Some(found) => allow_file_type(found, allowed_extensions),
        None => false,
    }
}

/// Whether the extension of `filename` is one of `allowed_extensions`.
///
/// For a plain file name the extension is what stands behind its last dot.
/// For a path it is the platform's reading of the last component; a file is
/// then accepted only with a dot followed by an allowed extension in it.
pub fn check_extension(filename: &str, allowed_extensions: &[&str]) -> (allowed: bool)
    ensures
        is_plain_name(filename@) ==> allowed == match plain_extension(filename@) {
            Some(extension) => texts_of(allowed_extensions@).contains(extension),
            None => false,
        },
        allowed ==> exists|i: int|
            0 <= i < allowed_extensions@.len() && may_be_extension(
                filename@,
                #[trigger] texts_of(allowed_extensions@)[i],
            ),
        !filename@.contains('.') ==> !allowed,
{
    let extension = file_extension(filename);
    let allowed = extension_allowed(extension, allowed_extensions);
    proof {
        if allowed {
            let found = extension->0@;
            let i = choose|i: int|
                0 <= i < texts_of(allowed_extensions@).len() && texts_of(allowed_extensions@)[i]
                    == found;
            assert(may_be_extension(filename@, texts_of(allowed_extensions@)[i]));
            let at = choose|at: int|
                0 <= at && at + 1 + found.len() <= filename@.len() && filename@[at] == '.'
                    && #[trigger] filename@.subrange(at + 1, at + 1 + found.len()) == found;
            assert(filename@.contains('.'));
        }
    }
    allowed
}

/// `Path::extension` of a file name, as a text.
///
/// How a path falls into components is the platform's business, so the
/// extension is not named as a function of the file name. Two things hold
/// on every platform. An extension holds no dot, and the file name holds a
/// dot followed by it. And a name without slash, backslash and colon is one
/// component, whose extension is as the documentation of `Path::extension`
/// says: none without a dot, none where the only dot leads the name, none
/// for `..`, and else what stands behind the last dot.
#[verifier::external_body]
fn file_extension(filename: &str) -> (extension: Option<&str>)
    ensures
        match extension {
            Some(found) => may_be_extension(filename@, found@),
            None => true,
        },
        is_plain_name(filename@) ==> match extension {
            Some(found) => plain_extension(filename@) == Some(found@),
            None => plain_extension(filename@) is None,
        },
{
    std::path::Path::new(filename).extension().and_then(|found| found.to_str())
}

/// The kind of file that an upload holds.
#[derive(Debug, Clone, Copy, PartialEq, Eq, Structural)]
pub enum UploadKind {
    /// An image; stored as `jpg` where the name gives no extension.
    Image,
    /// A spreadsheet; stored as `xlsx` where the name gives no extension.
    Excel,
}

/// An upload that is not accepted.
#[derive(Debug, Clone)]
pub struct UploadRejection {
    /// The HTTP status: 400.
    pub status: u16,
    pub message: String,
}

/// The name under which an upload is stored: the identifier, an
/// underscore, the time in seconds, a dot and the extension.
pub open spec fn stored_name(id: Seq<char>, timestamp: int, extension: Seq<char>) -> Seq<char> {
    id + "_"@ + decimal_text(timestamp) + "."@ + extension
}

/// The name under which an upload is stored.
pub fn unique_filename(id: &str, timestamp: i64, extension: &str) -> (filename: String)
    ensures
        filename@ == stored_name(id@, timestamp as int, extension@),
{
    let mut filename = String::from_str(id);
    filename.append("_");
    let time = int_to_text(timestamp);
    filename.append(time.as_str());
    filename.append(".");
    filename.append(extension);
    filename
}

/// The extension under which a file of this kind is stored where its name
/// gives none.
pub fn default_extension(kind: UploadKind) -> (extension: &'static str)
    ensures
        extension@ == default_extension_of(kind),
{
    match kind {
        UploadKind::Image => "jpg",
        UploadKind::Excel => "xlsx",
    }
}

/// Checks the content type of an upload of this kind.
///
/// An image must be of one of the image types, a spreadsheet of one of the
/// spreadsheet types. Any other content type is answered with status 400
/// and a message that names it.
pub fn check_content_type(kind: UploadKind, content_type: &str) -> (checked: Result<
    (),
    UploadRejection,
>)
    ensures
        match kind {
            UploadKind::Image => (checked is Ok) == texts_of(ALLOWED_IMAGE_TYPES@).contains(
                content_type@,
            ),
            UploadKind::Excel => (checked is Ok) == texts_of(ALLOWED_EXCEL_TYPES@).contains(
                content_type@,
            ),
        },
        checked matches Err(rejection) ==> rejection.status == 400 && rejection.message@
            == match kind {
            UploadKind::Image => "Invalid file type: "@ + content_type@,
            UploadKind::Excel => "Invalid Excel file type: "@ + content_type@,
        },
{
    match kind {
        UploadKind::Image => {
            if allow_file_type(content_type, &ALLOWED_IMAGE_TYPES) {
                Ok(())
            } else {
                let mut message = String::from_str("Invalid file type: ");
                message.append(content_type);
                Err(UploadRejection { status: 400, message })
            }
        },
        UploadKind::Excel => {
            if allow_file_type(content_type, &ALLOWED_EXCEL_TYPES) {
                Ok(())
            } else {
                let mut message = String::from_str("Invalid Excel file type: ");
                message.append(content_type);
                Err(UploadRejection { status: 400, message })
            }
        },
    }
}

/// Where a file is stored on the local disk.
#[derive(Debug, Clone)]
pub struct LocalPlan {
    pub filename: String,
    /// The directory, a slash and the file name.
    pub path: String,
    /// The base URL, a slash and the path.
    pub url: String,
}

/// Where a file is stored, given its name: in `upload_dir`, and reachable
/// under `base_url`.
pub fn local_plan(filename: String, upload_dir: &str, base_url: &str) -> (plan: LocalPlan)
    ensures
        plan.filename@ == filename@,
        plan.path@ == upload_dir@ + "/"@ + filename@,
        plan.url@ == base_url@ + "/"@ + plan.path@,
{
    let mut path = String::from_str(upload_dir);
    path.append("/");
    path.append(filename.as_str());
    let mut url = String::from_str(base_url);
    url.append("/");
    url.append(path.as_str());
    LocalPlan { filename, path, url }
}

/// Where a file is stored in a bucket.
#[derive(Debug, Clone)]
pub struct BucketPlan {
    pub filename: String,
    /// The key: the folder, a slash and the file name, or the file name
    /// alone where no folder is given.
    pub key: String,
    /// `https://`, the bucket, `.s3.amazonaws.com/` and the key.
    pub url: String,
}

/// The key of a file in a bucket.
pub open spec fn bucket_key(folder: Option<&str>, filename: Seq<char>) -> Seq<char> {
    match folder {
        Some(name) => name@ + "/"@ + filename,
        None => filename,
    }
}

/// Where a file is stored in a bucket, given its name.
pub fn bucket_plan(filename: String, folder: Option<&str>, bucket: &str) -> (plan: BucketPlan)
    ensures
        plan.filename@ == filename@,
        plan.key@ == bucket_key(folder, filename@),
        plan.url@ == "https://"@ + bucket@ + ".s3.amazonaws.com/"@ + plan.key@,
{
    let key = match folder {
        Some(name) => {
            let mut key = String::from_str(name);
            key.append("/");
            key.append(filename.as_str());
            key
        },
        None => filename.clone(),
    };
    let mut url = String::from_str("https://");
    url.append(bucket);
    url.append(".s3.amazonaws.com/");
    url.append(key.as_str());
    BucketPlan { filename, key, url }
}

/// `Uuid::new_v4` in its hyphenated form: a fresh identifier of 36
/// characters, chosen by chance.
#[verifier::external_body]
fn fresh_id() -> (id: String)
    ensures
        id@.len() == 36,
{
    uuid::Uuid::new_v4().to_string()
}

/// The extension under which a file of this kind is stored where its name
/// gives none.
pub open spec fn default_extension_of(kind: UploadKind) -> Seq<char> {
    match kind {
        UploadKind::Image => "jpg"@,
        UploadKind::Excel => "xlsx"@,
    }
}

/// The name for an upload of this kind, given the extension that its name
/// has, an identifier and an instant: the kind's own extension stands in
/// where the name has none.
pub fn filename_for(kind: UploadKind, extension: Option<&str>, id: &str, timestamp: i64) -> (filename:
    String)
    ensures
        filename@ == stored_name(
            id@,
            timestamp as int,
            match extension {
                Some(found) => found@,
                None => default_extension_of(kind),
            },
        ),
{
    let extension = match extension {
        Some(found) => found,
        None => default_extension(kind),
    };
    unique_filename(id, timestamp, extension)
}

/// Whether a file of this kind, sent under `client_name`, may be stored
/// with this extension: with the kind's own, or with one that the name has
/// behind a dot.
pub open spec fn may_store_as(kind: UploadKind, client_name: Seq<char>, extension: Seq<char>) -> bool {
    extension == default_extension_of(kind) || may_be_extension(client_name, extension)
}

/// A name for a new upload of this kind: a fresh identifier, the time of
/// the call, and the extension of the name that the client gave, or the
/// kind's own where that name gives none.
///
/// The name is [`stored_name`] of some identifier of 36 characters, some
/// instant, and an extension that the file may be stored with.
pub fn new_filename(kind: UploadKind, original_filename: &str) -> (filename: String)
    ensures
        exists|id: Seq<char>, timestamp: int, extension: Seq<char>|
            filename@ == #[trigger] stored_name(id, timestamp, extension) && id.len() == 36
                && may_store_as(kind, original_filename@, extension),
{
    let extension = file_extension(original_filename);
    let id = fresh_id();
    let timestamp = unix_now();
    let filename = filename_for(kind, extension, id.as_str(), timestamp);
    proof {
        let stored = match extension {
            Some(found) => found@,
            None => default_extension_of(kind),
        };
        assert(filename@ == stored_name(id@, timestamp as int, stored));
    }
    filename
}

} // verus!
