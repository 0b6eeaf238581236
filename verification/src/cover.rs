use vstd::prelude::*;

use crate::error::AppError;
use crate::models::{CoverAsset, CoverMimeType};
use crate::text::{chars_of, is_plain_file_name, push_char, text_equals};

verus! {

/// The largest cover file the library accepts, in bytes (10 MiB).
pub const MAX_COVER_BYTES: u64 = 10 * 1024 * 1024;

/// The error for a cover operation that failed for a reason the user cannot fix.
pub fn cover_error() -> (error: AppError)
    ensures
        error.code@ == "cover_operation_failed"@,
        error.message@ == "Unable to store the selected cover image."@,
{
    AppError::new("cover_operation_failed", "Unable to store the selected cover image.")
}

/// Refuses a cover file larger than `MAX_COVER_BYTES`.
pub fn check_cover_size(byte_len: u64) -> (r: Result<(), AppError>)
    ensures
        r is Ok <==> byte_len <= MAX_COVER_BYTES,
        r matches Err(e) ==> e.code@ == "cover_too_large"@ && e.message@
            == "The cover image is too large."@,
{
    if byte_len > MAX_COVER_BYTES {
        Err(AppError::new("cover_too_large", "The cover image is too large."))
    } else {
        Ok(())
    }
}

/// `bytes` begins with `prefix`.
pub open spec fn starts_with(bytes: Seq<u8>, prefix: Seq<u8>) -> bool {
    prefix.len() <= bytes.len() && bytes.take(prefix.len() as int) == prefix
}

/// The JPEG signature.
pub open spec fn jpeg_magic() -> Seq<u8> {
    seq![0xffu8, 0xd8u8, 0xffu8]
}

/// The PNG signature.
pub open spec fn png_magic() -> Seq<u8> {
    seq![0x89u8, 0x50u8, 0x4eu8, 0x47u8, 0x0du8, 0x0au8, 0x1au8, 0x0au8]
}

/// The image format that the first bytes of a file show, trusting no file name:
/// JPEG, PNG, or a RIFF container of WebP data.
pub open spec fn detected_image(bytes: Seq<u8>) -> Option<CoverMimeType> {
    if starts_with(bytes, jpeg_magic()) {
        Some(CoverMimeType::Jpeg)
    } else if starts_with(bytes, png_magic()) {
        Some(CoverMimeType::Png)
    } else if bytes.len() >= 12 && bytes.subrange(0, 4) == seq![0x52u8, 0x49u8, 0x46u8, 0x46u8]
        && bytes.subrange(8, 12) == seq![0x57u8, 0x45u8, 0x42u8, 0x50u8] {
        Some(CoverMimeType::Webp)
    } else {
        None
    }
}

/// The file extension a cover of each format is stored under.
pub open spec fn image_extension(mime: CoverMimeType) -> Seq<char> {
    match mime {
        CoverMimeType::Jpeg => "jpg"@,
        CoverMimeType::Png => "png"@,
        CoverMimeType::Webp => "webp"@,
    }
}

/// Whether `bytes` holds `expected` from index `start` on.
fn bytes_at(bytes: &[u8], start: usize, expected: &[u8]) -> (r: bool)
    requires
        start <= bytes@.len(),
    ensures
        r == (start + expected@.len() <= bytes@.len() && bytes@.subrange(
            start as int,
            start + expected@.len(),
        ) == expected@),
{
    if expected.len() > bytes.len() - start {
        return false;
    }
    let mut i: usize = 0;
    while i < expected.len()
        invariant
            i <= expected@.len(),
            start + expected@.len() <= bytes@.len() <= usize::MAX,
            forall|j: int| 0 <= j < i ==> bytes@[start + j] == expected@[j],
        decreases expected@.len() - i,
    {
        if bytes[start + i] != expected[i] {
            assert(bytes@.subrange(start as int, start + expected@.len())[i as int]
                != expected@[i as int]);
            return false;
        }
        i = i + 1;
    }
    assert(bytes@.subrange(start as int, start + expected@.len()) =~= expected@);
    true
}

/// The format of a cover image and the extension it is stored under, told by its
/// first bytes; anything else is refused.
pub fn detect_image(bytes: &[u8]) -> (r: Result<(CoverMimeType, &'static str), AppError>)
    ensures
        match detected_image(bytes@) {
            Some(mime) => r matches Ok((found, extension)) && found == mime && extension@
                == image_extension(mime),
            None => r matches Err(e) && e.code@ == "invalid_cover_image"@ && e.message@
                == "The selected file is not a supported image."@,
        },
{
    let jpeg: [u8; 3] = [0xff, 0xd8, 0xff];
    let png: [u8; 8] = [0x89, 0x50, 0x4e, 0x47, 0x0d, 0x0a, 0x1a, 0x0a];
    let riff: [u8; 4] = [0x52, 0x49, 0x46, 0x46];
    let webp: [u8; 4] = [0x57, 0x45, 0x42, 0x50];
    assert(jpeg@ =~= jpeg_magic());
    assert(png@ =~= png_magic());
    assert(bytes@.take(3) =~= bytes@.subrange(0, 3));
    assert(bytes@.take(8) =~= bytes@.subrange(0, 8));
    if bytes_at(bytes, 0, &jpeg) {
        Ok((CoverMimeType::Jpeg, "jpg"))
    } else if bytes_at(bytes, 0, &png) {
        Ok((CoverMimeType::Png, "png"))
    } else if bytes.len() >= 12 && bytes_at(bytes, 0, &riff) && bytes_at(bytes, 8, &webp) {
        assert(riff@ =~= seq![0x52u8, 0x49u8, 0x46u8, 0x46u8]);
        assert(webp@ =~= seq![0x57u8, 0x45u8, 0x42u8, 0x50u8]);
        Ok((CoverMimeType::Webp, "webp"))
    } else {
        proof {
            if bytes@.len() >= 12 {
                assert(riff@ =~= seq![0x52u8, 0x49u8, 0x46u8, 0x46u8]);
                assert(webp@ =~= seq![0x57u8, 0x45u8, 0x42u8, 0x50u8]);
            }
        }
        Err(AppError::new("invalid_cover_image", "The selected file is not a supported image."))
    }
}

} // verus!

verus! {

/// The SHA-256 digest of `data`, as `sha2::Sha256` computes it.
pub uninterp spec fn sha256_digest(data: Seq<u8>) -> Seq<u8>;

/// `sha2::Sha256::digest`: the digest of `data`, named `sha256_digest`, and, as the
/// type of its output says, 32 bytes long.
#[verifier::external_body]
fn sha256(data: &[u8]) -> (digest: Vec<u8>)
    ensures
        digest@ == sha256_digest(data@),
        digest@.len() == 32,
{
    <sha2::Sha256 as sha2::Digest>::digest(data).to_vec()
}

/// The lowercase hexadecimal digit for `n` (0 to 15).
pub open spec fn hex_digit(n: int) -> char {
    if n < 10 {
        (('0' as int) + n) as char
    } else {
        (('a' as int) + n - 10) as char
    }
}

/// `bytes` written in lowercase hexadecimal, two digits a byte, high nibble first.
pub open spec fn lower_hex(bytes: Seq<u8>) -> Seq<char>
    decreases bytes.len(),
{
    if bytes.len() == 0 {
        Seq::empty()
    } else {
        lower_hex(bytes.drop_last()) + seq![
            hex_digit(bytes.last() as int / 16),
            hex_digit(bytes.last() as int % 16),
        ]
    }
}

fn hex_char(n: u8) -> (c: char)
    requires
        n < 16,
    ensures
        c == hex_digit(n as int),
{
    if n < 10 {
        (48 + n) as char
    } else {
        (87 + n) as char
    }
}

/// `bytes` in lowercase hexadecimal (see `lower_hex`).
pub fn to_lower_hex(bytes: &[u8]) -> (hex: String)
    ensures
        hex@ == lower_hex(bytes@),
{
    let mut hex = String::new();
    let n = bytes.len();
    let mut i: usize = 0;
    assert(bytes@.take(0) =~= Seq::<u8>::empty());
    while i < n
        invariant
            i <= n == bytes@.len(),
            hex@ == lower_hex(bytes@.take(i as int)),
        decreases n - i,
    {
        let b = bytes[i];
        push_char(&mut hex, hex_char(b / 16));
        push_char(&mut hex, hex_char(b % 16));
        assert(bytes@.take(i + 1).drop_last() =~= bytes@.take(i as int));
        assert(hex@ =~= lower_hex(bytes@.take(i + 1)));
        i = i + 1;
    }
    assert(bytes@.take(n as int) =~= bytes@);
    hex
}

/// Where a cover with this digest and format is stored, relative to the
/// application data directory: `covers/<digest in hex>.<extension>`.
pub open spec fn cover_relative_path(digest: Seq<u8>, mime: CoverMimeType) -> Seq<char> {
    seq!['c', 'o', 'v', 'e', 'r', 's', '/'] + lower_hex(digest) + seq!['.'] + image_extension(
        mime,
    )
}

/// A cover file checked and named by its content.
#[derive(Debug)]
pub struct CoverFile {
    pub mime_type: CoverMimeType,
    pub sha256: String,
    pub relative_path: String,
    pub byte_size: i64,
}

/// Checks the bytes of a chosen cover file and names it by its content: a file over
/// `MAX_COVER_BYTES` or of no supported image format is refused; otherwise the file
/// gets its format, the hexadecimal SHA-256 of its bytes, and the path it is stored
/// under.
pub fn plan_cover_file(bytes: &[u8]) -> (r: Result<CoverFile, AppError>)
    ensures
        bytes@.len() > MAX_COVER_BYTES ==> (r matches Err(e) && e.code@ == "cover_too_large"@
            && e.message@ == "The cover image is too large."@),
        bytes@.len() <= MAX_COVER_BYTES && detected_image(bytes@) is None ==> (r matches Err(e)
            && e.code@ == "invalid_cover_image"@ && e.message@
            == "The selected file is not a supported image."@),
        r is Ok <==> bytes@.len() <= MAX_COVER_BYTES && detected_image(bytes@) is Some,
        r matches Ok(file) ==> {
            &&& Some(file.mime_type) == detected_image(bytes@)
            &&& file.sha256@ == lower_hex(sha256_digest(bytes@))
            &&& file.relative_path@ == cover_relative_path(sha256_digest(bytes@), file.mime_type)
            &&& file.byte_size == bytes@.len()
        },
{
    if bytes.len() as u64 > MAX_COVER_BYTES {
        return Err(AppError::new("cover_too_large", "The cover image is too large."));
    }
    let (mime_type, extension) = match detect_image(bytes) {
        Ok(found) => found,
        Err(e) => return Err(e),
    };
    let digest = sha256(bytes);
    let sha = to_lower_hex(digest.as_slice());
    let mut relative_path = String::new();
    let ghost start = relative_path@;
    push_char(&mut relative_path, 'c');
    push_char(&mut relative_path, 'o');
    push_char(&mut relative_path, 'v');
    push_char(&mut relative_path, 'e');
    push_char(&mut relative_path, 'r');
    push_char(&mut relative_path, 's');
    push_char(&mut relative_path, '/');
    let hex_chars = chars_of(sha.as_str());
    let mut i: usize = 0;
    let ghost prefix = relative_path@;
    while i < hex_chars.len()
        invariant
            i <= hex_chars@.len(),
            relative_path@ == prefix + hex_chars@.take(i as int),
        decreases hex_chars@.len() - i,
    {
        push_char(&mut relative_path, hex_chars[i]);
        assert(prefix + hex_chars@.take(i + 1) =~= (prefix + hex_chars@.take(i as int)).push(
            hex_chars@[i as int],
        ));
        i = i + 1;
    }
    assert(hex_chars@.take(hex_chars@.len() as int) =~= hex_chars@);
    push_char(&mut relative_path, '.');
    let ext_chars = chars_of(extension);
    let ghost before_ext = relative_path@;
    let mut j: usize = 0;
    while j < ext_chars.len()
        invariant
            j <= ext_chars@.len(),
            relative_path@ == before_ext + ext_chars@.take(j as int),
        decreases ext_chars@.len() - j,
    {
        push_char(&mut relative_path, ext_chars[j]);
        assert(before_ext + ext_chars@.take(j + 1) =~= (before_ext + ext_chars@.take(
            j as int,
        )).push(ext_chars@[j as int]));
        j = j + 1;
    }
    assert(ext_chars@.take(ext_chars@.len() as int) =~= ext_chars@);
    assert(relative_path@ =~= cover_relative_path(sha256_digest(bytes@), mime_type));
    Ok(CoverFile { mime_type, sha256: sha, relative_path, byte_size: bytes.len() as i64 })
}

/// The cover a series had before a new one was set, when it is a different asset:
/// the one that may now be unreferenced.
pub fn superseded_cover(old: Option<CoverAsset>, current: &CoverAsset) -> (r: Option<CoverAsset>)
    ensures
        r == (match old {
            Some(a) => if a.id@ != current.id@ {
                Some(a)
            } else {
                None
            },
            None => None,
        }),
{
    match old {
        Some(asset) => {
            if text_equals(asset.id.as_str(), current.id.as_str()) {
                None
            } else {
                Some(asset)
            }
        },
        None => None,
    }
}

} // verus!

verus! {

/// One component of a path, as `std::path::Path::components` yields it; a normal
/// component carries its name.
#[derive(Debug, Clone, PartialEq, Eq)]
pub enum PathComponent {
    Prefix,
    RootDir,
    CurDir,
    ParentDir,
    Normal(String),
}

/// `covers`, the directory the cover files are stored in.
pub open spec fn covers_folder() -> Seq<char> {
    seq!['c', 'o', 'v', 'e', 'r', 's']
}

/// A normal path component with the name `name`.
pub open spec fn is_normal_component(component: PathComponent, name: Seq<char>) -> bool {
    component matches PathComponent::Normal(n) && n@ == name
}

/// A relative path that every platform splits the same way into the two normal
/// components `covers` and a file name: `covers/`, then a file name that is not `.`
/// or `..` and holds no `/`, `\` or `:`.
pub open spec fn is_plain_cover_path(s: Seq<char>) -> bool {
    &&& s.len() > 7
    &&& s.take(7) == seq!['c', 'o', 'v', 'e', 'r', 's', '/']
    &&& is_plain_file_name(s.skip(7))
    &&& forall|i: int| 7 <= i < s.len() ==> #[trigger] s[i] != ':'
}

/// The path starts at the root: its first character is `/`.
pub open spec fn starts_at_root(s: Seq<char>) -> bool {
    s.len() > 0 && s[0] == '/'
}

/// The path has a `..` segment: two dots with a `/` or an end of the text on each side.
pub open spec fn has_parent_segment(s: Seq<char>) -> bool {
    exists|i: int|
        #![trigger s[i], s[i + 1]]
        0 <= i && i + 2 <= s.len() && s[i] == '.' && s[i + 1] == '.' && (i == 0 || s[i - 1]
            == '/') && (i + 2 == s.len() || s[i + 2] == '/')
}

/// What a path component is, with the text of a normal component.
pub enum PathPart {
    Prefix,
    RootDir,
    CurDir,
    ParentDir,
    Normal(Seq<char>),
}

/// The kind and text of each component.
pub open spec fn path_parts(components: Seq<PathComponent>) -> Seq<PathPart> {
    components.map_values(
        |c: PathComponent|
            match c {
                PathComponent::Prefix => PathPart::Prefix,
                PathComponent::RootDir => PathPart::RootDir,
                PathComponent::CurDir => PathPart::CurDir,
                PathComponent::ParentDir => PathPart::ParentDir,
                PathComponent::Normal(n) => PathPart::Normal(n@),
            },
    )
}

/// A relative path that every platform reads alike: it does not start with `/` and
/// holds no `\` (a separator on Windows only) and no `:` (which may start a prefix
/// on Windows).
pub open spec fn is_portable_path(s: Seq<char>) -> bool {
    &&& !starts_at_root(s)
    &&& forall|i: int| 0 <= i < s.len() ==> #[trigger] s[i] != '\\' && s[i] != ':'
}

/// The part one `/`-separated segment of a portable path gives: `..` the parent
/// directory; `.` the current directory when it is the first segment, nothing
/// elsewhere; an empty segment nothing; any other text a normal part.
pub open spec fn segment_parts(segment: Seq<char>, first: bool) -> Seq<PathPart> {
    if segment == seq!['.', '.'] {
        seq![PathPart::ParentDir]
    } else if segment == seq!['.'] {
        if first {
            seq![PathPart::CurDir]
        } else {
            Seq::empty()
        }
    } else if segment.len() == 0 {
        Seq::empty()
    } else {
        seq![PathPart::Normal(segment)]
    }
}

/// The parts of the rest `s` of a portable path, `segment` being the text of the
/// segment read so far and `first` telling whether it is the path's first segment.
pub open spec fn parts_from(s: Seq<char>, segment: Seq<char>, first: bool) -> Seq<PathPart>
    decreases s.len(),
{
    if s.len() == 0 {
        segment_parts(segment, first)
    } else if s[0] == '/' {
        segment_parts(segment, first) + parts_from(s.drop_first(), Seq::empty(), false)
    } else {
        parts_from(s.drop_first(), segment.push(s[0]), first)
    }
}

/// The parts of a portable path, as the std documentation describes the split:
/// one for each `/`-separated segment, empty segments and `.` segments after the
/// first dropped (repeated and trailing separators, inner `.`), `..` kept as the
/// parent directory, a leading `.` kept as the current directory.
pub open spec fn portable_parts(s: Seq<char>) -> Seq<PathPart> {
    parts_from(s, Seq::empty(), true)
}

/// `std::path::Path::components` of `relative`, each component told apart by its
/// kind. How a path splits depends on the platform's path syntax (`\` separates
/// and `C:` starts a prefix on Windows only), so of the general case nothing is
/// stated. Stated is what the documentation settles on every platform:
/// - a portable path (`is_portable_path`: not from the root, no `\`, no `:`) splits
///   as `portable_parts` describes;
/// - a path `covers/<name>` as `is_plain_cover_path` describes (no separator,
///   prefix, `.` or `..` in it) yields the normal components `covers` and `<name>`;
/// - the empty path yields no component;
/// - a path that starts with `/` has a root: its first component is the root
///   directory, or a prefix (on Windows);
/// - a `..` segment between slashes is a parent-directory component, since no
///   normalization removes it; only on Windows, where a verbatim prefix turns
///   slashes into ordinary characters, may the first component be a prefix instead.
#[verifier::external_body]
fn path_components(relative: &str) -> (components: Vec<PathComponent>)
    ensures
        is_plain_cover_path(relative@) ==> components@.len() == 2,
        is_plain_cover_path(relative@) ==> is_normal_component(components@[0], covers_folder()),
        is_plain_cover_path(relative@) ==> is_normal_component(components@[1], relative@.skip(7)),
        relative@.len() == 0 ==> components@.len() == 0,
        starts_at_root(relative@) ==> components@.len() > 0 && (components@[0] is RootDir
            || components@[0] is Prefix),
        has_parent_segment(relative@) ==> (components@.len() > 0 && components@[0] is Prefix)
            || exists|k: int| 0 <= k < components@.len() && #[trigger] components@[k] is ParentDir,
        is_portable_path(relative@) ==> path_parts(components@) == portable_parts(relative@),
{
    let mut components = Vec::new();
    for component in std::path::Path::new(relative).components() {
        components.push(match component {
            std::path::Component::Prefix(_) => PathComponent::Prefix,
            std::path::Component::RootDir => PathComponent::RootDir,
            std::path::Component::CurDir => PathComponent::CurDir,
            std::path::Component::ParentDir => PathComponent::ParentDir,
            std::path::Component::Normal(name) => PathComponent::Normal(
                name.to_string_lossy().into_owned(),
            ),
        });
    }
    components
}

/// A path made of exactly two normal components, `covers` and a non-empty file name:
/// a file inside the covers directory and nowhere else.
pub open spec fn is_managed_cover(components: Seq<PathComponent>) -> bool {
    &&& components.len() == 2
    &&& components[0] matches PathComponent::Normal(folder) && folder@ == "covers"@
    &&& components[1] matches PathComponent::Normal(file) && file@.len() > 0
}

/// The parts of a path inside the covers directory: `covers` and one non-empty name.
pub open spec fn is_managed_parts(parts: Seq<PathPart>) -> bool {
    &&& parts.len() == 2
    &&& parts[0] == PathPart::Normal(covers_folder())
    &&& parts[1] matches PathPart::Normal(file) && file.len() > 0
}

/// Whether the components of a path name a file inside the covers directory.
pub fn is_managed_cover_components(components: &Vec<PathComponent>) -> (r: bool)
    ensures
        r == is_managed_cover(components@),
{
    if components.len() != 2 {
        return false;
    }
    let folder_ok = match &components[0] {
        PathComponent::Normal(folder) => text_equals(folder.as_str(), "covers"),
        _ => false,
    };
    let file_ok = match &components[1] {
        PathComponent::Normal(file) => chars_of(file.as_str()).len() > 0,
        _ => false,
    };
    folder_ok && file_ok
}

/// The stored relative path of a cover when it names a file inside the covers
/// directory and nowhere else; `None` for any other path, so that nothing outside
/// that directory is ever deleted. The split of the path into components is the
/// platform's (`std::path`), and is stated only where every platform agrees: paths of
/// the form `covers/<name>` (`is_plain_cover_path`) are managed, as every path a
/// stored cover gets is (`cover_path_stays_in_covers`); the empty path, a path from
/// the root, and a path with a `..` segment never are.
/// `is_managed_cover_components` decides on the components.
pub fn managed_cover_path(relative: &str) -> (r: Option<String>)
    ensures
        r matches Some(path) ==> path@ == relative@,
        is_plain_cover_path(relative@) ==> r is Some,
        relative@.len() == 0 || starts_at_root(relative@) || has_parent_segment(relative@)
            ==> r is None,
        is_portable_path(relative@) ==> (r is Some <==> is_managed_parts(
            portable_parts(relative@),
        )),
{
    let components = path_components(relative);
    proof {
        reveal_strlit("covers");
        assert("covers"@ =~= covers_folder());
        let parts = path_parts(components@);
        if parts.len() == 2 {
            assert(parts[0] == PathPart::Normal(covers_folder()) <==> is_normal_component(
                components@[0],
                covers_folder(),
            ));
        }
    }
    proof {
        if has_parent_segment(relative@) && is_managed_cover(components@) {
            if !(components@[0] is Prefix) {
                let k = choose|k: int| 0 <= k < components@.len() && #[trigger] components@[k] is ParentDir;
                assert(components@[k] is Normal);
            }
        }
    }
    if is_managed_cover_components(&components) {
        Some(relative.to_owned())
    } else {
        None
    }
}

} // verus!

verus! {

proof fn lower_hex_has_no_separator(bytes: Seq<u8>)
    ensures
        forall|i: int|
            0 <= i < lower_hex(bytes).len() ==> #[trigger] lower_hex(bytes)[i] != '/'
                && lower_hex(bytes)[i] != '\\' && lower_hex(bytes)[i] != '.' && lower_hex(bytes)[i]
                != ':',
    decreases bytes.len(),
{
    if bytes.len() > 0 {
        lower_hex_has_no_separator(bytes.drop_last());
        let h = lower_hex(bytes);
        let g = lower_hex(bytes.drop_last());
        assert forall|i: int| 0 <= i < h.len() implies #[trigger] h[i] != '/' && h[i] != '\\'
            && h[i] != '.' && h[i] != ':' by {
            if i < g.len() {
                assert(h[i] == g[i]);
            }
        }
    }
}

/// A cover is always stored directly inside the covers directory: its relative path
/// is `covers/` and a plain file name, whatever the digest and format, so it is a
/// path that `managed_cover_path` accepts.
pub proof fn cover_path_stays_in_covers(digest: Seq<u8>, mime: CoverMimeType)
    ensures
        cover_relative_path(digest, mime).take(7) == seq!['c', 'o', 'v', 'e', 'r', 's', '/'],
        is_plain_file_name(cover_relative_path(digest, mime).skip(7)),
        is_plain_cover_path(cover_relative_path(digest, mime)),
{
    reveal_strlit("jpg");
    reveal_strlit("png");
    reveal_strlit("webp");
    assert("jpg"@ =~= seq!['j', 'p', 'g']);
    assert("png"@ =~= seq!['p', 'n', 'g']);
    assert("webp"@ =~= seq!['w', 'e', 'b', 'p']);
    lower_hex_has_no_separator(digest);
    let path = cover_relative_path(digest, mime);
    let hex = lower_hex(digest);
    let ext = image_extension(mime);
    let name = hex + seq!['.'] + ext;
    assert(path.take(7) =~= seq!['c', 'o', 'v', 'e', 'r', 's', '/']);
    assert(path.skip(7) =~= name);
    assert forall|i: int| 0 <= i < name.len() implies #[trigger] name[i] != '/' && name[i]
        != '\\' && name[i] != ':' by {
        if i < hex.len() {
            assert(name[i] == hex[i]);
        } else if i > hex.len() {
            assert(name[i] == ext[i - hex.len() - 1]);
        }
    }
    assert(name.len() >= 4);
    assert forall|i: int| 7 <= i < path.len() implies #[trigger] path[i] != ':' by {
        assert(path[i] == name[i - 7]);
    }
}

} // verus!

verus! {

/// Which files are images, told byte by byte: a file whose first three bytes are
/// `ff d8 ff` is a JPEG (stored as `.jpg`) whatever follows them, JFIF, Exif or
/// anything else; one that starts with the eight-byte PNG signature is a PNG
/// (`.png`); one of at least twelve bytes with `RIFF` at the start and `WEBP` at
/// byte eight is a WebP (`.webp`); a file that is none of these is no image.
pub proof fn image_kinds_are_told_by_their_first_bytes(bytes: Seq<u8>)
    ensures
        bytes.len() >= 3 && bytes[0] == 0xffu8 && bytes[1] == 0xd8u8 && bytes[2] == 0xffu8
            ==> detected_image(bytes) == Some(CoverMimeType::Jpeg),
        !(bytes.len() >= 3 && bytes[0] == 0xffu8 && bytes[1] == 0xd8u8 && bytes[2] == 0xffu8)
            && bytes.len() >= 8 && bytes[0] == 0x89u8 && bytes[1] == 0x50u8 && bytes[2] == 0x4eu8
            && bytes[3] == 0x47u8 && bytes[4] == 0x0du8 && bytes[5] == 0x0au8 && bytes[6] == 0x1au8
            && bytes[7] == 0x0au8 ==> detected_image(bytes) == Some(CoverMimeType::Png),
        bytes.len() >= 12 && bytes[0] == 0x52u8 && bytes[1] == 0x49u8 && bytes[2] == 0x46u8
            && bytes[3] == 0x46u8 && bytes[8] == 0x57u8 && bytes[9] == 0x45u8 && bytes[10] == 0x42u8
            && bytes[11] == 0x50u8 ==> detected_image(bytes) == Some(CoverMimeType::Webp),
        detected_image(bytes) is Some <==> (bytes.len() >= 3 && bytes[0] == 0xffu8 && bytes[1]
            == 0xd8u8 && bytes[2] == 0xffu8) || (bytes.len() >= 8 && bytes[0] == 0x89u8 && bytes[1]
            == 0x50u8 && bytes[2] == 0x4eu8 && bytes[3] == 0x47u8 && bytes[4] == 0x0du8 && bytes[5]
            == 0x0au8 && bytes[6] == 0x1au8 && bytes[7] == 0x0au8) || (bytes.len() >= 12 && bytes[0]
            == 0x52u8 && bytes[1] == 0x49u8 && bytes[2] == 0x46u8 && bytes[3] == 0x46u8 && bytes[8]
            == 0x57u8 && bytes[9] == 0x45u8 && bytes[10] == 0x42u8 && bytes[11] == 0x50u8),
        image_extension(CoverMimeType::Jpeg) == seq!['j', 'p', 'g'],
        image_extension(CoverMimeType::Png) == seq!['p', 'n', 'g'],
        image_extension(CoverMimeType::Webp) == seq!['w', 'e', 'b', 'p'],
{
    reveal_strlit("jpg");
    reveal_strlit("png");
    reveal_strlit("webp");
    assert("jpg"@ =~= seq!['j', 'p', 'g']);
    assert("png"@ =~= seq!['p', 'n', 'g']);
    assert("webp"@ =~= seq!['w', 'e', 'b', 'p']);
    if bytes.len() >= 3 {
        let j = bytes.take(3);
        assert(j =~= jpeg_magic() <==> (bytes[0] == 0xffu8 && bytes[1] == 0xd8u8 && bytes[2]
            == 0xffu8)) by {
            if bytes[0] == 0xffu8 && bytes[1] == 0xd8u8 && bytes[2] == 0xffu8 {
                assert(j =~= jpeg_magic());
            }
            if j == jpeg_magic() {
                assert(j[0] == bytes[0] && j[1] == bytes[1] && j[2] == bytes[2]);
            }
        }
    }
    if bytes.len() >= 8 {
        let p = bytes.take(8);
        if p == png_magic() {
            assert(p[0] == bytes[0] && p[1] == bytes[1] && p[2] == bytes[2] && p[3] == bytes[3]);
            assert(p[4] == bytes[4] && p[5] == bytes[5] && p[6] == bytes[6] && p[7] == bytes[7]);
        }
        if bytes[0] == 0x89u8 && bytes[1] == 0x50u8 && bytes[2] == 0x4eu8 && bytes[3] == 0x47u8
            && bytes[4] == 0x0du8 && bytes[5] == 0x0au8 && bytes[6] == 0x1au8 && bytes[7] == 0x0au8 {
            assert(p =~= png_magic());
        }
    }
    if bytes.len() >= 12 {
        let r = bytes.subrange(0, 4);
        let w = bytes.subrange(8, 12);
        if r == seq![0x52u8, 0x49u8, 0x46u8, 0x46u8] && w == seq![0x57u8, 0x45u8, 0x42u8, 0x50u8] {
            assert(r[0] == bytes[0] && r[1] == bytes[1] && r[2] == bytes[2] && r[3] == bytes[3]);
            assert(w[0] == bytes[8] && w[1] == bytes[9] && w[2] == bytes[10] && w[3] == bytes[11]);
        }
        if bytes[0] == 0x52u8 && bytes[1] == 0x49u8 && bytes[2] == 0x46u8 && bytes[3] == 0x46u8
            && bytes[8] == 0x57u8 && bytes[9] == 0x45u8 && bytes[10] == 0x42u8 && bytes[11] == 0x50u8 {
            assert(r =~= seq![0x52u8, 0x49u8, 0x46u8, 0x46u8]);
            assert(w =~= seq![0x57u8, 0x45u8, 0x42u8, 0x50u8]);
        }
    }
}

} // verus!
