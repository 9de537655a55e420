//! Shared helpers: argument validation, file names of downloads, and the
//! inline form of image inputs.

use vstd::prelude::*;

use crate::error::{Error, Result};
use crate::text::{
    after_last, after_last_index_of, concat, decimal, first_index_of, from_chars, has_prefix,
    has_suffix, is_digit, lower, owned, push_str, signed_decimal, starts_with, str_eq, to_chars, to_lower,
    trim, trim_str,
};

verus! {

// ---------------------------------------------------------------------------
// Frame counts
// ---------------------------------------------------------------------------

/// Whether a frame count is accepted by Agnes: at most 441 and of the form
/// `8n + 1`.
pub open spec fn frames_ok(n: int) -> bool {
    1 <= n <= 441 && (n - 1) % 8 == 0
}

/// The message of the error for a frame count that is not accepted.
pub open spec fn bad_frames_message(n: int) -> Seq<char> {
    "num_frames must be <= 441 and satisfy 8n + 1 (e.g. 81, 121, 161, 241, 441). Got "@
        + signed_decimal(n) + "."@
}

/// Validate that `num_frames` satisfies the Agnes constraint `<= 441` and
/// `(n - 1) % 8 == 0`.
pub fn validate_num_frames(num_frames: i64) -> (r: Result<()>)
    ensures
        r is Ok <==> frames_ok(num_frames as int),
        r matches Err(e) ==> e.is_config_with(bad_frames_message(num_frames as int)),
{
    if !(1 <= num_frames && num_frames <= 441) || (num_frames - 1) % 8 != 0 {
        let mut m = owned(
            "num_frames must be <= 441 and satisfy 8n + 1 (e.g. 81, 121, 161, 241, 441). Got ",
        );
        let n = crate::text::i64_to_string(num_frames);
        push_str(&mut m, n.as_str());
        push_str(&mut m, ".");
        Err(Error::config(m))
    } else {
        Ok(())
    }
}

// ---------------------------------------------------------------------------
// Output sizes
// ---------------------------------------------------------------------------

/// The pattern an output size must match: `WIDTHxHEIGHT`, each 2 to 5
/// digits without a leading zero.
pub const SIZE_PATTERN: &'static str = "^[1-9][0-9]{1,4}x[1-9][0-9]{1,4}$";

/// Whether the regular expression `pattern` (in `regex_lite` syntax)
/// matches somewhere in `haystack`; `false` when `pattern` does not compile.
pub uninterp spec fn regex_is_match(pattern: Seq<char>, haystack: Seq<char>) -> bool;

/// Whether `s` is one dimension of an output size: 2 to 5 ASCII digits,
/// the first not `0` (`[1-9][0-9]{1,4}`).
pub open spec fn dimension_ok(s: Seq<char>) -> bool {
    &&& 2 <= s.len() <= 5
    &&& s[0] != '0'
    &&& forall|k: int| 0 <= k < s.len() ==> #[trigger] is_digit(s[k])
}

/// What [`SIZE_PATTERN`] accepts: the whole text is a dimension, `x`, and a
/// dimension.
pub open spec fn size_shaped(s: Seq<char>) -> bool {
    exists|i: int|
        0 <= i < s.len() && s[i] == 'x' && dimension_ok(#[trigger] s.take(i)) && dimension_ok(
            s.skip(i + 1),
        )
}

/// `regex_lite::Regex::new(pattern)` then `Regex::is_match(haystack)`.
///
/// Claims that the answer is a function of the pattern and the haystack,
/// named [`regex_is_match`], and, for [`SIZE_PATTERN`] (anchored at both
/// ends, with ASCII digit classes and counted repetition as `regex_lite`
/// documents them), that it is [`size_shaped`]. What other patterns mean is
/// left to `regex_lite`. A pattern that does not compile matches nothing.
#[verifier::external_body]
fn regex_match(pattern: &str, haystack: &str) -> (r: bool)
    ensures
        r == regex_is_match(pattern@, haystack@),
        pattern@ == SIZE_PATTERN@ ==> (r <==> size_shaped(haystack@)),
{
    match regex_lite::Regex::new(pattern) {
        Ok(re) => re.is_match(haystack),
        Err(_) => false,
    }
}

/// The message of the error for a malformed size.
pub open spec fn bad_size_message(size: Seq<char>) -> Seq<char> {
    "invalid size '"@ + size + "'. Use a pixel size such as 1024x768."@
}

/// The verdict on a size given whether it matched [`SIZE_PATTERN`].
pub fn size_verdict(size: &str, matched: bool) -> (r: Result<()>)
    ensures
        r is Ok <==> matched,
        r matches Err(e) ==> e.is_config_with(bad_size_message(size@)),
{
    if matched {
        Ok(())
    } else {
        let mut m = owned("invalid size '");
        push_str(&mut m, size);
        push_str(&mut m, "'. Use a pixel size such as 1024x768.");
        Err(Error::config(m))
    }
}

/// Validate that a size string looks like `WxH` (e.g. `1024x768`).
pub fn validate_size(size: &str) -> (r: Result<()>)
    ensures
        r is Ok <==> size_shaped(size@),
        r matches Err(e) ==> e.is_config_with(bad_size_message(size@)),
{
    let matched = regex_match(SIZE_PATTERN, size);
    size_verdict(size, matched)
}

// ---------------------------------------------------------------------------
// File names of downloads
// ---------------------------------------------------------------------------

/// Index of the first `?` or `#` in `s`, or `s.len()` if neither occurs.
pub open spec fn query_start(s: Seq<char>) -> int
    decreases s.len(),
{
    if s.len() == 0 {
        0
    } else if s[0] == '?' || s[0] == '#' {
        0
    } else {
        1 + query_start(s.drop_first())
    }
}

/// The URL without its query string and fragment.
pub open spec fn url_path(url: Seq<char>) -> Seq<char> {
    url.subrange(0, query_start(url))
}

/// The last `/`-separated segment of a path.
pub open spec fn basename(p: Seq<char>) -> Seq<char> {
    p.subrange(after_last_index_of(p, '/'), p.len() as int)
}

/// The base name of a URL's path, when it is not empty.
pub open spec fn url_basename(url: Seq<char>) -> Option<Seq<char>> {
    let b = basename(url_path(url));
    if b.len() > 0 {
        Some(b)
    } else {
        None
    }
}

/// Whether a file name ends (case-insensitively) with an image or video
/// extension.
pub open spec fn has_recognized_ext(name: Seq<char>) -> bool {
    let l = lower(name);
    has_suffix(l, ".png"@) || has_suffix(l, ".jpg"@) || has_suffix(l, ".jpeg"@) || has_suffix(
        l,
        ".gif"@,
    ) || has_suffix(l, ".webp"@) || has_suffix(l, ".bmp"@) || has_suffix(l, ".mp4"@)
        || has_suffix(l, ".webm"@) || has_suffix(l, ".mov"@)
}

/// The file extension for a MIME type.
pub open spec fn mime_ext(m: Seq<char>) -> Option<Seq<char>> {
    if m == "image/png"@ {
        Some("png"@)
    } else if m == "image/jpeg"@ {
        Some("jpg"@)
    } else if m == "image/gif"@ {
        Some("gif"@)
    } else if m == "image/webp"@ {
        Some("webp"@)
    } else if m == "image/bmp"@ {
        Some("bmp"@)
    } else if m == "video/mp4"@ {
        Some("mp4"@)
    } else if m == "video/webm"@ {
        Some("webm"@)
    } else if m == "video/quicktime"@ {
        Some("mov"@)
    } else {
        None
    }
}

/// The extension for a `Content-Type` value: its MIME type (before any `;`),
/// trimmed and lower-cased.
pub open spec fn content_type_ext(ct: Seq<char>) -> Option<Seq<char>> {
    mime_ext(lower(trim(ct.subrange(0, first_index_of(ct, ';')))))
}

/// Whether `e` is one of the recognized extensions.
pub open spec fn known_ext(e: Seq<char>) -> bool {
    e == "png"@ || e == "jpg"@ || e == "jpeg"@ || e == "gif"@ || e == "webp"@ || e == "bmp"@
        || e == "mp4"@ || e == "webm"@ || e == "mov"@
}

/// The lower-cased extension after the last `.` of a name, when recognized.
pub open spec fn suffix_ext(name: Seq<char>) -> Option<Seq<char>> {
    let l = lower(name);
    let k = after_last_index_of(l, '.');
    if k == 0 {
        None
    } else if known_ext(l.subrange(k, l.len() as int)) {
        Some(l.subrange(k, l.len() as int))
    } else {
        None
    }
}

/// `s` without its leading occurrences of `c`.
pub open spec fn trim_leading(s: Seq<char>, c: char) -> Seq<char>
    decreases s.len(),
{
    if s.len() > 0 && s[0] == c {
        trim_leading(s.drop_first(), c)
    } else {
        s
    }
}

/// The file name [`derive_filename`] gives.
pub open spec fn derived_filename(
    url: Seq<char>,
    index: nat,
    content_type: Option<Seq<char>>,
    prefix: Seq<char>,
    default_ext: Seq<char>,
) -> Seq<char> {
    let b = url_basename(url);
    if b is Some && has_recognized_ext(b->0) {
        b->0
    } else {
        let from_ct = match content_type {
            Some(ct) => content_type_ext(ct),
            None => None,
        };
        let ext = match from_ct {
            Some(e) => e,
            None => match b {
                Some(n) => match suffix_ext(n) {
                    Some(e) => e,
                    None => trim_leading(default_ext, '.'),
                },
                None => trim_leading(default_ext, '.'),
            },
        };
        prefix + "-"@ + decimal(index) + "."@ + ext
    }
}

fn url_path_of(url: &str) -> (r: String)
    ensures
        r@ == url_path(url@),
{
    let cs = to_chars(url);
    let mut i: usize = 0;
    assert(url@.subrange(0, url@.len() as int) =~= url@);
    while i < cs.len() && cs[i] != '?' && cs[i] != '#'
        invariant
            cs@ == url@,
            0 <= i <= cs@.len(),
            query_start(url@) == i + query_start(url@.subrange(i as int, url@.len() as int)),
        decreases cs@.len() - i,
    {
        let ghost t = url@.subrange(i as int, url@.len() as int);
        assert(t.drop_first() =~= url@.subrange(i + 1, url@.len() as int));
        i = i + 1;
    }
    proof {
        let t = url@.subrange(i as int, url@.len() as int);
        if i < cs.len() {
            assert(t[0] == cs@[i as int]);
        }
    }
    from_chars(&cs, 0, i)
}

fn recognized_ext(name: &str) -> (r: bool)
    ensures
        r == has_recognized_ext(name@),
{
    let l = to_lower(name);
    let s = l.as_str();
    crate::text::ends_with(s, ".png") || crate::text::ends_with(s, ".jpg")
        || crate::text::ends_with(s, ".jpeg") || crate::text::ends_with(s, ".gif")
        || crate::text::ends_with(s, ".webp") || crate::text::ends_with(s, ".bmp")
        || crate::text::ends_with(s, ".mp4") || crate::text::ends_with(s, ".webm")
        || crate::text::ends_with(s, ".mov")
}

fn ext_for_mime(m: &str) -> (r: Option<String>)
    ensures
        match r {
            Some(e) => mime_ext(m@) == Some(e@),
            None => mime_ext(m@) is None,
        },
{
    if str_eq(m, "image/png") {
        Some(owned("png"))
    } else if str_eq(m, "image/jpeg") {
        Some(owned("jpg"))
    } else if str_eq(m, "image/gif") {
        Some(owned("gif"))
    } else if str_eq(m, "image/webp") {
        Some(owned("webp"))
    } else if str_eq(m, "image/bmp") {
        Some(owned("bmp"))
    } else if str_eq(m, "video/mp4") {
        Some(owned("mp4"))
    } else if str_eq(m, "video/webm") {
        Some(owned("webm"))
    } else if str_eq(m, "video/quicktime") {
        Some(owned("mov"))
    } else {
        None
    }
}

/// Map a Content-Type header value to a file extension (without the dot).
pub fn ext_from_content_type(ct: &str) -> (r: Option<String>)
    ensures
        match r {
            Some(e) => content_type_ext(ct@) == Some(e@),
            None => content_type_ext(ct@) is None,
        },
{
    let head = crate::text::before_first(ct, ';');
    let t = trim_str(head.as_str());
    let l = to_lower(t.as_str());
    ext_for_mime(l.as_str())
}

/// Try to extract a recognized extension from a file name's suffix.
pub fn ext_from_url_suffix(name: &str) -> (r: Option<String>)
    ensures
        match r {
            Some(e) => suffix_ext(name@) == Some(e@),
            None => suffix_ext(name@) is None,
        },
{
    let l = to_lower(name);
    let ghost lv = lower(name@);
    let cs = to_chars(l.as_str());
    let mut j: usize = cs.len();
    assert(lv.subrange(0, lv.len() as int) =~= lv);
    while j > 0 && cs[j - 1] != '.'
        invariant
            cs@ == lv,
            0 <= j <= cs@.len(),
            after_last_index_of(lv, '.') == after_last_index_of(lv.subrange(0, j as int), '.'),
        decreases j,
    {
        let ghost t = lv.subrange(0, j as int);
        assert(t.drop_last() =~= lv.subrange(0, j - 1 as int));
        j = j - 1;
    }
    proof {
        let t = lv.subrange(0, j as int);
        if j > 0 {
            assert(t.last() == '.');
        }
    }
    if j == 0 {
        return None;
    }
    let e = from_chars(&cs, j, cs.len());
    let s = e.as_str();
    if str_eq(s, "png") || str_eq(s, "jpg") || str_eq(s, "jpeg") || str_eq(s, "gif") || str_eq(
        s,
        "webp",
    ) || str_eq(s, "bmp") || str_eq(s, "mp4") || str_eq(s, "webm") || str_eq(s, "mov") {
        Some(e)
    } else {
        None
    }
}

fn trim_leading_dots(s: &str) -> (r: String)
    ensures
        r@ == trim_leading(s@, '.'),
{
    let cs = to_chars(s);
    let mut i: usize = 0;
    assert(s@.subrange(0, s@.len() as int) =~= s@);
    while i < cs.len() && cs[i] == '.'
        invariant
            cs@ == s@,
            0 <= i <= cs@.len(),
            trim_leading(s@, '.') == trim_leading(s@.subrange(i as int, s@.len() as int), '.'),
        decreases cs@.len() - i,
    {
        let ghost t = s@.subrange(i as int, s@.len() as int);
        assert(t.drop_first() =~= s@.subrange(i + 1, s@.len() as int));
        i = i + 1;
    }
    from_chars(&cs, i, cs.len())
}

/// Derive a safe filename for a downloaded asset.
///
/// The URL's base name (without query string and fragment) when it has a
/// recognized image or video extension; otherwise `{prefix}-{index}.{ext}`,
/// with the extension from `content_type`, else from the base name's
/// suffix, else `default_ext` without leading dots.
pub fn derive_filename(
    url: &str,
    index: usize,
    content_type: Option<&str>,
    prefix: &str,
    default_ext: &str,
) -> (r: String)
    ensures
        r@ == derived_filename(
            url@,
            index as nat,
            match content_type {
                Some(c) => Some(c@),
                None => None,
            },
            prefix@,
            default_ext@,
        ),
{
    let path = url_path_of(url);
    let name = after_last(path.as_str(), '/');
    let has_name = to_chars(name.as_str()).len() > 0;
    proof {
        assert(name@ == basename(url_path(url@)));
    }
    if has_name && recognized_ext(name.as_str()) {
        return name;
    }
    let from_ct = match content_type {
        Some(ct) => ext_from_content_type(ct),
        None => None,
    };
    let ext = match from_ct {
        Some(e) => e,
        None => {
            let from_suffix = if has_name {
                ext_from_url_suffix(name.as_str())
            } else {
                None
            };
            match from_suffix {
                Some(e) => e,
                None => trim_leading_dots(default_ext),
            }
        },
    };
    let mut out = owned(prefix);
    push_str(&mut out, "-");
    crate::text::push_decimal(&mut out, index as u64);
    push_str(&mut out, ".");
    push_str(&mut out, ext.as_str());
    out
}

// ---------------------------------------------------------------------------
// Image inputs
// ---------------------------------------------------------------------------

/// The character of a 6-bit value in the standard base64 alphabet
/// (`A-Z`, `a-z`, `0-9`, `+`, `/`).
pub open spec fn b64_char(d: nat) -> char {
    if d < 26 {
        ((65 + d) as u32) as char
    } else if d < 52 {
        ((71 + d) as u32) as char
    } else if d < 62 {
        ((d - 4) as u32) as char
    } else if d == 62 {
        '+'
    } else {
        '/'
    }
}

/// Standard base64 (RFC 4648, with `=` padding) of a byte string: each
/// group of three bytes gives four characters; a final group of one or two
/// bytes gives two or three characters and is padded to four with `=`.
pub open spec fn base64_standard(b: Seq<u8>) -> Seq<char>
    decreases b.len(),
{
    if b.len() == 0 {
        Seq::<char>::empty()
    } else if b.len() == 1 {
        seq![b64_char((b[0] / 4) as nat), b64_char(((b[0] % 4) * 16) as nat), '=', '=']
    } else if b.len() == 2 {
        seq![
            b64_char((b[0] / 4) as nat),
            b64_char(((b[0] % 4) * 16 + b[1] / 16) as nat),
            b64_char(((b[1] % 16) * 4) as nat),
            '=',
        ]
    } else {
        seq![
            b64_char((b[0] / 4) as nat),
            b64_char(((b[0] % 4) * 16 + b[1] / 16) as nat),
            b64_char(((b[1] % 16) * 4 + b[2] / 64) as nat),
            b64_char((b[2] % 64) as nat),
        ] + base64_standard(b.skip(3))
    }
}

/// `base64::engine::general_purpose::STANDARD.encode`: the standard base64
/// alphabet with `=` padding (RFC 4648).
#[verifier::external_body]
fn base64_encode(bytes: &[u8]) -> (r: String)
    ensures
        r@ == base64_standard(bytes@),
{
    base64::Engine::encode(&base64::engine::general_purpose::STANDARD, bytes)
}

/// The extension of the file a path names (what `Path::extension` returns,
/// as text).
pub uninterp spec fn path_extension(path: Seq<char>) -> Option<Seq<char>>;

/// `std::path::Path::new(path).extension()`, as text.
///
/// Claims only that the extension is a function of the path, named
/// [`path_extension`]; how the file name and its extension are found is
/// left to `std::path`. An extension that is not valid UTF-8 reads as none.
#[verifier::external_body]
fn extension_of(path: &str) -> (r: Option<String>)
    ensures
        match r {
            Some(e) => path_extension(path@) == Some(e@),
            None => path_extension(path@) is None,
        },
{
    std::path::Path::new(path).extension().and_then(|e| e.to_str()).map(|e| e.to_string())
}

/// The MIME type for a file extension (case-insensitive); PNG when unknown.
pub open spec fn mime_for(ext: Option<Seq<char>>) -> Seq<char> {
    match ext {
        Some(e) => {
            let l = lower(e);
            if l == "jpg"@ || l == "jpeg"@ {
                "image/jpeg"@
            } else if l == "gif"@ {
                "image/gif"@
            } else if l == "webp"@ {
                "image/webp"@
            } else if l == "bmp"@ {
                "image/bmp"@
            } else {
                "image/png"@
            }
        },
        None => "image/png"@,
    }
}

/// The MIME type for a file extension (case-insensitive); PNG when there
/// is none or it is not known.
pub fn mime_for_extension(ext: Option<&str>) -> (r: &'static str)
    ensures
        r@ == mime_for(
            match ext {
                Some(e) => Some(e@),
                None => None,
            },
        ),
{
    match ext {
        Some(e) => {
            let l = to_lower(e);
            let s = l.as_str();
            if str_eq(s, "jpg") || str_eq(s, "jpeg") {
                "image/jpeg"
            } else if str_eq(s, "gif") {
                "image/gif"
            } else if str_eq(s, "webp") {
                "image/webp"
            } else if str_eq(s, "bmp") {
                "image/bmp"
            } else {
                "image/png"
            }
        },
        None => "image/png",
    }
}

/// Guess a MIME type from the extension of a file path.
pub fn mime_from_ext(path: &str) -> (r: &'static str)
    ensures
        r@ == mime_for(path_extension(path@)),
{
    let ext = extension_of(path);
    match &ext {
        Some(e) => mime_for_extension(Some(e.as_str())),
        None => mime_for_extension(None),
    }
}

/// Whether an (already trimmed) image input is sent as it is: an http(s)
/// URL or a `data:` URI.
pub open spec fn passes_through(t: Seq<char>) -> bool {
    has_prefix(t, "http://"@) || has_prefix(t, "https://"@) || has_prefix(t, "data:"@)
}

/// Whether an image input may name a local file: the cases where the
/// caller looks on disk.
pub open spec fn may_be_file(image: Seq<char>) -> bool {
    !passes_through(trim(image))
}

/// The value an image input resolves to, given the contents of the local
/// file it names, if any.
pub open spec fn resolved_image(image: Seq<char>, file: Option<Seq<u8>>) -> Seq<char> {
    let t = trim(image);
    if passes_through(t) {
        t
    } else {
        match file {
            Some(bytes) => "data:"@ + mime_for(path_extension(t)) + ";base64,"@
                + base64_standard(bytes),
            None => "data:image/png;base64,"@ + t,
        }
    }
}

/// The path an image input names when it may be a local file: the input
/// trimmed.
pub fn image_input_path(image: &str) -> (r: Option<String>)
    ensures
        match r {
            Some(p) => may_be_file(image@) && p@ == trim(image@),
            None => !may_be_file(image@),
        },
{
    let t = trim_str(image);
    if starts_with(t.as_str(), "http://") || starts_with(t.as_str(), "https://") || starts_with(
        t.as_str(),
        "data:",
    ) {
        None
    } else {
        Some(t)
    }
}

/// Resolve an image input into a value usable in an OpenAI-compatible
/// `image_url` content part.
///
/// An `http(s)://` URL or a `data:` URI is returned (trimmed) as it is.
/// Otherwise, when `file` holds the contents of the local file the trimmed
/// input names, they are encoded as a `data:` URI with the MIME type of the
/// file's extension; else the input is taken as raw base64 PNG data.
pub fn resolve_image_input(image: &str, file: Option<&Vec<u8>>) -> (r: String)
    ensures
        r@ == resolved_image(
            image@,
            match file {
                Some(b) => Some(b@),
                None => None,
            },
        ),
{
    let t = trim_str(image);
    if starts_with(t.as_str(), "http://") || starts_with(t.as_str(), "https://") || starts_with(
        t.as_str(),
        "data:",
    ) {
        return t;
    }
    match file {
        Some(bytes) => {
            let mime = mime_from_ext(t.as_str());
            let b64 = base64_encode(bytes.as_slice());
            let mut out = owned("data:");
            push_str(&mut out, mime);
            push_str(&mut out, ";base64,");
            push_str(&mut out, b64.as_str());
            out
        },
        None => concat("data:image/png;base64,", t.as_str()),
    }
}

// ---------------------------------------------------------------------------
// Laws of download file names
// ---------------------------------------------------------------------------

proof fn lemma_decimal_digits(n: nat)
    ensures
        forall|i: int| 0 <= i < decimal(n).len() ==> 48 <= #[trigger] (decimal(n)[i] as u32) <= 57,
    decreases n,
{
    if n >= 10 {
        lemma_decimal_digits(n / 10);
        assert forall|i: int| 0 <= i < decimal(n).len() implies 48 <= #[trigger] (
        decimal(n)[i] as u32) <= 57 by {
            if i < decimal(n / 10).len() {
                assert(decimal(n)[i] == decimal(n / 10)[i]);
            }
        }
    }
}

proof fn lemma_after_last(s: Seq<char>, c: char)
    ensures
        0 <= after_last_index_of(s, c) <= s.len(),
        forall|k: int| after_last_index_of(s, c) <= k < s.len() ==> #[trigger] s[k] != c,
    decreases s.len(),
{
    if s.len() > 0 && s.last() != c {
        lemma_after_last(s.drop_last(), c);
        assert forall|k: int| after_last_index_of(s, c) <= k < s.len() implies #[trigger] s[k]
            != c by {
            if k < s.len() - 1 {
                assert(s[k] == s.drop_last()[k]);
            }
        }
    }
}

proof fn lemma_trim_leading(s: Seq<char>, c: char)
    ensures
        exists|k: int| 0 <= k <= s.len() && trim_leading(s, c) == #[trigger] s.subrange(k, s.len() as int),
    decreases s.len(),
{
    if s.len() > 0 && s[0] == c {
        lemma_trim_leading(s.drop_first(), c);
        let k = choose|k: int|
            0 <= k <= s.drop_first().len() && trim_leading(s.drop_first(), c)
                == #[trigger] s.drop_first().subrange(k, s.drop_first().len() as int);
        assert(s.drop_first().subrange(k, s.drop_first().len() as int) =~= s.subrange(
            k + 1,
            s.len() as int,
        ));
    } else {
        assert(s.subrange(0, s.len() as int) =~= s);
    }
}

proof fn lemma_known_ext_no_slash(e: Seq<char>)
    requires
        known_ext(e),
    ensures
        !e.contains('/'),
{
    reveal_strlit("png");
    reveal_strlit("jpg");
    reveal_strlit("jpeg");
    reveal_strlit("gif");
    reveal_strlit("webp");
    reveal_strlit("bmp");
    reveal_strlit("mp4");
    reveal_strlit("webm");
    reveal_strlit("mov");
}

proof fn lemma_mime_ext_known(m: Seq<char>)
    requires
        mime_ext(m) is Some,
    ensures
        known_ext(mime_ext(m)->0),
{
}

/// A derived file name is a plain file name: when the prefix and the default
/// extension hold no `/`, neither does the name.
pub proof fn law_filename_has_no_slash(
    url: Seq<char>,
    index: nat,
    content_type: Option<Seq<char>>,
    prefix: Seq<char>,
    default_ext: Seq<char>,
)
    requires
        !prefix.contains('/'),
        !default_ext.contains('/'),
    ensures
        !derived_filename(url, index, content_type, prefix, default_ext).contains('/'),
{
    let p = url_path(url);
    lemma_after_last(p, '/');
    let b = basename(p);
    assert(!b.contains('/')) by {
        if b.contains('/') {
            let k = choose|k: int| 0 <= k < b.len() && b[k] == '/';
            assert(p[after_last_index_of(p, '/') + k] == '/');
        }
    }
    let r = derived_filename(url, index, content_type, prefix, default_ext);
    if !(url_basename(url) is Some && has_recognized_ext(url_basename(url)->0)) {
        let from_ct = match content_type {
            Some(ct) => content_type_ext(ct),
            None => None,
        };
        let ext = match from_ct {
            Some(e) => e,
            None => match url_basename(url) {
                Some(n) => match suffix_ext(n) {
                    Some(e) => e,
                    None => trim_leading(default_ext, '.'),
                },
                None => trim_leading(default_ext, '.'),
            },
        };
        assert(!ext.contains('/')) by {
            if from_ct is Some {
                lemma_mime_ext_known(lower(trim(content_type->0.subrange(0, first_index_of(content_type->0, ';')))));
                lemma_known_ext_no_slash(ext);
            } else if url_basename(url) is Some && suffix_ext(url_basename(url)->0) is Some {
                lemma_known_ext_no_slash(ext);
            } else {
                lemma_trim_leading(default_ext, '.');
                let k = choose|k: int| 0 <= k <= default_ext.len() && trim_leading(default_ext, '.')
                    == #[trigger] default_ext.subrange(k, default_ext.len() as int);
                if ext.contains('/') {
                    let j = choose|j: int| 0 <= j < ext.len() && ext[j] == '/';
                    assert(default_ext[k + j] == '/');
                }
            }
        }
        lemma_decimal_digits(index);
        let d = decimal(index);
        assert(r == prefix + "-"@ + d + "."@ + ext);
        reveal_strlit("-");
        reveal_strlit(".");
        if r.contains('/') {
            let j = choose|j: int| 0 <= j < r.len() && r[j] == '/';
            let a = prefix.len() as int;
            let b2 = a + 1 + d.len();
            if j < a {
                assert(prefix[j] == '/');
            } else if j == a {
                assert(r[j] == '-');
            } else if j < b2 {
                assert(r[j] == d[j - a - 1]);
                assert(48 <= (d[j - a - 1] as u32) <= 57);
            } else if j == b2 {
                assert(r[j] == '.');
            } else {
                assert(r[j] == ext[j - b2 - 1]);
            }
        }
    }
}

} // verus!
