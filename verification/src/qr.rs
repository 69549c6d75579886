//! The public QR endpoint: telling a stats request from an image request,
//! the image format, and the address a QR code encodes.

use vstd::prelude::*;
use vstd::string::*;
use crate::models::Reply;
use crate::redirect::{reply, reply_is};
use crate::text::{chars_of, lowercase_str, lowercased, split_char, split_on, str_eq, string_of, texts};
use crate::validation::{is_redirect_code, validate_redirect_code};

verus! {

/// What a request for `/api/qr/<file>` asks for.
pub enum QrRequest {
    /// No single extension: the scan figures of the code `<file>`.
    Stats(String),
    /// `<code>.<ext>`: an image, the extension lowercased.
    Image { code: String, ext: String },
}

pub open spec fn qr_request_spec(file: Seq<char>, r: QrRequest) -> bool {
    let parts = split_on(file, '.');
    if parts.len() != 2 {
        r matches QrRequest::Stats(c) && c@ == file
    } else {
        r matches QrRequest::Image { code, ext } && code@ == parts[0] && ext@ == lowercased(parts[1])
    }
}

pub fn parse_qr_file(file: &str) -> (r: QrRequest)
    ensures
        qr_request_spec(file@, r),
{
    let parts = split_char(file, '.');
    if parts.len() != 2 {
        return QrRequest::Stats(String::from_str(file));
    }
    assert(texts(parts@)[0] == parts@[0]@);
    assert(texts(parts@)[1] == parts@[1]@);
    let code = String::from_str(parts[0].as_str());
    let ext = lowercase_str(parts[1].as_str());
    QrRequest::Image { code, ext }
}

/// The image formats a QR code is rendered in.
#[derive(PartialEq, Eq, Structural, Clone, Copy)]
pub enum QrFormat {
    Svg,
    /// A PNG of 256 pixels.
    Png,
}

/// `svg` and `png` are rendered; any other extension is refused with `400`.
pub fn qr_format(ext: &str) -> (r: Result<QrFormat, Reply>)
    ensures
        ext@ == "svg"@ ==> r == Ok::<QrFormat, Reply>(QrFormat::Svg),
        ext@ == "png"@ ==> r == Ok::<QrFormat, Reply>(QrFormat::Png),
        ext@ != "svg"@ && ext@ != "png"@ ==> r is Err && reply_is(
            r->Err_0,
            400,
            None,
            "Unsupported format. Use .png or .svg"@,
        ),
{
    proof {
        reveal_strlit("svg");
        reveal_strlit("png");
        assert("svg"@[0] != "png"@[0]);
    }
    if str_eq(ext, "svg") {
        Ok(QrFormat::Svg)
    } else if str_eq(ext, "png") {
        Ok(QrFormat::Png)
    } else {
        Err(reply(400, None, "Unsupported format. Use .png or .svg"))
    }
}

/// The MIME type of a rendered QR code.
pub fn qr_content_type(f: QrFormat) -> (r: &'static str)
    ensures
        f is Svg ==> r@ == "image/svg+xml"@,
        f is Png ==> r@ == "image/png"@,
{
    match f {
        QrFormat::Svg => "image/svg+xml",
        QrFormat::Png => "image/png",
    }
}

/// An image is only made for something shaped like a link code; anything
/// else is `404`.
pub fn qr_code_check(code: &str) -> (r: Option<Reply>)
    ensures
        is_redirect_code(code@) ==> r is None,
        !is_redirect_code(code@) ==> r is Some && reply_is(r->0, 404, None, "Not Found"@),
{
    if validate_redirect_code(code) {
        None
    } else {
        Some(reply(404, None, "Not Found"))
    }
}

/// `s` without its trailing `c` characters (std `str::trim_end_matches`).
pub open spec fn strip_trailing(s: Seq<char>, c: char) -> Seq<char>
    decreases s.len(),
{
    if s.len() > 0 && s.last() == c {
        strip_trailing(s.drop_last(), c)
    } else {
        s
    }
}

/// The address a QR code encodes: the base without trailing slashes, a
/// slash, the code.
pub fn qr_target_url(base: &str, code: &str) -> (r: String)
    ensures
        r@ == strip_trailing(base@, '/') + seq!['/'] + code@,
{
    let mut cs = chars_of(base);
    while cs.len() > 0 && cs[cs.len() - 1] == '/'
        invariant
            strip_trailing(cs@, '/') == strip_trailing(base@, '/'),
        decreases cs.len(),
    {
        let ghost before = cs@;
        cs.pop();
        assert(cs@ =~= before.drop_last());
    }
    let mut out = string_of(&cs);
    out.append("/");
    out.append(code);
    proof {
        reveal_strlit("/");
        assert(out@ =~= cs@ + seq!['/'] + code@);
    }
    out
}

/// A stats request (a file name without one extension) needs an accepted
/// API key: without one it is `401 Unauthorized` before any lookup.
pub fn qr_stats_gate(authenticated: bool) -> (r: Option<Reply>)
    ensures
        authenticated ==> r is None,
        !authenticated ==> r is Some && reply_is(r->0, 401, None, "Unauthorized"@),
{
    if authenticated {
        None
    } else {
        Some(reply(401, None, "Unauthorized"))
    }
}

/// The reply when the link behind a QR request cannot be had: a failed read
/// is `500 Database error`, a missing link `404` (worded `URL not found` for
/// stats and `Url not found` for images). `None` when it was found.
pub fn qr_lookup_reply(found: Result<bool, ()>, stats: bool) -> (r: Option<Reply>)
    ensures
        found is Err ==> r is Some && reply_is(r->0, 500, None, "Database error"@),
        found == Ok::<bool, ()>(false) ==> r is Some && reply_is(r->0, 404, None, if stats {
            "URL not found"@
        } else {
            "Url not found"@
        }),
        found == Ok::<bool, ()>(true) ==> r is None,
{
    match found {
        Err(()) => Some(reply(500, None, "Database error")),
        Ok(false) => if stats {
            Some(reply(404, None, "URL not found"))
        } else {
            Some(reply(404, None, "Url not found"))
        },
        Ok(true) => None,
    }
}

/// How a QR image request ends.
pub enum QrImageOutcome {
    /// Answer with the failure; no access is logged.
    Fail(Reply),
    /// Log the access, then send the image with its type, cached for a day.
    Serve { content_type: String, cache_control: String, log_access: bool },
}

/// After rendering: a failed rendering is `500` with its error and is not
/// logged; a rendered image is logged and sent.
pub fn qr_image_outcome(format: QrFormat, rendered: Result<(), String>) -> (r: QrImageOutcome)
    ensures
        rendered matches Err(e) ==> (r matches QrImageOutcome::Fail(rep) && reply_is(rep, 500, None,
            "QR generation error: "@ + e@)),
        rendered is Ok ==> (r matches QrImageOutcome::Serve { content_type, cache_control, log_access }
            && (format is Svg ==> content_type@ == "image/svg+xml"@) && (format is Png ==> content_type@ == "image/png"@)
            && cache_control@ == "public, max-age=86400"@ && log_access),
{
    match rendered {
        Err(e) => {
            let body = crate::text::join_text("QR generation error: ", e.as_str());
            QrImageOutcome::Fail(Reply { status: 500, location: None, body })
        },
        Ok(()) => QrImageOutcome::Serve {
            content_type: String::from_str(qr_content_type(format)),
            cache_control: String::from_str("public, max-age=86400"),
            log_access: true,
        },
    }
}

} // verus!
