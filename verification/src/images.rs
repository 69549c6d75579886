//! Serving uploaded images: which requests may reach the image directory,
//! the file they name, and the content type announced for it.

use vstd::prelude::*;
use vstd::string::*;
use crate::models::Reply;
use crate::redirect::{reply, reply_is};
use crate::text::{ascii_lower, ascii_lower_char, chars_of, join_text, split_char, split_on, str_eq, string_of, texts};

verus! {

/// What a request for `/images/<path>` is served from.
pub enum ImageRequest {
    /// `preview.png` is the social-media preview image, kept apart.
    SocialPreview,
    /// The path would leave the image directory: `400`.
    Invalid(Reply),
    /// The file at this path.
    File(String),
}

/// A relative path leaves the directory it is joined to when it is absolute
/// or has a `..` component (the Unix reading of std `Path::components`).
pub open spec fn escapes_root(path: Seq<char>) -> bool {
    (path.len() > 0 && path[0] == '/') || split_on(path, '/').contains(".."@)
}

pub open spec fn image_request_spec(path: Seq<char>, r: ImageRequest) -> bool {
    if path == "preview.png"@ {
        r is SocialPreview
    } else if escapes_root(path) {
        r matches ImageRequest::Invalid(rep) && reply_is(rep, 400, None, "Invalid image path"@)
    } else {
        r matches ImageRequest::File(f) && f@ == "/app/images/"@ + path
    }
}

fn has_parent_component(path: &str) -> (r: bool)
    ensures
        r == split_on(path@, '/').contains(".."@),
{
    let parts = split_char(path, '/');
    let mut i: usize = 0;
    while i < parts.len()
        invariant
            texts(parts@) == split_on(path@, '/'),
            i <= parts.len(),
            forall|j: int| 0 <= j < i ==> texts(parts@)[j] != ".."@,
        decreases parts.len() - i,
    {
        assert(texts(parts@)[i as int] == parts@[i as int]@);
        if str_eq(parts[i].as_str(), "..") {
            assert(split_on(path@, '/')[i as int] == ".."@);
            return true;
        }
        i = i + 1;
    }
    false
}

pub fn image_request(path: &str) -> (r: ImageRequest)
    ensures
        image_request_spec(path@, r),
{
    if str_eq(path, "preview.png") {
        return ImageRequest::SocialPreview;
    }
    let cs = chars_of(path);
    let absolute = cs.len() > 0 && cs[0] == '/';
    if absolute || has_parent_component(path) {
        return ImageRequest::Invalid(reply(400, None, "Invalid image path"));
    }
    ImageRequest::File(join_text("/app/images/", path))
}

/// The last named component of a path: empty and `.` components are skipped.
pub open spec fn last_name(segs: Seq<Seq<char>>) -> Option<Seq<char>>
    decreases segs.len(),
{
    if segs.len() == 0 {
        None
    } else if segs.last().len() == 0 || segs.last() == "."@ {
        last_name(segs.drop_last())
    } else {
        Some(segs.last())
    }
}

/// std `Path::file_name` of a Unix path: its last component unless that is `..`.
pub open spec fn file_name_of(path: Seq<char>) -> Option<Seq<char>> {
    match last_name(split_on(path, '/')) {
        Some(n) => if n == ".."@ {
            None
        } else {
            Some(n)
        },
        None => None,
    }
}

/// Position of the last `.` in a name.
pub open spec fn last_dot(name: Seq<char>) -> Option<int>
    decreases name.len(),
{
    if name.len() == 0 {
        None
    } else if name.last() == '.' {
        Some(name.len() - 1)
    } else {
        last_dot(name.drop_last())
    }
}

/// std `Path::extension` of a file name: what follows the last `.`, unless
/// there is none or it is the leading character.
pub open spec fn extension_of(name: Seq<char>) -> Option<Seq<char>> {
    match last_dot(name) {
        Some(i) => if i == 0 {
            None
        } else {
            Some(name.subrange(i + 1, name.len() as int))
        },
        None => None,
    }
}

/// The content type announced for an extension, compared in ASCII lowercase.
pub open spec fn content_type_of(ext: Option<Seq<char>>) -> Seq<char> {
    match ext {
        Some(e) => {
            let l = e.map_values(|c: char| ascii_lower(c));
            if l == "png"@ {
                "image/png"@
            } else if l == "jpg"@ || l == "jpeg"@ {
                "image/jpeg"@
            } else if l == "gif"@ {
                "image/gif"@
            } else if l == "webp"@ {
                "image/webp"@
            } else if l == "svg"@ {
                "image/svg+xml"@
            } else if l == "avif"@ {
                "image/avif"@
            } else {
                "application/octet-stream"@
            }
        },
        None => "application/octet-stream"@,
    }
}

pub open spec fn path_content_type(path: Seq<char>) -> Seq<char> {
    content_type_of(
        match file_name_of(path) {
            Some(n) => extension_of(n),
            None => None,
        },
    )
}

fn file_name(path: &str) -> (r: Option<String>)
    ensures
        match file_name_of(path@) {
            Some(n) => r is Some && r->0@ == n,
            None => r is None,
        },
{
    let parts = split_char(path, '/');
    let ghost segs = split_on(path@, '/');
    let mut k: usize = parts.len();
    assert(segs.take(k as int) =~= segs);
    while k > 0
        invariant
            texts(parts@) == segs,
            segs == split_on(path@, '/'),
            k <= parts.len(),
            last_name(segs) == last_name(segs.take(k as int)),
        decreases k,
    {
        let p = parts[k - 1].as_str();
        assert(texts(parts@)[k - 1] == parts@[k - 1]@);
        assert(segs.take(k as int).last() == p@);
        if !(p.is_empty() || str_eq(p, ".")) {
            if str_eq(p, "..") {
                return None;
            }
            return Some(String::from_str(p));
        }
        assert(segs.take(k as int).drop_last() =~= segs.take(k - 1));
        k = k - 1;
    }
    None
}

fn extension(name: &str) -> (r: Option<Vec<char>>)
    ensures
        match extension_of(name@) {
            Some(e) => r is Some && r->0@ == e,
            None => r is None,
        },
{
    let cs = chars_of(name);
    let mut k: usize = cs.len();
    assert(name@.take(k as int) =~= name@);
    while k > 0
        invariant
            cs@ == name@,
            k <= cs.len(),
            last_dot(name@) == last_dot(name@.take(k as int)),
        decreases k,
    {
        assert(name@.take(k as int).last() == cs@[k - 1]);
        if cs[k - 1] == '.' {
            if k - 1 == 0 {
                return None;
            }
            let mut out: Vec<char> = Vec::new();
            let mut j: usize = k;
            while j < cs.len()
                invariant
                    k <= j <= cs.len(),
                    cs@ == name@,
                    out@ == name@.subrange(k as int, j as int),
                decreases cs.len() - j,
            {
                out.push(cs[j]);
                j = j + 1;
                assert(out@ =~= name@.subrange(k as int, j as int));
            }
            return Some(out);
        }
        assert(name@.take(k as int).drop_last() =~= name@.take(k - 1));
        k = k - 1;
    }
    None
}

fn lower_is(e: &Vec<char>, word: &str) -> (r: bool)
    ensures
        r == (e@.map_values(|c: char| ascii_lower(c)) == word@),
{
    let w = chars_of(word);
    if e.len() != w.len() {
        return false;
    }
    for i in 0..e.len()
        invariant
            w@ == word@,
            e.len() == w.len(),
            forall|j: int| 0 <= j < i ==> ascii_lower(e@[j]) == w@[j],
    {
        if ascii_lower_char(e[i]) != w[i] {
            assert(e@.map_values(|c: char| ascii_lower(c))[i as int] != word@[i as int]);
            return false;
        }
    }
    assert(e@.map_values(|c: char| ascii_lower(c)) =~= word@);
    true
}

/// The content type announced for an image file, from the extension of its
/// file name.
pub fn image_content_type(path: &str) -> (r: &'static str)
    ensures
        r@ == path_content_type(path@),
{
    let name = match file_name(path) {
        Some(n) => n,
        None => return "application/octet-stream",
    };
    let e = match extension(name.as_str()) {
        Some(e) => e,
        None => return "application/octet-stream",
    };
    if lower_is(&e, "png") {
        "image/png"
    } else if lower_is(&e, "jpg") || lower_is(&e, "jpeg") {
        "image/jpeg"
    } else if lower_is(&e, "gif") {
        "image/gif"
    } else if lower_is(&e, "webp") {
        "image/webp"
    } else if lower_is(&e, "svg") {
        "image/svg+xml"
    } else if lower_is(&e, "avif") {
        "image/avif"
    } else {
        "application/octet-stream"
    }
}

/// How a request for an image file ends once the file was (or was not)
/// read.
pub enum ImageReply {
    /// Nothing could be read: `404 Image not found`.
    Missing(Reply),
    /// `200` with the file's bytes, its content type, cached for a day.
    Found { bytes: Vec<u8>, content_type: String, cache_control: String },
}

/// The reply to `/images/<path>` for the file at `image_path`: `content` is
/// what reading it gave (`None` when it could not be read).
pub fn image_reply(image_path: &str, content: Option<Vec<u8>>) -> (r: ImageReply)
    ensures
        content is None ==> (r matches ImageReply::Missing(rep) && reply_is(rep, 404, None, "Image not found"@)),
        content matches Some(b) ==> (r matches ImageReply::Found { bytes, content_type, cache_control }
            && bytes@ == b@ && content_type@ == path_content_type(image_path@)
            && cache_control@ == "public, max-age=86400"@),
{
    match content {
        None => ImageReply::Missing(reply(404, None, "Image not found")),
        Some(bytes) => ImageReply::Found {
            bytes,
            content_type: String::from_str(image_content_type(image_path)),
            cache_control: String::from_str("public, max-age=86400"),
        },
    }
}

/// `e` is `word` (a lowercase ASCII word) in any mix of upper and lower case:
/// letter by letter, the same once ASCII capitals are lowered.
pub open spec fn same_letters(e: Seq<char>, word: Seq<char>) -> bool {
    e.len() == word.len() && forall|i: int| 0 <= i < e.len() ==> ascii_lower(#[trigger] e[i]) == word[i]
}

proof fn lemma_lowered(e: Seq<char>, word: Seq<char>)
    requires
        same_letters(e, word),
    ensures
        e.map_values(|c: char| ascii_lower(c)) == word,
{
    assert(e.map_values(|c: char| ascii_lower(c)) =~= word);
}

proof fn lemma_lowered_back(e: Seq<char>, word: Seq<char>)
    ensures
        e.map_values(|c: char| ascii_lower(c)) == word ==> same_letters(e, word),
{
    if e.map_values(|c: char| ascii_lower(c)) == word {
        assert forall|i: int| 0 <= i < e.len() implies ascii_lower(#[trigger] e[i]) == word[i] by {
            assert(e.map_values(|c: char| ascii_lower(c))[i] == ascii_lower(e[i]));
        }
    }
}

/// Images are announced by the extension of their file name, whatever its
/// case: `svg` as `image/svg+xml`, `png` as `image/png`, `jpg` and `jpeg` as
/// `image/jpeg`, `gif` as `image/gif`, `webp` as `image/webp`, `avif` as
/// `image/avif`.
pub proof fn law_image_content_types(path: Seq<char>, name: Seq<char>, e: Seq<char>)
    requires
        file_name_of(path) == Some(name),
        extension_of(name) == Some(e),
    ensures
        same_letters(e, "svg"@) ==> path_content_type(path) == "image/svg+xml"@,
        same_letters(e, "png"@) ==> path_content_type(path) == "image/png"@,
        same_letters(e, "jpg"@) ==> path_content_type(path) == "image/jpeg"@,
        same_letters(e, "jpeg"@) ==> path_content_type(path) == "image/jpeg"@,
        same_letters(e, "gif"@) ==> path_content_type(path) == "image/gif"@,
        same_letters(e, "webp"@) ==> path_content_type(path) == "image/webp"@,
        same_letters(e, "avif"@) ==> path_content_type(path) == "image/avif"@,
        !(same_letters(e, "svg"@) || same_letters(e, "png"@) || same_letters(e, "jpg"@) || same_letters(e, "jpeg"@)
            || same_letters(e, "gif"@) || same_letters(e, "webp"@) || same_letters(e, "avif"@))
            ==> path_content_type(path) == "application/octet-stream"@,
{
    reveal_strlit("svg");
    reveal_strlit("png");
    reveal_strlit("jpg");
    reveal_strlit("jpeg");
    reveal_strlit("gif");
    reveal_strlit("webp");
    reveal_strlit("avif");
    let l = e.map_values(|c: char| ascii_lower(c));
    lemma_lowered_back(e, "svg"@);
    lemma_lowered_back(e, "png"@);
    lemma_lowered_back(e, "jpg"@);
    lemma_lowered_back(e, "jpeg"@);
    lemma_lowered_back(e, "gif"@);
    lemma_lowered_back(e, "webp"@);
    lemma_lowered_back(e, "avif"@);
    if same_letters(e, "svg"@) {
        lemma_lowered(e, "svg"@);
        assert(l != "png"@ && l != "jpg"@ && l != "gif"@ && l != "webp"@) by {
            assert(l[0] == 's');
        }
        assert(l != "jpeg"@);
    }
    if same_letters(e, "png"@) {
        lemma_lowered(e, "png"@);
    }
    if same_letters(e, "jpg"@) {
        lemma_lowered(e, "jpg"@);
        assert(l != "png"@) by {
            assert(l[0] == 'j');
        }
    }
    if same_letters(e, "jpeg"@) {
        lemma_lowered(e, "jpeg"@);
        assert(l != "png"@ && l != "jpg"@);
    }
    if same_letters(e, "gif"@) {
        lemma_lowered(e, "gif"@);
        assert(l != "png"@ && l != "jpg"@) by {
            assert(l[0] == 'g');
        }
        assert(l != "jpeg"@);
    }
    if same_letters(e, "webp"@) {
        lemma_lowered(e, "webp"@);
        assert(l != "jpeg"@) by {
            assert(l[0] == 'w');
        }
        assert(l != "png"@ && l != "jpg"@ && l != "gif"@);
    }
    if same_letters(e, "avif"@) {
        lemma_lowered(e, "avif"@);
        assert(l != "jpeg"@ && l != "webp"@) by {
            assert(l[0] == 'a');
        }
        assert(l != "png"@ && l != "jpg"@ && l != "gif"@ && l != "svg"@);
    }
}

/// The announced type does not depend on the case of the extension: two
/// files whose extensions differ only in ASCII case get the same type.
pub proof fn law_image_type_ignores_case(e1: Seq<char>, e2: Seq<char>)
    requires
        e1.map_values(|c: char| ascii_lower(c)) == e2.map_values(|c: char| ascii_lower(c)),
    ensures
        content_type_of(Some(e1)) == content_type_of(Some(e2)),
{
}

} // verus!
