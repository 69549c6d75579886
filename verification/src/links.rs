//! Short links and landing pages as the web forms create them: choosing the
//! code, reading the optional fields of a form, and where the pages go
//! afterwards.

use vstd::prelude::*;
use vstd::string::*;
use crate::models::Url;
use crate::text::{
    i64_decimal, int_decimal, join_text, lowercase_str, nat_decimal, parse_i64, parse_i64_text, split_char,
    split_on, texts, trim_str, trimmed, u64_decimal,
};
use crate::users::{byte_len, normalized};
use crate::validation::{is_custom_slug, is_hex_code, validate_custom_slug, validate_hex_code};

verus! {

/// Query of the tenant's link page.
pub struct UserUrlsQuery {
    pub tag: Option<String>,
    pub error: Option<String>,
    pub page: Option<usize>,
}

/// Query of the tenant's page list.
pub struct UserPagesQuery {
    pub error: Option<String>,
    pub page: Option<usize>,
}

/// Query of the admin page list.
pub struct PagesQuery {
    pub error: Option<String>,
    pub page: Option<usize>,
}

/// The form a tenant creates a landing page with.
pub struct CreateUserPageForm {
    pub title: String,
    pub slug: String,
    pub code: String,
    pub custom_slug: String,
    pub state: String,
    pub html_content: String,
    pub csrf_token: String,
}

/// The form the admin creates a landing page with.
pub struct CreatePageForm {
    pub title: String,
    pub slug: String,
    pub code: String,
    pub custom_slug: String,
    pub state: String,
    pub html_content: String,
    pub csrf_token: String,
}

/// Query of the admin link page.
pub struct UrlsQuery {
    pub tag: Option<String>,
    pub error: Option<String>,
    pub page: Option<usize>,
}

/// The form a tenant creates a link with; absent fields are empty.
pub struct CreateUserUrlForm {
    pub destination: String,
    pub code: String,
    pub custom_slug: String,
    pub title: String,
    pub description: String,
    pub tags: String,
    pub csrf_token: String,
    pub expires_at: String,
    pub password: String,
    pub max_access_count: String,
    pub utm_source: String,
    pub utm_medium: String,
    pub utm_campaign: String,
}

/// The admin link form; links are created through tenant accounts only.
pub struct CreateUrlForm {
    pub destination: String,
    pub code: String,
    pub custom_slug: String,
    pub title: String,
    pub description: String,
    pub tags: String,
    pub csrf_token: String,
    pub expires_at: String,
    pub password: String,
    pub max_access_count: String,
    pub utm_source: String,
    pub utm_medium: String,
    pub utm_campaign: String,
}

/// The code a new link or page gets.
pub enum CodeChoice {
    /// No code was asked for: a random one is generated.
    Generate,
    /// The code asked for, normalized.
    Chosen(String),
}

/// The refusal of a hex code of the wrong shape.
pub open spec fn hex_code_message(hex_len: nat) -> Seq<char> {
    "Custom code must be exactly "@ + nat_decimal(hex_len) + " hex characters"@
}

/// Why the codes of a link or page form are refused, if they are: a custom
/// slug takes precedence over a hex code of `hex_len` characters; with
/// neither a code is generated.
pub open spec fn form_code_problem(custom_slug: Seq<char>, code: Seq<char>, hex_len: nat, slug_message: Seq<char>) -> Option<Seq<char>> {
    let s = normalized(custom_slug);
    let c = normalized(code);
    if s.len() == 0 {
        if c.len() == 0 || is_hex_code(c, hex_len) {
            None
        } else {
            Some(hex_code_message(hex_len))
        }
    } else if is_custom_slug(s) {
        None
    } else {
        Some(slug_message)
    }
}

/// The code a form asks for, once it passed `form_code_problem`.
pub open spec fn form_code_choice(custom_slug: Seq<char>, code: Seq<char>, r: CodeChoice) -> bool {
    let s = normalized(custom_slug);
    let c = normalized(code);
    if s.len() > 0 {
        r is Chosen && r->Chosen_0@ == s
    } else if c.len() > 0 {
        r is Chosen && r->Chosen_0@ == c
    } else {
        r is Generate
    }
}

/// Picks the code of a form: the custom slug (trimmed, lowercased) when
/// given, which must be a custom slug; otherwise the code, which must be
/// `hex_len` hex characters; otherwise a generated one.
pub fn choose_form_code(custom_slug: &str, code: &str, hex_len: usize, slug_message: &str) -> (r: Result<CodeChoice, String>)
    ensures
        match form_code_problem(custom_slug@, code@, hex_len as nat, slug_message@) {
            Some(m) => r is Err && r->Err_0@ == m,
            None => r is Ok && form_code_choice(custom_slug@, code@, r->Ok_0),
        },
{
    let s = lowercase_str(trim_str(custom_slug));
    if s.as_str().is_empty() {
        let c = lowercase_str(trim_str(code));
        if c.as_str().is_empty() {
            Ok(CodeChoice::Generate)
        } else if !validate_hex_code(c.as_str(), hex_len) {
            let n = u64_decimal(hex_len as u64);
            let mut m = join_text("Custom code must be exactly ", n.as_str());
            m.append(" hex characters");
            Err(m)
        } else {
            Ok(CodeChoice::Chosen(c))
        }
    } else if !validate_custom_slug(s.as_str()) {
        Err(String::from_str(slug_message))
    } else {
        Ok(CodeChoice::Chosen(s))
    }
}

/// The custom-slug refusal of the tenant forms.
pub fn user_slug_message() -> (r: &'static str)
    ensures
        r@ == "Custom slug must start with ! followed by 1-24 a-z, 0-9, -, _"@,
{
    "Custom slug must start with ! followed by 1-24 a-z, 0-9, -, _"
}

/// The custom-slug refusal of the admin page form.
pub fn admin_slug_message() -> (r: &'static str)
    ensures
        r@ == "Custom slug must start with ! followed by 1-24 characters of a-z, 0-9, -, _"@,
{
    "Custom slug must start with ! followed by 1-24 characters of a-z, 0-9, -, _"
}

/// The page slug of a page form: trimmed and lowercased, and required.
pub fn page_slug_input(raw: &str) -> (r: Result<String, &'static str>)
    ensures
        normalized(raw@).len() == 0 ==> r is Err && r->Err_0@ == "Slug is required"@,
        normalized(raw@).len() != 0 ==> r is Ok && r->Ok_0@ == normalized(raw@),
{
    let s = lowercase_str(trim_str(raw));
    if s.as_str().is_empty() {
        Err("Slug is required")
    } else {
        Ok(s)
    }
}

/// The owner id of admin content: the admin id when it reads as a number,
/// else the installation account, 1.
pub fn admin_owner_id(admin_id: &str) -> (r: i64)
    ensures
        r == match parse_i64_text(admin_id@) {
            Some(n) => n,
            None => 1,
        },
{
    match parse_i64(admin_id) {
        Some(n) => n,
        None => 1,
    }
}

/// An optional text field: trimmed, none when blank.
pub open spec fn optional_field(raw: Seq<char>) -> Option<Seq<char>> {
    if trimmed(raw).len() == 0 {
        None
    } else {
        Some(trimmed(raw))
    }
}

pub fn optional_text(raw: &str) -> (r: Option<String>)
    ensures
        match optional_field(raw@) {
            Some(t) => r is Some && r->0@ == t,
            None => r is None,
        },
{
    let t = trim_str(raw);
    if t.is_empty() {
        None
    } else {
        Some(String::from_str(t))
    }
}

/// The expiry typed in the form: trimmed, none when blank; a value of 16
/// bytes (`YYYY-MM-DDTHH:MM` from a datetime input) gets `:00Z` appended.
pub open spec fn expires_at_input(raw: Seq<char>) -> Option<Seq<char>> {
    let t = trimmed(raw);
    if t.len() == 0 {
        None
    } else if byte_len(t) == 16 {
        Some(t + ":00Z"@)
    } else {
        Some(t)
    }
}

pub fn parse_expires_at_input(raw: &str) -> (r: Option<String>)
    ensures
        match expires_at_input(raw@) {
            Some(t) => r is Some && r->0@ == t,
            None => r is None,
        },
{
    let t = trim_str(raw);
    if t.is_empty() {
        None
    } else if t.as_bytes().len() == 16 {
        Some(join_text(t, ":00Z"))
    } else {
        Some(String::from_str(t))
    }
}

/// The access limit typed in the form: none when blank, the number when it
/// parses as an `i64`, refused otherwise.
pub open spec fn max_access_input(raw: Seq<char>) -> Result<Option<i64>, ()> {
    let t = trimmed(raw);
    if t.len() == 0 {
        Ok(None)
    } else {
        match parse_i64_text(t) {
            Some(n) => Ok(Some(n)),
            None => Err(()),
        }
    }
}

pub fn parse_max_access_count(raw: &str) -> (r: Result<Option<i64>, &'static str>)
    ensures
        match max_access_input(raw@) {
            Ok(v) => r == Ok::<Option<i64>, &'static str>(v),
            Err(()) => r is Err && r->Err_0@ == "Invalid max access count"@,
        },
{
    let t = trim_str(raw);
    if t.is_empty() {
        return Ok(None);
    }
    match parse_i64(t) {
        Some(n) => Ok(Some(n)),
        None => Err("Invalid max access count"),
    }
}

/// A password is set when the field is not blank; the password itself is
/// hashed as typed, untrimmed.
pub fn form_password(raw: &str) -> (r: Option<&str>)
    ensures
        trimmed(raw@).len() == 0 ==> r is None,
        trimmed(raw@).len() != 0 ==> r == Some(raw),
{
    if trim_str(raw).is_empty() {
        None
    } else {
        Some(raw)
    }
}

pub open spec fn nonempty_text() -> spec_fn(Seq<char>) -> bool {
    |t: Seq<char>| t.len() > 0
}

/// The tags typed in the form: split at commas, each trimmed, blanks dropped.
pub open spec fn tags_input(raw: Seq<char>) -> Seq<Seq<char>> {
    split_on(raw, ',').map_values(|p: Seq<char>| trimmed(p)).filter(nonempty_text())
}

pub fn form_tags(raw: &str) -> (r: Vec<String>)
    ensures
        texts(r@) == tags_input(raw@),
{
    let pieces = split_char(raw, ',');
    let ghost all = split_on(raw@, ',').map_values(|p: Seq<char>| trimmed(p));
    let mut out: Vec<String> = Vec::new();
    let mut i: usize = 0;
    while i < pieces.len()
        invariant
            i <= pieces.len(),
            texts(pieces@) == split_on(raw@, ','),
            all == split_on(raw@, ',').map_values(|p: Seq<char>| trimmed(p)),
            texts(out@) == all.take(i as int).filter(nonempty_text()),
        decreases pieces.len() - i,
    {
        let t = trim_str(pieces[i].as_str());
        assert(texts(pieces@)[i as int] == pieces@[i as int]@);
        assert(t@ == all[i as int]);
        proof {
            reveal(Seq::filter);
            assert(all.take(i + 1).drop_last() =~= all.take(i as int));
        }
        if !t.is_empty() {
            let ghost before = texts(out@);
            out.push(String::from_str(t));
            assert(texts(out@) =~= before.push(t@));
        }
        i = i + 1;
    }
    assert(all.take(i as int) =~= all);
    out
}

/// The tenant's link page with an error message.
pub fn user_links_error_location(message: &str) -> (r: String)
    ensures
        r@ == "/user/urls?error="@ + message@,
{
    join_text("/user/urls?error=", message)
}

/// The admin link form refuses every submission: links belong to tenants.
pub fn admin_link_creation_location() -> (r: String)
    ensures
        r@ == "/admin/urls?error=Admin is a platform operator and cannot create unowned application URLs; create links via a tenant user account"@,
{
    String::from_str(
        "/admin/urls?error=Admin is a platform operator and cannot create unowned application URLs; create links via a tenant user account",
    )
}

/// The address short links are shown under: the configured base URL, or the
/// local address on the configured port.
pub fn base_url_for(configured: Option<&str>, cookie_secure: bool, port: u16) -> (r: String)
    ensures
        configured is Some ==> r@ == configured->0@,
        configured is None && cookie_secure ==> r@ == "https://localhost:"@ + int_decimal(port as int),
        configured is None && !cookie_secure ==> r@ == "http://localhost:"@ + int_decimal(port as int),
{
    match configured {
        Some(b) => String::from_str(b),
        None => {
            let p = i64_decimal(port as i64);
            if cookie_secure {
                join_text("https://localhost:", p.as_str())
            } else {
                join_text("http://localhost:", p.as_str())
            }
        },
    }
}

/// What the admin link page shows for a registry entry whose owner's record
/// cannot be read: the registry's own fields, everything else empty.
pub fn registry_placeholder(slug: String, target_id: String, created_at: String, updated_at: String, status: String) -> (r: Url)
    ensures
        r.id == target_id,
        r.code == slug,
        r.destination@ == Seq::<char>::empty(),
        r.created_at == created_at,
        r.updated_at == updated_at,
        r.status == status,
        r.title is None && r.description is None && r.expires_at is None && r.password_hash is None,
        r.tags@.len() == 0,
        r.max_access_count is None,
        r.access_count == 0,
        !r.expired,
        r.last_latency_ms is None && r.last_status is None,
{
    Url {
        id: target_id,
        code: slug,
        destination: String::new(),
        title: None,
        description: None,
        created_at,
        updated_at,
        status,
        tags: Vec::new(),
        expires_at: None,
        password_hash: None,
        max_access_count: None,
        access_count: 0,
        expired: false,
        last_latency_ms: None,
        last_status: None,
    }
}

} // verus!
