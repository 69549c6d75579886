//! The audit trail pages: reading the address and user agent back out of an
//! event's metadata text.

use vstd::prelude::*;
use vstd::string::*;
use crate::qr::strip_trailing;
use crate::text::{chars_of, has_prefix, occurs_at, seq_occurs_at, string_of};

verus! {

/// A recorded audit event.
pub struct AuditEvent {
    pub id: String,
    pub timestamp: String,
    pub actor: String,
    pub action: String,
    pub object_type: String,
    pub object_id: String,
    pub metadata: Option<String>,
}

/// An audit event as the audit pages list it.
pub struct AuditLog {
    pub id: String,
    pub timestamp: String,
    pub username: String,
    pub action: String,
    pub object_type: Option<String>,
    pub object_id: Option<String>,
    pub ip_address: Option<String>,
    pub user_agent: Option<String>,
}

/// Position of the first occurrence of a (non-empty) pattern.
pub open spec fn find_first(s: Seq<char>, pat: Seq<char>) -> Option<int>
    decreases s.len(),
{
    if pat.len() == 0 {
        Some(0)
    } else if s.len() < pat.len() {
        None
    } else if has_prefix(s, pat) {
        Some(0)
    } else {
        match find_first(s.drop_first(), pat) {
            Some(i) => Some(i + 1),
            None => None,
        }
    }
}

/// The text before the first occurrence of `pat` (all of it when there is
/// none): the first piece of std `split`.
pub open spec fn before_first(s: Seq<char>, pat: Seq<char>) -> Seq<char> {
    match find_first(s, pat) {
        Some(i) => s.take(i),
        None => s,
    }
}

/// `s` without `p` at its front, as often as it is there (std
/// `trim_start_matches` with a text pattern).
pub open spec fn strip_all_prefix(s: Seq<char>, p: Seq<char>) -> Seq<char>
    decreases s.len(),
{
    if p.len() > 0 && has_prefix(s, p) {
        strip_all_prefix(s.skip(p.len() as int), p)
    } else {
        s
    }
}

/// `s` without its leading `c` characters.
pub open spec fn strip_leading(s: Seq<char>, c: char) -> Seq<char>
    decreases s.len(),
{
    if s.len() > 0 && s[0] == c {
        strip_leading(s.drop_first(), c)
    } else {
        s
    }
}

/// std `trim_matches` with a character.
pub open spec fn trim_char(s: Seq<char>, c: char) -> Seq<char> {
    strip_trailing(strip_leading(s, c), c)
}

/// Every non-overlapping occurrence of a (non-empty) pattern replaced, left
/// to right (std `str::replace`).
pub open spec fn replace_all(s: Seq<char>, pat: Seq<char>, rep: Seq<char>) -> Seq<char>
    decreases s.len(),
{
    if s.len() == 0 {
        s
    } else if pat.len() > 0 && has_prefix(s, pat) {
        rep + replace_all(s.skip(pat.len() as int), pat, rep)
    } else {
        seq![s[0]] + replace_all(s.drop_first(), pat, rep)
    }
}

/// A metadata field as shown: quotes trimmed and the `Some(` … `)` wrapping
/// of `Debug` text removed.
pub open spec fn clean_field(t: Seq<char>) -> Seq<char> {
    replace_all(replace_all(trim_char(trim_char(t, '"'), '\''), "Some("@, Seq::empty()), ")"@, Seq::empty())
}

/// The address and user agent read from metadata of the form
/// `IP: …, UA: …`; the agent is `Unknown` when the metadata has none.
pub open spec fn audit_fields(m: Option<Seq<char>>) -> (Option<Seq<char>>, Option<Seq<char>>) {
    match m {
        None => (None, None),
        Some(m) => if has_prefix(m, "IP: "@) {
            let sep = ", UA: "@;
            let ip = clean_field(strip_all_prefix(before_first(m, sep), "IP: "@));
            let ua = match find_first(m, sep) {
                Some(i) => clean_field(before_first(m.skip(i + sep.len()), sep)),
                None => "Unknown"@,
            };
            (Some(ip), Some(ua))
        } else {
            (None, None)
        },
    }
}

proof fn lemma_prefix_at(s: Seq<char>, p: Seq<char>, i: int)
    requires
        0 <= i <= s.len(),
    ensures
        has_prefix(s.skip(i), p) == occurs_at(s, p, i),
{
    if p.len() <= s.len() - i {
        assert(s.skip(i).subrange(0, p.len() as int) =~= s.subrange(i, i + p.len()));
    }
}

fn find_at(cs: &Vec<char>, pat: &Vec<char>, from: usize) -> (r: Option<usize>)
    requires
        from <= cs@.len(),
        pat@.len() > 0,
    ensures
        match find_first(cs@.skip(from as int), pat@) {
            Some(i) => r is Some && r->0 as int == from as int + i,
            None => r is None,
        },
        r matches Some(k) ==> from <= k && k + pat@.len() <= cs@.len(),
{
    proof {
        lemma_find_first_range(cs@.skip(from as int), pat@);
    }
    let mut i: usize = from;
    while i < cs.len()
        invariant
            from <= i <= cs@.len(),
            pat@.len() > 0,
            find_first(cs@.skip(from as int), pat@) == match find_first(cs@.skip(i as int), pat@) {
                Some(j) => Some(j + (i - from)),
                None => None,
            },
        decreases cs.len() - i,
    {
        proof {
            lemma_prefix_at(cs@, pat@, i as int);
            assert(cs@.skip(i as int).drop_first() =~= cs@.skip(i + 1));
        }
        if seq_occurs_at(cs, pat, i) {
            return Some(i);
        }
        i = i + 1;
    }
    None
}

fn text_of_range(cs: &Vec<char>, a: usize, b: usize) -> (r: String)
    requires
        a <= b <= cs@.len(),
    ensures
        r@ == cs@.subrange(a as int, b as int),
{
    let mut v: Vec<char> = Vec::new();
    let mut i: usize = a;
    while i < b
        invariant
            a <= i <= b <= cs@.len(),
            v@ == cs@.subrange(a as int, i as int),
        decreases b - i,
    {
        v.push(cs[i]);
        i = i + 1;
        assert(v@ =~= cs@.subrange(a as int, i as int));
    }
    string_of(&v)
}

fn strip_prefix_repeated(s: &Vec<char>, p: &Vec<char>) -> (r: Vec<char>)
    requires
        p@.len() > 0,
    ensures
        r@ == strip_all_prefix(s@, p@),
{
    let mut i: usize = 0;
    assert(s@.skip(0) =~= s@);
    let mut occ = seq_occurs_at(s, p, 0);
    while occ
        invariant
            i <= s@.len(),
            p@.len() > 0,
            occ == occurs_at(s@, p@, i as int),
            strip_all_prefix(s@, p@) == strip_all_prefix(s@.skip(i as int), p@),
        decreases s@.len() - i,
    {
        proof {
            lemma_prefix_at(s@, p@, i as int);
            assert(s@.skip(i as int).skip(p@.len() as int) =~= s@.skip(i + p@.len()));
        }
        assert(i + p@.len() <= s@.len());
        assert(s@.len() == s.len() && p@.len() == p.len());
        i = i + p.len();
        occ = seq_occurs_at(s, p, i);
    }
    proof {
        lemma_prefix_at(s@, p@, i as int);
    }
    let mut out: Vec<char> = Vec::new();
    let mut j: usize = i;
    while j < s.len()
        invariant
            i <= j <= s@.len(),
            out@ == s@.subrange(i as int, j as int),
        decreases s.len() - j,
    {
        out.push(s[j]);
        j = j + 1;
        assert(out@ =~= s@.subrange(i as int, j as int));
    }
    assert(out@ =~= s@.skip(i as int));
    out
}

fn strip_front(s: Vec<char>, c: char) -> (r: Vec<char>)
    ensures
        r@ == strip_leading(s@, c),
{
    let mut a: usize = 0;
    assert(s@.skip(0) =~= s@);
    while a < s.len() && s[a] == c
        invariant
            a <= s@.len(),
            strip_leading(s@, c) == strip_leading(s@.skip(a as int), c),
        decreases s.len() - a,
    {
        assert(s@.skip(a as int).drop_first() =~= s@.skip(a + 1));
        a = a + 1;
    }
    let mut out: Vec<char> = Vec::new();
    let mut j: usize = a;
    while j < s.len()
        invariant
            a <= j <= s@.len(),
            out@ == s@.subrange(a as int, j as int),
        decreases s.len() - j,
    {
        out.push(s[j]);
        j = j + 1;
        assert(out@ =~= s@.subrange(a as int, j as int));
    }
    assert(out@ =~= s@.skip(a as int));
    out
}

fn strip_back(s: Vec<char>, c: char) -> (r: Vec<char>)
    ensures
        r@ == strip_trailing(s@, c),
{
    let mut v = s;
    while v.len() > 0 && v[v.len() - 1] == c
        invariant
            strip_trailing(v@, c) == strip_trailing(s@, c),
        decreases v.len(),
    {
        let ghost before = v@;
        v.pop();
        assert(v@ =~= before.drop_last());
    }
    v
}

fn trim_both(s: Vec<char>, c: char) -> (r: Vec<char>)
    ensures
        r@ == trim_char(s@, c),
{
    strip_back(strip_front(s, c), c)
}

fn replace_text(s: &Vec<char>, pat: &Vec<char>, rep: &Vec<char>) -> (r: Vec<char>)
    requires
        pat@.len() > 0,
    ensures
        r@ == replace_all(s@, pat@, rep@),
{
    let mut out: Vec<char> = Vec::new();
    let mut i: usize = 0;
    assert(s@.skip(0) =~= s@);
    while i < s.len()
        invariant
            i <= s@.len(),
            pat@.len() > 0,
            replace_all(s@, pat@, rep@) == out@ + replace_all(s@.skip(i as int), pat@, rep@),
        decreases s.len() - i,
    {
        proof {
            lemma_prefix_at(s@, pat@, i as int);
        }
        if seq_occurs_at(s, pat, i) {
            let ghost before = out@;
            let mut k: usize = 0;
            while k < rep.len()
                invariant
                    k <= rep@.len(),
                    out@ == before + rep@.take(k as int),
                decreases rep.len() - k,
            {
                out.push(rep[k]);
                k = k + 1;
                assert(out@ =~= before + rep@.take(k as int));
            }
            assert(rep@.take(rep@.len() as int) =~= rep@);
            assert(s@.skip(i as int).skip(pat@.len() as int) =~= s@.skip(i + pat@.len()));
            assert(before + (rep@ + replace_all(s@.skip(i + pat@.len()), pat@, rep@)) =~= out@ + replace_all(
                s@.skip(i + pat@.len()),
                pat@,
                rep@,
            ));
            i = i + pat.len();
        } else {
            let ghost before = out@;
            out.push(s[i]);
            assert(s@.skip(i as int)[0] == s@[i as int]);
            assert(s@.skip(i as int).drop_first() =~= s@.skip(i + 1));
            assert(before + (seq![s@[i as int]] + replace_all(s@.skip(i + 1), pat@, rep@)) =~= out@ + replace_all(
                s@.skip(i + 1),
                pat@,
                rep@,
            ));
            i = i + 1;
        }
    }
    assert(replace_all(s@.skip(i as int), pat@, rep@) =~= Seq::<char>::empty());
    assert(out@ + Seq::<char>::empty() =~= out@);
    out
}

fn clean(t: Vec<char>) -> (r: String)
    ensures
        r@ == clean_field(t@),
{
    let a = trim_both(t, '"');
    let b = trim_both(a, '\'');
    let some = chars_of("Some(");
    let close = chars_of(")");
    let nothing: Vec<char> = Vec::new();
    proof {
        reveal_strlit("Some(");
        reveal_strlit(")");
        assert(nothing@ =~= Seq::<char>::empty());
    }
    let c = replace_text(&b, &some, &nothing);
    let d = replace_text(&c, &close, &nothing);
    string_of(&d)
}

/// Reads the address and user agent out of an event's metadata.
pub fn audit_metadata_fields(metadata: Option<&str>) -> (r: (Option<String>, Option<String>))
    ensures
        ({
            let (ip, ua) = audit_fields(crate::models::opt_text(metadata));
            &&& match ip {
                Some(x) => r.0 is Some && r.0->0@ == x,
                None => r.0 is None,
            }
            &&& match ua {
                Some(x) => r.1 is Some && r.1->0@ == x,
                None => r.1 is None,
            }
        }),
{
    let m = match metadata {
        Some(m) => m,
        None => return (None, None),
    };
    let cs = chars_of(m);
    let ip_tag = chars_of("IP: ");
    let sep = chars_of(", UA: ");
    proof {
        reveal_strlit("IP: ");
        reveal_strlit(", UA: ");
    }
    if !seq_occurs_at(&cs, &ip_tag, 0) {
        proof {
            lemma_prefix_at(cs@, ip_tag@, 0);
            assert(cs@.skip(0) =~= cs@);
        }
        return (None, None);
    }
    proof {
        lemma_prefix_at(cs@, ip_tag@, 0);
        assert(cs@.skip(0) =~= cs@);
    }
    assert(cs@.skip(0) =~= cs@);
    let first = find_at(&cs, &sep, 0);
    proof {
        lemma_find_first_range(cs@, sep@);
    }
    let end0 = match first {
        Some(i) => i,
        None => cs.len(),
    };
    let p0 = text_of_range(&cs, 0, end0);
    let p0c = chars_of(p0.as_str());
    assert(p0c@ =~= before_first(m@, sep@)) by {
        assert(cs@ == m@);
        assert(p0c@ == cs@.subrange(0, end0 as int));
        lemma_find_first_range(cs@, sep@);
        match find_first(cs@, sep@) {
            Some(k) => {
                assert(end0 as int == k);
                assert(cs@.take(k) =~= cs@.subrange(0, k));
            },
            None => {
                assert(cs@.subrange(0, cs@.len() as int) =~= cs@);
            },
        }
    }
    let stripped = strip_prefix_repeated(&p0c, &ip_tag);
    let ip = clean(stripped);
    let ua = match first {
        Some(i) => {
            proof {
                crate::audit::lemma_find_first_range(cs@, sep@);
            }
            assert(i + sep@.len() <= cs@.len());
            assert(cs@.len() == cs.len() && sep@.len() == sep.len());
            let from = i + sep.len();
            let second = find_at(&cs, &sep, from);
            let end1 = match second {
                Some(j) => j,
                None => cs.len(),
            };
            proof {
                crate::audit::lemma_find_first_range(cs@.skip(from as int), sep@);
            }
            let p1 = text_of_range(&cs, from, end1);
            let p1c = chars_of(p1.as_str());
            assert(p1c@ =~= before_first(m@.skip(from as int), sep@));
            clean(p1c)
        },
        None => String::from_str("Unknown"),
    };
    (Some(ip), Some(ua))
}

pub proof fn lemma_find_first_range(s: Seq<char>, pat: Seq<char>)
    ensures
        find_first(s, pat) matches Some(i) ==> 0 <= i && i + pat.len() <= s.len(),
    decreases s.len(),
{
    if pat.len() > 0 && s.len() >= pat.len() && !has_prefix(s, pat) {
        lemma_find_first_range(s.drop_first(), pat);
    }
}

/// An event as the audit pages list it: the type and object always shown,
/// the address and agent read from the metadata.
pub fn audit_log_of(e: AuditEvent) -> (r: AuditLog)
    ensures
        r.id == e.id,
        r.timestamp == e.timestamp,
        r.username == e.actor,
        r.action == e.action,
        r.object_type == Some(e.object_type),
        r.object_id == Some(e.object_id),
        ({
            let (ip, ua) = audit_fields(crate::models::opt_string(e.metadata));
            &&& match ip {
                Some(x) => r.ip_address is Some && r.ip_address->0@ == x,
                None => r.ip_address is None,
            }
            &&& match ua {
                Some(x) => r.user_agent is Some && r.user_agent->0@ == x,
                None => r.user_agent is None,
            }
        }),
{
    let (ip, ua) = match &e.metadata {
        Some(m) => audit_metadata_fields(Some(m.as_str())),
        None => audit_metadata_fields(None),
    };
    AuditLog {
        id: e.id,
        timestamp: e.timestamp,
        username: e.actor,
        action: e.action,
        object_type: Some(e.object_type),
        object_id: Some(e.object_id),
        ip_address: ip,
        user_agent: ua,
    }
}

} // verus!
