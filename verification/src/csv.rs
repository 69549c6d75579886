//! CSV rendering of analytics exports.

use vstd::prelude::*;
use vstd::string::*;
use crate::text::{chars_of, string_of};

verus! {

/// Characters that force a CSV field to be quoted.
pub open spec fn csv_special(c: char) -> bool {
    c == ',' || c == '"' || c == '\n' || c == '\r'
}

pub open spec fn needs_quoting(s: Seq<char>) -> bool {
    exists|i: int| 0 <= i < s.len() && csv_special(#[trigger] s[i])
}

/// One character with every `"` doubled.
pub open spec fn double_quote_char(c: char) -> Seq<char> {
    if c == '"' {
        seq!['"', '"']
    } else {
        seq![c]
    }
}

/// The text with every `"` doubled.
pub open spec fn double_quotes(s: Seq<char>) -> Seq<char>
    decreases s.len(),
{
    if s.len() == 0 {
        Seq::empty()
    } else {
        double_quote_char(s[0]) + double_quotes(s.skip(1))
    }
}

/// The CSV field that stands for `s`: `s` itself, or `s` in double quotes with
/// inner quotes doubled when it holds a comma, quote, CR or LF.
pub open spec fn csv_field_text(s: Seq<char>) -> Seq<char> {
    if needs_quoting(s) {
        seq!['"'] + double_quotes(s) + seq!['"']
    } else {
        s
    }
}

/// Collapses every `""` pair back to `"`.
pub open spec fn undouble_quotes(s: Seq<char>) -> Seq<char>
    decreases s.len(),
{
    if s.len() == 0 {
        Seq::empty()
    } else if s.len() >= 2 && s[0] == '"' && s[1] == '"' {
        seq!['"'] + undouble_quotes(s.skip(2))
    } else {
        seq![s[0]] + undouble_quotes(s.skip(1))
    }
}

/// The value a CSV reader takes from one field.
pub open spec fn csv_field_value(f: Seq<char>) -> Seq<char> {
    if f.len() >= 2 && f[0] == '"' && f[f.len() - 1] == '"' {
        undouble_quotes(f.subrange(1, f.len() - 1))
    } else {
        f
    }
}

proof fn lemma_double_quotes_push(s: Seq<char>, c: char)
    ensures
        double_quotes(s.push(c)) == double_quotes(s) + double_quote_char(c),
    decreases s.len(),
{
    if s.len() == 0 {
        assert(s.push(c).skip(1) =~= Seq::<char>::empty());
        assert(double_quotes(Seq::<char>::empty()) == Seq::<char>::empty());
        assert(double_quotes(s.push(c)) =~= double_quote_char(c));
    } else {
        assert(s.push(c).skip(1) =~= s.skip(1).push(c));
        lemma_double_quotes_push(s.skip(1), c);
        assert(double_quotes(s.push(c)) =~= double_quote_char(s[0]) + double_quotes(s.skip(1).push(c)));
    }
}

proof fn lemma_undouble_double(s: Seq<char>)
    ensures
        undouble_quotes(double_quotes(s)) == s,
    decreases s.len(),
{
    if s.len() == 0 {
        assert(double_quotes(s) == Seq::<char>::empty());
    } else {
        lemma_undouble_double(s.skip(1));
        let rest = double_quotes(s.skip(1));
        let d = double_quotes(s);
        assert(d == double_quote_char(s[0]) + rest);
        if s[0] == '"' {
            assert(d.skip(2) =~= rest);
            assert(d[0] == '"' && d[1] == '"');
        } else {
            assert(d.skip(1) =~= rest);
            assert(d[0] == s[0]);
        }
        assert(s =~= seq![s[0]] + s.skip(1));
    }
}

proof fn lemma_no_quote_unchanged(s: Seq<char>)
    requires
        !needs_quoting(s),
    ensures
        csv_field_value(s) == s,
{
    if s.len() >= 2 && s[0] == '"' {
        assert(csv_special(s[0]));
    }
}

/// Reading back a rendered CSV field gives the original text.
pub proof fn law_csv_field_roundtrip(s: Seq<char>)
    ensures
        csv_field_value(csv_field_text(s)) == s,
{
    if needs_quoting(s) {
        let f = csv_field_text(s);
        let inner = double_quotes(s);
        assert(f.subrange(1, f.len() - 1) =~= inner);
        lemma_undouble_double(s);
    } else {
        lemma_no_quote_unchanged(s);
    }
}

/// Quotes a CSV field when it holds a comma, quote, CR or LF, doubling inner
/// quotes; returns it unchanged otherwise.
pub fn escape_csv_field(field: &str) -> (r: String)
    ensures
        r@ == csv_field_text(field@),
{
    let cs = chars_of(field);
    let mut special = false;
    for i in 0..cs.len()
        invariant
            cs@ == field@,
            special == exists|j: int| 0 <= j < i && csv_special(#[trigger] cs@[j]),
    {
        let c = cs[i];
        if c == ',' || c == '"' || c == '\n' || c == '\r' {
            special = true;
        }
    }
    if !special {
        return field.to_string();
    }
    let mut out: Vec<char> = Vec::new();
    out.push('"');
    for i in 0..cs.len()
        invariant
            cs@ == field@,
            out@ == seq!['"'] + double_quotes(cs@.take(i as int)),
    {
        let c = cs[i];
        proof {
            assert(cs@.take(i + 1) =~= cs@.take(i as int).push(c));
            lemma_double_quotes_push(cs@.take(i as int), c);
        }
        if c == '"' {
            out.push('"');
            out.push('"');
        } else {
            out.push(c);
        }
        assert(out@ =~= seq!['"'] + double_quotes(cs@.take(i + 1)));
    }
    out.push('"');
    assert(cs@.take(cs.len() as int) =~= cs@);
    assert(out@ =~= seq!['"'] + double_quotes(field@) + seq!['"']);
    string_of(&out)
}

/// Fields joined with commas.
pub open spec fn comma_join(fields: Seq<Seq<char>>) -> Seq<char>
    decreases fields.len(),
{
    if fields.len() == 0 {
        Seq::empty()
    } else if fields.len() == 1 {
        fields[0]
    } else {
        comma_join(fields.drop_last()) + seq![','] + fields.last()
    }
}

/// The rendered CSV line for a row of values: escaped fields, commas, LF.
pub open spec fn csv_line_text(values: Seq<Seq<char>>) -> Seq<char> {
    comma_join(values.map_values(|v: Seq<char>| csv_field_text(v))) + seq!['\n']
}

/// One CSV line: each value escaped, separated by commas, ended by a newline.
pub fn csv_export_line(values: &Vec<String>) -> (r: String)
    ensures
        r@ == csv_line_text(values@.map_values(|v: String| v@)),
{
    let ghost vs = values@.map_values(|v: String| v@);
    let ghost esc = vs.map_values(|v: Seq<char>| csv_field_text(v));
    let mut out = String::new();
    for i in 0..values.len()
        invariant
            vs == values@.map_values(|v: String| v@),
            esc == vs.map_values(|v: Seq<char>| csv_field_text(v)),
            out@ == comma_join(esc.take(i as int)),
    {
        let f = escape_csv_field(values[i].as_str());
        proof {
            assert(esc.take(i + 1).drop_last() =~= esc.take(i as int));
            assert(esc.take(i + 1).last() == f@);
        }
        if i > 0 {
            out.append(",");
            proof { reveal_strlit(","); }
        } else {
            assert(esc.take(0) =~= Seq::<Seq<char>>::empty());
        }
        out.append(f.as_str());
        assert(out@ =~= comma_join(esc.take(i + 1)));
    }
    assert(esc.take(values.len() as int) =~= esc);
    out.append("\n");
    proof { reveal_strlit("\n"); }
    assert(out@ =~= csv_line_text(vs));
    out
}

/// The header line of an analytics CSV export; the UTM columns appear only when
/// the visits table has them.
pub open spec fn csv_export_header_text(has_utm_source: bool, has_utm_campaign: bool) -> Seq<char> {
    "Timestamp,IP Address,Country,Referrer,Browser,User-Agent"@
        + (if has_utm_source { ",UTM Source"@ } else { Seq::empty() })
        + (if has_utm_campaign { ",UTM Campaign"@ } else { Seq::empty() })
        + "\n"@
}

pub fn csv_export_header(has_utm_source: bool, has_utm_campaign: bool) -> (r: String)
    ensures
        r@ == csv_export_header_text(has_utm_source, has_utm_campaign),
{
    let mut header = String::from_str("Timestamp,IP Address,Country,Referrer,Browser,User-Agent");
    let ghost base = header@;
    let ghost s1: Seq<char> = if has_utm_source { ",UTM Source"@ } else { Seq::empty() };
    let ghost s2: Seq<char> = if has_utm_campaign { ",UTM Campaign"@ } else { Seq::empty() };
    if has_utm_source {
        header.append(",UTM Source");
    }
    assert(header@ =~= base + s1);
    if has_utm_campaign {
        header.append(",UTM Campaign");
    }
    assert(header@ =~= base + s1 + s2);
    header.append("\n");
    header
}

} // verus!
