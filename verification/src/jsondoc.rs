//! What JSON documents are, and their text without white space.

use crate::text::{
    decimal, escape_char, escaped, law_decimal_reads_back, number_text, quoted,
};
use vstd::prelude::*;

verus! {

/// A JSON document. A number is kept as it is written; the members of an object
/// are kept in order.
pub enum JsonDoc {
    Null,
    Bool(bool),
    Number(Seq<char>),
    Text(Seq<char>),
    Array(Seq<JsonDoc>),
    Object(Seq<(Seq<char>, JsonDoc)>),
}

pub open spec fn bool_text(b: bool) -> Seq<char> {
    if b {
        "true"@
    } else {
        "false"@
    }
}

/// The text of a document.
pub open spec fn doc_text(j: JsonDoc) -> Seq<char>
    decreases j,
{
    match j {
        JsonDoc::Null => "null"@,
        JsonDoc::Bool(b) => bool_text(b),
        JsonDoc::Number(t) => t,
        JsonDoc::Text(t) => quoted(t),
        JsonDoc::Array(s) => seq!['['] + elements_text(s) + seq![']'],
        JsonDoc::Object(m) => seq!['{'] + members_text(m) + seq!['}'],
    }
}

/// Elements with commas between them.
pub open spec fn elements_text(s: Seq<JsonDoc>) -> Seq<char>
    decreases s,
{
    if s.len() == 0 {
        seq![]
    } else if s.len() == 1 {
        doc_text(s[0])
    } else {
        elements_text(s.drop_last()) + seq![','] + doc_text(s.last())
    }
}

/// One member of an object.
pub open spec fn member_text(m: (Seq<char>, JsonDoc)) -> Seq<char>
    decreases m,
{
    quoted(m.0) + seq![':'] + doc_text(m.1)
}

/// Members with commas between them.
pub open spec fn members_text(s: Seq<(Seq<char>, JsonDoc)>) -> Seq<char>
    decreases s,
{
    if s.len() == 0 {
        seq![]
    } else if s.len() == 1 {
        member_text(s[0])
    } else {
        members_text(s.drop_last()) + seq![','] + member_text(s.last())
    }
}

/// One decimal digit or more.
pub open spec fn is_digits(s: Seq<char>) -> bool {
    s.len() > 0 && forall|i: int| 0 <= i < s.len() ==> '0' <= #[trigger] s[i] <= '9'
}

/// The four parts of a JSON number: a minus sign or nothing; digits without a
/// needless zero in front; a point and digits, or nothing; an exponent with or
/// without a sign, or nothing.
pub open spec fn number_parts(
    sign: Seq<char>,
    whole: Seq<char>,
    fraction: Seq<char>,
    exponent: Seq<char>,
) -> bool {
    &&& sign.len() == 0 || sign == seq!['-']
    &&& is_digits(whole) && (whole.len() == 1 || whole[0] != '0')
    &&& fraction.len() == 0 || (fraction[0] == '.' && is_digits(fraction.skip(1)))
    &&& exponent.len() == 0 || ((exponent[0] == 'e' || exponent[0] == 'E') && (is_digits(
        exponent.skip(1),
    ) || (exponent.len() > 1 && (exponent[1] == '+' || exponent[1] == '-') && is_digits(
        exponent.skip(2),
    ))))
}

/// Holds for the texts that are numbers in JSON.
pub open spec fn is_number(s: Seq<char>) -> bool {
    exists|sign: Seq<char>, whole: Seq<char>, fraction: Seq<char>, exponent: Seq<char>| #[trigger]
        number_parts(sign, whole, fraction, exponent) && s == sign + whole + fraction + exponent
}

/// Holds for documents in which every number is one.
pub open spec fn is_document(j: JsonDoc) -> bool
    decreases j,
{
    match j {
        JsonDoc::Null | JsonDoc::Bool(_) | JsonDoc::Text(_) => true,
        JsonDoc::Number(t) => is_number(t),
        JsonDoc::Array(s) => forall|i: int| 0 <= i < s.len() ==> is_document(#[trigger] s[i]),
        JsonDoc::Object(m) => forall|i: int| 0 <= i < m.len() ==> is_document(#[trigger] m[i].1),
    }
}

pub proof fn lemma_array_document(s: Seq<JsonDoc>)
    requires
        forall|i: int| 0 <= i < s.len() ==> is_document(#[trigger] s[i]),
    ensures
        is_document(JsonDoc::Array(s)),
{
}

pub proof fn lemma_object_document(m: Seq<(Seq<char>, JsonDoc)>)
    requires
        forall|i: int| 0 <= i < m.len() ==> is_document(#[trigger] m[i].1),
    ensures
        is_document(JsonDoc::Object(m)),
{
}

/// Whole numbers as they are written are numbers in JSON.
pub proof fn lemma_whole_number(n: int)
    ensures
        is_number(number_text(n)),
        n >= 0 ==> is_number(decimal(n as nat)),
{
    let none = Seq::<char>::empty();
    let size: nat = if n < 0 {
        (-n) as nat
    } else {
        n as nat
    };
    let sign = if n < 0 {
        seq!['-']
    } else {
        none
    };
    law_decimal_reads_back(size);
    assert(number_parts(sign, decimal(size), none, none));
    assert(number_text(n) =~= sign + decimal(size) + none + none);
}

/// Text that stands in a JSON string as it is.
pub open spec fn is_plain(s: Seq<char>) -> bool {
    forall|i: int|
        0 <= i < s.len() ==> #[trigger] s[i] != '"' && s[i] != '\\' && s[i] as int >= 0x20
}

pub proof fn lemma_plain(s: Seq<char>)
    requires
        is_plain(s),
    ensures
        escaped(s) == s,
    decreases s.len(),
{
    if s.len() > 0 {
        assert(s[0] as int >= 0x20);
        lemma_plain(s.drop_first());
        assert(escape_char(s[0]) =~= seq![s[0]]);
        assert(seq![s[0]] + s.drop_first() =~= s);
    }
}

pub proof fn lemma_push_member(s: Seq<(Seq<char>, JsonDoc)>, m: (Seq<char>, JsonDoc))
    ensures
        members_text(s.push(m)) == (if s.len() == 0 {
            member_text(m)
        } else {
            members_text(s) + seq![','] + member_text(m)
        }),
{
    assert(s.push(m).drop_last() =~= s);
}

pub proof fn lemma_push_element(s: Seq<JsonDoc>, j: JsonDoc)
    ensures
        elements_text(s.push(j)) == (if s.len() == 0 {
            doc_text(j)
        } else {
            elements_text(s) + seq![','] + doc_text(j)
        }),
{
    assert(s.push(j).drop_last() =~= s);
}

/// Holds when member `i` is the only one under a key, and has the given value.
pub open spec fn only_member(
    m: Seq<(Seq<char>, JsonDoc)>,
    i: int,
    key: Seq<char>,
    value: JsonDoc,
) -> bool {
    &&& 0 <= i < m.len()
    &&& m[i].0 == key
    &&& m[i].1 == value
    &&& forall|k: int| 0 <= k < m.len() && k != i ==> (#[trigger] m[k]).0 != key
}

/// Holds when an object has exactly one member under a key, with the given value.
pub open spec fn member_is(j: JsonDoc, key: Seq<char>, value: JsonDoc) -> bool {
    j is Object && exists|i: int| #[trigger] only_member(j->Object_0, i, key, value)
}

/// How documents are written. Simple values stand as they are known, numbers as they
/// are kept, texts escaped between quotes. Arrays and objects stand between their
/// brackets, with a comma before every element but the first, and a member is its
/// quoted key, a colon and its value.
pub proof fn law_document_text(
    t: Seq<char>,
    s: Seq<JsonDoc>,
    j: JsonDoc,
    m: Seq<(Seq<char>, JsonDoc)>,
)
    ensures
        doc_text(JsonDoc::Null) == seq!['n', 'u', 'l', 'l'],
        doc_text(JsonDoc::Bool(true)) == seq!['t', 'r', 'u', 'e'],
        doc_text(JsonDoc::Bool(false)) == seq!['f', 'a', 'l', 's', 'e'],
        doc_text(JsonDoc::Number(t)) == t,
        doc_text(JsonDoc::Text(t)) == seq!['"'] + escaped(t) + seq!['"'],
        doc_text(JsonDoc::Array(seq![])) == seq!['[', ']'],
        doc_text(JsonDoc::Array(seq![j])) == seq!['['] + doc_text(j) + seq![']'],
        s.len() > 0 ==> doc_text(JsonDoc::Array(s.push(j))) == doc_text(
            JsonDoc::Array(s),
        ).drop_last() + seq![','] + doc_text(j) + seq![']'],
        doc_text(JsonDoc::Object(seq![])) == seq!['{', '}'],
        doc_text(JsonDoc::Object(seq![(t, j)])) == seq!['{'] + (seq!['"'] + escaped(t) + seq!['"'])
            + seq![':'] + doc_text(j) + seq!['}'],
        m.len() > 0 ==> doc_text(JsonDoc::Object(m.push((t, j)))) == doc_text(
            JsonDoc::Object(m),
        ).drop_last() + seq![','] + (seq!['"'] + escaped(t) + seq!['"']) + seq![':'] + doc_text(j)
            + seq!['}'],
{
    reveal_strlit("null");
    reveal_strlit("true");
    reveal_strlit("false");
    assert("null"@ =~= seq!['n', 'u', 'l', 'l']);
    assert("true"@ =~= seq!['t', 'r', 'u', 'e']);
    assert("false"@ =~= seq!['f', 'a', 'l', 's', 'e']);
    lemma_push_element(s, j);
    lemma_push_member(m, (t, j));
    assert(elements_text(Seq::<JsonDoc>::empty()) =~= Seq::<char>::empty());
    assert(members_text(Seq::<(Seq<char>, JsonDoc)>::empty()) =~= Seq::<char>::empty());
    assert(elements_text(seq![j]) == doc_text(j));
    assert(members_text(seq![(t, j)]) == member_text((t, j)));
    assert(doc_text(JsonDoc::Array(seq![])) =~= seq!['[', ']']);
    assert(doc_text(JsonDoc::Object(seq![])) =~= seq!['{', '}']);
    assert(doc_text(JsonDoc::Object(seq![(t, j)])) =~= seq!['{'] + (seq!['"'] + escaped(t)
        + seq!['"']) + seq![':'] + doc_text(j) + seq!['}']);
    if s.len() > 0 {
        assert(doc_text(JsonDoc::Array(s)).drop_last() =~= seq!['['] + elements_text(s));
        assert(doc_text(JsonDoc::Array(s.push(j))) =~= doc_text(JsonDoc::Array(s)).drop_last()
            + seq![','] + doc_text(j) + seq![']']);
    }
    if m.len() > 0 {
        assert(doc_text(JsonDoc::Object(m)).drop_last() =~= seq!['{'] + members_text(m));
        assert(doc_text(JsonDoc::Object(m.push((t, j)))) =~= doc_text(
            JsonDoc::Object(m),
        ).drop_last() + seq![','] + (seq!['"'] + escaped(t) + seq!['"']) + seq![':'] + doc_text(j)
            + seq!['}']);
    }
}

} // verus!
