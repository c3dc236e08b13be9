//! The tree of setting descriptors as JSON, from which a settings screen is
//! built.

use crate::jsondoc::{
    bool_text, doc_text, elements_text, is_document, is_number, lemma_array_document,
    lemma_object_document, lemma_plain, lemma_push_element, lemma_push_member, lemma_whole_number,
    member_is, member_text, members_text, only_member, JsonDoc,
};
use crate::text::{
    decimal, escape_json_into, escaped, number_text, opt_json, opt_str, push_decimal, push_number,
    quoted,
};
use vstd::prelude::*;
use vstd::string::StringExecFns;

verus! {

/// One choice of an enumeration.
#[derive(Debug)]
pub struct MenuItem {
    pub label: String,
    pub description: Option<String>,
    pub index: u32,
}

/// What values a setting takes. Bounds of continuous ranges are kept as they are
/// written.
#[derive(Debug)]
pub enum SettingKind {
    Enumeration { options: Vec<MenuItem> },
    Percentage { logarithmic: bool },
    IntRange { min: i32, max: i32 },
    FloatRange { low: String, high: String, logarithmic: bool },
    Boolean,
    Group { children: Vec<SettingDescriptor> },
}

/// A single setting.
#[derive(Debug)]
pub struct SettingDescriptor {
    pub name: String,
    pub id: u32,
    pub label: String,
    pub description: Option<String>,
    pub kind: SettingKind,
}

/// A description as a JSON value.
pub open spec fn description_json(d: Option<String>) -> Seq<char> {
    opt_json(
        match d {
            Some(s) => Some(s@),
            None => None,
        },
    )
}

/// One choice as a JSON object.
pub open spec fn option_json(o: MenuItem) -> Seq<char> {
    "{\"label\":\""@ + escaped(o.label@) + "\",\"description\":"@ + description_json(o.description)
        + ",\"index\":"@ + decimal(o.index as nat) + seq!['}']
}

/// Choices as JSON objects with commas between them.
pub open spec fn options_json(s: Seq<MenuItem>) -> Seq<char>
    decreases s.len(),
{
    if s.len() == 0 {
        seq![]
    } else if s.len() == 1 {
        option_json(s[0])
    } else {
        options_json(s.drop_last()) + seq![','] + option_json(s.last())
    }
}

/// What follows the opening quote of a descriptor's `kind`: the name of the kind,
/// and the members that the kind brings.
pub open spec fn kind_json(k: SettingKind) -> Seq<char>
    decreases k,
{
    match k {
        SettingKind::Enumeration { options } => "enum\",\"options\":["@ + options_json(options@)
            + seq![']'],
        SettingKind::Percentage { logarithmic } => "percentage\",\"logarithmic\":"@ + bool_text(
            logarithmic,
        ),
        SettingKind::IntRange { min, max } => "int\",\"min\":"@ + number_text(min as int)
            + ",\"max\":"@ + number_text(max as int),
        SettingKind::FloatRange { low, high, logarithmic } => "float\",\"min\":"@ + low@
            + ",\"max\":"@ + high@ + ",\"logarithmic\":"@ + bool_text(logarithmic),
        SettingKind::Boolean => "bool\""@,
        SettingKind::Group { children } => "group\",\"children\":"@ + seq!['['] + items_json(
            children@,
        ) + seq![']'],
    }
}

/// A descriptor as a JSON object.
pub open spec fn descriptor_json(d: SettingDescriptor) -> Seq<char>
    decreases d,
{
    "{\"name\":\""@ + escaped(d.name@) + "\",\"id\":"@ + decimal(d.id as nat) + ",\"label\":\""@
        + escaped(d.label@) + "\",\"description\":"@ + description_json(d.description)
        + ",\"kind\":\""@ + kind_json(d.kind) + seq!['}']
}

/// Descriptors as JSON objects with commas between them.
pub open spec fn items_json(s: Seq<SettingDescriptor>) -> Seq<char>
    decreases s,
{
    if s.len() == 0 {
        seq![]
    } else if s.len() == 1 {
        descriptor_json(s[0])
    } else {
        items_json(s.drop_last()) + seq![','] + descriptor_json(s.last())
    }
}

/// Descriptors as a JSON array.
pub open spec fn list_json(s: Seq<SettingDescriptor>) -> Seq<char> {
    seq!['['] + items_json(s) + seq![']']
}

fn push_description(dst: &mut String, d: &Option<String>)
    ensures
        final(dst)@ == old(dst)@ + description_json(*d),
{
    match d {
        Some(s) => opt_str(dst, Some(s.as_str())),
        None => opt_str(dst, None),
    }
}

fn push_bool(dst: &mut String, b: bool)
    ensures
        final(dst)@ == old(dst)@ + bool_text(b),
{
    if b {
        dst.append("true");
    } else {
        dst.append("false");
    }
}

fn append_option(dst: &mut String, o: &MenuItem)
    ensures
        final(dst)@ == old(dst)@ + option_json(*o),
{
    let ghost before = dst@;
    dst.append("{\"label\":\"");
    escape_json_into(dst, o.label.as_str());
    dst.append("\",\"description\":");
    push_description(dst, &o.description);
    dst.append(",\"index\":");
    push_decimal(dst, o.index as u64);
    dst.push('}');
    assert(dst@ =~= before + option_json(*o));
}

fn append_options(dst: &mut String, options: &[MenuItem])
    ensures
        final(dst)@ == old(dst)@ + options_json(options@),
{
    let ghost before = dst@;
    let mut i: usize = 0;
    assert(dst@ =~= before + options_json(options@.take(0)));
    while i < options.len()
        invariant
            i <= options@.len(),
            dst@ == before + options_json(options@.take(i as int)),
        decreases options@.len() - i,
    {
        if i > 0 {
            dst.push(',');
        }
        append_option(dst, &options[i]);
        proof {
            assert(options@.take(i + 1).drop_last() =~= options@.take(i as int));
            assert(dst@ =~= before + options_json(options@.take(i + 1)));
        }
        i += 1;
    }
    assert(options@.take(i as int) =~= options@);
}

fn append_kind(dst: &mut String, kind: &SettingKind)
    ensures
        final(dst)@ == old(dst)@ + kind_json(*kind),
    decreases *kind,
{
    let ghost before = dst@;
    match kind {
        SettingKind::Enumeration { options } => {
            dst.append("enum\",\"options\":[");
            append_options(dst, options.as_slice());
            dst.push(']');
        },
        SettingKind::Percentage { logarithmic } => {
            dst.append("percentage\",\"logarithmic\":");
            push_bool(dst, *logarithmic);
        },
        SettingKind::IntRange { min, max } => {
            dst.append("int\",\"min\":");
            push_number(dst, *min as i64);
            dst.append(",\"max\":");
            push_number(dst, *max as i64);
        },
        SettingKind::FloatRange { low, high, logarithmic } => {
            dst.append("float\",\"min\":");
            dst.append(low.as_str());
            dst.append(",\"max\":");
            dst.append(high.as_str());
            dst.append(",\"logarithmic\":");
            push_bool(dst, *logarithmic);
        },
        SettingKind::Boolean => {
            dst.append("bool\"");
        },
        SettingKind::Group { children } => {
            dst.append("group\",\"children\":");
            append_descriptors(dst, children.as_slice());
        },
    }
    assert(dst@ =~= before + kind_json(*kind));
}

fn append_descriptor(dst: &mut String, d: &SettingDescriptor)
    ensures
        final(dst)@ == old(dst)@ + descriptor_json(*d),
    decreases *d,
{
    let ghost before = dst@;
    dst.append("{\"name\":\"");
    escape_json_into(dst, d.name.as_str());
    dst.append("\",\"id\":");
    push_decimal(dst, d.id as u64);
    dst.append(",\"label\":\"");
    escape_json_into(dst, d.label.as_str());
    dst.append("\",\"description\":");
    push_description(dst, &d.description);
    dst.append(",\"kind\":\"");
    append_kind(dst, &d.kind);
    dst.push('}');
    assert(dst@ =~= before + descriptor_json(*d));
}

/// Appends descriptors, with all their groups, as a JSON array.
pub fn append_descriptors(dst: &mut String, descriptors: &[SettingDescriptor])
    ensures
        final(dst)@ == old(dst)@ + list_json(descriptors@),
    decreases descriptors@,
{
    let ghost before = dst@;
    dst.push('[');
    let ghost start = dst@;
    let mut i: usize = 0;
    assert(dst@ =~= start + items_json(descriptors@.take(0)));
    while i < descriptors.len()
        invariant
            i <= descriptors@.len(),
            dst@ == start + items_json(descriptors@.take(i as int)),
        decreases descriptors@.len() - i,
    {
        if i > 0 {
            dst.push(',');
        }
        append_descriptor(dst, &descriptors[i]);
        proof {
            assert(descriptors@.take(i + 1).drop_last() =~= descriptors@.take(i as int));
            assert(dst@ =~= start + items_json(descriptors@.take(i + 1)));
        }
        i += 1;
    }
    assert(descriptors@.take(i as int) =~= descriptors@);
    dst.push(']');
    assert(dst@ =~= before + list_json(descriptors@));
}

/// The descriptor tree as JSON.
pub fn descriptors_json(descriptors: &[SettingDescriptor]) -> (out: String)
    ensures
        out@ == list_json(descriptors@),
{
    let mut out: String = String::new();
    append_descriptors(&mut out, descriptors);
    assert(out@ =~= list_json(descriptors@));
    out
}

/// Holds when `part` stands somewhere in `text`.
pub open spec fn mentions(text: Seq<char>, part: Seq<char>) -> bool {
    exists|i: int|
        0 <= i <= text.len() - part.len() && #[trigger] text.subrange(i, i + part.len()) == part
}

/// The descriptor at the end of a path of positions through groups.
pub open spec fn descriptor_at(
    s: Seq<SettingDescriptor>,
    path: Seq<int>,
) -> Option<SettingDescriptor>
    decreases path.len(),
{
    if path.len() == 0 || !(0 <= path[0] < s.len()) {
        None
    } else if path.len() == 1 {
        Some(s[path[0]])
    } else {
        match s[path[0]].kind {
            SettingKind::Group { children } => descriptor_at(children@, path.drop_first()),
            _ => None,
        }
    }
}

proof fn lemma_mentions_around(left: Seq<char>, text: Seq<char>, right: Seq<char>, part: Seq<char>)
    requires
        mentions(text, part),
    ensures
        mentions(left + text + right, part),
{
    let i = choose|i: int|
        0 <= i <= text.len() - part.len() && #[trigger] text.subrange(i, i + part.len()) == part;
    let whole = left + text + right;
    let j = left.len() + i;
    assert forall|c: int| 0 <= c < part.len() implies whole.subrange(j, j + part.len())[c]
        == part[c] by {
        assert(text.subrange(i, i + part.len())[c] == text[i + c]);
    }
    assert(whole.subrange(j, j + part.len()) =~= part);
}

proof fn lemma_items_mention(s: Seq<SettingDescriptor>, k: int, part: Seq<char>)
    requires
        0 <= k < s.len(),
        mentions(descriptor_json(s[k]), part),
    ensures
        mentions(items_json(s), part),
    decreases s.len(),
{
    let none = Seq::<char>::empty();
    if s.len() > 1 {
        let head = items_json(s.drop_last()) + seq![','];
        let last = descriptor_json(s.last());
        if k == s.len() - 1 {
            lemma_mentions_around(head, last, none, part);
            assert(head + last + none =~= items_json(s));
        } else {
            assert(s.drop_last()[k] == s[k]);
            lemma_items_mention(s.drop_last(), k, part);
            lemma_mentions_around(none, items_json(s.drop_last()), seq![','] + last, part);
            assert(none + items_json(s.drop_last()) + (seq![','] + last) =~= items_json(s));
        }
    }
}

/// Every descriptor, however deep in groups, shows up in the JSON with its name
/// and identifier.
pub proof fn law_every_setting_listed(
    s: Seq<SettingDescriptor>,
    path: Seq<int>,
    d: SettingDescriptor,
)
    requires
        descriptor_at(s, path) == Some(d),
    ensures
        mentions(
            list_json(s),
            "{\"name\":\""@ + escaped(d.name@) + "\",\"id\":"@ + decimal(d.id as nat),
        ),
    decreases path.len(),
{
    let part = "{\"name\":\""@ + escaped(d.name@) + "\",\"id\":"@ + decimal(d.id as nat);
    let none = Seq::<char>::empty();
    let top = s[path[0]];
    let front = "{\"name\":\""@ + escaped(top.name@) + "\",\"id\":"@ + decimal(top.id as nat)
        + ",\"label\":\""@ + escaped(top.label@) + "\",\"description\":"@ + description_json(
        top.description,
    ) + ",\"kind\":\""@;
    if path.len() == 1 {
        let rest = ",\"label\":\""@ + escaped(d.label@) + "\",\"description\":"@ + description_json(
            d.description,
        ) + ",\"kind\":\""@ + kind_json(d.kind) + seq!['}'];
        assert(part.subrange(0int, 0int + part.len()) =~= part);
        lemma_mentions_around(none, part, rest, part);
        assert(none + part + rest =~= descriptor_json(d));
    } else {
        let inner = top.kind->Group_children@;
        law_every_setting_listed(inner, path.drop_first(), d);
        let left = front + "group\",\"children\":"@;
        lemma_mentions_around(left, list_json(inner), seq!['}'], part);
        assert(left + list_json(inner) + seq!['}'] =~= descriptor_json(top));
    }
    lemma_items_mention(s, path[0], part);
    lemma_mentions_around(seq!['['], items_json(s), seq![']'], part);
}

/// A description as a JSON document.
pub open spec fn description_doc(d: Option<String>) -> JsonDoc {
    match d {
        Some(s) => JsonDoc::Text(s@),
        None => JsonDoc::Null,
    }
}

/// One choice as a JSON document.
pub open spec fn option_doc(o: MenuItem) -> JsonDoc {
    JsonDoc::Object(
        seq![
            ("label"@, JsonDoc::Text(o.label@)),
            ("description"@, description_doc(o.description)),
            ("index"@, JsonDoc::Number(decimal(o.index as nat))),
        ],
    )
}

/// Choices as JSON documents.
pub open spec fn option_docs(s: Seq<MenuItem>) -> Seq<JsonDoc>
    decreases s.len(),
{
    if s.len() == 0 {
        seq![]
    } else {
        option_docs(s.drop_last()).push(option_doc(s.last()))
    }
}

/// The members that a kind adds to a descriptor's object, after `kind` itself.
pub open spec fn kind_members(k: SettingKind) -> Seq<(Seq<char>, JsonDoc)>
    decreases k,
{
    match k {
        SettingKind::Enumeration { options } => seq![
            ("options"@, JsonDoc::Array(option_docs(options@))),
        ],
        SettingKind::Percentage { logarithmic } => seq![
            ("logarithmic"@, JsonDoc::Bool(logarithmic)),
        ],
        SettingKind::IntRange { min, max } => seq![
            ("min"@, JsonDoc::Number(number_text(min as int))),
            ("max"@, JsonDoc::Number(number_text(max as int))),
        ],
        SettingKind::FloatRange { low, high, logarithmic } => seq![
            ("min"@, JsonDoc::Number(low@)),
            ("max"@, JsonDoc::Number(high@)),
            ("logarithmic"@, JsonDoc::Bool(logarithmic)),
        ],
        SettingKind::Boolean => seq![],
        SettingKind::Group { children } => seq![
            ("children"@, JsonDoc::Array(descriptor_docs(children@))),
        ],
    }
}

/// The name of a kind.
pub open spec fn kind_name(k: SettingKind) -> Seq<char> {
    match k {
        SettingKind::Enumeration { .. } => "enum"@,
        SettingKind::Percentage { .. } => "percentage"@,
        SettingKind::IntRange { .. } => "int"@,
        SettingKind::FloatRange { .. } => "float"@,
        SettingKind::Boolean => "bool"@,
        SettingKind::Group { .. } => "group"@,
    }
}

/// A descriptor as a JSON document.
pub open spec fn descriptor_doc(d: SettingDescriptor) -> JsonDoc
    decreases d,
{
    JsonDoc::Object(
        seq![
            ("name"@, JsonDoc::Text(d.name@)),
            ("id"@, JsonDoc::Number(decimal(d.id as nat))),
            ("label"@, JsonDoc::Text(d.label@)),
            ("description"@, description_doc(d.description)),
            ("kind"@, JsonDoc::Text(kind_name(d.kind))),
        ] + kind_members(d.kind),
    )
}

/// Descriptors as JSON documents.
pub open spec fn descriptor_docs(s: Seq<SettingDescriptor>) -> Seq<JsonDoc>
    decreases s,
{
    if s.len() == 0 {
        seq![]
    } else {
        descriptor_docs(s.drop_last()).push(descriptor_doc(s.last()))
    }
}

/// The fixed pieces of text around a member, taken apart.
proof fn lemma_pieces()
    ensures
        "{\"label\":\""@ == seq!['{'] + quoted("label"@) + seq![':', '"'],
        "{\"name\":\""@ == seq!['{'] + quoted("name"@) + seq![':', '"'],
        "\",\"id\":"@ == seq!['"', ','] + quoted("id"@) + seq![':'],
        ",\"label\":\""@ == seq![','] + quoted("label"@) + seq![':', '"'],
        "\",\"description\":"@ == seq!['"', ','] + quoted("description"@) + seq![':'],
        ",\"kind\":\""@ == seq![','] + quoted("kind"@) + seq![':', '"'],
        ",\"index\":"@ == seq![','] + quoted("index"@) + seq![':'],
        "enum\",\"options\":["@ == "enum"@ + seq!['"', ','] + quoted("options"@) + seq![':', '['],
        "percentage\",\"logarithmic\":"@ == "percentage"@ + seq!['"', ','] + quoted("logarithmic"@) + seq![':'],
        "int\",\"min\":"@ == "int"@ + seq!['"', ','] + quoted("min"@) + seq![':'],
        ",\"max\":"@ == seq![','] + quoted("max"@) + seq![':'],
        "float\",\"min\":"@ == "float"@ + seq!['"', ','] + quoted("min"@) + seq![':'],
        ",\"logarithmic\":"@ == seq![','] + quoted("logarithmic"@) + seq![':'],
        "bool\""@ == "bool"@ + seq!['"'],
        "group\",\"children\":"@ == "group"@ + seq!['"', ','] + quoted("children"@) + seq![':'],
        escaped("enum"@) == "enum"@,
        escaped("percentage"@) == "percentage"@,
        escaped("int"@) == "int"@,
        escaped("float"@) == "float"@,
        escaped("bool"@) == "bool"@,
        escaped("group"@) == "group"@,
{
    reveal_strlit("label");
    lemma_plain("label"@);
    reveal_strlit("name");
    lemma_plain("name"@);
    reveal_strlit("id");
    lemma_plain("id"@);
    reveal_strlit("description");
    lemma_plain("description"@);
    reveal_strlit("kind");
    lemma_plain("kind"@);
    reveal_strlit("index");
    lemma_plain("index"@);
    reveal_strlit("options");
    lemma_plain("options"@);
    reveal_strlit("logarithmic");
    lemma_plain("logarithmic"@);
    reveal_strlit("min");
    lemma_plain("min"@);
    reveal_strlit("max");
    lemma_plain("max"@);
    reveal_strlit("children");
    lemma_plain("children"@);
    reveal_strlit("enum");
    lemma_plain("enum"@);
    reveal_strlit("percentage");
    lemma_plain("percentage"@);
    reveal_strlit("int");
    lemma_plain("int"@);
    reveal_strlit("float");
    lemma_plain("float"@);
    reveal_strlit("bool");
    lemma_plain("bool"@);
    reveal_strlit("group");
    lemma_plain("group"@);
    reveal_strlit("{\"label\":\"");
    reveal_strlit("{\"name\":\"");
    reveal_strlit("\",\"id\":");
    reveal_strlit(",\"label\":\"");
    reveal_strlit("\",\"description\":");
    reveal_strlit(",\"kind\":\"");
    reveal_strlit(",\"index\":");
    reveal_strlit("enum\",\"options\":[");
    reveal_strlit("percentage\",\"logarithmic\":");
    reveal_strlit("int\",\"min\":");
    reveal_strlit(",\"max\":");
    reveal_strlit("float\",\"min\":");
    reveal_strlit(",\"logarithmic\":");
    reveal_strlit("bool\"");
    reveal_strlit("group\",\"children\":");
    assert("{\"label\":\""@ =~= seq!['{'] + quoted("label"@) + seq![':', '"']);
    assert("{\"name\":\""@ =~= seq!['{'] + quoted("name"@) + seq![':', '"']);
    assert("\",\"id\":"@ =~= seq!['"', ','] + quoted("id"@) + seq![':']);
    assert(",\"label\":\""@ =~= seq![','] + quoted("label"@) + seq![':', '"']);
    assert("\",\"description\":"@ =~= seq!['"', ','] + quoted("description"@) + seq![':']);
    assert(",\"kind\":\""@ =~= seq![','] + quoted("kind"@) + seq![':', '"']);
    assert(",\"index\":"@ =~= seq![','] + quoted("index"@) + seq![':']);
    assert("enum\",\"options\":["@ =~= "enum"@ + seq!['"', ','] + quoted("options"@) + seq![':', '[']);
    assert("percentage\",\"logarithmic\":"@ =~= "percentage"@ + seq!['"', ','] + quoted("logarithmic"@) + seq![':']);
    assert("int\",\"min\":"@ =~= "int"@ + seq!['"', ','] + quoted("min"@) + seq![':']);
    assert(",\"max\":"@ =~= seq![','] + quoted("max"@) + seq![':']);
    assert("float\",\"min\":"@ =~= "float"@ + seq!['"', ','] + quoted("min"@) + seq![':']);
    assert(",\"logarithmic\":"@ =~= seq![','] + quoted("logarithmic"@) + seq![':']);
    assert("bool\""@ =~= "bool"@ + seq!['"']);
    assert("group\",\"children\":"@ =~= "group"@ + seq!['"', ','] + quoted("children"@) + seq![':']);
}

proof fn lemma_option_doc(o: MenuItem)
    ensures
        doc_text(option_doc(o)) == option_json(o),
{
    lemma_pieces();
    let m0 = ("label"@, JsonDoc::Text(o.label@));
    let m1 = ("description"@, description_doc(o.description));
    let m2 = ("index"@, JsonDoc::Number(decimal(o.index as nat)));
    let none = Seq::<(Seq<char>, JsonDoc)>::empty();
    lemma_push_member(none, m0);
    lemma_push_member(none.push(m0), m1);
    lemma_push_member(none.push(m0).push(m1), m2);
    assert(none.push(m0).push(m1).push(m2) =~= seq![m0, m1, m2]);
    assert(doc_text(m1.1) == description_json(o.description));
    assert(doc_text(option_doc(o)) =~= option_json(o));
}

proof fn lemma_option_docs(s: Seq<MenuItem>)
    ensures
        option_docs(s).len() == s.len(),
        elements_text(option_docs(s)) == options_json(s),
    decreases s.len(),
{
    if s.len() > 0 {
        lemma_option_docs(s.drop_last());
        lemma_option_doc(s.last());
        lemma_push_element(option_docs(s.drop_last()), option_doc(s.last()));
    }
}

/// Members that follow others, each after a comma.
spec fn more_members(ms: Seq<(Seq<char>, JsonDoc)>) -> Seq<char>
    decreases ms.len(),
{
    if ms.len() == 0 {
        seq![]
    } else {
        more_members(ms.drop_last()) + seq![','] + member_text(ms.last())
    }
}

proof fn lemma_more_members(base: Seq<(Seq<char>, JsonDoc)>, ms: Seq<(Seq<char>, JsonDoc)>)
    requires
        base.len() > 0,
    ensures
        members_text(base + ms) == members_text(base) + more_members(ms),
    decreases ms.len(),
{
    if ms.len() == 0 {
        assert(base + ms =~= base);
        assert(members_text(base) + more_members(ms) =~= members_text(base));
    } else {
        lemma_more_members(base, ms.drop_last());
        lemma_push_member(base + ms.drop_last(), ms.last());
        assert((base + ms.drop_last()).push(ms.last()) =~= base + ms);
        assert(members_text(base + ms) =~= members_text(base) + more_members(ms));
    }
}

proof fn lemma_push_more(ms: Seq<(Seq<char>, JsonDoc)>, m: (Seq<char>, JsonDoc))
    ensures
        more_members(ms.push(m)) == more_members(ms) + seq![','] + member_text(m),
{
    assert(ms.push(m).drop_last() =~= ms);
}

/// A member whose value is not quoted, after a comma.
spec fn comma_member(key: Seq<char>, value: Seq<char>) -> Seq<char> {
    seq![','] + (key + seq![':'] + value)
}

proof fn lemma_two_more(m: (Seq<char>, JsonDoc), n: (Seq<char>, JsonDoc))
    ensures
        more_members(seq![m]) == comma_member(quoted(m.0), doc_text(m.1)),
        more_members(seq![m, n]) == comma_member(quoted(m.0), doc_text(m.1)) + comma_member(
            quoted(n.0),
            doc_text(n.1),
        ),
{
    let none = Seq::<(Seq<char>, JsonDoc)>::empty();
    lemma_push_more(none, m);
    lemma_push_more(none.push(m), n);
    assert(none.push(m) =~= seq![m]);
    assert(none.push(m).push(n) =~= seq![m, n]);
    assert(more_members(seq![m]) =~= comma_member(quoted(m.0), doc_text(m.1)));
    assert(more_members(seq![m, n]) =~= comma_member(quoted(m.0), doc_text(m.1)) + comma_member(
        quoted(n.0),
        doc_text(n.1),
    ));
}

proof fn lemma_three_more(
    m: (Seq<char>, JsonDoc),
    n: (Seq<char>, JsonDoc),
    o: (Seq<char>, JsonDoc),
)
    ensures
        more_members(seq![m, n, o]) == comma_member(quoted(m.0), doc_text(m.1)) + comma_member(
            quoted(n.0),
            doc_text(n.1),
        ) + comma_member(quoted(o.0), doc_text(o.1)),
{
    lemma_two_more(m, n);
    lemma_push_more(seq![m, n], o);
    assert(seq![m, n].push(o) =~= seq![m, n, o]);
    let two = more_members(seq![m, n]);
    assert(two + seq![','] + member_text(o) =~= two + comma_member(quoted(o.0), doc_text(o.1)));
}

/// A kind name, the key of its first member, and the value of that member.
proof fn lemma_kind_pieces(piece: Seq<char>, kind: Seq<char>, key: Seq<char>, value: Seq<char>)
    requires
        piece == kind + seq!['"', ','] + key + seq![':'],
    ensures
        piece + value == kind + seq!['"'] + comma_member(key, value),
{
    assert(piece + value =~= kind + seq!['"'] + comma_member(key, value));
}

/// One more member, after what is already written.
proof fn lemma_member_pieces(front: Seq<char>, piece: Seq<char>, key: Seq<char>, value: Seq<char>)
    requires
        piece == seq![','] + key + seq![':'],
    ensures
        front + piece + value == front + comma_member(key, value),
{
    assert(front + piece + value =~= front + comma_member(key, value));
}

proof fn lemma_enum_pieces(options: Seq<char>)
    ensures
        "enum\",\"options\":["@ + options + seq![']'] == "enum"@ + seq!['"'] + comma_member(
            quoted("options"@),
            seq!['['] + options + seq![']'],
        ),
{
    let key = quoted("options"@);
    assert("enum\",\"options\":["@ == "enum"@ + seq!['"', ','] + key + seq![':', '[']) by {
        lemma_pieces();
    }
    assert("enum\",\"options\":["@ + options + seq![']'] =~= "enum"@ + seq!['"'] + comma_member(
        key,
        seq!['['] + options + seq![']'],
    ));
}

proof fn lemma_kind_doc(k: SettingKind)
    ensures
        kind_json(k) == kind_name(k) + seq!['"'] + more_members(kind_members(k)),
    decreases k,
{
    let ms = kind_members(k);
    let head = kind_name(k) + seq!['"'];
    match k {
        SettingKind::Enumeration { options } => {
            lemma_option_docs(options@);
            lemma_two_more(ms[0], ms[0]);
            assert(ms =~= seq![ms[0]]);
            lemma_enum_pieces(options_json(options@));
        },
        SettingKind::Percentage { logarithmic } => {
            lemma_two_more(ms[0], ms[0]);
            assert(ms =~= seq![ms[0]]);
            let piece = "percentage\",\"logarithmic\":"@;
            let key = quoted("logarithmic"@);
            assert(piece == "percentage"@ + seq!['"', ','] + key + seq![':']) by {
                lemma_pieces();
            }
            lemma_kind_pieces(piece, "percentage"@, key, bool_text(logarithmic));
        },
        SettingKind::IntRange { min, max } => {
            lemma_two_more(ms[0], ms[1]);
            assert(ms =~= seq![ms[0], ms[1]]);
            let piece = "int\",\"min\":"@;
            let low = quoted("min"@);
            let high = quoted("max"@);
            assert(piece == "int"@ + seq!['"', ','] + low + seq![':'] && ",\"max\":"@ == seq![',']
                + high + seq![':']) by {
                lemma_pieces();
            }
            let first = number_text(min as int);
            let second = number_text(max as int);
            lemma_kind_pieces(piece, "int"@, low, first);
            lemma_member_pieces(piece + first, ",\"max\":"@, high, second);
            assert(head + (comma_member(low, first) + comma_member(high, second)) =~= head
                + comma_member(low, first) + comma_member(high, second));
        },
        SettingKind::FloatRange { low: first, high: second, logarithmic } => {
            lemma_three_more(ms[0], ms[1], ms[2]);
            assert(ms =~= seq![ms[0], ms[1], ms[2]]);
            let piece = "float\",\"min\":"@;
            let low = quoted("min"@);
            let high = quoted("max"@);
            let scale = quoted("logarithmic"@);
            assert(piece == "float"@ + seq!['"', ','] + low + seq![':'] && ",\"max\":"@ == seq![',']
                + high + seq![':'] && ",\"logarithmic\":"@ == seq![','] + scale + seq![':']) by {
                lemma_pieces();
            }
            lemma_kind_pieces(piece, "float"@, low, first@);
            lemma_member_pieces(piece + first@, ",\"max\":"@, high, second@);
            lemma_member_pieces(
                piece + first@ + ",\"max\":"@ + second@,
                ",\"logarithmic\":"@,
                scale,
                bool_text(logarithmic),
            );
            let c0 = comma_member(low, first@);
            let c1 = comma_member(high, second@);
            let c2 = comma_member(scale, bool_text(logarithmic));
            assert(head + (c0 + c1 + c2) =~= head + c0 + c1 + c2);
        },
        SettingKind::Boolean => {
            assert("bool\""@ == "bool"@ + seq!['"']) by {
                lemma_pieces();
            }
            assert(head + more_members(ms) =~= head);
        },
        SettingKind::Group { children } => {
            lemma_descriptor_docs(children@);
            lemma_two_more(ms[0], ms[0]);
            assert(ms =~= seq![ms[0]]);
            let piece = "group\",\"children\":"@;
            let key = quoted("children"@);
            assert(piece == "group"@ + seq!['"', ','] + key + seq![':']) by {
                lemma_pieces();
            }
            lemma_kind_pieces(piece, "group"@, key, list_json(children@));
            assert(kind_json(k) =~= piece + list_json(children@));
        },
    }
}

/// The first two members of a descriptor's object.
proof fn lemma_front_pieces(name: Seq<char>, id: Seq<char>)
    ensures
        seq!['{'] + (quoted("name"@) + seq![':'] + (seq!['"'] + name + seq!['"'])) + comma_member(
            quoted("id"@),
            id,
        ) == "{\"name\":\""@ + name + "\",\"id\":"@ + id,
{
    lemma_pieces();
    let k0 = quoted("name"@);
    let k1 = quoted("id"@);
    assert(seq!['{'] + (k0 + seq![':'] + (seq!['"'] + name + seq!['"'])) + comma_member(k1, id)
        =~= (seq!['{'] + k0 + seq![':', '"']) + name + (seq!['"', ','] + k1 + seq![':']) + id);
}

/// The next two members, after what is already written.
proof fn lemma_middle_pieces(front: Seq<char>, label: Seq<char>, description: Seq<char>)
    ensures
        front + comma_member(quoted("label"@), seq!['"'] + label + seq!['"']) + comma_member(
            quoted("description"@),
            description,
        ) == front + ",\"label\":\""@ + label + "\",\"description\":"@ + description,
{
    lemma_pieces();
    let k0 = quoted("label"@);
    let k1 = quoted("description"@);
    assert(front + comma_member(k0, seq!['"'] + label + seq!['"']) + comma_member(k1, description)
        =~= front + (seq![','] + k0 + seq![':', '"']) + label + (seq!['"', ','] + k1 + seq![':'])
        + description);
}

/// The kind and what it brings, after what is already written.
proof fn lemma_last_pieces(front: Seq<char>, kind: Seq<char>, tail: Seq<char>)
    ensures
        front + comma_member(quoted("kind"@), seq!['"'] + kind + seq!['"']) + tail + seq!['}']
            == front + ",\"kind\":\""@ + (kind + seq!['"'] + tail) + seq!['}'],
{
    lemma_pieces();
    let k0 = quoted("kind"@);
    assert(front + comma_member(k0, seq!['"'] + kind + seq!['"']) + tail + seq!['}'] =~= front + (
    seq![','] + k0 + seq![':', '"']) + (kind + seq!['"'] + tail) + seq!['}']);
}

/// Five members in a row.
proof fn lemma_five_members(
    m0: (Seq<char>, JsonDoc),
    m1: (Seq<char>, JsonDoc),
    m2: (Seq<char>, JsonDoc),
    m3: (Seq<char>, JsonDoc),
    m4: (Seq<char>, JsonDoc),
)
    ensures
        members_text(seq![m0, m1, m2, m3, m4]) == member_text(m0) + comma_member(
            quoted(m1.0),
            doc_text(m1.1),
        ) + comma_member(quoted(m2.0), doc_text(m2.1)) + comma_member(quoted(m3.0), doc_text(m3.1))
            + comma_member(quoted(m4.0), doc_text(m4.1)),
{
    let none = Seq::<(Seq<char>, JsonDoc)>::empty();
    let s1 = none.push(m0);
    let s2 = s1.push(m1);
    let s3 = s2.push(m2);
    let s4 = s3.push(m3);
    lemma_push_member(none, m0);
    lemma_push_member(s1, m1);
    lemma_push_member(s2, m2);
    lemma_push_member(s3, m3);
    lemma_push_member(s4, m4);
    assert(s4.push(m4) =~= seq![m0, m1, m2, m3, m4]);
    lemma_comma(members_text(s1), m1);
    lemma_comma(members_text(s2), m2);
    lemma_comma(members_text(s3), m3);
    lemma_comma(members_text(s4), m4);
}

proof fn lemma_comma(front: Seq<char>, m: (Seq<char>, JsonDoc))
    ensures
        front + seq![','] + member_text(m) == front + comma_member(quoted(m.0), doc_text(m.1)),
{
    assert(front + seq![','] + member_text(m) =~= front + comma_member(quoted(m.0), doc_text(m.1)));
}

/// An object with five members and more.
proof fn lemma_object_pieces(
    a: Seq<char>,
    b: Seq<char>,
    c: Seq<char>,
    d: Seq<char>,
    e: Seq<char>,
    tail: Seq<char>,
)
    ensures
        seq!['{'] + (a + b + c + d + e + tail) + seq!['}'] == (seq!['{'] + a + b) + c + d + e + tail
            + seq!['}'],
{
    assert(seq!['{'] + (a + b + c + d + e + tail) + seq!['}'] =~= (seq!['{'] + a + b) + c + d + e
        + tail + seq!['}']);
}

proof fn lemma_descriptor_doc(d: SettingDescriptor)
    ensures
        doc_text(descriptor_doc(d)) == descriptor_json(d),
    decreases d,
{
    lemma_kind_doc(d.kind);
    let name = escaped(d.name@);
    let id = decimal(d.id as nat);
    let label = escaped(d.label@);
    let description = description_json(d.description);
    let kind = kind_name(d.kind);
    let tail = more_members(kind_members(d.kind));
    let m0 = ("name"@, JsonDoc::Text(d.name@));
    let m1 = ("id"@, JsonDoc::Number(id));
    let m2 = ("label"@, JsonDoc::Text(d.label@));
    let m3 = ("description"@, description_doc(d.description));
    let m4 = ("kind"@, JsonDoc::Text(kind));
    let base = seq![m0, m1, m2, m3, m4];
    lemma_five_members(m0, m1, m2, m3, m4);
    lemma_more_members(base, kind_members(d.kind));
    assert(doc_text(m3.1) == description);
    assert(escaped(kind) == kind) by {
        lemma_pieces();
    }
    let c1 = comma_member(quoted("id"@), id);
    let c2 = comma_member(quoted("label"@), seq!['"'] + label + seq!['"']);
    let c3 = comma_member(quoted("description"@), description);
    let c4 = comma_member(quoted("kind"@), seq!['"'] + kind + seq!['"']);
    assert(member_text(m0) == quoted("name"@) + seq![':'] + (seq!['"'] + name + seq!['"']));
    lemma_object_pieces(member_text(m0), c1, c2, c3, c4, tail);
    lemma_front_pieces(name, id);
    let f1 = "{\"name\":\""@ + name + "\",\"id\":"@ + id;
    lemma_middle_pieces(f1, label, description);
    let f2 = f1 + ",\"label\":\""@ + label + "\",\"description\":"@ + description;
    lemma_last_pieces(f2, kind, tail);
}

proof fn lemma_descriptor_docs(s: Seq<SettingDescriptor>)
    ensures
        descriptor_docs(s).len() == s.len(),
        elements_text(descriptor_docs(s)) == items_json(s),
    decreases s,
{
    if s.len() > 0 {
        lemma_descriptor_docs(s.drop_last());
        lemma_descriptor_doc(s.last());
        lemma_push_element(descriptor_docs(s.drop_last()), descriptor_doc(s.last()));
    }
}

/// Holds when the bounds of all continuous ranges of a kind are written as JSON
/// numbers.
pub open spec fn kind_bounds_written(k: SettingKind) -> bool
    decreases k,
{
    match k {
        SettingKind::FloatRange { low, high, .. } => is_number(low@) && is_number(high@),
        SettingKind::Group { children } => bounds_written(children@),
        _ => true,
    }
}

/// Holds when the bounds of all continuous ranges, however deep in groups, are
/// written as JSON numbers.
pub open spec fn bounds_written(s: Seq<SettingDescriptor>) -> bool
    decreases s,
{
    forall|i: int| 0 <= i < s.len() ==> kind_bounds_written(#[trigger] s[i].kind)
}

proof fn lemma_option_documents(s: Seq<MenuItem>)
    ensures
        forall|i: int|
            0 <= i < option_docs(s).len() ==> is_document(#[trigger] option_docs(s)[i]),
    decreases s.len(),
{
    if s.len() > 0 {
        lemma_option_documents(s.drop_last());
        lemma_whole_number(s.last().index as int);
        let o = s.last();
        assert(is_document(JsonDoc::Number(decimal(o.index as nat))));
        lemma_object_document(
            seq![
                ("label"@, JsonDoc::Text(o.label@)),
                ("description"@, description_doc(o.description)),
                ("index"@, JsonDoc::Number(decimal(o.index as nat))),
            ],
        );
        assert(option_docs(s) == option_docs(s.drop_last()).push(option_doc(o)));
    }
}

proof fn lemma_kind_documents(k: SettingKind)
    requires
        kind_bounds_written(k),
    ensures
        forall|i: int|
            0 <= i < kind_members(k).len() ==> is_document(#[trigger] kind_members(k)[i].1),
    decreases k,
{
    match k {
        SettingKind::Enumeration { options } => {
            lemma_option_documents(options@);
            lemma_array_document(option_docs(options@));
        },
        SettingKind::IntRange { min, max } => {
            lemma_whole_number(min as int);
            lemma_whole_number(max as int);
        },
        SettingKind::Group { children } => {
            lemma_descriptor_documents(children@);
            lemma_array_document(descriptor_docs(children@));
        },
        _ => {},
    }
}

proof fn lemma_descriptor_document(d: SettingDescriptor)
    requires
        kind_bounds_written(d.kind),
    ensures
        is_document(descriptor_doc(d)),
    decreases d,
{
    lemma_whole_number(d.id as int);
    lemma_kind_documents(d.kind);
    let front = seq![
        ("name"@, JsonDoc::Text(d.name@)),
        ("id"@, JsonDoc::Number(decimal(d.id as nat))),
        ("label"@, JsonDoc::Text(d.label@)),
        ("description"@, description_doc(d.description)),
        ("kind"@, JsonDoc::Text(kind_name(d.kind))),
    ];
    let back = kind_members(d.kind);
    assert forall|i: int| 0 <= i < (front + back).len() implies is_document(
        #[trigger] (front + back)[i].1,
    ) by {
        if i >= front.len() {
            assert((front + back)[i] == back[i - front.len()]);
        }
    }
    lemma_object_document(front + back);
}

proof fn lemma_descriptor_documents(s: Seq<SettingDescriptor>)
    requires
        bounds_written(s),
    ensures
        descriptor_docs(s).len() == s.len(),
        forall|i: int|
            0 <= i < descriptor_docs(s).len() ==> is_document(#[trigger] descriptor_docs(s)[i]),
    decreases s,
{
    if s.len() > 0 {
        assert forall|i: int| 0 <= i < s.drop_last().len() implies #[trigger] kind_bounds_written(
            s.drop_last()[i].kind,
        ) by {
            assert(kind_bounds_written(s[i].kind));
        }
        lemma_descriptor_documents(s.drop_last());
        assert(kind_bounds_written(s[s.len() - 1].kind));
        lemma_descriptor_document(s.last());
    }
}

/// What is written is JSON, as long as the bounds of continuous ranges are written
/// as JSON numbers: the text of an array with one object per descriptor.
pub proof fn law_descriptors_are_json(s: Seq<SettingDescriptor>)
    requires
        bounds_written(s),
    ensures
        is_document(JsonDoc::Array(descriptor_docs(s))),
        descriptor_docs(s).len() == s.len(),
        list_json(s) == doc_text(JsonDoc::Array(descriptor_docs(s))),
        list_json(s)[0] == '[',
{
    lemma_descriptor_documents(s);
    lemma_array_document(descriptor_docs(s));
    lemma_descriptor_docs(s);
}

/// The keys that occur in descriptors and choices.
spec fn all_keys() -> Seq<Seq<char>> {
    seq![
        "name"@,
        "id"@,
        "label"@,
        "description"@,
        "kind"@,
        "options"@,
        "logarithmic"@,
        "min"@,
        "max"@,
        "children"@,
        "index"@,
    ]
}

proof fn lemma_keys_differ()
    ensures
        all_keys().len() == 11,
        forall|i: int, k: int|
            0 <= i < 11 && 0 <= k < 11 && i != k ==> #[trigger] all_keys()[i]
                != #[trigger] all_keys()[k],
{
    reveal_strlit("name");
    reveal_strlit("id");
    reveal_strlit("label");
    reveal_strlit("description");
    reveal_strlit("kind");
    reveal_strlit("options");
    reveal_strlit("logarithmic");
    reveal_strlit("min");
    reveal_strlit("max");
    reveal_strlit("children");
    reveal_strlit("index");
    assert("id"@.len() == 2);
    assert("name"@.len() == 4 && "kind"@.len() == 4 && "name"@[0] == 'n' && "kind"@[0] == 'k');
    assert("label"@.len() == 5 && "index"@.len() == 5 && "label"@[0] == 'l' && "index"@[0] == 'i');
    assert("min"@.len() == 3 && "max"@.len() == 3 && "min"@[1] == 'i' && "max"@[1] == 'a');
    assert("options"@.len() == 7 && "children"@.len() == 8);
    assert("description"@.len() == 11 && "logarithmic"@.len() == 11);
    assert("description"@[0] == 'd' && "logarithmic"@[0] == 'l');
}

/// The member at position `i` is the only one under its key.
proof fn lemma_member_is(m: Seq<(Seq<char>, JsonDoc)>, i: int)
    requires
        0 <= i < m.len(),
        forall|a: int, b: int|
            0 <= a < m.len() && 0 <= b < m.len() && a != b ==> (#[trigger] m[a]).0 != (
            #[trigger] m[b]).0,
    ensures
        member_is(JsonDoc::Object(m), m[i].0, m[i].1),
{
    let j = JsonDoc::Object(m);
    assert(only_member(m, i, m[i].0, m[i].1));
    assert(j->Object_0 == m);
    assert(only_member(j->Object_0, i, m[i].0, m[i].1));
}

/// A choice reads back from its object: each field stands under its own key.
pub proof fn law_option_reads_back(o: MenuItem)
    ensures
        ({
            let j = option_doc(o);
            &&& member_is(j, "label"@, JsonDoc::Text(o.label@))
            &&& o.description is None ==> member_is(j, "description"@, JsonDoc::Null)
            &&& o.description is Some ==> member_is(
                j,
                "description"@,
                JsonDoc::Text(o.description->0@),
            )
            &&& member_is(j, "index"@, JsonDoc::Number(number_text(o.index as int)))
        }),
{
    lemma_keys_differ();
    let m = seq![
        ("label"@, JsonDoc::Text(o.label@)),
        ("description"@, description_doc(o.description)),
        ("index"@, JsonDoc::Number(decimal(o.index as nat))),
    ];
    assert(all_keys()[2] != all_keys()[3] && all_keys()[2] != all_keys()[10] && all_keys()[3]
        != all_keys()[10]);
    lemma_member_is(m, 0);
    lemma_member_is(m, 1);
    lemma_member_is(m, 2);
}

/// A setting reads back from its object: each field stands under its own key, the
/// kind under its name, and what the kind brings under the keys of that kind.
pub proof fn law_descriptor_reads_back(d: SettingDescriptor)
    ensures
        ({
            let j = descriptor_doc(d);
            &&& member_is(j, "name"@, JsonDoc::Text(d.name@))
            &&& member_is(j, "id"@, JsonDoc::Number(number_text(d.id as int)))
            &&& member_is(j, "label"@, JsonDoc::Text(d.label@))
            &&& d.description is None ==> member_is(j, "description"@, JsonDoc::Null)
            &&& d.description is Some ==> member_is(
                j,
                "description"@,
                JsonDoc::Text(d.description->0@),
            )
            &&& match d.kind {
                SettingKind::Enumeration { options } => member_is(
                    j,
                    "kind"@,
                    JsonDoc::Text("enum"@),
                ) && member_is(j, "options"@, JsonDoc::Array(option_docs(options@))),
                SettingKind::Percentage { logarithmic } => member_is(
                    j,
                    "kind"@,
                    JsonDoc::Text("percentage"@),
                ) && member_is(j, "logarithmic"@, JsonDoc::Bool(logarithmic)),
                SettingKind::IntRange { min, max } => member_is(
                    j,
                    "kind"@,
                    JsonDoc::Text("int"@),
                ) && member_is(j, "min"@, JsonDoc::Number(number_text(min as int))) && member_is(
                    j,
                    "max"@,
                    JsonDoc::Number(number_text(max as int)),
                ),
                SettingKind::FloatRange { low, high, logarithmic } => member_is(
                    j,
                    "kind"@,
                    JsonDoc::Text("float"@),
                ) && member_is(j, "min"@, JsonDoc::Number(low@)) && member_is(
                    j,
                    "max"@,
                    JsonDoc::Number(high@),
                ) && member_is(j, "logarithmic"@, JsonDoc::Bool(logarithmic)),
                SettingKind::Boolean => member_is(j, "kind"@, JsonDoc::Text("bool"@)),
                SettingKind::Group { children } => member_is(
                    j,
                    "kind"@,
                    JsonDoc::Text("group"@),
                ) && member_is(j, "children"@, JsonDoc::Array(descriptor_docs(children@))),
            }
        }),
{
    let m = descriptor_doc(d)->Object_0;
    lemma_descriptor_keys(d);
    lemma_member_is(m, 0);
    lemma_member_is(m, 1);
    lemma_member_is(m, 2);
    lemma_member_is(m, 3);
    lemma_member_is(m, 4);
    if m.len() > 5 {
        lemma_member_is(m, 5);
    }
    if m.len() > 6 {
        lemma_member_is(m, 6);
    }
    if m.len() > 7 {
        lemma_member_is(m, 7);
    }
}

proof fn lemma_descriptor_keys(d: SettingDescriptor)
    ensures
        ({
            let m = descriptor_doc(d)->Object_0;
            forall|a: int, b: int|
                0 <= a < m.len() && 0 <= b < m.len() && a != b ==> (#[trigger] m[a]).0 != (
                #[trigger] m[b]).0
        }),
{
    lemma_keys_differ();
    let m = descriptor_doc(d)->Object_0;
    // Where the key of each member stands among all keys.
    let place = |a: int|
        if a < 5 {
            a
        } else {
            match d.kind {
                SettingKind::Enumeration { .. } => 5,
                SettingKind::Percentage { .. } => 6,
                SettingKind::IntRange { .. } => a + 2,
                SettingKind::FloatRange { .. } => if a < 7 {
                    a + 2
                } else {
                    6
                },
                SettingKind::Boolean => 10,
                SettingKind::Group { .. } => 9,
            }
        };
    assert forall|a: int, b: int|
        0 <= a < m.len() && 0 <= b < m.len() && a != b implies (#[trigger] m[a]).0 != (
    #[trigger] m[b]).0 by {
        assert(m[a].0 == all_keys()[place(a)]);
        assert(m[b].0 == all_keys()[place(b)]);
    }
}

/// Settings, and the choices of an enumeration, are listed in order, each once.
pub proof fn law_listed_in_order(s: Seq<SettingDescriptor>, options: Seq<MenuItem>)
    ensures
        descriptor_docs(s).len() == s.len(),
        forall|i: int|
            0 <= i < s.len() ==> #[trigger] descriptor_docs(s)[i] == descriptor_doc(s[i]),
        option_docs(options).len() == options.len(),
        forall|i: int|
            0 <= i < options.len() ==> #[trigger] option_docs(options)[i] == option_doc(options[i]),
    decreases s.len() + options.len(),
{
    if s.len() > 0 {
        law_listed_in_order(s.drop_last(), options);
        assert forall|i: int| 0 <= i < s.len() implies #[trigger] descriptor_docs(s)[i]
            == descriptor_doc(s[i]) by {
            if i < s.len() - 1 {
                assert(descriptor_docs(s)[i] == descriptor_docs(s.drop_last())[i]);
            }
        }
    } else if options.len() > 0 {
        law_listed_in_order(s, options.drop_last());
        assert forall|i: int| 0 <= i < options.len() implies #[trigger] option_docs(options)[i]
            == option_doc(options[i]) by {
            if i < options.len() - 1 {
                assert(option_docs(options)[i] == option_docs(options.drop_last())[i]);
            }
        }
    }
}

/// What is returned for a list of settings whose bounds are written as JSON numbers is
/// the text of a JSON document: an array of the objects of the settings, in order.
pub proof fn law_descriptor_calls(descriptors: &[SettingDescriptor], out: String)
    requires
        bounds_written(descriptors@),
        call_ensures(descriptors_json, (descriptors,), out),
    ensures
        exists|docs: Seq<JsonDoc>|
            docs.len() == descriptors@.len() && #[trigger] is_document(JsonDoc::Array(docs))
                && out@ == doc_text(JsonDoc::Array(docs)) && forall|i: int|
                0 <= i < docs.len() ==> #[trigger] docs[i] == descriptor_doc(descriptors@[i]),
{
    law_descriptors_are_json(descriptors@);
    law_listed_in_order(descriptors@, Seq::empty());
    assert(is_document(JsonDoc::Array(descriptor_docs(descriptors@))));
}

/// Settings are written behind what stands there already, as the same text that is
/// returned for them alone.
pub proof fn law_descriptors_are_appended(descriptors: &[SettingDescriptor], alone: String)
    requires
        call_ensures(descriptors_json, (descriptors,), alone),
    ensures
        forall|dst: &mut String| #[trigger]
            call_ensures(append_descriptors, (dst, descriptors), ()) ==> final(dst)@ == dst@
                + alone@,
{
}

/// The members of a setting's object stand in a fixed order: name, id, label,
/// description and kind, then what the kind brings.
pub proof fn law_member_order(d: SettingDescriptor)
    ensures
        ({
            let m = descriptor_doc(d)->Object_0;
            &&& m.len() == 5 + (match d.kind {
                SettingKind::Boolean => 0int,
                SettingKind::IntRange { .. } => 2,
                SettingKind::FloatRange { .. } => 3,
                _ => 1,
            })
            &&& m[0].0 == "name"@ && m[1].0 == "id"@ && m[2].0 == "label"@
            &&& m[3].0 == "description"@ && m[4].0 == "kind"@
            &&& d.kind is Enumeration ==> m[5].0 == "options"@
            &&& d.kind is Percentage ==> m[5].0 == "logarithmic"@
            &&& d.kind is IntRange ==> m[5].0 == "min"@ && m[6].0 == "max"@
            &&& d.kind is FloatRange ==> m[5].0 == "min"@ && m[6].0 == "max"@ && m[7].0
                == "logarithmic"@
            &&& d.kind is Group ==> m[5].0 == "children"@
        }),
        ({
            forall|o: MenuItem| #[trigger]
                option_doc(o)->Object_0.len() == 3 && option_doc(o)->Object_0[0].0 == "label"@
                    && option_doc(o)->Object_0[1].0 == "description"@
                    && option_doc(o)->Object_0[2].0 == "index"@
        }),
{
}

} // verus!
