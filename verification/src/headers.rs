//! The outbound header table: which of the caller's headers are sent, the
//! `Content-Type` that a declared content type adds, and the `User-Agent`.

use crate::text::{blank, is_blank};
use crate::types::{optional_views, views_of, ContentType, KeyValue, KeyValueView};
use vstd::prelude::*;
use vstd::string::*;

verus! {

/// The mapping that a list of name and value pairs stands for: a later pair
/// replaces an earlier one of the same name. Names are compared exactly.
pub open spec fn table_map(entries: Seq<(String, String)>) -> Map<Seq<char>, Seq<char>>
    decreases entries.len(),
{
    if entries.len() == 0 {
        Map::empty()
    } else {
        table_map(entries.drop_last()).insert(entries.last().0@, entries.last().1@)
    }
}

/// No name occurs twice.
pub open spec fn distinct_names(entries: Seq<(String, String)>) -> bool {
    forall|i: int, j: int|
        0 <= i < j < entries.len() ==> (#[trigger] entries[i]).0@ != (#[trigger] entries[j]).0@
}

/// A name is mapped exactly when some pair carries it.
pub proof fn lemma_table_domain(entries: Seq<(String, String)>, name: Seq<char>)
    ensures
        table_map(entries).dom().contains(name) <==> exists|i: int|
            0 <= i < entries.len() && (#[trigger] entries[i]).0@ == name,
    decreases entries.len(),
{
    if entries.len() > 0 {
        let front = entries.drop_last();
        lemma_table_domain(front, name);
        if table_map(entries).dom().contains(name) {
            if entries.last().0@ == name {
                assert(entries[entries.len() - 1].0@ == name);
            } else {
                let i = choose|i: int| 0 <= i < front.len() && (#[trigger] front[i]).0@ == name;
                assert(entries[i].0@ == name);
            }
        }
        if exists|i: int| 0 <= i < entries.len() && (#[trigger] entries[i]).0@ == name {
            let i = choose|i: int| 0 <= i < entries.len() && (#[trigger] entries[i]).0@ == name;
            if i < entries.len() - 1 {
                assert(front[i].0@ == name);
            }
        }
    }
}

/// Where no name occurs twice, each pair's name is mapped to that pair's value.
pub proof fn lemma_table_value(entries: Seq<(String, String)>, i: int)
    requires
        distinct_names(entries),
        0 <= i < entries.len(),
    ensures
        table_map(entries).dom().contains(entries[i].0@),
        table_map(entries)[entries[i].0@] == entries[i].1@,
    decreases entries.len(),
{
    let front = entries.drop_last();
    if i < entries.len() - 1 {
        assert(distinct_names(front)) by {
            assert forall|a: int, b: int| 0 <= a < b < front.len() implies (#[trigger] front[a]).0@
                != (#[trigger] front[b]).0@ by {
                assert(front[a] == entries[a]);
                assert(front[b] == entries[b]);
            }
        }
        lemma_table_value(front, i);
        assert(front[i] == entries[i]);
        assert(entries[i].0@ != entries[entries.len() - 1].0@);
    }
}

/// Replacing the value of a pair whose name occurs nowhere later maps that
/// name to the new value and leaves the rest as it was.
pub proof fn lemma_table_update(entries: Seq<(String, String)>, i: int, pair: (String, String))
    requires
        0 <= i < entries.len(),
        entries[i].0@ == pair.0@,
        forall|j: int| i < j < entries.len() ==> (#[trigger] entries[j]).0@ != pair.0@,
    ensures
        table_map(entries.update(i, pair)) == table_map(entries).insert(pair.0@, pair.1@),
    decreases entries.len(),
{
    let front = entries.drop_last();
    let changed = entries.update(i, pair);
    if i == entries.len() - 1 {
        assert(changed.drop_last() =~= front);
        assert(table_map(changed) =~= table_map(entries).insert(pair.0@, pair.1@));
    } else {
        assert(changed.drop_last() =~= front.update(i, pair));
        assert(changed.last() == entries.last());
        assert forall|j: int| i < j < front.len() implies (#[trigger] front[j]).0@ != pair.0@ by {
            assert(front[j] == entries[j]);
        }
        lemma_table_update(front, i, pair);
        assert(entries[entries.len() - 1].0@ != pair.0@);
        assert(table_map(changed) =~= table_map(entries).insert(pair.0@, pair.1@));
    }
}

/// The headers of an outbound request: pairs of name and value, no name
/// twice, in the order in which the names first came.
#[derive(Debug, Clone)]
pub struct HeaderTable {
    pub entries: Vec<(String, String)>,
}

impl View for HeaderTable {
    type V = Map<Seq<char>, Seq<char>>;

    open spec fn view(&self) -> Map<Seq<char>, Seq<char>> {
        table_map(self.entries@)
    }
}

impl HeaderTable {
    /// The invariant: no name occurs twice.
    pub open spec fn wf(&self) -> bool {
        distinct_names(self.entries@)
    }

    /// The empty table.
    pub fn new() -> (t: HeaderTable)
        ensures
            t.wf(),
            t@ == Map::<Seq<char>, Seq<char>>::empty(),
    {
        HeaderTable { entries: Vec::new() }
    }

    /// How many headers the table holds.
    pub fn len(&self) -> (n: usize)
        ensures
            n == self.entries@.len(),
    {
        self.entries.len()
    }

    fn position(&self, name: &str) -> (r: Option<usize>)
        ensures
            match r {
                Some(i) => i < self.entries@.len() && self.entries@[i as int].0@ == name@,
                None => forall|j: int|
                    0 <= j < self.entries@.len() ==> (#[trigger] self.entries@[j]).0@ != name@,
            },
    {
        let wanted = String::from_str(name);
        let mut i: usize = 0;
        while i < self.entries.len()
            invariant
                i <= self.entries@.len(),
                wanted@ == name@,
                forall|j: int| 0 <= j < i ==> (#[trigger] self.entries@[j]).0@ != name@,
            decreases self.entries.len() - i,
        {
            if self.entries[i].0 == wanted {
                return Some(i);
            }
            i += 1;
        }
        None
    }

    /// Whether a header of exactly this name is in the table.
    pub fn contains_key(&self, name: &str) -> (b: bool)
        ensures
            b == self@.dom().contains(name@),
    {
        let r = self.position(name);
        proof {
            lemma_table_domain(self.entries@, name@);
        }
        r.is_some()
    }

    /// The value of the header of exactly this name, if there is one.
    pub fn get(&self, name: &str) -> (r: Option<String>)
        requires
            self.wf(),
        ensures
            r is Some <==> self@.dom().contains(name@),
            r is Some ==> r->0@ == self@[name@],
    {
        proof {
            lemma_table_domain(self.entries@, name@);
        }
        match self.position(name) {
            Some(i) => {
                proof {
                    lemma_table_value(self.entries@, i as int);
                }
                Some(self.entries[i].1.clone())
            },
            None => None,
        }
    }

    /// Maps `name` to `value`, in place of any value it had.
    pub fn insert(&mut self, name: String, value: String)
        requires
            old(self).wf(),
        ensures
            final(self).wf(),
            final(self)@ == old(self)@.insert(name@, value@),
    {
        let found = self.position(name.as_str());
        let ghost before = self.entries@;
        match found {
            Some(i) => {
                proof {
                    lemma_table_update(before, i as int, (name, value));
                }
                self.entries.set(i, (name, value));
                assert(self.entries@ == before.update(i as int, (name, value)));
            },
            None => {
                self.entries.push((name, value));
                assert(self.entries@.drop_last() =~= before);
            },
        }
    }
}

/// Whether a header of the caller is sent: it is enabled, and neither its
/// key nor its value is blank.
pub open spec fn emitted(h: KeyValueView) -> bool {
    h.enabled && !blank(h.key) && !blank(h.value)
}

/// The mapping that the caller's headers give: those that are sent, a later
/// one replacing an earlier one of the same key.
pub open spec fn filtered_map(headers: Seq<KeyValueView>) -> Map<Seq<char>, Seq<char>>
    decreases headers.len(),
{
    if headers.len() == 0 {
        Map::empty()
    } else {
        let rest = filtered_map(headers.drop_last());
        let h = headers.last();
        if emitted(h) {
            rest.insert(h.key, h.value)
        } else {
            rest
        }
    }
}

/// Keeps the headers that are sent, as a table.
pub fn format_headers(headers: &[KeyValue]) -> (t: HeaderTable)
    ensures
        t.wf(),
        t@ == filtered_map(views_of(headers@)),
{
    let mut t = HeaderTable::new();
    let mut i: usize = 0;
    while i < headers.len()
        invariant
            i <= headers@.len(),
            t.wf(),
            t@ == filtered_map(views_of(headers@.take(i as int))),
        decreases headers.len() - i,
    {
        let h = &headers[i];
        proof {
            let now = views_of(headers@.take(i + 1));
            assert(now.drop_last() =~= views_of(headers@.take(i as int)));
            assert(now.last() == h@);
        }
        if h.enabled && !is_blank(h.key.as_str()) && !is_blank(h.value.as_str()) {
            t.insert(h.key.clone(), h.value.clone());
        }
        i += 1;
    }
    assert(headers@.take(i as int) =~= headers@);
    t
}

/// The MIME type that a content type stands for; empty for `Unset`.
pub open spec fn mime_text(content_type: ContentType) -> Seq<char> {
    match content_type {
        ContentType::FormData => "multipart/form-data"@,
        ContentType::Text => "text/plain"@,
        ContentType::JavaScript => "application/javascript"@,
        ContentType::Json => "application/json"@,
        ContentType::Html => "text/html"@,
        ContentType::Xml => "application/xml"@,
        ContentType::Unset => ""@,
    }
}

/// The value of the `Content-Type` header for a content type.
pub fn get_content_type_header(content_type: &ContentType) -> (s: String)
    ensures
        s@ == mime_text(*content_type),
{
    match content_type {
        ContentType::FormData => String::from_str("multipart/form-data"),
        ContentType::Text => String::from_str("text/plain"),
        ContentType::JavaScript => String::from_str("application/javascript"),
        ContentType::Json => String::from_str("application/json"),
        ContentType::Html => String::from_str("text/html"),
        ContentType::Xml => String::from_str("application/xml"),
        ContentType::Unset => String::from_str(""),
    }
}

/// Whether a declared content type asks for a `Content-Type` header.
pub open spec fn declares_type(content_type: Option<ContentType>) -> bool {
    content_type is Some && content_type != Some(ContentType::Unset)
}

/// The headers of the outbound request: the caller's headers that are sent;
/// `Content-Type` for a declared content type, unless the caller sends that
/// name already; and `User-Agent`, whatever the caller gave for it.
pub open spec fn outbound_headers(
    headers: Option<Seq<KeyValueView>>,
    content_type: Option<ContentType>,
) -> Map<Seq<char>, Seq<char>> {
    let base = match headers {
        Some(hs) => filtered_map(hs),
        None => Map::empty(),
    };
    let typed = if declares_type(content_type) && !base.dom().contains("Content-Type"@) {
        base.insert("Content-Type"@, mime_text(content_type->0))
    } else {
        base
    };
    typed.insert("User-Agent"@, "PostierRuntime"@)
}

/// Builds the outbound header table of a request.
pub fn assemble_headers(headers: &Option<Vec<KeyValue>>, content_type: &Option<ContentType>) -> (t:
    HeaderTable)
    ensures
        t.wf(),
        t@ == outbound_headers(optional_views(*headers), *content_type),
{
    let mut t = match headers {
        Some(hs) => format_headers(hs.as_slice()),
        None => HeaderTable::new(),
    };
    match content_type {
        Some(ct) => {
            if !matches!(ct, ContentType::Unset) && !t.contains_key("Content-Type") {
                t.insert(String::from_str("Content-Type"), get_content_type_header(ct));
            }
        },
        None => {},
    }
    t.insert(String::from_str("User-Agent"), String::from_str("PostierRuntime"));
    t
}

/// The caller's headers that are sent, as a mapping; empty where the caller
/// gave no list.
pub open spec fn caller_headers(headers: Option<Seq<KeyValueView>>) -> Map<Seq<char>, Seq<char>> {
    match headers {
        Some(hs) => filtered_map(hs),
        None => Map::empty(),
    }
}

/// A header that is disabled, or whose key or value is blank, is never sent:
/// whatever the filtered mapping holds under a name is the value of some
/// enabled header of that name whose key and value are not blank.
pub proof fn lemma_filtered_origin(headers: Seq<KeyValueView>, name: Seq<char>)
    requires
        filtered_map(headers).dom().contains(name),
    ensures
        exists|i: int|
            0 <= i < headers.len() && emitted(#[trigger] headers[i]) && headers[i].key == name
                && headers[i].value == filtered_map(headers)[name],
    decreases headers.len(),
{
    if headers.len() > 0 {
        let front = headers.drop_last();
        let h = headers.last();
        if emitted(h) && h.key == name {
            assert(emitted(headers[headers.len() - 1]));
        } else {
            lemma_filtered_origin(front, name);
            let i = choose|i: int|
                0 <= i < front.len() && emitted(#[trigger] front[i]) && front[i].key == name
                    && front[i].value == filtered_map(front)[name];
            assert(front[i] == headers[i]);
            assert(emitted(headers[i]));
        }
    }
}

/// Every outbound header is the `User-Agent` stamp, the `Content-Type` of a
/// declared content type, or a header of the caller that is enabled and has
/// neither a blank key nor a blank value.
pub proof fn lemma_outbound_origin(
    headers: Option<Seq<KeyValueView>>,
    content_type: Option<ContentType>,
    name: Seq<char>,
)
    requires
        outbound_headers(headers, content_type).dom().contains(name),
    ensures
        ({
            let value = outbound_headers(headers, content_type)[name];
            ||| name == "User-Agent"@ && value == "PostierRuntime"@
            ||| name == "Content-Type"@ && declares_type(content_type) && value == mime_text(
                content_type->0,
            )
            ||| headers is Some && exists|i: int|
                0 <= i < headers->0.len() && emitted(#[trigger] headers->0[i]) && headers->0[i].key
                    == name && headers->0[i].value == value
        }),
{
    let base = caller_headers(headers);
    if name != "User-Agent"@ && base.dom().contains(name) {
        lemma_filtered_origin(headers->0, name);
    }
}

/// Without a declared content type, `Content-Type` goes out exactly when the
/// caller sends it, and with the caller's value.
pub proof fn lemma_content_type_kept(
    headers: Option<Seq<KeyValueView>>,
    content_type: Option<ContentType>,
)
    requires
        !declares_type(content_type),
    ensures
        outbound_headers(headers, content_type).dom().contains("Content-Type"@) == caller_headers(
            headers,
        ).dom().contains("Content-Type"@),
        caller_headers(headers).dom().contains("Content-Type"@) ==> outbound_headers(
            headers,
            content_type,
        )["Content-Type"@] == caller_headers(headers)["Content-Type"@],
{
    lemma_stamp_names_differ();
}

/// With a declared content type, the outbound `Content-Type` is the caller's
/// where the caller sends one, and the declared type's MIME text otherwise.
pub proof fn lemma_content_type_declared(
    headers: Option<Seq<KeyValueView>>,
    content_type: Option<ContentType>,
)
    requires
        declares_type(content_type),
    ensures
        outbound_headers(headers, content_type).dom().contains("Content-Type"@),
        outbound_headers(headers, content_type)["Content-Type"@] == if caller_headers(
            headers,
        ).dom().contains("Content-Type"@) {
            caller_headers(headers)["Content-Type"@]
        } else {
            mime_text(content_type->0)
        },
{
    lemma_stamp_names_differ();
}

/// The outbound `User-Agent` is `PostierRuntime`, whatever the caller gave.
pub proof fn lemma_user_agent_stamped(
    headers: Option<Seq<KeyValueView>>,
    content_type: Option<ContentType>,
)
    ensures
        outbound_headers(headers, content_type).dom().contains("User-Agent"@),
        outbound_headers(headers, content_type)["User-Agent"@] == "PostierRuntime"@,
{
}

/// The two names that the assembler writes are different names.
pub proof fn lemma_stamp_names_differ()
    ensures
        "Content-Type"@ != "User-Agent"@,
{
    reveal_strlit("Content-Type");
    reveal_strlit("User-Agent");
    assert("Content-Type"@.len() != "User-Agent"@.len());
}

} // verus!
