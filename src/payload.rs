//! Request payloads: an ordered list of named fields and their JSON text.

use vstd::prelude::*;
use vstd::string::*;
use crate::json::{quote, number, string_literal, int_text};

verus! {

/// The value of one payload field.
#[derive(Debug)]
pub enum FieldValue {
    Text(String),
    Number(i64),
    Flag(bool),
    TextList(Vec<String>),
}

/// The mathematical value of a field.
pub enum FieldView {
    Text(Seq<char>),
    Number(int),
    Flag(bool),
    TextList(Seq<Seq<char>>),
}

impl View for FieldValue {
    type V = FieldView;

    open spec fn view(&self) -> FieldView {
        match self {
            FieldValue::Text(s) => FieldView::Text(s@),
            FieldValue::Number(n) => FieldView::Number(*n as int),
            FieldValue::Flag(b) => FieldView::Flag(*b),
            FieldValue::TextList(v) => FieldView::TextList(v@.map_values(|s: String| s@)),
        }
    }
}

/// The parts joined by commas.
pub open spec fn joined(parts: Seq<Seq<char>>) -> Seq<char>
    decreases parts.len(),
{
    if parts.len() == 0 {
        seq![]
    } else if parts.len() == 1 {
        parts[0]
    } else {
        joined(parts.drop_last()) + seq![','] + parts.last()
    }
}

/// A list of strings as a JSON array.
pub open spec fn list_text(items: Seq<Seq<char>>) -> Seq<char> {
    seq!['['] + joined(items.map_values(|s: Seq<char>| string_literal(s))) + seq![']']
}

/// A field value as JSON text.
pub open spec fn value_text(v: FieldView) -> Seq<char> {
    match v {
        FieldView::Text(s) => string_literal(s),
        FieldView::Number(n) => int_text(n),
        FieldView::Flag(b) => if b {
            seq!['t', 'r', 'u', 'e']
        } else {
            seq!['f', 'a', 'l', 's', 'e']
        },
        FieldView::TextList(items) => list_text(items),
    }
}

/// One object member: the quoted name, a colon and the value.
pub open spec fn member_text(f: (Seq<char>, FieldView)) -> Seq<char> {
    string_literal(f.0) + seq![':'] + value_text(f.1)
}

/// The fields as a JSON object, in their order.
pub open spec fn object_text(fields: Seq<(Seq<char>, FieldView)>) -> Seq<char> {
    seq!['{'] + joined(fields.map_values(|f: (Seq<char>, FieldView)| member_text(f))) + seq!['}']
}

proof fn lemma_joined_push(parts: Seq<Seq<char>>, i: int)
    requires
        0 <= i < parts.len(),
    ensures
        joined(parts.subrange(0, i + 1)) == if i == 0 {
            parts[0]
        } else {
            joined(parts.subrange(0, i)) + seq![','] + parts[i]
        },
{
    assert(parts.subrange(0, i + 1).drop_last() =~= parts.subrange(0, i));
}

/// Appends `parts` to `out`, separated by commas.
fn append_joined(out: &mut String, parts: &Vec<String>)
    ensures
        final(out)@ == old(out)@ + joined(parts@.map_values(|s: String| s@)),
{
    let ghost start = out@;
    let ghost views = parts@.map_values(|s: String| s@);
    let mut i: usize = 0;
    while i < parts.len()
        invariant
            i <= parts.len(),
            views == parts@.map_values(|s: String| s@),
            out@ == start + joined(views.subrange(0, i as int)),
        decreases parts.len() - i,
    {
        proof {
            lemma_joined_push(views, i as int);
        }
        if i > 0 {
            out.append(",");
            proof { reveal_strlit(","); }
        }
        out.append(parts[i].as_str());
        i = i + 1;
        proof {
            assert(start + joined(views.subrange(0, i as int)) =~= out@);
        }
    }
    assert(views.subrange(0, parts.len() as int) =~= views);
}


/// Renders one field value as JSON text.
pub fn render_value(v: &FieldValue) -> (r: String)
    ensures
        r@ == value_text(v@),
{
    match v {
        FieldValue::Text(s) => quote(s.as_str()),
        FieldValue::Number(n) => number(*n),
        FieldValue::Flag(b) => {
            proof {
                reveal_strlit("true");
                reveal_strlit("false");
            }
            if *b {
                "true".to_owned()
            } else {
                "false".to_owned()
            }
        },
        FieldValue::TextList(items) => {
            let ghost views = items@.map_values(|s: String| s@);
            let mut quoted: Vec<String> = Vec::new();
            let mut i: usize = 0;
            while i < items.len()
                invariant
                    i <= items.len(),
                    views == items@.map_values(|s: String| s@),
                    quoted.len() == i,
                    forall|j: int| 0 <= j < i ==> quoted@[j]@ == string_literal(#[trigger] views[j]),
                decreases items.len() - i,
            {
                quoted.push(quote(items[i].as_str()));
                i = i + 1;
            }
            assert(quoted@.map_values(|s: String| s@) =~= views.map_values(
                |s: Seq<char>| string_literal(s),
            ));
            let mut out = "[".to_owned();
            proof {
                reveal_strlit("[");
                reveal_strlit("]");
            }
            append_joined(&mut out, &quoted);
            out.append("]");
            out
        },
    }
}

/// A request payload: named fields, written in the order they were added.
#[derive(Debug)]
pub struct Payload {
    fields: Vec<(String, FieldValue)>,
}

impl View for Payload {
    type V = Seq<(Seq<char>, FieldView)>;

    closed spec fn view(&self) -> Seq<(Seq<char>, FieldView)> {
        self.fields@.map_values(|f: (String, FieldValue)| (f.0@, f.1@))
    }
}

impl Payload {
    /// A payload without fields.
    pub fn new() -> (r: Payload)
        ensures
            r@ == Seq::<(Seq<char>, FieldView)>::empty(),
    {
        let r = Payload { fields: Vec::new() };
        assert(r@ =~= Seq::<(Seq<char>, FieldView)>::empty());
        r
    }

    /// Adds the field `name` with `value` after the present ones.
    pub fn add(&mut self, name: &str, value: FieldValue)
        ensures
            final(self)@ == old(self)@.push((name@, value@)),
    {
        self.fields.push((name.to_owned(), value));
        assert(self@ =~= old(self)@.push((name@, value@)));
    }

    /// The payload as a JSON object.
    pub fn encode(&self) -> (r: String)
        ensures
            r@ == object_text(self@),
    {
        let ghost model = self@;
        let mut members: Vec<String> = Vec::new();
        let mut i: usize = 0;
        while i < self.fields.len()
            invariant
                i <= self.fields.len(),
                model == self@,
                members.len() == i,
                forall|j: int| 0 <= j < i ==> members@[j]@ == member_text(#[trigger] model[j]),
            decreases self.fields.len() - i,
        {
            let field = &self.fields[i];
            let mut member = quote(field.0.as_str());
            member.append(":");
            let value = render_value(&field.1);
            member.append(value.as_str());
            proof {
                reveal_strlit(":");
            }
            members.push(member);
            i = i + 1;
        }
        assert(members@.map_values(|s: String| s@) =~= model.map_values(
            |f: (Seq<char>, FieldView)| member_text(f),
        ));
        let mut out = "{".to_owned();
        proof {
            reveal_strlit("{");
            reveal_strlit("}");
        }
        append_joined(&mut out, &members);
        out.append("}");
        out
    }
}

} // verus!
