use vstd::prelude::*;
use vstd::string::*;

use crate::error::NoirProverError;

verus! {

broadcast use {
    vstd::std_specs::vec::axiom_vec_index_decreases,
    vstd::std_specs::vec::axiom_vec_decreases_to_view,
    vstd::seq::axiom_seq_index_decreases,
};

/// A value decoded from a program's inputs or return, as the ABI describes it.
#[derive(Debug)]
pub enum InputValue {
    /// A field element, as its big-endian bytes.
    Field(Vec<u8>),
    String(String),
    Vec(Vec<InputValue>),
    /// Named members, in ascending order of name.
    Struct(Vec<(String, InputValue)>),
}

/// The decimal-style text that acvm prints for the field element whose
/// big-endian bytes are given (reduced modulo the field's order).
pub uninterp spec fn field_text(bytes: Seq<u8>) -> Seq<char>;

/// Relies on acvm's `FieldElement::from_be_bytes_reduce` to read the bytes and on
/// its `Display` impl to print the element; the text depends on the bytes alone.
#[verifier::external_body]
fn field_to_string(bytes: &Vec<u8>) -> (r: String)
    ensures
        r@ == field_text(bytes@),
{
    acvm::FieldElement::from_be_bytes_reduce(bytes.as_slice()).to_string()
}

/// The text of a value: a field as acvm prints it, a string as it is, the
/// members of a list or struct separated by commas, each struct member as
/// `name: value`.
pub open spec fn rendered(v: InputValue) -> Seq<char>
    decreases v,
{
    match v {
        InputValue::Field(bytes) => field_text(bytes@),
        InputValue::String(s) => s@,
        InputValue::Vec(items) => rendered_items(items@),
        InputValue::Struct(fields) => rendered_fields(fields@),
    }
}

pub open spec fn rendered_items(items: Seq<InputValue>) -> Seq<char>
    decreases items,
{
    if items.len() == 0 {
        Seq::empty()
    } else if items.len() == 1 {
        rendered(items[0])
    } else {
        rendered_items(items.drop_last()) + seq![','] + rendered(items.last())
    }
}

pub open spec fn rendered_fields(fields: Seq<(String, InputValue)>) -> Seq<char>
    decreases fields,
{
    if fields.len() == 0 {
        Seq::empty()
    } else if fields.len() == 1 {
        fields[0].0@ + seq![':', ' '] + rendered(fields[0].1)
    } else {
        rendered_fields(fields.drop_last()) + seq![','] + fields.last().0@ + seq![':', ' ']
            + rendered(fields.last().1)
    }
}

proof fn lemma_item_decreases(v: InputValue, i: int)
    requires
        v is Vec,
        0 <= i < v->Vec_0@.len(),
    ensures
        decreases_to!(v => v->Vec_0@[i]),
{
    assert(decreases_to!(v => v->Vec_0));
    assert(decreases_to!(v->Vec_0 => v->Vec_0@));
}

proof fn lemma_member_decreases(v: InputValue, i: int)
    requires
        v is Struct,
        0 <= i < v->Struct_0@.len(),
    ensures
        decreases_to!(v => v->Struct_0@[i].1),
{
    assert(decreases_to!(v => v->Struct_0));
    assert(decreases_to!(v->Struct_0 => v->Struct_0@));
    assert(decreases_to!(v->Struct_0@ => v->Struct_0@[i]));
}

/// Renders a decoded return value as text (see `rendered`).
pub fn render_value(v: &InputValue) -> (r: String)
    ensures
        r@ == rendered(*v),
    decreases v,
{
    match v {
        InputValue::Field(bytes) => field_to_string(bytes),
        InputValue::String(s) => s.clone(),
        InputValue::Vec(items) => {
            let mut out = String::new();
            let mut i: usize = 0;
            while i < items.len()
                invariant
                    *v is Vec,
                    (*v)->Vec_0 == *items,
                    i <= items@.len(),
                    out@ == rendered_items(items@.take(i as int)),
                decreases items@.len() - i,
            {
                proof {
                    lemma_item_decreases(*v, i as int);
                }
                let part = render_value(&items[i]);
                proof {
                    let next = items@.take(i as int + 1);
                    assert(next.drop_last() =~= items@.take(i as int));
                    assert(next.last() == items@[i as int]);
                    reveal_strlit(",");
                }
                if i > 0 {
                    out.append(",");
                }
                out.append(part.as_str());
                i = i + 1;
            }
            proof {
                assert(items@.take(items@.len() as int) =~= items@);
            }
            out
        },
        InputValue::Struct(fields) => {
            let mut out = String::new();
            let mut i: usize = 0;
            while i < fields.len()
                invariant
                    *v is Struct,
                    (*v)->Struct_0 == *fields,
                    i <= fields@.len(),
                    out@ == rendered_fields(fields@.take(i as int)),
                decreases fields@.len() - i,
            {
                proof {
                    lemma_member_decreases(*v, i as int);
                }
                let part = render_value(&fields[i].1);
                proof {
                    let next = fields@.take(i as int + 1);
                    assert(next.drop_last() =~= fields@.take(i as int));
                    assert(next.last() == fields@[i as int]);
                    reveal_strlit(",");
                    reveal_strlit(": ");
                }
                if i > 0 {
                    out.append(",");
                }
                out.append(fields[i].0.as_str());
                out.append(": ");
                out.append(part.as_str());
                i = i + 1;
            }
            proof {
                assert(fields@.take(fields@.len() as int) =~= fields@);
            }
            out
        },
    }
}

/// The text reported for a program's return value: empty when it has none.
pub open spec fn return_text(v: Option<InputValue>) -> Seq<char> {
    match v {
        Some(value) => rendered(value),
        None => Seq::empty(),
    }
}

/// Renders the optional return value of a run; this never fails.
pub fn serialize_return_value(return_value: Option<InputValue>) -> (r: Result<
    String,
    NoirProverError,
>)
    ensures
        r is Ok,
        r->Ok_0@ == return_text(return_value),
{
    match return_value {
        Some(v) => Ok(render_value(&v)),
        None => Ok(String::new()),
    }
}

} // verus!
