use vstd::prelude::*;

verus! {

/// A structured protocol value: the untyped payload carried by requests and
/// responses. Numbers are integers; signed and unsigned variants together
/// cover every integral value a peer can send. An object keeps its fields as
/// a list of name/value pairs, first occurrence of a name winning on lookup.
#[derive(Debug)]
pub enum JsonValue {
    Null,
    Bool(bool),
    Int(i64),
    UInt(u64),
    Str(String),
    Arr(Vec<JsonValue>),
    Obj(Vec<(String, JsonValue)>),
}

/// The value of the first field called `name`, if any.
pub open spec fn obj_lookup(fields: Seq<(String, JsonValue)>, name: Seq<char>) -> Option<JsonValue>
    decreases fields.len(),
{
    if fields.len() == 0 {
        None
    } else if fields[0].0@ == name {
        Some(fields[0].1)
    } else {
        obj_lookup(fields.skip(1), name)
    }
}

/// String equality decided by content.
pub fn str_eq(a: &str, b: &str) -> (r: bool)
    ensures
        r == (a@ == b@),
{
    let x = a.to_owned();
    let y = b.to_owned();
    x == y
}

/// Finds the first field called `name` in an object's field list.
pub fn get_field<'a>(fields: &'a Vec<(String, JsonValue)>, name: &str) -> (r: Option<
    &'a JsonValue,
>)
    ensures
        match r {
            Some(v) => obj_lookup(fields@, name@) == Some(*v),
            None => obj_lookup(fields@, name@) is None,
        },
{
    let mut i: usize = 0;
    proof {
        assert(fields@.skip(0) =~= fields@);
    }
    while i < fields.len()
        invariant
            0 <= i <= fields@.len(),
            obj_lookup(fields@, name@) == obj_lookup(fields@.skip(i as int), name@),
        decreases fields@.len() - i,
    {
        proof {
            assert(fields@.skip(i as int)[0] == fields@[i as int]);
        }
        if str_eq(fields[i].0.as_str(), name) {
            return Some(&fields[i].1);
        }
        proof {
            assert(fields@.skip(i as int).skip(1) =~= fields@.skip(i + 1));
        }
        i = i + 1;
    }
    proof {
        assert(fields@.skip(i as int) =~= Seq::<(String, JsonValue)>::empty());
    }
    None
}

} // verus!
