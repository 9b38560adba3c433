use vstd::prelude::*;

use crate::json::JsonValue;
use vstd::string::StrSliceExecFns;

verus! {

/// One direct child of a listed directory, as the file system reports it:
/// its name, whether it is itself a directory, and its size in bytes.
#[derive(Debug, Clone)]
pub struct RawEntry {
    pub name: String,
    pub is_dir: bool,
    pub size: u64,
}

/// Lexicographic order on character sequences, by code point.
pub open spec fn lex_le(a: Seq<char>, b: Seq<char>) -> bool
    decreases a.len(),
{
    if a.len() == 0 {
        true
    } else if b.len() == 0 {
        false
    } else if (a[0] as u32) < (b[0] as u32) {
        true
    } else if (b[0] as u32) < (a[0] as u32) {
        false
    } else {
        lex_le(a.skip(1), b.skip(1))
    }
}

/// The lexicographic order is total.
pub proof fn lemma_lex_le_total(a: Seq<char>, b: Seq<char>)
    ensures
        lex_le(a, b) || lex_le(b, a),
    decreases a.len(),
{
    if a.len() == 0 {
    } else if b.len() == 0 {
    } else if (a[0] as u32) < (b[0] as u32) {
    } else if (b[0] as u32) < (a[0] as u32) {
    } else {
        lemma_lex_le_total(a.skip(1), b.skip(1));
    }
}

/// Decides `lex_le` on two strings.
pub fn lex_le_exec(a: &str, b: &str) -> (r: bool)
    ensures
        r == lex_le(a@, b@),
{
    let alen = a.unicode_len();
    let blen = b.unicode_len();
    let mut i: usize = 0;
    proof {
        assert(a@.skip(0) =~= a@);
        assert(b@.skip(0) =~= b@);
    }
    loop
        invariant
            i <= alen,
            i <= blen,
            alen == a@.len(),
            blen == b@.len(),
            lex_le(a@, b@) == lex_le(a@.skip(i as int), b@.skip(i as int)),
        decreases alen - i,
    {
        if i >= alen {
            return true;
        }
        if i >= blen {
            return false;
        }
        let ca = a.get_char(i);
        let cb = b.get_char(i);
        proof {
            assert(a@.skip(i as int)[0] == a@[i as int]);
            assert(b@.skip(i as int)[0] == b@[i as int]);
        }
        if (ca as u32) < (cb as u32) {
            return true;
        }
        if (cb as u32) < (ca as u32) {
            return false;
        }
        proof {
            assert(a@.skip(i as int).skip(1) =~= a@.skip(i + 1));
            assert(b@.skip(i as int).skip(1) =~= b@.skip(i + 1));
        }
        i = i + 1;
    }
}

/// The listing order: every directory precedes every file, and within each
/// group names ascend lexicographically.
pub open spec fn entry_le(a: RawEntry, b: RawEntry) -> bool {
    if a.is_dir != b.is_dir {
        a.is_dir
    } else {
        lex_le(a.name@, b.name@)
    }
}

/// The listing order is total.
pub proof fn lemma_entry_le_total(a: RawEntry, b: RawEntry)
    ensures
        entry_le(a, b) || entry_le(b, a),
{
    if a.is_dir == b.is_dir {
        lemma_lex_le_total(a.name@, b.name@);
    }
}

/// Decides `entry_le`.
pub fn entry_le_exec(a: &RawEntry, b: &RawEntry) -> (r: bool)
    ensures
        r == entry_le(*a, *b),
{
    if a.is_dir != b.is_dir {
        a.is_dir
    } else {
        lex_le_exec(a.name.as_str(), b.name.as_str())
    }
}

/// Where `e` lands in an already ordered sequence.
pub open spec fn insert_entry_spec(s: Seq<RawEntry>, e: RawEntry) -> Seq<RawEntry>
    decreases s.len(),
{
    if s.len() == 0 {
        seq![e]
    } else if entry_le(e, s[0]) {
        seq![e] + s
    } else {
        seq![s[0]] + insert_entry_spec(s.skip(1), e)
    }
}

/// The ordered arrangement of `s`: each element in turn placed at its position.
pub open spec fn sort_entries_spec(s: Seq<RawEntry>) -> Seq<RawEntry>
    decreases s.len(),
{
    if s.len() == 0 {
        Seq::<RawEntry>::empty()
    } else {
        insert_entry_spec(sort_entries_spec(s.drop_last()), s.last())
    }
}

/// Adjacent pairs respect the listing order.
pub open spec fn entries_sorted(s: Seq<RawEntry>) -> bool {
    forall|i: int| 0 <= i && i + 1 < s.len() ==> entry_le(#[trigger] s[i], s[i + 1])
}

/// Placing an element grows the sequence by exactly one.
proof fn lemma_insert_entry_len(s: Seq<RawEntry>, e: RawEntry)
    ensures
        insert_entry_spec(s, e).len() == s.len() + 1,
    decreases s.len(),
{
    if s.len() == 0 {
    } else if entry_le(e, s[0]) {
    } else {
        lemma_insert_entry_len(s.skip(1), e);
    }
}

/// Placing an element into an ordered sequence keeps it ordered.
proof fn lemma_insert_entry_sorted(s: Seq<RawEntry>, e: RawEntry)
    requires
        entries_sorted(s),
    ensures
        entries_sorted(insert_entry_spec(s, e)),
    decreases s.len(),
{
    if s.len() == 0 {
    } else if entry_le(e, s[0]) {
        let r = seq![e] + s;
        assert forall|i: int| 0 <= i && i + 1 < r.len() implies entry_le(#[trigger] r[i], r[i + 1]) by {
            if i == 0 {
                assert(r[0] == e);
                assert(r[1] == s[0]);
            } else {
                assert(r[i] == s[i - 1]);
                assert(r[i + 1] == s[i]);
            }
        }
    } else {
        lemma_entry_le_total(e, s[0]);
        assert(entries_sorted(s.skip(1))) by {
            assert forall|i: int| 0 <= i && i + 1 < s.skip(1).len() implies entry_le(
                #[trigger] s.skip(1)[i],
                s.skip(1)[i + 1],
            ) by {
                assert(s.skip(1)[i] == s[i + 1]);
                assert(s.skip(1)[i + 1] == s[i + 2]);
            }
        }
        lemma_insert_entry_sorted(s.skip(1), e);
        lemma_insert_entry_len(s.skip(1), e);
        let t = insert_entry_spec(s.skip(1), e);
        let r = seq![s[0]] + t;
        assert(entry_le(s[0], t[0])) by {
            if s.skip(1).len() == 0 {
                assert(t[0] == e);
            } else if entry_le(e, s.skip(1)[0]) {
                assert(t[0] == e);
            } else {
                assert(t[0] == s.skip(1)[0]);
                assert(s.skip(1)[0] == s[1]);
            }
        }
        assert forall|i: int| 0 <= i && i + 1 < r.len() implies entry_le(#[trigger] r[i], r[i + 1]) by {
            if i == 0 {
                assert(r[0] == s[0]);
                assert(r[1] == t[0]);
            } else {
                assert(r[i] == t[i - 1]);
                assert(r[i + 1] == t[i]);
            }
        }
    }
}

/// Placing an element keeps exactly the elements: the result holds the input
/// plus `e`, as multisets.
proof fn lemma_insert_entry_multiset(s: Seq<RawEntry>, e: RawEntry)
    ensures
        insert_entry_spec(s, e).to_multiset() =~= s.to_multiset().insert(e),
    decreases s.len(),
{
    broadcast use vstd::seq_lib::group_to_multiset_ensures;
    broadcast use vstd::multiset::group_multiset_axioms;

    if s.len() == 0 {
        assert(seq![e] =~= Seq::<RawEntry>::empty().push(e));
    } else if entry_le(e, s[0]) {
        vstd::seq_lib::lemma_multiset_commutative(seq![e], s);
        assert(seq![e] =~= Seq::<RawEntry>::empty().push(e));
    } else {
        lemma_insert_entry_multiset(s.skip(1), e);
        vstd::seq_lib::lemma_multiset_commutative(seq![s[0]], insert_entry_spec(s.skip(1), e));
        vstd::seq_lib::lemma_multiset_commutative(seq![s[0]], s.skip(1));
        assert(s =~= seq![s[0]] + s.skip(1));
        assert(seq![s[0]] =~= Seq::<RawEntry>::empty().push(s[0]));
    }
}

/// The listing invariant: the ordered arrangement respects the listing order
/// pairwise — every directory precedes every file, names ascending within
/// each group — and holds exactly the entries it was given.
pub proof fn lemma_sort_entries_ordered(s: Seq<RawEntry>)
    ensures
        entries_sorted(sort_entries_spec(s)),
        sort_entries_spec(s).to_multiset() =~= s.to_multiset(),
    decreases s.len(),
{
    broadcast use vstd::seq_lib::group_to_multiset_ensures;

    if s.len() > 0 {
        lemma_sort_entries_ordered(s.drop_last());
        lemma_insert_entry_sorted(sort_entries_spec(s.drop_last()), s.last());
        lemma_insert_entry_multiset(sort_entries_spec(s.drop_last()), s.last());
        assert(s =~= s.drop_last().push(s.last()));
    }
}

/// Places `e` at its position in the ordered `v`.
fn insert_entry(v: &mut Vec<RawEntry>, e: RawEntry)
    ensures
        final(v)@ == insert_entry_spec(old(v)@, e),
{
    let ghost s0 = old(v)@;
    let mut j: usize = 0;
    proof {
        assert(s0.skip(0) =~= s0);
        assert(s0.take(0) + insert_entry_spec(s0, e) =~= insert_entry_spec(s0, e));
    }
    loop
        invariant
            j <= s0.len(),
            v@ == s0,
            insert_entry_spec(s0, e) == s0.take(j as int) + insert_entry_spec(
                s0.skip(j as int),
                e,
            ),
        ensures
            v@ == s0,
            j <= s0.len(),
            insert_entry_spec(s0, e) == s0.take(j as int) + insert_entry_spec(
                s0.skip(j as int),
                e,
            ),
            j < s0.len() ==> entry_le(e, s0[j as int]),
        decreases s0.len() - j,
    {
        if j >= v.len() {
            break ;
        }
        if entry_le_exec(&e, &v[j]) {
            break ;
        }
        proof {
            let tail = s0.skip(j as int);
            assert(tail[0] == s0[j as int]);
            assert(tail.skip(1) =~= s0.skip(j + 1));
            assert(insert_entry_spec(tail, e) == seq![s0[j as int]] + insert_entry_spec(
                s0.skip(j + 1),
                e,
            ));
            assert(s0.take(j as int) + (seq![s0[j as int]] + insert_entry_spec(s0.skip(j + 1), e))
                =~= s0.take(j + 1) + insert_entry_spec(s0.skip(j + 1), e));
        }
        j = j + 1;
    }
    proof {
        if j < s0.len() {
            assert(s0.skip(j as int)[0] == s0[j as int]);
            assert(insert_entry_spec(s0.skip(j as int), e) == seq![e] + s0.skip(j as int));
        } else {
            assert(s0.skip(j as int) =~= Seq::<RawEntry>::empty());
            assert(insert_entry_spec(s0.skip(j as int), e) == seq![e]);
            assert(seq![e] =~= seq![e] + s0.skip(j as int));
        }
    }
    v.insert(j, e);
    proof {
        assert(v@ =~= s0.take(j as int) + (seq![e] + s0.skip(j as int)));
    }
}

/// Orders a listing: directories first, then files, names ascending within
/// each group.
pub fn sort_entries(v: Vec<RawEntry>) -> (r: Vec<RawEntry>)
    ensures
        r@ == sort_entries_spec(v@),
{
    let ghost s = v@;
    let mut v = v;
    let n = v.len();
    let mut r: Vec<RawEntry> = Vec::new();
    let mut i: usize = 0;
    proof {
        assert(s.take(0) =~= Seq::<RawEntry>::empty());
    }
    while v.len() > 0
        invariant
            s.len() == n,
            i + v@.len() == s.len(),
            v@ == s.skip(i as int),
            r@ == sort_entries_spec(s.take(i as int)),
        decreases v@.len(),
    {
        let e = v.remove(0);
        proof {
            assert(s.skip(i as int)[0] == s[i as int]);
            assert(s.skip(i as int).remove(0) =~= s.skip(i + 1));
            assert(s.take(i + 1).drop_last() =~= s.take(i as int));
            assert(s.take(i + 1).last() == s[i as int]);
        }
        insert_entry(&mut r, e);
        i = i + 1;
    }
    proof {
        assert(s.take(i as int) =~= s);
    }
    r
}

/// The JSON object describing one listed entry: its name, its kind, and, for
/// a file, its size.
pub open spec fn entry_json_rel(e: RawEntry, v: JsonValue) -> bool {
    if e.is_dir {
        v matches JsonValue::Obj(fs) && fs@.len() == 2 && fs@[0].0@ == "name"@ && (fs@[0].1
            matches JsonValue::Str(n) && n@ == e.name@) && fs@[1].0@ == "type"@ && (fs@[1].1
            matches JsonValue::Str(t) && t@ == "directory"@)
    } else {
        v matches JsonValue::Obj(fs) && fs@.len() == 3 && fs@[0].0@ == "name"@ && (fs@[0].1
            matches JsonValue::Str(n) && n@ == e.name@) && fs@[1].0@ == "type"@ && (fs@[1].1
            matches JsonValue::Str(t) && t@ == "file"@) && fs@[2].0@ == "size"@ && fs@[2].1
            == JsonValue::UInt(e.size)
    }
}

/// Builds the JSON object for one entry.
fn entry_to_json(e: RawEntry) -> (v: JsonValue)
    ensures
        entry_json_rel(e, v),
{
    let RawEntry { name, is_dir, size } = e;
    let mut fields: Vec<(String, JsonValue)> = Vec::new();
    fields.push(("name".to_owned(), JsonValue::Str(name)));
    if is_dir {
        fields.push(("type".to_owned(), JsonValue::Str("directory".to_owned())));
    } else {
        fields.push(("type".to_owned(), JsonValue::Str("file".to_owned())));
        fields.push(("size".to_owned(), JsonValue::UInt(size)));
    }
    JsonValue::Obj(fields)
}

/// Orders a listing and renders each entry as its JSON object.
pub fn entries_to_json(entries: Vec<RawEntry>) -> (r: Vec<JsonValue>)
    ensures
        r@.len() == sort_entries_spec(entries@).len(),
        forall|i: int| 0 <= i < r@.len() ==> entry_json_rel(
            sort_entries_spec(entries@)[i],
            #[trigger] r@[i],
        ),
{
    let ghost e0 = entries@;
    let mut sorted = sort_entries(entries);
    let ghost s = sorted@;
    let n = sorted.len();
    let mut r: Vec<JsonValue> = Vec::new();
    let mut i: usize = 0;
    while sorted.len() > 0
        invariant
            s.len() == n,
            s == sort_entries_spec(e0),
            i + sorted@.len() == s.len(),
            sorted@ == s.skip(i as int),
            r@.len() == i,
            forall|k: int| 0 <= k < i ==> entry_json_rel(s[k], #[trigger] r@[k]),
        decreases sorted@.len(),
    {
        let e = sorted.remove(0);
        proof {
            assert(s.skip(i as int)[0] == s[i as int]);
            assert(s.skip(i as int).remove(0) =~= s.skip(i + 1));
        }
        let j = entry_to_json(e);
        r.push(j);
        i = i + 1;
    }
    r
}

} // verus!
