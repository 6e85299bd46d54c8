//! The generic named-binary-tag tree that decoding consumes, together with
//! the verified lookup and get-or-default primitives used to project typed
//! fields out of a compound.

use vstd::prelude::*;

verus! {

broadcast use vstd::std_specs::vec::group_vec_axioms, vstd::seq::group_seq_axioms;

/// One node of the generic named-binary-tag tree: typed scalar leaves,
/// homogeneous lists, and compounds holding named children.  Floating-point
/// leaves carry their raw bit patterns, so that a tree can hold them and
/// hand them back unchanged.
#[derive(Debug, PartialEq)]
pub enum NbtValue {
    Byte(i8),
    Short(i16),
    Int(i32),
    Long(i64),
    Float(u32),
    Double(u64),
    ByteArray(Vec<i8>),
    IntArray(Vec<i32>),
    LongArray(Vec<i64>),
    Str(String),
    List(Vec<NbtValue>),
    Compound(Vec<(String, NbtValue)>),
}

/// The mathematical shape of an `NbtValue`: sequences in place of vectors,
/// character sequences in place of strings.
pub enum NbtTree {
    Byte(i8),
    Short(i16),
    Int(i32),
    Long(i64),
    Float(u32),
    Double(u64),
    ByteArray(Seq<i8>),
    IntArray(Seq<i32>),
    LongArray(Seq<i64>),
    Str(Seq<char>),
    List(Seq<NbtTree>),
    Compound(Seq<(Seq<char>, NbtTree)>),
}

impl NbtValue {
    /// The abstract tree a concrete node stands for.
    pub open spec fn model(self) -> NbtTree
        decreases self,
    {
        match self {
            NbtValue::Byte(b) => NbtTree::Byte(b),
            NbtValue::Short(s) => NbtTree::Short(s),
            NbtValue::Int(i) => NbtTree::Int(i),
            NbtValue::Long(l) => NbtTree::Long(l),
            NbtValue::Float(f) => NbtTree::Float(f),
            NbtValue::Double(d) => NbtTree::Double(d),
            NbtValue::ByteArray(bs) => NbtTree::ByteArray(bs@),
            NbtValue::IntArray(is) => NbtTree::IntArray(is@),
            NbtValue::LongArray(ls) => NbtTree::LongArray(ls@),
            NbtValue::Str(s) => NbtTree::Str(s@),
            NbtValue::List(es) => NbtTree::List(
                Seq::new(
                    es@.len(),
                    |i: int|
                        if 0 <= i < es@.len() {
                            es@[i].model()
                        } else {
                            NbtTree::Byte(0)
                        },
                ),
            ),
            NbtValue::Compound(ps) => NbtTree::Compound(
                Seq::new(
                    ps@.len(),
                    |i: int|
                        if 0 <= i < ps@.len() {
                            (ps@[i].0@, ps@[i].1.model())
                        } else {
                            (Seq::empty(), NbtTree::Byte(0))
                        },
                ),
            ),
        }
    }
}

/// The abstract trees of a sequence of concrete nodes.
pub open spec fn list_model(es: Seq<NbtValue>) -> Seq<NbtTree> {
    Seq::new(es.len(), |i: int| es[i].model())
}

/// The abstract named children of a concrete compound.
pub open spec fn pairs_model(ps: Seq<(String, NbtValue)>) -> Seq<(Seq<char>, NbtTree)> {
    Seq::new(ps.len(), |i: int| (ps[i].0@, ps[i].1.model()))
}

/// A list node's abstract tree is the list of its elements' trees.
pub proof fn lemma_model_list(es: Vec<NbtValue>)
    ensures
        NbtValue::List(es).model() == NbtTree::List(list_model(es@)),
{
    let m = NbtValue::List(es).model();
    assert(m is List);
    assert(m->List_0 =~= list_model(es@));
}

/// A compound node's abstract tree is the abstract view of its children.
pub proof fn lemma_model_compound(ps: Vec<(String, NbtValue)>)
    ensures
        NbtValue::Compound(ps).model() == NbtTree::Compound(pairs_model(ps@)),
{
    let m = NbtValue::Compound(ps).model();
    assert(m is Compound);
    assert(m->Compound_0 =~= pairs_model(ps@));
}

/// The abstract value of an optional concrete node.
pub open spec fn opt_model(v: Option<NbtValue>) -> Option<NbtTree> {
    match v {
        Some(n) => Some(n.model()),
        None => None,
    }
}

/// The first child of the compound whose name equals `key`, if any.
pub open spec fn spec_lookup(ps: Seq<(Seq<char>, NbtTree)>, key: Seq<char>) -> Option<NbtTree>
    decreases ps.len(),
{
    if ps.len() == 0 {
        None
    } else if ps[0].0 == key {
        Some(ps[0].1)
    } else {
        spec_lookup(ps.drop_first(), key)
    }
}

/// Looking a key up in a compound extended at the back finds the old entry
/// first and falls back on the new one.
pub proof fn lemma_lookup_push(ps: Seq<(Seq<char>, NbtTree)>, p: (Seq<char>, NbtTree), key: Seq<char>)
    ensures
        spec_lookup(ps.push(p), key) == (if spec_lookup(ps, key) is Some {
            spec_lookup(ps, key)
        } else if p.0 == key {
            Some(p.1)
        } else {
            None
        }),
    decreases ps.len(),
{
    if ps.len() == 0 {
        assert(ps.push(p) =~= seq![p]);
        assert(ps.push(p).drop_first() =~= Seq::empty());
    } else {
        assert(ps.push(p).drop_first() =~= ps.drop_first().push(p));
        lemma_lookup_push(ps.drop_first(), p, key);
    }
}

/// If no entry before position `i` is named `key` and the entry at `i` is,
/// the lookup yields that entry.
pub proof fn lemma_lookup_at(ps: Seq<(Seq<char>, NbtTree)>, key: Seq<char>, i: int)
    requires
        0 <= i < ps.len(),
        ps[i].0 == key,
        forall|j: int| 0 <= j < i ==> ps[j].0 != key,
    ensures
        spec_lookup(ps, key) == Some(ps[i].1),
    decreases i,
{
    if i > 0 {
        lemma_lookup_at(ps.drop_first(), key, i - 1);
    }
}

/// If no entry is named `key`, the lookup yields nothing.
pub proof fn lemma_lookup_absent(ps: Seq<(Seq<char>, NbtTree)>, key: Seq<char>)
    requires
        forall|j: int| 0 <= j < ps.len() ==> ps[j].0 != key,
    ensures
        spec_lookup(ps, key) is None,
    decreases ps.len(),
{
    if ps.len() > 0 {
        lemma_lookup_absent(ps.drop_first(), key);
    }
}

/// Takes the children named by `keys` out of a compound in one pass.  Slot
/// `j` of the result receives the first child named `keys[j]`, or nothing
/// when the compound has no such child.
pub fn take_fields(ps: Vec<(String, NbtValue)>, keys: &Vec<String>) -> (r: Vec<Option<NbtValue>>)
    requires
        forall|m: int, n: int| 0 <= m < n < keys@.len() ==> keys@[m]@ != keys@[n]@,
    ensures
        r@.len() == keys@.len(),
        forall|j: int|
            0 <= j < keys@.len() ==> opt_model(#[trigger] r@[j]) == spec_lookup(
                pairs_model(ps@),
                keys@[j]@,
            ),
{
    let ghost full: Seq<(Seq<char>, NbtTree)> = pairs_model(ps@);
    let mut ps = ps;
    let mut slots: Vec<Option<NbtValue>> = Vec::new();
    let mut j: usize = 0;
    while j < keys.len()
        invariant
            slots@.len() == j,
            j <= keys@.len(),
            forall|t: int| 0 <= t < j ==> (#[trigger] slots@[t]) is None,
        decreases keys@.len() - j,
    {
        slots.push(None);
        j = j + 1;
    }
    while ps.len() > 0
        invariant
            slots@.len() == keys@.len(),
            forall|m: int, n: int| 0 <= m < n < keys@.len() ==> keys@[m]@ != keys@[n]@,
            forall|t: int|
                0 <= t < keys@.len() ==> spec_lookup(full, keys@[t]@) == (if spec_lookup(
                    pairs_model(ps@),
                    keys@[t]@,
                ) is Some {
                    spec_lookup(pairs_model(ps@), keys@[t]@)
                } else {
                    opt_model(#[trigger] slots@[t])
                }),
        decreases ps@.len(),
    {
        let ghost prev: Seq<(String, NbtValue)> = ps@;
        let pair = ps.pop().unwrap();
        let (name, value) = pair;
        let ghost value_model: NbtTree = value.model();
        proof {
            assert(pairs_model(prev) =~= pairs_model(ps@).push((name@, value_model)));
            assert forall|t: int| 0 <= t < keys@.len() implies spec_lookup(
                pairs_model(prev),
                keys@[t]@,
            ) == (if spec_lookup(pairs_model(ps@), keys@[t]@) is Some {
                spec_lookup(pairs_model(ps@), keys@[t]@)
            } else if name@ == keys@[t]@ {
                Some(value_model)
            } else {
                None
            }) by {
                lemma_lookup_push(pairs_model(ps@), (name@, value_model), keys@[t]@);
            }
        }
        let mut idx: usize = keys.len();
        let mut j: usize = 0;
        while j < keys.len()
            invariant
                j <= keys@.len(),
                idx == keys@.len() || (idx < j && name@ == keys@[idx as int]@),
                idx == keys@.len() ==> forall|t: int| 0 <= t < j ==> name@ != keys@[t]@,
            decreases keys@.len() - j,
        {
            if idx == keys.len() && name == keys[j] {
                idx = j;
            }
            j = j + 1;
        }
        if idx < keys.len() {
            slots[idx] = Some(value);
        }
    }
    slots
}

/// Searches a compound for `key` without consuming it and hands back a copy
/// of the string child of that name, if the first child so named is a
/// string.
pub fn find_string(ps: &Vec<(String, NbtValue)>, key: &String) -> (r: Option<String>)
    ensures
        r.deep_view() == spec_opt_string(spec_lookup(pairs_model(ps@), key@)),
{
    let mut i: usize = 0;
    while i < ps.len()
        invariant
            i <= ps@.len(),
            forall|j: int| 0 <= j < i ==> (#[trigger] ps@[j]).0@ != key@,
        decreases ps@.len() - i,
    {
        if ps[i].0 == *key {
            proof {
                lemma_lookup_at(pairs_model(ps@), key@, i as int);
            }
            match &ps[i].1 {
                NbtValue::Str(s) => {
                    return Some(s.clone());
                },
                _ => {
                    return None;
                },
            }
        }
        i = i + 1;
    }
    proof {
        lemma_lookup_absent(pairs_model(ps@), key@);
    }
    None
}

/// The byte leaf's value, or the default when the child is absent or of
/// another shape.
pub open spec fn spec_byte_or(v: Option<NbtTree>, d: i8) -> i8 {
    match v {
        Some(NbtTree::Byte(b)) => b,
        _ => d,
    }
}

pub fn byte_or(v: Option<NbtValue>, d: i8) -> (r: i8)
    ensures
        r == spec_byte_or(opt_model(v), d),
{
    match v {
        Some(NbtValue::Byte(b)) => b,
        _ => d,
    }
}

/// The short leaf's value, or the default.
pub open spec fn spec_short_or(v: Option<NbtTree>, d: i16) -> i16 {
    match v {
        Some(NbtTree::Short(s)) => s,
        _ => d,
    }
}

pub fn short_or(v: Option<NbtValue>, d: i16) -> (r: i16)
    ensures
        r == spec_short_or(opt_model(v), d),
{
    match v {
        Some(NbtValue::Short(s)) => s,
        _ => d,
    }
}

/// The int leaf's value, or the default.
pub open spec fn spec_int_or(v: Option<NbtTree>, d: i32) -> i32 {
    match v {
        Some(NbtTree::Int(i)) => i,
        _ => d,
    }
}

pub fn int_or(v: Option<NbtValue>, d: i32) -> (r: i32)
    ensures
        r == spec_int_or(opt_model(v), d),
{
    match v {
        Some(NbtValue::Int(i)) => i,
        _ => d,
    }
}

/// The long leaf's value, or the default.
pub open spec fn spec_long_or(v: Option<NbtTree>, d: i64) -> i64 {
    match v {
        Some(NbtTree::Long(l)) => l,
        _ => d,
    }
}

pub fn long_or(v: Option<NbtValue>, d: i64) -> (r: i64)
    ensures
        r == spec_long_or(opt_model(v), d),
{
    match v {
        Some(NbtValue::Long(l)) => l,
        _ => d,
    }
}

/// The byte leaf's value widened to an int, or the default.  Flag fields
/// are stored as bytes on the wire but kept as ints in the model.
pub open spec fn spec_byte_as_int_or(v: Option<NbtTree>, d: i32) -> i32 {
    match v {
        Some(NbtTree::Byte(b)) => b as i32,
        _ => d,
    }
}

pub fn byte_as_int_or(v: Option<NbtValue>, d: i32) -> (r: i32)
    ensures
        r == spec_byte_as_int_or(opt_model(v), d),
{
    match v {
        Some(NbtValue::Byte(b)) => b as i32,
        _ => d,
    }
}

/// The float leaf's raw bits, or the default bits.
pub open spec fn spec_float_bits_or(v: Option<NbtTree>, d: u32) -> u32 {
    match v {
        Some(NbtTree::Float(f)) => f,
        _ => d,
    }
}

pub fn float_bits_or(v: Option<NbtValue>, d: u32) -> (r: u32)
    ensures
        r == spec_float_bits_or(opt_model(v), d),
{
    match v {
        Some(NbtValue::Float(f)) => f,
        _ => d,
    }
}

/// The byte leaf's value when present, or nothing.
pub open spec fn spec_opt_byte(v: Option<NbtTree>) -> Option<i8> {
    match v {
        Some(NbtTree::Byte(b)) => Some(b),
        _ => None,
    }
}

pub fn opt_byte(v: Option<NbtValue>) -> (r: Option<i8>)
    ensures
        r == spec_opt_byte(opt_model(v)),
{
    match v {
        Some(NbtValue::Byte(b)) => Some(b),
        _ => None,
    }
}

/// The long leaf's value when present, or nothing.
pub open spec fn spec_opt_long(v: Option<NbtTree>) -> Option<i64> {
    match v {
        Some(NbtTree::Long(l)) => Some(l),
        _ => None,
    }
}

pub fn opt_long(v: Option<NbtValue>) -> (r: Option<i64>)
    ensures
        r == spec_opt_long(opt_model(v)),
{
    match v {
        Some(NbtValue::Long(l)) => Some(l),
        _ => None,
    }
}

/// The string leaf's characters when present, or nothing.
pub open spec fn spec_opt_string(v: Option<NbtTree>) -> Option<Seq<char>> {
    match v {
        Some(NbtTree::Str(s)) => Some(s),
        _ => None,
    }
}

pub fn opt_string(v: Option<NbtValue>) -> (r: Option<String>)
    ensures
        r.deep_view() == spec_opt_string(opt_model(v)),
{
    match v {
        Some(NbtValue::Str(s)) => Some(s),
        _ => None,
    }
}

/// The string leaf's characters, or the default text.
pub open spec fn spec_string_or(v: Option<NbtTree>, d: Seq<char>) -> Seq<char> {
    match v {
        Some(NbtTree::Str(s)) => s,
        _ => d,
    }
}

pub fn string_or(v: Option<NbtValue>, d: String) -> (r: String)
    ensures
        r@ == spec_string_or(opt_model(v), d@),
{
    match v {
        Some(NbtValue::Str(s)) => s,
        _ => d,
    }
}

/// The compound child's contents, or an empty compound.
pub open spec fn spec_compound_or(v: Option<NbtTree>) -> Seq<(Seq<char>, NbtTree)> {
    match v {
        Some(NbtTree::Compound(ps)) => ps,
        _ => Seq::empty(),
    }
}

pub fn compound_or(v: Option<NbtValue>) -> (r: Vec<(String, NbtValue)>)
    ensures
        pairs_model(r@) == spec_compound_or(opt_model(v)),
{
    match v {
        Some(NbtValue::Compound(ps)) => {
            proof {
                lemma_model_compound(ps);
            }
            ps
        },
        _ => {
            let r: Vec<(String, NbtValue)> = Vec::new();
            proof {
                assert(pairs_model(r@) =~= Seq::empty());
            }
            r
        },
    }
}

/// The int-array leaf's contents, or an empty sequence.
pub open spec fn spec_int_array_or(v: Option<NbtTree>) -> Seq<i32> {
    match v {
        Some(NbtTree::IntArray(is)) => is,
        _ => Seq::empty(),
    }
}

pub fn int_array_or(v: Option<NbtValue>) -> (r: Vec<i32>)
    ensures
        r@ == spec_int_array_or(opt_model(v)),
{
    match v {
        Some(NbtValue::IntArray(is)) => is,
        _ => {
            let r: Vec<i32> = Vec::new();
            assert(r@ =~= Seq::<i32>::empty());
            r
        },
    }
}

/// The text of each element of a list, a non-string element standing for
/// empty text, or an empty sequence when the child is absent or no list.
pub open spec fn spec_string_list_or(v: Option<NbtTree>) -> Seq<Seq<char>> {
    match v {
        Some(NbtTree::List(ts)) => Seq::new(
            ts.len(),
            |i: int| match ts[i] {
                NbtTree::Str(s) => s,
                _ => Seq::empty(),
            },
        ),
        _ => Seq::empty(),
    }
}

pub fn string_list_or(v: Option<NbtValue>) -> (r: Vec<String>)
    ensures
        r.deep_view() == spec_string_list_or(opt_model(v)),
{
    match v {
        Some(NbtValue::List(es)) => {
            proof {
                lemma_model_list(es);
            }
            let mut out: Vec<String> = Vec::new();
            let mut i: usize = 0;
            while i < es.len()
                invariant
                    i <= es@.len(),
                    out@.len() == i,
                    forall|j: int|
                        0 <= j < i ==> (#[trigger] out@[j])@ == (match list_model(es@)[j] {
                            NbtTree::Str(s) => s,
                            _ => Seq::<char>::empty(),
                        }),
                decreases es@.len() - i,
            {
                match &es[i] {
                    NbtValue::Str(s) => {
                        out.push(s.clone());
                    },
                    _ => {
                        out.push(String::new());
                    },
                }
                i = i + 1;
            }
            proof {
                assert(out.deep_view() =~= spec_string_list_or(opt_model(Some(
                    NbtValue::List(es),
                ))));
            }
            out
        },
        _ => {
            let out: Vec<String> = Vec::new();
            proof {
                assert(out.deep_view() =~= Seq::<Seq<char>>::empty());
            }
            out
        },
    }
}

/// The contents of each element of a list of compounds, a non-compound
/// element standing for an empty compound, or an empty sequence when the
/// child is absent or no list.
pub open spec fn spec_compound_list_or(v: Option<NbtTree>) -> Seq<Seq<(Seq<char>, NbtTree)>> {
    match v {
        Some(NbtTree::List(ts)) => Seq::new(
            ts.len(),
            |i: int| match ts[i] {
                NbtTree::Compound(ps) => ps,
                _ => Seq::empty(),
            },
        ),
        _ => Seq::empty(),
    }
}

/// The abstract contents of a vector of compound contents.
pub open spec fn compound_vecs_model(cs: Seq<Vec<(String, NbtValue)>>) -> Seq<
    Seq<(Seq<char>, NbtTree)>,
> {
    Seq::new(cs.len(), |i: int| pairs_model(cs[i]@))
}

pub fn compound_list_or(v: Option<NbtValue>) -> (r: Vec<Vec<(String, NbtValue)>>)
    ensures
        compound_vecs_model(r@) == spec_compound_list_or(opt_model(v)),
{
    match v {
        Some(NbtValue::List(es)) => {
            proof {
                lemma_model_list(es);
            }
            let ghost es0: Seq<NbtValue> = es@;
            let ghost ts: Seq<NbtTree> = list_model(es0);
            let mut es = es;
            let mut out: Vec<Vec<(String, NbtValue)>> = Vec::new();
            while es.len() > 0
                invariant
                    out@.len() + es@.len() == es0.len(),
                    ts == list_model(es0),
                    es@ =~= es0.skip(out@.len() as int),
                    forall|j: int|
                        0 <= j < out@.len() ==> pairs_model((#[trigger] out@[j])@)
                            == (match ts[j] {
                            NbtTree::Compound(ps) => ps,
                            _ => Seq::<(Seq<char>, NbtTree)>::empty(),
                        }),
                decreases es@.len(),
            {
                let ghost k: int = out@.len() as int;
                let e = es.remove(0);
                assert(e == es0[k]);
                match e {
                    NbtValue::Compound(ps) => {
                        proof {
                            lemma_model_compound(ps);
                        }
                        out.push(ps);
                    },
                    _ => {
                        let empty: Vec<(String, NbtValue)> = Vec::new();
                        proof {
                            assert(pairs_model(empty@) =~= Seq::empty());
                        }
                        out.push(empty);
                    },
                }
                proof {
                    assert(es@ =~= es0.skip(out@.len() as int));
                }
            }
            proof {
                assert(compound_vecs_model(out@) =~= spec_compound_list_or(Some(
                    NbtTree::List(ts),
                )));
            }
            out
        },
        _ => {
            let out: Vec<Vec<(String, NbtValue)>> = Vec::new();
            proof {
                assert(compound_vecs_model(out@) =~= Seq::empty());
            }
            out
        },
    }
}

/// Three ints of each element of a list whose elements are three-component
/// int arrays, any other element standing for the origin, or an empty
/// sequence when the child is absent or no list.
pub open spec fn spec_int_triples_or(v: Option<NbtTree>) -> Seq<(i32, i32, i32)> {
    match v {
        Some(NbtTree::List(ts)) => Seq::new(
            ts.len(),
            |i: int| match ts[i] {
                NbtTree::IntArray(a) => if a.len() == 3 {
                    (a[0], a[1], a[2])
                } else {
                    (0, 0, 0)
                },
                _ => (0, 0, 0),
            },
        ),
        _ => Seq::empty(),
    }
}

pub fn int_triples_or(v: Option<NbtValue>) -> (r: Vec<(i32, i32, i32)>)
    ensures
        r@ == spec_int_triples_or(opt_model(v)),
{
    match v {
        Some(NbtValue::List(es)) => {
            proof {
                lemma_model_list(es);
            }
            let mut out: Vec<(i32, i32, i32)> = Vec::new();
            let mut i: usize = 0;
            while i < es.len()
                invariant
                    i <= es@.len(),
                    out@.len() == i,
                    forall|j: int|
                        0 <= j < i ==> out@[j] == (match list_model(es@)[j] {
                            NbtTree::IntArray(a) => if a.len() == 3 {
                                (a[0], a[1], a[2])
                            } else {
                                (0, 0, 0)
                            },
                            _ => (0, 0, 0),
                        }),
                decreases es@.len() - i,
            {
                match &es[i] {
                    NbtValue::IntArray(a) => {
                        if a.len() == 3 {
                            out.push((a[0], a[1], a[2]));
                        } else {
                            out.push((0, 0, 0));
                        }
                    },
                    _ => {
                        out.push((0, 0, 0));
                    },
                }
                i = i + 1;
            }
            proof {
                assert(out@ =~= spec_int_triples_or(opt_model(Some(NbtValue::List(es)))));
            }
            out
        },
        _ => {
            let out: Vec<(i32, i32, i32)> = Vec::new();
            assert(out@ =~= Seq::<(i32, i32, i32)>::empty());
            out
        },
    }
}

/// The signed bytes of a homogeneous list of byte leaves, or nothing when
/// some element is of another shape.
pub open spec fn spec_bytes_of_list(ts: Seq<NbtTree>) -> Option<Seq<i8>>
    decreases ts.len(),
{
    if ts.len() == 0 {
        Some(Seq::empty())
    } else {
        match ts[0] {
            NbtTree::Byte(b) => match spec_bytes_of_list(ts.drop_first()) {
                Some(rest) => Some(seq![b] + rest),
                None => None,
            },
            _ => None,
        }
    }
}

/// A list of byte leaves decodes exactly when every element is a byte leaf,
/// and then to the sequence of their values.
pub proof fn lemma_bytes_of_list_index(ts: Seq<NbtTree>)
    ensures
        (spec_bytes_of_list(ts) is Some) <==> (forall|i: int|
            0 <= i < ts.len() ==> (#[trigger] ts[i]) is Byte),
        spec_bytes_of_list(ts) is Some ==> spec_bytes_of_list(ts) == Some(
            Seq::new(ts.len(), |i: int| ts[i]->Byte_0),
        ),
    decreases ts.len(),
{
    if ts.len() == 0 {
        assert(spec_bytes_of_list(ts) == Some(Seq::<i8>::empty()));
        assert(Seq::new(ts.len(), |i: int| ts[i]->Byte_0) =~= Seq::<i8>::empty());
    } else {
        let rest = ts.drop_first();
        lemma_bytes_of_list_index(rest);
        assert(forall|i: int| 0 <= i < rest.len() ==> (#[trigger] rest[i]) == ts[i + 1]);
        if ts[0] is Byte && spec_bytes_of_list(rest) is Some {
            assert(forall|i: int| 0 <= i < ts.len() ==> (#[trigger] ts[i]) is Byte) by {
                assert(forall|i: int|
                    1 <= i < ts.len() ==> (#[trigger] ts[i]) == rest[i - 1]);
            }
            assert(seq![ts[0]->Byte_0] + Seq::new(rest.len(), |i: int| rest[i]->Byte_0)
                =~= Seq::new(ts.len(), |i: int| ts[i]->Byte_0));
        } else if ts[0] is Byte {
            assert(exists|i: int| 0 <= i < rest.len() && !((#[trigger] rest[i]) is Byte));
            let w = choose|i: int| 0 <= i < rest.len() && !((#[trigger] rest[i]) is Byte);
            assert(ts[w + 1] == rest[w]);
            assert(!(forall|i: int| 0 <= i < ts.len() ==> (#[trigger] ts[i]) is Byte));
        }
    }
}

/// One logical byte-array field, whichever of its two wire shapes is
/// present: a raw byte-array leaf, or a list of individually tagged byte
/// leaves.  Any other shape, or absence, decodes to nothing.
pub open spec fn spec_byte_data(v: Option<NbtTree>) -> Option<Seq<i8>> {
    match v {
        Some(NbtTree::ByteArray(bs)) => Some(bs),
        Some(NbtTree::List(ts)) => spec_bytes_of_list(ts),
        _ => None,
    }
}

/// Decodes one logical byte-array field from either wire shape into the one
/// canonical representation.
pub fn byte_data(v: Option<NbtValue>) -> (r: Option<Vec<i8>>)
    ensures
        match r {
            Some(bs) => spec_byte_data(opt_model(v)) == Some(bs@),
            None => spec_byte_data(opt_model(v)) is None,
        },
{
    match v {
        Some(NbtValue::ByteArray(bs)) => Some(bs),
        Some(NbtValue::List(es)) => {
            proof {
                lemma_model_list(es);
                lemma_bytes_of_list_index(list_model(es@));
            }
            let mut out: Vec<i8> = Vec::new();
            let mut i: usize = 0;
            while i < es.len()
                invariant
                    i <= es@.len(),
                    out@.len() == i,
                    opt_model(v) == Some(NbtTree::List(list_model(es@))),
                    forall|j: int| 0 <= j < i ==> (#[trigger] list_model(es@)[j]) is Byte,
                    forall|j: int| 0 <= j < i ==> out@[j] == list_model(es@)[j]->Byte_0,
                decreases es@.len() - i,
            {
                match &es[i] {
                    NbtValue::Byte(b) => {
                        out.push(*b);
                    },
                    _ => {
                        proof {
                            lemma_bytes_of_list_index(list_model(es@));
                            assert(!((list_model(es@)[i as int]) is Byte));
                        }
                        return None;
                    },
                }
                i = i + 1;
            }
            proof {
                assert(out@ =~= Seq::new(list_model(es@).len(), |j: int|
                    list_model(es@)[j]->Byte_0));
            }
            Some(out)
        },
        _ => None,
    }
}

/// The two wire shapes of one logical byte-array content decode to the same
/// canonical sequence: a raw byte-array leaf holding `bs` and a list of
/// byte leaves holding `bs` are interchangeable.
pub proof fn lemma_byte_data_dual(bs: Seq<i8>)
    ensures
        spec_byte_data(Some(NbtTree::ByteArray(bs))) == spec_byte_data(
            Some(NbtTree::List(Seq::new(bs.len(), |i: int| NbtTree::Byte(bs[i])))),
        ),
{
    let ts = Seq::new(bs.len(), |i: int| NbtTree::Byte(bs[i]));
    lemma_bytes_of_list_index(ts);
    assert(spec_bytes_of_list(ts) is Some);
    assert(Seq::new(ts.len(), |i: int| ts[i]->Byte_0) =~= bs);
}

} // verus!
