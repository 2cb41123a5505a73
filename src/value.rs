use vstd::prelude::*;

verus! {

/// A self-describing value: the content of a dynamic field, and the tree that
/// both wire forms are written from and read into.
///
/// `Float` holds the IEEE-754 bits of a double. `Bytes` is the raw byte
/// buffer of the binary form; the text form carries byte buffers as text.
#[derive(Debug)]
pub enum DynamicValue {
    Null,
    Bool(bool),
    Int(i64),
    Float(u64),
    Text(String),
    Bytes(Vec<u8>),
    List(Vec<DynamicValue>),
    Mapping(Vec<(String, DynamicValue)>),
}

/// Some entry has the key `key`.
pub open spec fn has_key(entries: Seq<(String, DynamicValue)>, key: Seq<char>) -> bool {
    exists|m: int| 0 <= m < entries.len() && entries[m].0@ == key
}

/// Structural equality of two values: the same variant and equal contents;
/// lists compare element by element in order, and mappings compare
/// entry whatever their order, each entry matched by key.
broadcast use vstd::std_specs::vec::group_vec_axioms;

pub open spec fn same_value(a: DynamicValue, b: DynamicValue) -> bool
    decreases a,
{
    match a {
        DynamicValue::Null => b is Null,
        DynamicValue::Bool(x) => b matches DynamicValue::Bool(y) && x == y,
        DynamicValue::Int(x) => b matches DynamicValue::Int(y) && x == y,
        DynamicValue::Float(x) => b matches DynamicValue::Float(y) && x == y,
        DynamicValue::Text(x) => b matches DynamicValue::Text(y) && x@ == y@,
        DynamicValue::Bytes(x) => b matches DynamicValue::Bytes(y) && x@ == y@,
        DynamicValue::List(xs) => match b {
            DynamicValue::List(ys) => xs@.len() == ys@.len() && forall|i: int|
                0 <= i < xs@.len() ==> same_value(#[trigger] xs@[i], ys@[i]),
            _ => false,
        },
        DynamicValue::Mapping(xs) => match b {
            DynamicValue::Mapping(ys) => {
                &&& xs@.len() == ys@.len()
                &&& forall|i: int, j: int|
                    0 <= i < xs@.len() && 0 <= j < ys@.len() && xs@[i].0@ == ys@[j].0@
                        ==> same_value(#[trigger] xs@[i].1, #[trigger] ys@[j].1)
                &&& forall|i: int| 0 <= i < xs@.len() ==> has_key(ys@, #[trigger] xs@[i].0@)
                &&& forall|j: int| 0 <= j < ys@.len() ==> has_key(xs@, #[trigger] ys@[j].0@)
            },
            _ => false,
        },
    }
}

impl DynamicValue {
    /// Compares two values structurally, as `same_value` states.
    pub fn same_as(&self, other: &DynamicValue) -> (r: bool)
        ensures
            r == same_value(*self, *other),
        decreases self,
    {
        match self {
            DynamicValue::Null => match other {
                DynamicValue::Null => true,
                _ => false,
            },
            DynamicValue::Bool(x) => match other {
                DynamicValue::Bool(y) => *x == *y,
                _ => false,
            },
            DynamicValue::Int(x) => match other {
                DynamicValue::Int(y) => *x == *y,
                _ => false,
            },
            DynamicValue::Float(x) => match other {
                DynamicValue::Float(y) => *x == *y,
                _ => false,
            },
            DynamicValue::Text(x) => match other {
                DynamicValue::Text(y) => *x == *y,
                _ => false,
            },
            DynamicValue::Bytes(x) => match other {
                DynamicValue::Bytes(y) => same_bytes(x, y),
                _ => false,
            },
            DynamicValue::List(xs) => match other {
                DynamicValue::List(ys) => {
                    if xs.len() != ys.len() {
                        return false;
                    }
                    let mut i: usize = 0;
                    while i < xs.len()
                        invariant
                            xs@.len() == ys@.len(),
                            i <= xs@.len(),
                            *self == DynamicValue::List(*xs),
                            *other == DynamicValue::List(*ys),
                            forall|k: int| 0 <= k < i ==> same_value(#[trigger] xs@[k], ys@[k]),
                        decreases xs@.len() - i,
                    {
                        proof {
                            assert(decreases_to!(*self => (*self)->List_0));
                            assert(decreases_to!(*xs => xs[i as int]));
                        }
                        if !xs[i].same_as(&ys[i]) {
                            return false;
                        }
                        i = i + 1;
                    }
                    true
                },
                _ => false,
            },
            DynamicValue::Mapping(xs) => match other {
                DynamicValue::Mapping(ys) => {
                    if xs.len() != ys.len() {
                        return false;
                    }
                    let mut i: usize = 0;
                    while i < xs.len()
                        invariant
                            xs@.len() == ys@.len(),
                            i <= xs@.len(),
                            *self == DynamicValue::Mapping(*xs),
                            *other == DynamicValue::Mapping(*ys),
                            forall|a: int, b: int|
                                0 <= a < i && 0 <= b < ys@.len() && xs@[a].0@ == ys@[b].0@
                                    ==> same_value(#[trigger] xs@[a].1, #[trigger] ys@[b].1),
                        decreases xs@.len() - i,
                    {
                        let mut j: usize = 0;
                        while j < ys.len()
                            invariant
                                xs@.len() == ys@.len(),
                                i < xs@.len(),
                                j <= ys@.len(),
                                *self == DynamicValue::Mapping(*xs),
                                *other == DynamicValue::Mapping(*ys),
                                forall|a: int, b: int|
                                    0 <= a < i && 0 <= b < ys@.len() && xs@[a].0@ == ys@[b].0@
                                        ==> same_value(#[trigger] xs@[a].1, #[trigger] ys@[b].1),
                                forall|b: int|
                                    0 <= b < j && xs@[i as int].0@ == ys@[b].0@ ==> same_value(
                                        xs@[i as int].1,
                                        #[trigger] ys@[b].1,
                                    ),
                            decreases ys@.len() - j,
                        {
                            proof {
                                assert(decreases_to!(*self => (*self)->Mapping_0));
                                assert(decreases_to!(*xs => xs[i as int]));
                                assert(decreases_to!(xs[i as int] => xs[i as int].1));
                            }
                            if xs[i].0 == ys[j].0 && !xs[i].1.same_as(&ys[j].1) {
                                return false;
                            }
                            j = j + 1;
                        }
                        i = i + 1;
                    }
                    let mut k: usize = 0;
                    while k < xs.len()
                        invariant
                            xs@.len() == ys@.len(),
                            k <= xs@.len(),
                            *self == DynamicValue::Mapping(*xs),
                            *other == DynamicValue::Mapping(*ys),
                            forall|a: int, b: int|
                                0 <= a < xs@.len() && 0 <= b < ys@.len() && xs@[a].0@ == ys@[b].0@
                                    ==> same_value(#[trigger] xs@[a].1, #[trigger] ys@[b].1),
                            forall|a: int| 0 <= a < k ==> has_key(ys@, #[trigger] xs@[a].0@),
                        decreases xs@.len() - k,
                    {
                        if !holds_key(ys, &xs[k].0) {
                            return false;
                        }
                        k = k + 1;
                    }
                    let mut k: usize = 0;
                    while k < ys.len()
                        invariant
                            xs@.len() == ys@.len(),
                            k <= ys@.len(),
                            *self == DynamicValue::Mapping(*xs),
                            *other == DynamicValue::Mapping(*ys),
                            forall|a: int| 0 <= a < xs@.len() ==> has_key(ys@, #[trigger] xs@[a].0@),
                            forall|a: int, b: int|
                                0 <= a < xs@.len() && 0 <= b < ys@.len() && xs@[a].0@ == ys@[b].0@
                                    ==> same_value(#[trigger] xs@[a].1, #[trigger] ys@[b].1),
                            forall|b: int| 0 <= b < k ==> has_key(xs@, #[trigger] ys@[b].0@),
                        decreases ys@.len() - k,
                    {
                        if !holds_key(xs, &ys[k].0) {
                            return false;
                        }
                        k = k + 1;
                    }
                    true
                },
                _ => false,
            },
        }
    }
}

fn holds_key(entries: &Vec<(String, DynamicValue)>, key: &String) -> (r: bool)
    ensures
        r == has_key(entries@, key@),
{
    let mut m: usize = 0;
    while m < entries.len()
        invariant
            m <= entries@.len(),
            forall|n: int| 0 <= n < m ==> entries@[n].0@ != key@,
        decreases entries@.len() - m,
    {
        if entries[m].0 == *key {
            return true;
        }
        m = m + 1;
    }
    false
}

fn same_bytes(x: &Vec<u8>, y: &Vec<u8>) -> (r: bool)
    ensures
        r == (x@ == y@),
{
    if x.len() != y.len() {
        return false;
    }
    let mut i: usize = 0;
    while i < x.len()
        invariant
            x@.len() == y@.len(),
            i <= x@.len(),
            forall|k: int| 0 <= k < i ==> x@[k] == y@[k],
        decreases x@.len() - i,
    {
        if x[i] != y[i] {
            return false;
        }
        i = i + 1;
    }
    assert(x@ =~= y@);
    true
}

/// The value under the first entry whose key is `key`.
pub open spec fn lookup(entries: Seq<(String, DynamicValue)>, key: Seq<char>) -> Option<
    DynamicValue,
>
    decreases entries.len(),
{
    if entries.len() == 0 {
        None
    } else if entries[0].0@ == key {
        Some(entries[0].1)
    } else {
        lookup(entries.drop_first(), key)
    }
}

/// No entry before index `i` has the key `key`.
pub open spec fn absent_before(entries: Seq<(String, DynamicValue)>, i: int, key: Seq<char>) -> bool
    decreases i,
{
    if i <= 0 {
        true
    } else {
        entries[i - 1].0@ != key && absent_before(entries, i - 1, key)
    }
}

proof fn lemma_absent_before(entries: Seq<(String, DynamicValue)>, i: int, key: Seq<char>)
    requires
        absent_before(entries, i, key),
    ensures
        forall|j: int| 0 <= j < i ==> entries[j].0@ != key,
    decreases i,
{
    if i > 0 {
        lemma_absent_before(entries, i - 1, key);
    }
}

proof fn lemma_first_key_at(entries: Seq<(String, DynamicValue)>, i: int, key: Seq<char>)
    requires
        0 <= i < entries.len(),
        entries[i].0@ == key,
        forall|j: int| 0 <= j < i ==> entries[j].0@ != key,
    ensures
        lookup(entries, key) == Some(entries[i].1),
    decreases i,
{
    if i > 0 {
        lemma_first_key_at(entries.drop_first(), i - 1, key);
    }
}

/// Where the first entry with `key` stands at index `i`, lookup finds it.
pub proof fn lemma_lookup_at(entries: Seq<(String, DynamicValue)>, i: int, key: Seq<char>)
    requires
        0 <= i < entries.len(),
        entries[i].0@ == key,
        absent_before(entries, i, key),
    ensures
        lookup(entries, key) == Some(entries[i].1),
{
    lemma_absent_before(entries, i, key);
    lemma_first_key_at(entries, i, key);
}

/// Splits the entries of an object into one slot per key: slot `j` holds what
/// `lookup` finds under `keys[j]`, moved out of the entries.
pub(crate) fn take_fields(entries: Vec<(String, DynamicValue)>, keys: &Vec<String>) -> (slots: Vec<
    Option<DynamicValue>,
>)
    requires
        forall|a: int, b: int| 0 <= a < b < keys@.len() ==> keys@[a]@ != keys@[b]@,
    ensures
        slots@.len() == keys@.len(),
        forall|j: int| 0 <= j < keys@.len() ==> slots@[j] == lookup(entries@, keys@[j]@),
{
    let ghost all = entries@;
    let mut rest = entries;
    let mut slots: Vec<Option<DynamicValue>> = Vec::new();
    let mut n: usize = 0;
    while n < keys.len()
        invariant
            n <= keys@.len(),
            slots@.len() == n,
            forall|j: int| 0 <= j < n ==> slots@[j] is None,
        decreases keys@.len() - n,
    {
        slots.push(None);
        n = n + 1;
    }
    assert(all.subrange(all.len() as int, all.len() as int).len() == 0);
    while rest.len() > 0
        invariant
            rest@ == all.subrange(0, rest@.len() as int),
            rest@.len() <= all.len(),
            slots@.len() == keys@.len(),
            forall|a: int, b: int| 0 <= a < b < keys@.len() ==> keys@[a]@ != keys@[b]@,
            forall|j: int|
                0 <= j < keys@.len() ==> slots@[j] == lookup(
                    all.subrange(rest@.len() as int, all.len() as int),
                    keys@[j]@,
                ),
        decreases rest@.len(),
    {
        let ghost before = slots@;
        let ghost i = rest@.len() - 1;
        let (k, v) = rest.pop().unwrap();
        let ghost tail = all.subrange(i, all.len() as int);
        assert(tail.drop_first() =~= all.subrange(i + 1, all.len() as int));
        assert(tail[0] == (k, v));
        let mut j: usize = 0;
        while j < keys.len()
            invariant_except_break
                j <= keys@.len(),
                forall|b: int| 0 <= b < j ==> keys@[b]@ != k@,
            ensures
                j <= keys@.len(),
                forall|b: int| 0 <= b < j ==> keys@[b]@ != k@,
                j < keys@.len() ==> keys@[j as int]@ == k@,
            decreases keys@.len() - j,
        {
            if keys[j] == k {
                break;
            }
            j = j + 1;
        }
        if j < keys.len() {
            slots.set(j, Some(v));
        }
    }
    assert(all.subrange(0, all.len() as int) =~= all);
    slots
}

} // verus!
