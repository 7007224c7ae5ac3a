use vstd::prelude::*;

verus! {

broadcast use vstd::std_specs::vec::axiom_vec_index_decreases;

/// A value that an evaluation context attribute can hold.
#[derive(Debug)]
pub enum Value {
    Bool(bool),
    Int(i64),
    /// A floating-point number, held as its IEEE-754 binary64 bit pattern.
    Float(u64),
    String(String),
    /// A point in time, as nanoseconds since the Unix epoch (UTC).
    DateTime(i64),
    /// A structured value: named fields in insertion order.
    Struct(Vec<(String, Value)>),
    List(Vec<Value>),
}

/// The value of a structured flag: named fields in insertion order.
#[derive(PartialEq, Debug)]
pub struct StructValue {
    pub fields: Vec<(String, Value)>,
}

/// Two values are equal all the way down: same variant, same scalars, and
/// lists and structures of the same length whose items are the same.
pub open spec fn same_value(a: Value, b: Value) -> bool
    decreases a,
{
    match a {
        Value::Struct(x) => match b {
            Value::Struct(y) => x.len() == y.len() && forall|i: int|
                0 <= i < x.len() ==> #[trigger] x[i].0@ == y[i].0@ && same_value(x[i].1, y[i].1),
            _ => false,
        },
        Value::List(x) => match b {
            Value::List(y) => x.len() == y.len() && forall|i: int|
                0 <= i < x.len() ==> same_value(#[trigger] x[i], y[i]),
            _ => false,
        },
        Value::String(x) => match b {
            Value::String(y) => x@ == y@,
            _ => false,
        },
        _ => a == b,
    }
}

/// A deep copy of `v`.
pub fn copy_value(v: &Value) -> (r: Value)
    ensures
        same_value(*v, r),
    decreases v,
{
    match v {
        Value::Bool(b) => Value::Bool(*b),
        Value::Int(n) => Value::Int(*n),
        Value::Float(bits) => Value::Float(*bits),
        Value::String(s) => Value::String(s.clone()),
        Value::DateTime(t) => Value::DateTime(*t),
        Value::Struct(x) => {
            let mut fields: Vec<(String, Value)> = Vec::new();
            let mut i: usize = 0;
            while i < x.len()
                invariant
                    *v == Value::Struct(*x),
                    0 <= i <= x.len(),
                    fields.len() == i,
                    forall|j: int| 0 <= j < i ==> (#[trigger] x[j]).0@ == fields[j].0@,
                    forall|j: int| 0 <= j < i ==> same_value((#[trigger] x[j]).1, fields[j].1),
                decreases x.len() - i,
            {
                proof {
                    assert(decreases_to!(*v => v->Struct_0));
                    assert(decreases_to!(*v => x[i as int].1));
                }
                let k = x[i].0.clone();
                let c = copy_value(&x[i].1);
                fields.push((k, c));
                i = i + 1;
            }
            proof {
                reveal_with_fuel(same_value, 2);
            }
            Value::Struct(fields)
        },
        Value::List(x) => {
            let mut items: Vec<Value> = Vec::new();
            let mut i: usize = 0;
            while i < x.len()
                invariant
                    *v == Value::List(*x),
                    0 <= i <= x.len(),
                    items.len() == i,
                    forall|j: int| 0 <= j < i ==> same_value(#[trigger] x[j], items[j]),
                decreases x.len() - i,
            {
                proof {
                    assert(decreases_to!(*v => v->List_0));
                    assert(decreases_to!(*v => x[i as int]));
                }
                let c = copy_value(&x[i]);
                items.push(c);
                i = i + 1;
            }
            Value::List(items)
        },
    }
}

impl Clone for StructValue {
    fn clone(&self) -> (r: Self)
        ensures
            self.fields.len() == r.fields.len(),
            forall|i: int|
                0 <= i < self.fields.len() ==> #[trigger] self.fields[i].0@ == r.fields[i].0@
                    && same_value(self.fields[i].1, r.fields[i].1),
    {
        let mut fields: Vec<(String, Value)> = Vec::new();
        let mut i: usize = 0;
        while i < self.fields.len()
            invariant
                0 <= i <= self.fields.len(),
                fields.len() == i,
                forall|j: int|
                    0 <= j < i ==> #[trigger] self.fields[j].0@ == fields[j].0@ && same_value(
                        self.fields[j].1,
                        fields[j].1,
                    ),
            decreases self.fields.len() - i,
        {
            let k = self.fields[i].0.clone();
            let c = copy_value(&self.fields[i].1);
            fields.push((k, c));
            i = i + 1;
        }
        StructValue { fields }
    }
}

/// Whether `a` and `b` are the same value all the way down.
pub fn values_equal(a: &Value, b: &Value) -> (r: bool)
    ensures
        r == same_value(*a, *b),
    decreases a,
{
    match a {
        Value::Bool(x) => match b {
            Value::Bool(y) => *x == *y,
            _ => false,
        },
        Value::Int(x) => match b {
            Value::Int(y) => *x == *y,
            _ => false,
        },
        Value::Float(x) => match b {
            Value::Float(y) => *x == *y,
            _ => false,
        },
        Value::String(x) => match b {
            Value::String(y) => *x == *y,
            _ => false,
        },
        Value::DateTime(x) => match b {
            Value::DateTime(y) => *x == *y,
            _ => false,
        },
        Value::Struct(x) => match b {
            Value::Struct(y) => {
                if x.len() != y.len() {
                    return false;
                }
                let mut i: usize = 0;
                while i < x.len()
                    invariant
                        *a == Value::Struct(*x),
                        *b == Value::Struct(*y),
                        x.len() == y.len(),
                        0 <= i <= x.len(),
                        forall|j: int| 0 <= j < i ==> (#[trigger] x[j]).0@ == y[j].0@,
                        forall|j: int| 0 <= j < i ==> same_value((#[trigger] x[j]).1, y[j].1),
                    decreases x.len() - i,
                {
                    proof {
                        assert(decreases_to!(*a => a->Struct_0));
                        assert(decreases_to!(*a => x[i as int].1));
                    }
                    let same_key = x[i].0 == y[i].0;
                    if !same_key {
                        proof {
                            reveal_with_fuel(same_value, 2);
                        }
                        return false;
                    }
                    let same = values_equal(&x[i].1, &y[i].1);
                    if !same {
                        proof {
                            reveal_with_fuel(same_value, 2);
                        }
                        return false;
                    }
                    i = i + 1;
                }
                proof {
                    reveal_with_fuel(same_value, 2);
                }
                true
            },
            _ => false,
        },
        Value::List(x) => match b {
            Value::List(y) => {
                if x.len() != y.len() {
                    return false;
                }
                let mut i: usize = 0;
                while i < x.len()
                    invariant
                        *a == Value::List(*x),
                        *b == Value::List(*y),
                        x.len() == y.len(),
                        0 <= i <= x.len(),
                        forall|j: int| 0 <= j < i ==> same_value(#[trigger] x[j], y[j]),
                    decreases x.len() - i,
                {
                    proof {
                        assert(decreases_to!(*a => a->List_0));
                        assert(decreases_to!(*a => x[i as int]));
                    }
                    if !values_equal(&x[i], &y[i]) {
                        return false;
                    }
                    i = i + 1;
                }
                proof {
                    reveal_with_fuel(same_value, 2);
                }
                true
            },
            _ => false,
        },
    }
}

impl PartialEq for Value {
    fn eq(&self, other: &Value) -> (r: bool) {
        values_equal(self, other)
    }
}

impl vstd::std_specs::cmp::PartialEqSpecImpl for Value {
    open spec fn obeys_eq_spec() -> bool {
        true
    }

    open spec fn eq_spec(&self, other: &Value) -> bool {
        same_value(*self, *other)
    }
}

impl Clone for Value {
    fn clone(&self) -> (r: Self)
        ensures
            same_value(*self, r),
    {
        copy_value(self)
    }
}

/// The keys of an attribute sequence are pairwise distinct.
pub open spec fn keys_unique(s: Seq<(String, Value)>) -> bool {
    forall|i: int, j: int|
        0 <= i < s.len() && 0 <= j < s.len() && i != j ==> #[trigger] s[i].0@ != #[trigger] s[j].0@
}

/// The attribute sequence holds an entry with key `k`.
pub open spec fn has_key(s: Seq<(String, Value)>, k: Seq<char>) -> bool {
    exists|i: int| 0 <= i < s.len() && #[trigger] s[i].0@ == k
}

/// The attribute sequence read as a map from key to value.
pub open spec fn entries_map(s: Seq<(String, Value)>) -> Map<Seq<char>, Value> {
    Map::new(
        |k: Seq<char>| has_key(s, k),
        |k: Seq<char>| s[choose|i: int| 0 <= i < s.len() && #[trigger] s[i].0@ == k].1,
    )
}

/// In a sequence with distinct keys, the entry at `i` is what the map holds for its key.
pub proof fn lemma_entries_map_at(s: Seq<(String, Value)>, i: int)
    requires
        keys_unique(s),
        0 <= i < s.len(),
    ensures
        entries_map(s).contains_key(s[i].0@),
        entries_map(s)[s[i].0@] == s[i].1,
{
    assert(has_key(s, s[i].0@));
    let j = choose|j: int| 0 <= j < s.len() && #[trigger] s[j].0@ == s[i].0@;
    assert(j == i);
}

/// Appending an entry with a new key keeps the keys distinct and adds that
/// key to the map.
pub proof fn lemma_entries_map_push(s: Seq<(String, Value)>, e: (String, Value))
    requires
        keys_unique(s),
        !has_key(s, e.0@),
    ensures
        keys_unique(s.push(e)),
        entries_map(s.push(e)) == entries_map(s).insert(e.0@, e.1),
{
    let s1 = s.push(e);
    assert forall|a: int, b: int|
        0 <= a < s1.len() && 0 <= b < s1.len() && a != b implies
        #[trigger] s1[a].0@ != #[trigger] s1[b].0@ by {
        if a < s.len() {
            assert(s1[a] == s[a]);
        }
        if b < s.len() {
            assert(s1[b] == s[b]);
        }
    }
    assert forall|q: Seq<char>| has_key(s1, q) <==> (has_key(s, q) || q == e.0@) by {
        if has_key(s1, q) {
            let a = choose|a: int| 0 <= a < s1.len() && #[trigger] s1[a].0@ == q;
            if a < s.len() {
                assert(s[a].0@ == q);
            }
        }
        if has_key(s, q) {
            let a = choose|a: int| 0 <= a < s.len() && #[trigger] s[a].0@ == q;
            assert(s1[a].0@ == q);
        }
        if q == e.0@ {
            assert(s1[s.len() as int].0@ == q);
        }
    }
    assert forall|q: Seq<char>| #[trigger] entries_map(s1).contains_key(q) implies entries_map(
        s1,
    )[q] == entries_map(s).insert(e.0@, e.1)[q] by {
        let a = choose|a: int| 0 <= a < s1.len() && #[trigger] s1[a].0@ == q;
        lemma_entries_map_at(s1, a);
        if a < s.len() {
            assert(s[a] == s1[a]);
            lemma_entries_map_at(s, a);
        }
    }
    assert(entries_map(s1) =~= entries_map(s).insert(e.0@, e.1));
}

/// The map of a prefix one entry longer holds that entry's key as well.
pub proof fn lemma_entries_map_prefix(s: Seq<(String, Value)>, j: int)
    requires
        keys_unique(s),
        0 <= j < s.len(),
    ensures
        keys_unique(s.subrange(0, j)),
        entries_map(s.subrange(0, j + 1)) == entries_map(s.subrange(0, j)).insert(s[j].0@, s[j].1),
{
    let p = s.subrange(0, j);
    assert(keys_unique(p)) by {
        assert forall|a: int, b: int|
            0 <= a < p.len() && 0 <= b < p.len() && a != b implies
            #[trigger] p[a].0@ != #[trigger] p[b].0@ by {
            assert(p[a] == s[a]);
            assert(p[b] == s[b]);
        }
    }
    assert(!has_key(p, s[j].0@)) by {
        if has_key(p, s[j].0@) {
            let a = choose|a: int| 0 <= a < p.len() && #[trigger] p[a].0@ == s[j].0@;
            assert(p[a] == s[a]);
        }
    }
    assert(s.subrange(0, j + 1) =~= p.push(s[j]));
    lemma_entries_map_push(p, s[j]);
}

/// Two contexts hold the same targeting key, the same attribute keys, and
/// the same value under each key.
pub open spec fn same_context(a: EvaluationContext, b: EvaluationContext) -> bool {
    &&& a.targeting_key_spec() == b.targeting_key_spec()
    &&& a.attributes_spec().dom() == b.attributes_spec().dom()
    &&& forall|k: Seq<char>|
        #[trigger] a.attributes_spec().contains_key(k) ==> same_value(
            a.attributes_spec()[k],
            b.attributes_spec()[k],
        )
}

/// Attributes that describe the subject of an evaluation. Two contexts are
/// equal when they hold the same targeting key and the same attributes,
/// whatever the order in which the attributes were set.
#[derive(Debug)]
pub struct EvaluationContext {
    targeting_key: Option<String>,
    attributes: Vec<(String, Value)>,
}

impl EvaluationContext {
    /// The targeting key, if any.
    pub closed spec fn targeting_key_spec(&self) -> Option<Seq<char>> {
        match self.targeting_key {
            Some(k) => Some(k@),
            None => None,
        }
    }

    /// The attributes, by key.
    pub closed spec fn attributes_spec(&self) -> Map<Seq<char>, Value> {
        entries_map(self.attributes@)
    }

    /// The keys of the attributes are distinct.
    #[verifier::type_invariant]
    pub closed spec fn wf(&self) -> bool {
        keys_unique(self.attributes@)
    }

    /// An empty context: no targeting key, no attributes.
    pub fn new() -> (r: EvaluationContext)
        ensures
            r.targeting_key_spec() is None,
            r.attributes_spec() == Map::<Seq<char>, Value>::empty(),
    {
        let r = EvaluationContext { targeting_key: None, attributes: Vec::new() };
        assert(r.attributes_spec() =~= Map::<Seq<char>, Value>::empty());
        r
    }

    /// This context with its targeting key set to `key`.
    pub fn with_targeting_key(self, key: String) -> (r: EvaluationContext)
        ensures
            r.targeting_key_spec() == Some(key@),
            r.attributes_spec() == self.attributes_spec(),
    {
        proof {
            use_type_invariant(&self);
        }
        EvaluationContext { targeting_key: Some(key), attributes: self.attributes }
    }

    /// This context with attribute `key` set to `value`, replacing any earlier value.
    pub fn with_custom_field(self, key: String, value: Value) -> (r: EvaluationContext)
        ensures
            r.targeting_key_spec() == self.targeting_key_spec(),
            r.attributes_spec() == self.attributes_spec().insert(key@, value),
    {
        proof {
            use_type_invariant(&self);
        }
        let mut attributes = self.attributes;
        set_attribute(&mut attributes, key, value);
        EvaluationContext { targeting_key: self.targeting_key, attributes }
    }

    /// The targeting key, if any.
    pub fn targeting_key(&self) -> (r: Option<&String>)
        ensures
            r is Some <==> self.targeting_key_spec() is Some,
            r is Some ==> r.unwrap()@ == self.targeting_key_spec().unwrap(),
    {
        match &self.targeting_key {
            Some(k) => Some(k),
            None => None,
        }
    }

    /// The value of attribute `key`, if the context holds one.
    pub fn custom_field(&self, key: &String) -> (r: Option<&Value>)
        ensures
            r is Some <==> self.attributes_spec().contains_key(key@),
            r is Some ==> *r.unwrap() == self.attributes_spec()[key@],
    {
        proof {
            use_type_invariant(self);
        }
        match find_key(&self.attributes, key) {
            Some(i) => {
                proof {
                    lemma_entries_map_at(self.attributes@, i as int);
                }
                Some(&self.attributes[i].1)
            },
            None => None,
        }
    }

    /// Merge two contexts: attributes of `overlay` override those of `base`
    /// with the same key, and the targeting key of `overlay` is taken when it
    /// has one, else that of `base`. New keys of `overlay` follow those of
    /// `base`, in their order.
    pub fn merge(base: EvaluationContext, overlay: EvaluationContext) -> (r: EvaluationContext)
        ensures
            r.targeting_key_spec() == merged_targeting_key(base, overlay),
            r.attributes_spec() == base.attributes_spec().union_prefer_right(
                overlay.attributes_spec(),
            ),
            forall|k: Seq<char>| #[trigger]
                overlay.attributes_spec().contains_key(k) ==> r.attributes_spec().contains_key(k)
                    && r.attributes_spec()[k] == overlay.attributes_spec()[k],
            forall|k: Seq<char>| #[trigger]
                base.attributes_spec().contains_key(k) && !overlay.attributes_spec().contains_key(k)
                    ==> r.attributes_spec().contains_key(k) && r.attributes_spec()[k]
                    == base.attributes_spec()[k],
            forall|k: Seq<char>| #[trigger]
                r.attributes_spec().contains_key(k) ==> base.attributes_spec().contains_key(k)
                    || overlay.attributes_spec().contains_key(k),
    {
        proof {
            use_type_invariant(&base);
            use_type_invariant(&overlay);
        }
        let ghost o = overlay.attributes@;
        let ghost b = base.attributes_spec();
        let mut attributes = base.attributes;
        let mut rest = overlay.attributes;
        assert(o.subrange(0, 0) =~= Seq::<(String, Value)>::empty());
        assert(entries_map(o.subrange(0, 0)) =~= Map::<Seq<char>, Value>::empty());
        assert(b.union_prefer_right(Map::<Seq<char>, Value>::empty()) =~= b);
        while rest.len() > 0
            invariant
                keys_unique(attributes@),
                keys_unique(o),
                rest.len() <= o.len(),
                rest@ == o.subrange(o.len() - rest.len(), o.len() as int),
                entries_map(attributes@) == b.union_prefer_right(
                    entries_map(o.subrange(0, o.len() - rest.len())),
                ),
            decreases rest.len(),
        {
            let ghost j = o.len() - rest.len();
            let ghost m = entries_map(o.subrange(0, j));
            let (k, v) = rest.remove(0);
            proof {
                assert(k == o[j] .0 && v == o[j].1);
                lemma_entries_map_prefix(o, j);
                assert(b.union_prefer_right(m.insert(k@, v)) =~= b.union_prefer_right(m).insert(
                    k@,
                    v,
                ));
                assert(rest@ =~= o.subrange(o.len() - rest.len(), o.len() as int));
            }
            set_attribute(&mut attributes, k, v);
        }
        assert(o.subrange(0, o.len() as int) =~= o);
        let targeting_key = match overlay.targeting_key {
            Some(k) => Some(k),
            None => base.targeting_key,
        };
        EvaluationContext { targeting_key, attributes }
    }
}

/// Every attribute of `a` is also in `b`, with the same value.
pub open spec fn attributes_within(a: Map<Seq<char>, Value>, b: Map<Seq<char>, Value>) -> bool {
    forall|k: Seq<char>| #[trigger]
        a.contains_key(k) ==> b.contains_key(k) && same_value(a[k], b[k])
}

/// Two contexts are equal: the same targeting key and the same attributes,
/// whatever their order.
pub open spec fn contexts_equal(a: EvaluationContext, b: EvaluationContext) -> bool {
    &&& a.targeting_key_spec() == b.targeting_key_spec()
    &&& attributes_within(a.attributes_spec(), b.attributes_spec())
    &&& attributes_within(b.attributes_spec(), a.attributes_spec())
}

/// The index of the entry with key `key`, if there is one.
fn find_key(s: &Vec<(String, Value)>, key: &String) -> (r: Option<usize>)
    ensures
        r is Some ==> r.unwrap() < s.len() && s@[r.unwrap() as int].0@ == key@,
        r is None ==> !has_key(s@, key@),
{
    let mut i: usize = 0;
    while i < s.len()
        invariant
            0 <= i <= s.len(),
            forall|j: int| 0 <= j < i ==> #[trigger] s@[j].0@ != key@,
        decreases s.len() - i,
    {
        if s[i].0 == *key {
            return Some(i);
        }
        i = i + 1;
    }
    None
}

/// Whether every attribute of `a` is also in `b`, with the same value.
fn contains_all(a: &Vec<(String, Value)>, b: &Vec<(String, Value)>) -> (r: bool)
    requires
        keys_unique(a@),
        keys_unique(b@),
    ensures
        r == attributes_within(entries_map(a@), entries_map(b@)),
{
    let ghost ma = entries_map(a@);
    let ghost mb = entries_map(b@);
    let mut i: usize = 0;
    while i < a.len()
        invariant
            keys_unique(a@),
            keys_unique(b@),
            ma == entries_map(a@),
            mb == entries_map(b@),
            0 <= i <= a.len(),
            forall|j: int|
                0 <= j < i ==> mb.contains_key((#[trigger] a@[j]).0@) && same_value(
                    a@[j].1,
                    mb[a@[j].0@],
                ),
        decreases a.len() - i,
    {
        proof {
            lemma_entries_map_at(a@, i as int);
        }
        match find_key(b, &a[i].0) {
            None => {
                assert(ma.contains_key(a@[i as int].0@));
                return false;
            },
            Some(j) => {
                proof {
                    lemma_entries_map_at(b@, j as int);
                }
                if !values_equal(&a[i].1, &b[j].1) {
                    assert(ma.contains_key(a@[i as int].0@));
                    return false;
                }
            },
        }
        i = i + 1;
    }
    assert forall|k: Seq<char>| #[trigger] ma.contains_key(k) implies mb.contains_key(k)
        && same_value(ma[k], mb[k]) by {
        let j = choose|j: int| 0 <= j < a@.len() && #[trigger] a@[j].0@ == k;
        lemma_entries_map_at(a@, j);
    }
    true
}

impl PartialEq for EvaluationContext {
    fn eq(&self, other: &EvaluationContext) -> (r: bool) {
        proof {
            use_type_invariant(self);
            use_type_invariant(other);
        }
        let same_key = match (&self.targeting_key, &other.targeting_key) {
            (Some(x), Some(y)) => *x == *y,
            (None, None) => true,
            _ => false,
        };
        same_key && contains_all(&self.attributes, &other.attributes) && contains_all(
            &other.attributes,
            &self.attributes,
        )
    }
}

impl vstd::std_specs::cmp::PartialEqSpecImpl for EvaluationContext {
    open spec fn obeys_eq_spec() -> bool {
        true
    }

    open spec fn eq_spec(&self, other: &EvaluationContext) -> bool {
        contexts_equal(*self, *other)
    }
}

impl Default for EvaluationContext {
    fn default() -> (r: Self)
        ensures
            r.targeting_key_spec() is None,
            r.attributes_spec() == Map::<Seq<char>, Value>::empty(),
    {
        EvaluationContext::new()
    }
}

/// The targeting key of `overlay` merged over `base`: the overlay's when it has one.
pub open spec fn merged_targeting_key(base: EvaluationContext, overlay: EvaluationContext) -> Option<
    Seq<char>,
> {
    match overlay.targeting_key_spec() {
        Some(k) => Some(k),
        None => base.targeting_key_spec(),
    }
}

impl Clone for EvaluationContext {
    fn clone(&self) -> (r: Self)
        ensures
            same_context(*self, r),
    {
        let mut attributes: Vec<(String, Value)> = Vec::new();
        let mut i: usize = 0;
        while i < self.attributes.len()
            invariant
                0 <= i <= self.attributes.len(),
                attributes.len() == i,
                forall|j: int|
                    0 <= j < i ==> #[trigger] attributes@[j].0@ == self.attributes@[j].0@
                        && same_value(self.attributes@[j].1, attributes@[j].1),
            decreases self.attributes.len() - i,
        {
            let k = self.attributes[i].0.clone();
            let v = copy_value(&self.attributes[i].1);
            attributes.push((k, v));
            i = i + 1;
        }
        proof {
            use_type_invariant(self);
        }
        let ghost s0 = self.attributes@;
        let ghost s1 = attributes@;
        assert forall|q: Seq<char>| has_key(s0, q) <==> has_key(s1, q) by {
            if has_key(s0, q) {
                let a = choose|a: int| 0 <= a < s0.len() && #[trigger] s0[a].0@ == q;
                assert(s1[a].0@ == q);
            }
            if has_key(s1, q) {
                let a = choose|a: int| 0 <= a < s1.len() && #[trigger] s1[a].0@ == q;
                assert(s0[a].0@ == q);
            }
        }
        assert(keys_unique(s1)) by {
            assert forall|a: int, b: int|
                0 <= a < s1.len() && 0 <= b < s1.len() && a != b implies
                #[trigger] s1[a].0@ != #[trigger] s1[b].0@ by {
                assert(s0[a].0@ == s1[a].0@);
                assert(s0[b].0@ == s1[b].0@);
            }
        }
        assert(entries_map(s0).dom() =~= entries_map(s1).dom());
        assert forall|k: Seq<char>| #[trigger] entries_map(s0).contains_key(k) implies same_value(
            entries_map(s0)[k],
            entries_map(s1)[k],
        ) by {
            let a = choose|a: int| 0 <= a < s0.len() && #[trigger] s0[a].0@ == k;
            lemma_entries_map_at(s0, a);
            lemma_entries_map_at(s1, a);
        }
        EvaluationContext { targeting_key: self.targeting_key.clone(), attributes }
    }
}

/// Set attribute `key` to `value`, replacing any earlier value of that key.
fn set_attribute(attributes: &mut Vec<(String, Value)>, key: String, value: Value)
    requires
        keys_unique(old(attributes)@),
    ensures
        keys_unique(final(attributes)@),
        entries_map(final(attributes)@) == entries_map(old(attributes)@).insert(key@, value),
{
    let ghost s0 = attributes@;
    let ghost k = key@;
    match find_key(attributes, &key) {
        Some(i) => {
            attributes.set(i, (key, value));
            let ghost s1 = attributes@;
            assert(keys_unique(s1)) by {
                assert forall|a: int, b: int|
                    0 <= a < s1.len() && 0 <= b < s1.len() && a != b implies
                    #[trigger] s1[a].0@ != #[trigger] s1[b].0@ by {
                    assert(s0[a].0@ == s1[a].0@);
                    assert(s0[b].0@ == s1[b].0@);
                }
            }
            assert forall|q: Seq<char>| has_key(s1, q) <==> has_key(s0, q) by {
                if has_key(s1, q) {
                    let a = choose|a: int| 0 <= a < s1.len() && #[trigger] s1[a].0@ == q;
                    assert(s0[a].0@ == q);
                }
                if has_key(s0, q) {
                    let a = choose|a: int| 0 <= a < s0.len() && #[trigger] s0[a].0@ == q;
                    assert(s1[a].0@ == q);
                }
            }
            assert(has_key(s0, k)) by {
                assert(s0[i as int].0@ == k);
            }
            assert forall|q: Seq<char>| #[trigger] entries_map(s1).contains_key(q) implies entries_map(
                s1,
            )[q] == entries_map(s0).insert(k, value)[q] by {
                let a = choose|a: int| 0 <= a < s1.len() && #[trigger] s1[a].0@ == q;
                lemma_entries_map_at(s1, a);
                if a != i as int {
                    assert(s0[a] == s1[a]);
                    lemma_entries_map_at(s0, a);
                }
            }
            assert(entries_map(s1) =~= entries_map(s0).insert(k, value));
        },
        None => {
            proof {
                lemma_entries_map_push(s0, (key, value));
            }
            attributes.push((key, value));
        },
    }
}

} // verus!
