//! The meaning of the generated fragments, over model instances.
//!
//! An instance of an augmented record holds one model value per field, in
//! declaration order: an integer or a text. The functions here are the
//! generated operations themselves — construction, structural equality,
//! lexicographic ordering and the combined hash — and the laws they obey
//! are proved beside them.

use vstd::prelude::*;

use core::cmp::Ordering;

verus! {

/// One field's value in a model instance.
#[derive(Clone, Debug, PartialEq, Eq)]
pub enum FieldValue {
    /// An integer-valued field.
    Int(i64),
    /// A text-valued field, held as its bytes.
    Text(Vec<u8>),
}

/// An instance of an augmented record: one value per field, in declaration
/// order.
#[derive(Clone, Debug)]
pub struct Instance {
    pub values: Vec<FieldValue>,
}

/// Field equality: integers by value, texts by their contents.
pub open spec fn val_eq(a: FieldValue, b: FieldValue) -> bool {
    match (a, b) {
        (FieldValue::Int(x), FieldValue::Int(y)) => x == y,
        (FieldValue::Text(x), FieldValue::Text(y)) => x@ == y@,
        _ => false,
    }
}

/// Structural equality of instances: equal iff every field pair compares
/// equal, in declaration order.
pub open spec fn vals_eq(a: Seq<FieldValue>, b: Seq<FieldValue>) -> bool {
    a.len() == b.len() && forall|i: int| 0 <= i < a.len() ==> #[trigger] val_eq(a[i], b[i])
}

/// Byte equality of two texts.
fn bytes_eq(a: &Vec<u8>, b: &Vec<u8>) -> (r: bool)
    ensures
        r == (a@ == b@),
{
    if a.len() != b.len() {
        assert(a@ != b@);
        return false;
    }
    let n = a.len();
    let mut i: usize = 0;
    while i < n
        invariant
            i <= n,
            n == a@.len(),
            n == b@.len(),
            forall|j: int| 0 <= j < i ==> a@[j] == b@[j],
        decreases n - i,
    {
        if a[i] != b[i] {
            assert(a@ != b@);
            return false;
        }
        i += 1;
    }
    proof {
        assert(a@ =~= b@);
    }
    true
}

/// Field equality, executably.
fn field_value_eq(a: &FieldValue, b: &FieldValue) -> (r: bool)
    ensures
        r == val_eq(*a, *b),
{
    match a {
        FieldValue::Int(x) => match b {
            FieldValue::Int(y) => *x == *y,
            FieldValue::Text(_) => false,
        },
        FieldValue::Text(x) => match b {
            FieldValue::Int(_) => false,
            FieldValue::Text(y) => bytes_eq(x, y),
        },
    }
}

impl Instance {
    /// The generated constructor: one argument per field, in declaration
    /// order; each field of the result equals the corresponding argument.
    pub fn new(values: Vec<FieldValue>) -> (r: Instance)
        ensures
            r.values == values,
            forall|i: int|
                0 <= i < values@.len() ==> #[trigger] val_eq(r.values@[i], values@[i]),
    {
        let r = Instance { values };
        proof {
            assert forall|i: int|
                0 <= i < r.values@.len() implies #[trigger] val_eq(r.values@[i], r.values@[i]) by {
                lemma_val_eq_reflexive(r.values@[i]);
            }
        }
        r
    }
}

/// The generated equality: two instances are equal iff every field pair
/// compares equal, in declaration order.
pub fn instance_eq(a: &Instance, b: &Instance) -> (r: bool)
    ensures
        r == vals_eq(a.values@, b.values@),
{
    if a.values.len() != b.values.len() {
        return false;
    }
    let n = a.values.len();
    let mut i: usize = 0;
    while i < n
        invariant
            i <= n,
            n == a.values@.len(),
            n == b.values@.len(),
            forall|j: int| 0 <= j < i ==> #[trigger] val_eq(a.values@[j], b.values@[j]),
        decreases n - i,
    {
        if !field_value_eq(&a.values[i], &b.values[i]) {
            assert(!val_eq(a.values@[i as int], b.values@[i as int]));
            return false;
        }
        i += 1;
    }
    true
}

proof fn lemma_val_eq_reflexive(a: FieldValue)
    ensures
        val_eq(a, a),
{
}

/// Equality is reflexive: every instance equals itself.
pub proof fn lemma_eq_reflexive(a: Seq<FieldValue>)
    ensures
        vals_eq(a, a),
{
    assert forall|i: int| 0 <= i < a.len() implies #[trigger] val_eq(a[i], a[i]) by {
        lemma_val_eq_reflexive(a[i]);
    }
}

/// Equality is symmetric: the comparison does not depend on the order of
/// its operands.
pub proof fn lemma_eq_symmetric(a: Seq<FieldValue>, b: Seq<FieldValue>)
    ensures
        vals_eq(a, b) == vals_eq(b, a),
{
    if vals_eq(a, b) {
        assert forall|i: int| 0 <= i < b.len() implies #[trigger] val_eq(b[i], a[i]) by {
            assert(val_eq(a[i], b[i]));
        }
    }
    if vals_eq(b, a) {
        assert forall|i: int| 0 <= i < a.len() implies #[trigger] val_eq(a[i], b[i]) by {
            assert(val_eq(b[i], a[i]));
        }
    }
}

/// Equality is transitive: instances equal to a common instance are equal
/// to each other.
pub proof fn lemma_eq_transitive(a: Seq<FieldValue>, b: Seq<FieldValue>, c: Seq<FieldValue>)
    requires
        vals_eq(a, b),
        vals_eq(b, c),
    ensures
        vals_eq(a, c),
{
    assert forall|i: int| 0 <= i < a.len() implies #[trigger] val_eq(a[i], c[i]) by {
        assert(val_eq(a[i], b[i]));
        assert(val_eq(b[i], c[i]));
    }
}

/// Lexicographic byte comparison of two texts: the first differing byte
/// decides; a strict prefix comes first.
pub open spec fn bytes_cmp(a: Seq<u8>, b: Seq<u8>) -> Ordering
    decreases a.len(),
{
    if a.len() == 0 && b.len() == 0 {
        Ordering::Equal
    } else if a.len() == 0 {
        Ordering::Less
    } else if b.len() == 0 {
        Ordering::Greater
    } else if a[0] < b[0] {
        Ordering::Less
    } else if a[0] > b[0] {
        Ordering::Greater
    } else {
        bytes_cmp(a.skip(1), b.skip(1))
    }
}

/// Field comparison: integers by value, texts byte-lexicographically;
/// across kinds, integers come first, so the order is total on all values.
pub open spec fn val_cmp(a: FieldValue, b: FieldValue) -> Ordering {
    match (a, b) {
        (FieldValue::Int(x), FieldValue::Int(y)) => if x < y {
            Ordering::Less
        } else if x == y {
            Ordering::Equal
        } else {
            Ordering::Greater
        },
        (FieldValue::Text(x), FieldValue::Text(y)) => bytes_cmp(x@, y@),
        (FieldValue::Int(_), FieldValue::Text(_)) => Ordering::Less,
        (FieldValue::Text(_), FieldValue::Int(_)) => Ordering::Greater,
    }
}

/// The generated ordering: compare the fields in declaration order; the
/// first field with a non-equal comparison determines the overall result;
/// instances whose fields all compare equal are equal in the ordering.
pub open spec fn lex_cmp(a: Seq<FieldValue>, b: Seq<FieldValue>) -> Ordering
    decreases a.len(),
{
    if a.len() == 0 && b.len() == 0 {
        Ordering::Equal
    } else if a.len() == 0 {
        Ordering::Less
    } else if b.len() == 0 {
        Ordering::Greater
    } else {
        match val_cmp(a[0], b[0]) {
            Ordering::Equal => lex_cmp(a.skip(1), b.skip(1)),
            o => o,
        }
    }
}

/// The comparison with its operands exchanged.
pub open spec fn flip(o: Ordering) -> Ordering {
    match o {
        Ordering::Less => Ordering::Greater,
        Ordering::Equal => Ordering::Equal,
        Ordering::Greater => Ordering::Less,
    }
}

/// Lexicographic byte comparison, executably.
fn bytes_compare(a: &Vec<u8>, b: &Vec<u8>) -> (r: Ordering)
    ensures
        r == bytes_cmp(a@, b@),
{
    let an = a.len();
    let bn = b.len();
    let mut i: usize = 0;
    proof {
        assert(a@.skip(0) =~= a@);
        assert(b@.skip(0) =~= b@);
    }
    while i < an && i < bn
        invariant
            i <= an,
            i <= bn,
            an == a@.len(),
            bn == b@.len(),
            bytes_cmp(a@, b@) == bytes_cmp(a@.skip(i as int), b@.skip(i as int)),
        decreases an - i,
    {
        proof {
            assert(a@.skip(i as int)[0] == a@[i as int]);
            assert(b@.skip(i as int)[0] == b@[i as int]);
            assert(a@.skip(i as int).skip(1) =~= a@.skip(i as int + 1));
            assert(b@.skip(i as int).skip(1) =~= b@.skip(i as int + 1));
        }
        if a[i] < b[i] {
            return Ordering::Less;
        }
        if a[i] > b[i] {
            return Ordering::Greater;
        }
        i += 1;
    }
    if an == bn {
        Ordering::Equal
    } else if an < bn {
        Ordering::Less
    } else {
        Ordering::Greater
    }
}

/// Field comparison, executably.
fn field_value_cmp(a: &FieldValue, b: &FieldValue) -> (r: Ordering)
    ensures
        r == val_cmp(*a, *b),
{
    match a {
        FieldValue::Int(x) => match b {
            FieldValue::Int(y) => if *x < *y {
                Ordering::Less
            } else if *x == *y {
                Ordering::Equal
            } else {
                Ordering::Greater
            },
            FieldValue::Text(_) => Ordering::Less,
        },
        FieldValue::Text(x) => match b {
            FieldValue::Int(_) => Ordering::Greater,
            FieldValue::Text(y) => bytes_compare(x, y),
        },
    }
}

/// The generated ordering, executably.
pub fn instance_cmp(a: &Instance, b: &Instance) -> (r: Ordering)
    ensures
        r == lex_cmp(a.values@, b.values@),
{
    let an = a.values.len();
    let bn = b.values.len();
    let mut i: usize = 0;
    proof {
        assert(a.values@.skip(0) =~= a.values@);
        assert(b.values@.skip(0) =~= b.values@);
    }
    while i < an && i < bn
        invariant
            i <= an,
            i <= bn,
            an == a.values@.len(),
            bn == b.values@.len(),
            lex_cmp(a.values@, b.values@) == lex_cmp(
                a.values@.skip(i as int),
                b.values@.skip(i as int),
            ),
        decreases an - i,
    {
        proof {
            assert(a.values@.skip(i as int)[0] == a.values@[i as int]);
            assert(b.values@.skip(i as int)[0] == b.values@[i as int]);
            assert(a.values@.skip(i as int).skip(1) =~= a.values@.skip(i as int + 1));
            assert(b.values@.skip(i as int).skip(1) =~= b.values@.skip(i as int + 1));
        }
        let o = field_value_cmp(&a.values[i], &b.values[i]);
        match o {
            Ordering::Equal => {
                i += 1;
            },
            _ => {
                return o;
            },
        }
    }
    if an == bn {
        Ordering::Equal
    } else if an < bn {
        Ordering::Less
    } else {
        Ordering::Greater
    }
}

proof fn lemma_bytes_cmp_eq_iff(a: Seq<u8>, b: Seq<u8>)
    ensures
        (bytes_cmp(a, b) == Ordering::Equal) <==> (a == b),
    decreases a.len(),
{
    if a.len() == 0 && b.len() == 0 {
        assert(a =~= b);
    } else if a.len() != 0 && b.len() != 0 {
        lemma_bytes_cmp_eq_iff(a.skip(1), b.skip(1));
        if bytes_cmp(a, b) == Ordering::Equal {
            assert(a[0] == b[0]);
            assert(a.skip(1) == b.skip(1));
            assert forall|i: int| 0 <= i < a.len() implies a[i] == b[i] by {
                if i > 0 {
                    assert(a[i] == a.skip(1)[i - 1]);
                    assert(b[i] == b.skip(1)[i - 1]);
                }
            }
            assert(a =~= b);
        }
        if a == b {
            assert(a.skip(1) == b.skip(1));
        }
    }
}

proof fn lemma_bytes_cmp_flip(a: Seq<u8>, b: Seq<u8>)
    ensures
        bytes_cmp(b, a) == flip(bytes_cmp(a, b)),
    decreases a.len(),
{
    if a.len() != 0 && b.len() != 0 {
        lemma_bytes_cmp_flip(a.skip(1), b.skip(1));
    }
}

proof fn lemma_bytes_cmp_transitive(a: Seq<u8>, b: Seq<u8>, c: Seq<u8>)
    requires
        bytes_cmp(a, b) != Ordering::Greater,
        bytes_cmp(b, c) != Ordering::Greater,
    ensures
        bytes_cmp(a, c) != Ordering::Greater,
        (bytes_cmp(a, b) == Ordering::Less || bytes_cmp(b, c) == Ordering::Less) ==> bytes_cmp(
            a,
            c,
        ) == Ordering::Less,
    decreases a.len() + b.len() + c.len(),
{
    if a.len() == 0 {
        if c.len() == 0 {
            assert(b.len() == 0);
        }
    } else {
        assert(b.len() != 0);
        assert(c.len() != 0);
        if a[0] == b[0] && b[0] == c[0] {
            lemma_bytes_cmp_transitive(a.skip(1), b.skip(1), c.skip(1));
        }
    }
}

proof fn lemma_val_cmp_eq_iff(a: FieldValue, b: FieldValue)
    ensures
        (val_cmp(a, b) == Ordering::Equal) <==> val_eq(a, b),
{
    match (a, b) {
        (FieldValue::Text(x), FieldValue::Text(y)) => {
            lemma_bytes_cmp_eq_iff(x@, y@);
        },
        _ => {},
    }
}

proof fn lemma_val_cmp_flip(a: FieldValue, b: FieldValue)
    ensures
        val_cmp(b, a) == flip(val_cmp(a, b)),
{
    match (a, b) {
        (FieldValue::Text(x), FieldValue::Text(y)) => {
            lemma_bytes_cmp_flip(x@, y@);
        },
        _ => {},
    }
}

proof fn lemma_val_cmp_transitive(a: FieldValue, b: FieldValue, c: FieldValue)
    requires
        val_cmp(a, b) != Ordering::Greater,
        val_cmp(b, c) != Ordering::Greater,
    ensures
        val_cmp(a, c) != Ordering::Greater,
        (val_cmp(a, b) == Ordering::Less || val_cmp(b, c) == Ordering::Less) ==> val_cmp(a, c)
            == Ordering::Less,
{
    match (a, b, c) {
        (FieldValue::Text(x), FieldValue::Text(y), FieldValue::Text(z)) => {
            lemma_bytes_cmp_transitive(x@, y@, z@);
        },
        _ => {},
    }
}

proof fn lemma_vals_eq_unfold(a: Seq<FieldValue>, b: Seq<FieldValue>)
    requires
        a.len() != 0,
        b.len() != 0,
    ensures
        vals_eq(a, b) <==> (a.len() == b.len() && val_eq(a[0], b[0]) && vals_eq(
            a.skip(1),
            b.skip(1),
        )),
{
    if vals_eq(a, b) {
        assert(val_eq(a[0], b[0]));
        assert forall|i: int|
            0 <= i < a.skip(1).len() implies #[trigger] val_eq(a.skip(1)[i], b.skip(1)[i]) by {
            assert(a.skip(1)[i] == a[i + 1]);
            assert(b.skip(1)[i] == b[i + 1]);
            assert(val_eq(a[i + 1], b[i + 1]));
        }
    }
    if a.len() == b.len() && val_eq(a[0], b[0]) && vals_eq(a.skip(1), b.skip(1)) {
        assert forall|i: int| 0 <= i < a.len() implies #[trigger] val_eq(a[i], b[i]) by {
            if i > 0 {
                assert(a.skip(1)[i - 1] == a[i]);
                assert(b.skip(1)[i - 1] == b[i]);
                assert(val_eq(a.skip(1)[i - 1], b.skip(1)[i - 1]));
            }
        }
    }
}

/// Instances equal under the generated equality compare as equal under the
/// generated ordering, and no others do.
pub proof fn lemma_order_matches_equality(a: Seq<FieldValue>, b: Seq<FieldValue>)
    ensures
        (lex_cmp(a, b) == Ordering::Equal) <==> vals_eq(a, b),
    decreases a.len(),
{
    if a.len() != 0 && b.len() != 0 {
        lemma_val_cmp_eq_iff(a[0], b[0]);
        lemma_order_matches_equality(a.skip(1), b.skip(1));
        lemma_vals_eq_unfold(a, b);
    }
}

/// The ordering is irreflexive: no instance comes before itself.
pub proof fn lemma_order_irreflexive(a: Seq<FieldValue>)
    ensures
        lex_cmp(a, a) == Ordering::Equal,
{
    lemma_eq_reflexive(a);
    lemma_order_matches_equality(a, a);
}

/// Exchanging the operands reverses the comparison; in particular, at most
/// one of `a` before `b` and `b` before `a` holds.
pub proof fn lemma_order_antisymmetric(a: Seq<FieldValue>, b: Seq<FieldValue>)
    ensures
        lex_cmp(b, a) == flip(lex_cmp(a, b)),
    decreases a.len(),
{
    if a.len() != 0 && b.len() != 0 {
        lemma_val_cmp_flip(a[0], b[0]);
        lemma_order_antisymmetric(a.skip(1), b.skip(1));
    }
}

proof fn lemma_lex_cmp_transitive_le(a: Seq<FieldValue>, b: Seq<FieldValue>, c: Seq<FieldValue>)
    requires
        lex_cmp(a, b) != Ordering::Greater,
        lex_cmp(b, c) != Ordering::Greater,
    ensures
        lex_cmp(a, c) != Ordering::Greater,
        (lex_cmp(a, b) == Ordering::Less || lex_cmp(b, c) == Ordering::Less) ==> lex_cmp(a, c)
            == Ordering::Less,
    decreases a.len() + b.len() + c.len(),
{
    if a.len() == 0 {
        if c.len() == 0 {
            assert(b.len() == 0);
        }
    } else {
        assert(b.len() != 0);
        assert(c.len() != 0);
        lemma_val_cmp_transitive(a[0], b[0], c[0]);
        if val_cmp(a[0], b[0]) == Ordering::Equal && val_cmp(b[0], c[0]) == Ordering::Equal {
            lemma_val_cmp_eq_iff(a[0], b[0]);
            lemma_val_cmp_eq_iff(b[0], c[0]);
            lemma_val_cmp_eq_iff(a[0], c[0]);
            assert(val_eq(a[0], b[0]) && val_eq(b[0], c[0]));
            assert(val_cmp(a[0], c[0]) == Ordering::Equal || val_cmp(a[0], c[0])
                == Ordering::Less);
            lemma_lex_cmp_transitive_le(a.skip(1), b.skip(1), c.skip(1));
        }
    }
}

/// The ordering is transitive.
pub proof fn lemma_order_transitive(a: Seq<FieldValue>, b: Seq<FieldValue>, c: Seq<FieldValue>)
    requires
        lex_cmp(a, b) == Ordering::Less,
        lex_cmp(b, c) == Ordering::Less,
    ensures
        lex_cmp(a, c) == Ordering::Less,
{
    lemma_lex_cmp_transitive_le(a, b, c);
}

/// The ordering is connected: of two instances that are not equal, one
/// comes strictly before the other.
pub proof fn lemma_order_connected(a: Seq<FieldValue>, b: Seq<FieldValue>)
    requires
        !vals_eq(a, b),
    ensures
        lex_cmp(a, b) == Ordering::Less || lex_cmp(a, b) == Ordering::Greater,
{
    lemma_order_matches_equality(a, b);
}

/// The lexicographic tie-break follows declaration order: the first field
/// pair that compares non-equal determines the overall result.
pub proof fn lemma_order_first_difference(a: Seq<FieldValue>, b: Seq<FieldValue>, k: int)
    requires
        a.len() == b.len(),
        0 <= k < a.len(),
        forall|j: int| 0 <= j < k ==> #[trigger] val_eq(a[j], b[j]),
        !val_eq(a[k], b[k]),
    ensures
        lex_cmp(a, b) == val_cmp(a[k], b[k]),
    decreases k,
{
    lemma_val_cmp_eq_iff(a[0], b[0]);
    if k == 0 {
    } else {
        assert(val_eq(a[0], b[0]));
        assert(a.skip(1).len() == b.skip(1).len());
        assert(a.skip(1)[k - 1] == a[k]);
        assert(b.skip(1)[k - 1] == b[k]);
        assert forall|j: int|
            0 <= j < k - 1 implies #[trigger] val_eq(a.skip(1)[j], b.skip(1)[j]) by {
            assert(a.skip(1)[j] == a[j + 1]);
            assert(b.skip(1)[j] == b[j + 1]);
            assert(val_eq(a[j + 1], b[j + 1]));
        }
        lemma_order_first_difference(a.skip(1), b.skip(1), k - 1);
    }
}

/// The starting value of a combined hash.
pub const HASH_SEED: u64 = 17;

/// The starting value of a text's hash contribution.
pub const TEXT_SEED: u64 = 31;

/// Folds one contribution into a running hash, wrapping on overflow.
pub open spec fn hash_combine(h: u64, x: u64) -> u64 {
    h.wrapping_mul(31).wrapping_add(x)
}

/// An integer field's hash contribution: its two's-complement bits.
pub open spec fn int_bits(x: i64) -> u64 {
    if x >= 0 {
        x as u64
    } else {
        ((x as int) + 0x1_0000_0000_0000_0000) as u64
    }
}

/// A text's hash contribution: its bytes folded in order.
pub open spec fn bytes_hash_from(h: u64, s: Seq<u8>) -> u64
    decreases s.len(),
{
    if s.len() == 0 {
        h
    } else {
        bytes_hash_from(hash_combine(h, s[0] as u64), s.skip(1))
    }
}

/// One field's hash contribution.
pub open spec fn val_hash(v: FieldValue) -> u64 {
    match v {
        FieldValue::Int(x) => int_bits(x),
        FieldValue::Text(b) => bytes_hash_from(TEXT_SEED, b@),
    }
}

/// The per-field contributions folded into a running hash, in declaration
/// order.
pub open spec fn hash_vals_from(h: u64, s: Seq<FieldValue>) -> u64
    decreases s.len(),
{
    if s.len() == 0 {
        h
    } else {
        hash_vals_from(hash_combine(h, val_hash(s[0])), s.skip(1))
    }
}

/// The generated combined hash of an instance.
pub open spec fn hash_vals(s: Seq<FieldValue>) -> u64 {
    hash_vals_from(HASH_SEED, s)
}

/// An integer's two's-complement bits, executably.
fn int_bits_exec(x: i64) -> (r: u64)
    ensures
        r == int_bits(x),
{
    if x >= 0 {
        x as u64
    } else {
        let wide: i128 = (x as i128) + 0x1_0000_0000_0000_0000;
        wide as u64
    }
}

/// One field's hash contribution, executably.
fn field_value_hash(v: &FieldValue) -> (r: u64)
    ensures
        r == val_hash(*v),
{
    match v {
        FieldValue::Int(x) => int_bits_exec(*x),
        FieldValue::Text(bytes) => {
            let n = bytes.len();
            let mut h: u64 = TEXT_SEED;
            let mut i: usize = 0;
            proof {
                assert(bytes@.skip(0) =~= bytes@);
            }
            while i < n
                invariant
                    i <= n,
                    n == bytes@.len(),
                    bytes_hash_from(TEXT_SEED, bytes@) == bytes_hash_from(
                        h,
                        bytes@.skip(i as int),
                    ),
                decreases n - i,
            {
                proof {
                    assert(bytes@.skip(i as int)[0] == bytes@[i as int]);
                    assert(bytes@.skip(i as int).skip(1) =~= bytes@.skip(i as int + 1));
                }
                h = h.wrapping_mul(31).wrapping_add(bytes[i] as u64);
                i += 1;
            }
            h
        },
    }
}

/// The generated combined hash, executably.
pub fn instance_hash(a: &Instance) -> (r: u64)
    ensures
        r == hash_vals(a.values@),
{
    let n = a.values.len();
    let mut h: u64 = HASH_SEED;
    let mut i: usize = 0;
    proof {
        assert(a.values@.skip(0) =~= a.values@);
    }
    while i < n
        invariant
            i <= n,
            n == a.values@.len(),
            hash_vals(a.values@) == hash_vals_from(h, a.values@.skip(i as int)),
        decreases n - i,
    {
        proof {
            assert(a.values@.skip(i as int)[0] == a.values@[i as int]);
            assert(a.values@.skip(i as int).skip(1) =~= a.values@.skip(i as int + 1));
        }
        let contribution = field_value_hash(&a.values[i]);
        h = h.wrapping_mul(31).wrapping_add(contribution);
        i += 1;
    }
    h
}

proof fn lemma_val_eq_hash(a: FieldValue, b: FieldValue)
    requires
        val_eq(a, b),
    ensures
        val_hash(a) == val_hash(b),
{
}

proof fn lemma_hash_vals_from_congruent(h: u64, a: Seq<FieldValue>, b: Seq<FieldValue>)
    requires
        vals_eq(a, b),
    ensures
        hash_vals_from(h, a) == hash_vals_from(h, b),
    decreases a.len(),
{
    if a.len() != 0 {
        lemma_vals_eq_unfold(a, b);
        lemma_val_eq_hash(a[0], b[0]);
        lemma_hash_vals_from_congruent(hash_combine(h, val_hash(a[0])), a.skip(1), b.skip(1));
    }
}

/// Instances equal under the generated equality produce equal combined
/// hash values.
pub proof fn lemma_eq_implies_hash_eq(a: Seq<FieldValue>, b: Seq<FieldValue>)
    requires
        vals_eq(a, b),
    ensures
        hash_vals(a) == hash_vals(b),
{
    lemma_hash_vals_from_congruent(HASH_SEED, a, b);
}

} // verus!
