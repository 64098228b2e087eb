use vstd::prelude::*;

verus! {

/// Width in bytes of an account address.
pub const ADDRESS_LEN: usize = 32;

/// A 32-byte account address. The all-zero address is the "unset" value.
#[derive(Clone, Copy, Debug)]
pub struct Address {
    pub bytes: [u8; 32],
}

impl Address {
    /// Whether this is the all-zero (default) address.
    pub open spec fn is_zero_spec(&self) -> bool {
        forall|i: int| 0 <= i < 32 ==> #[trigger] self.bytes@[i] == 0u8
    }

    pub fn new(bytes: [u8; 32]) -> (r: Address)
        ensures
            r.bytes@ == bytes@,
    {
        Address { bytes }
    }

    /// The all-zero address.
    pub fn zero() -> (r: Address)
        ensures
            r.is_zero_spec(),
            r.bytes@ == Seq::new(32, |_i: int| 0u8),
    {
        let r = Address { bytes: [0u8; 32] };
        assert(r.bytes@ =~= Seq::new(32, |_i: int| 0u8));
        r
    }

    /// Whether this is the all-zero address.
    pub fn is_zero(&self) -> (r: bool)
        ensures
            r == self.is_zero_spec(),
    {
        let mut i: usize = 0;
        while i < ADDRESS_LEN
            invariant
                0 <= i <= 32,
                forall|j: int| 0 <= j < i ==> #[trigger] self.bytes@[j] == 0u8,
            decreases 32 - i,
        {
            if self.bytes[i] != 0 {
                return false;
            }
            i = i + 1;
        }
        true
    }

    /// Byte-wise equality of two addresses.
    pub fn same_as(&self, other: &Address) -> (r: bool)
        ensures
            r == (self.bytes@ == other.bytes@),
    {
        let mut i: usize = 0;
        while i < ADDRESS_LEN
            invariant
                0 <= i <= 32,
                self.bytes@.len() == 32,
                other.bytes@.len() == 32,
                forall|j: int| 0 <= j < i ==> self.bytes@[j] == other.bytes@[j],
            decreases 32 - i,
        {
            if self.bytes[i] != other.bytes[i] {
                return false;
            }
            i = i + 1;
        }
        assert(self.bytes@ =~= other.bytes@);
        true
    }
}

impl PartialEq for Address {
    fn eq(&self, other: &Address) -> (r: bool) {
        self.same_as(other)
    }
}

impl vstd::std_specs::cmp::PartialEqSpecImpl for Address {
    open spec fn obeys_eq_spec() -> bool {
        true
    }

    open spec fn eq_spec(&self, other: &Address) -> bool {
        self.bytes@ == other.bytes@
    }
}

impl Eq for Address {}

/// Whether `a` occurs in `s`.
pub open spec fn contains_addr(s: Seq<Address>, a: Address) -> bool {
    exists|i: int| 0 <= i < s.len() && (#[trigger] s[i]).bytes@ == a.bytes@
}

/// Linear membership test over a list of addresses.
pub fn list_contains(list: &Vec<Address>, a: &Address) -> (r: bool)
    ensures
        r == contains_addr(list@, *a),
{
    let mut i: usize = 0;
    while i < list.len()
        invariant
            0 <= i <= list@.len(),
            forall|j: int| 0 <= j < i ==> (#[trigger] list@[j]).bytes@ != a.bytes@,
        decreases list@.len() - i,
    {
        if list[i].same_as(a) {
            return true;
        }
        i = i + 1;
    }
    false
}

/// No address occurs twice in `s`.
pub open spec fn distinct_addrs(s: Seq<Address>) -> bool {
    forall|i: int, j: int|
        0 <= i < s.len() && 0 <= j < s.len() && i != j ==> (#[trigger] s[i]).bytes@ != (
        #[trigger] s[j]).bytes@
}

/// The byte views of a list of addresses.
pub open spec fn addr_views(s: Seq<Address>) -> Seq<Seq<u8>> {
    s.map_values(|a: Address| a.bytes@)
}

/// A duplicate-free list whose every entry occurs in `b` is no longer than `b`.
pub proof fn lemma_distinct_subset_len(a: Seq<Address>, b: Seq<Address>)
    requires
        distinct_addrs(a),
        forall|i: int| 0 <= i < a.len() ==> contains_addr(b, #[trigger] a[i]),
    ensures
        a.len() <= b.len(),
{
    let va = addr_views(a);
    let vb = addr_views(b);
    assert(va.no_duplicates()) by {
        assert forall|i: int, j: int| 0 <= i < va.len() && 0 <= j < va.len() && i != j implies va[i]
            != va[j] by {
            assert(a[i].bytes@ != a[j].bytes@);
        }
    }
    va.unique_seq_to_set();
    vb.lemma_cardinality_of_set();
    assert(va.to_set().subset_of(vb.to_set())) by {
        assert forall|x: Seq<u8>| va.to_set().contains(x) implies vb.to_set().contains(x) by {
            let i = choose|i: int| 0 <= i < va.len() && va[i] == x;
            assert(contains_addr(b, a[i]));
            let j = choose|j: int| 0 <= j < b.len() && (#[trigger] b[j]).bytes@ == a[i].bytes@;
            assert(vb[j] == x);
        }
    }
    vstd::set_lib::lemma_len_subset(va.to_set(), vb.to_set());
}

/// Whether some address occurs twice in `list`.
pub fn has_duplicates(list: &Vec<Address>) -> (r: bool)
    ensures
        r == !distinct_addrs(list@),
{
    let n = list.len();
    let mut i: usize = 0;
    while i < n
        invariant
            n == list@.len(),
            0 <= i <= n,
            forall|p: int, q: int|
                0 <= p < i && 0 <= q < n && p != q ==> (#[trigger] list@[p]).bytes@ != (
                #[trigger] list@[q]).bytes@,
        decreases n - i,
    {
        let mut j: usize = 0;
        while j < n
            invariant
                n == list@.len(),
                0 <= i < n,
                0 <= j <= n,
                forall|p: int, q: int|
                    0 <= p < i && 0 <= q < n && p != q ==> (#[trigger] list@[p]).bytes@ != (
                    #[trigger] list@[q]).bytes@,
                forall|q: int| 0 <= q < j && q != i ==> (#[trigger] list@[q]).bytes@ != list@[i as int].bytes@,
            decreases n - j,
        {
            if j != i && list[i].same_as(&list[j]) {
                return true;
            }
            j = j + 1;
        }
        i = i + 1;
    }
    false
}

} // verus!
