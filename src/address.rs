use vstd::prelude::*;

verus! {

/// An account or contract address, held as its textual key
/// (the `G...` / `C...` form that the ledger prints).
///
/// Two addresses are the same account exactly when their keys agree, so the
/// view of an address is its key as a sequence of characters.
#[derive(Debug)]
pub struct Address {
    key: String,
}

impl View for Address {
    type V = Seq<char>;

    closed spec fn view(&self) -> Seq<char> {
        self.key@
    }
}

impl Address {
    /// Wraps a textual address key.
    pub fn new(key: String) -> (r: Address)
        ensures
            r@ == key@,
    {
        Address { key }
    }

    /// The textual key of this address.
    pub fn as_str(&self) -> (r: &str)
        ensures
            r@ == self@,
    {
        self.key.as_str()
    }

    /// An owned copy of the textual key, for display.
    pub fn to_display(&self) -> (r: String)
        ensures
            r@ == self@,
    {
        self.key.clone()
    }

    /// Whether both values name the same account.
    pub fn same_as(&self, other: &Address) -> (r: bool)
        ensures
            r == (self@ == other@),
    {
        self.key == other.key
    }
}

impl Clone for Address {
    fn clone(&self) -> (r: Self)
        ensures
            r == *self,
    {
        Address { key: self.key.clone() }
    }
}

impl PartialEq for Address {
    fn eq(&self, other: &Address) -> (r: bool) {
        self.key == other.key
    }
}

impl vstd::std_specs::cmp::PartialEqSpecImpl for Address {
    open spec fn obeys_eq_spec() -> bool {
        true
    }

    open spec fn eq_spec(&self, other: &Address) -> bool {
        self@ == other@
    }
}

impl Eq for Address {
}

/// `a` is one of the addresses in `list` (compared by key).
pub open spec fn contains_address(list: Seq<Address>, a: Seq<char>) -> bool {
    exists|i: int| 0 <= i < list.len() && #[trigger] list[i]@ == a
}

/// Every pair of entries in `list` names two different accounts.
pub open spec fn distinct_addresses(list: Seq<Address>) -> bool {
    forall|i: int, j: int|
        0 <= i < list.len() && 0 <= j < list.len() && i != j ==> #[trigger] list[i]@ != #[trigger] list[j]@
}

/// Whether `a` occurs in `list`, comparing by key.
pub fn holds_address(list: &Vec<Address>, a: &Address) -> (r: bool)
    ensures
        r == contains_address(list@, a@),
{
    let n = list.len();
    let mut i: usize = 0;
    while i < n
        invariant
            n == list@.len(),
            i <= n,
            forall|k: int| 0 <= k < i ==> #[trigger] list@[k]@ != a@,
        decreases n - i,
    {
        if list[i].same_as(a) {
            return true;
        }
        i = i + 1;
    }
    false
}

/// Whether no two entries of `list` name the same account.
pub fn all_distinct(list: &Vec<Address>) -> (r: bool)
    ensures
        r == distinct_addresses(list@),
{
    let n = list.len();
    let mut i: usize = 0;
    while i < n
        invariant
            n == list@.len(),
            i <= n,
            forall|a: int, b: int| 0 <= a < i && 0 <= b < n && a != b ==> #[trigger] list@[a]@ != #[trigger] list@[b]@,
        decreases n - i,
    {
        let mut j: usize = 0;
        while j < n
            invariant
                n == list@.len(),
                i < n,
                j <= n,
                forall|a: int, b: int| 0 <= a < i && 0 <= b < n && a != b ==> #[trigger] list@[a]@ != #[trigger] list@[b]@,
                forall|b: int| 0 <= b < j && b != i ==> list@[i as int]@ != #[trigger] list@[b]@,
            decreases n - j,
        {
            if j != i && list[i].same_as(&list[j]) {
                return false;
            }
            j = j + 1;
        }
        i = i + 1;
    }
    true
}

/// Whether every entry of `list` occurs in `within`.
pub fn all_held(list: &Vec<Address>, within: &Vec<Address>) -> (r: bool)
    ensures
        r == (forall|k: int| 0 <= k < list@.len() ==> contains_address(within@, #[trigger] list@[k]@)),
{
    let n = list.len();
    let mut i: usize = 0;
    while i < n
        invariant
            n == list@.len(),
            i <= n,
            forall|k: int| 0 <= k < i ==> contains_address(within@, #[trigger] list@[k]@),
        decreases n - i,
    {
        if !holds_address(within, &list[i]) {
            return false;
        }
        i = i + 1;
    }
    true
}

/// A copy of `list`, entry for entry.
pub fn copy_addresses(list: &Vec<Address>) -> (r: Vec<Address>)
    ensures
        r@ == list@,
{
    let n = list.len();
    let mut out: Vec<Address> = Vec::new();
    let mut i: usize = 0;
    while i < n
        invariant
            n == list@.len(),
            i <= n,
            out@ == list@.take(i as int),
        decreases n - i,
    {
        out.push(list[i].clone());
        proof {
            assert(list@.take(i + 1) == list@.take(i as int).push(list@[i as int]));
        }
        i = i + 1;
    }
    proof {
        assert(list@.take(n as int) == list@);
    }
    out
}

} // verus!
