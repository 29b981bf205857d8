//! Contract values as they arrive on the wire.
//!
//! An event carries its topics and its data as tagged values. This module holds
//! those values as plain data, together with the mathematical view that the
//! contracts of the rest of the crate are stated over. Nothing here interprets a
//! value: the types only say which shapes exist and when two values are the same.

use vstd::prelude::*;
use vstd::std_specs::cmp::PartialEqSpecImpl;

verus! {

/// Whether two 32-byte arrays hold the same bytes.
fn same_bytes32(a: &[u8; 32], b: &[u8; 32]) -> (r: bool)
    ensures
        r == (*a == *b),
{
    let mut i: usize = 0;
    while i < 32
        invariant
            i <= 32,
            forall|k: int| 0 <= k < i ==> a[k] == b[k],
        decreases 32 - i,
    {
        if a[i] != b[i] {
            return false;
        }
        i += 1;
    }
    assert(*a =~= *b);
    true
}

/// Whether two byte strings hold the same bytes.
fn same_bytes(a: &Vec<u8>, b: &Vec<u8>) -> (r: bool)
    ensures
        r == (a@ == b@),
{
    if a.len() != b.len() {
        return false;
    }
    let mut i: usize = 0;
    while i < a.len()
        invariant
            i <= a.len(),
            a.len() == b.len(),
            forall|k: int| 0 <= k < i ==> a@[k] == b@[k],
        decreases a.len() - i,
    {
        if a[i] != b[i] {
            return false;
        }
        i += 1;
    }
    assert(a@ =~= b@);
    true
}

/// A 32-byte digest; identifies a contract, or a piece of contract code.
#[derive(Clone, Copy, Debug)]
pub struct Hash(pub [u8; 32]);

impl PartialEq for Hash {
    fn eq(&self, other: &Hash) -> (r: bool) {
        same_bytes32(&self.0, &other.0)
    }
}

impl Eq for Hash {

}

impl PartialEqSpecImpl for Hash {
    open spec fn obeys_eq_spec() -> bool {
        true
    }

    open spec fn eq_spec(&self, other: &Hash) -> bool {
        *self == *other
    }
}

/// The ed25519 public key that names an account.
#[derive(Clone, Copy, Debug)]
pub struct AccountId(pub [u8; 32]);

impl PartialEq for AccountId {
    fn eq(&self, other: &AccountId) -> (r: bool) {
        same_bytes32(&self.0, &other.0)
    }
}

impl Eq for AccountId {

}

impl PartialEqSpecImpl for AccountId {
    open spec fn obeys_eq_spec() -> bool {
        true
    }

    open spec fn eq_spec(&self, other: &AccountId) -> bool {
        *self == *other
    }
}

/// Who an address value names: an account or a contract.
#[derive(Clone, Copy, Debug)]
pub enum ScAddress {
    Account(AccountId),
    Contract(Hash),
}

impl PartialEq for ScAddress {
    fn eq(&self, other: &ScAddress) -> (r: bool) {
        match (self, other) {
            (ScAddress::Account(a), ScAddress::Account(b)) => a == b,
            (ScAddress::Contract(a), ScAddress::Contract(b)) => a == b,
            _ => false,
        }
    }
}

impl Eq for ScAddress {

}

impl PartialEqSpecImpl for ScAddress {
    open spec fn obeys_eq_spec() -> bool {
        true
    }

    open spec fn eq_spec(&self, other: &ScAddress) -> bool {
        *self == *other
    }
}

/// What runs when a contract instance is invoked.
#[derive(Clone, Copy, Debug)]
pub enum ContractExecutable {
    Wasm(Hash),
    StellarAsset,
}

impl PartialEq for ContractExecutable {
    fn eq(&self, other: &ContractExecutable) -> (r: bool) {
        match (self, other) {
            (ContractExecutable::Wasm(a), ContractExecutable::Wasm(b)) => a == b,
            (ContractExecutable::StellarAsset, ContractExecutable::StellarAsset) => true,
            _ => false,
        }
    }
}

impl Eq for ContractExecutable {

}

impl PartialEqSpecImpl for ContractExecutable {
    open spec fn obeys_eq_spec() -> bool {
        true
    }

    open spec fn eq_spec(&self, other: &ContractExecutable) -> bool {
        *self == *other
    }
}

/// The reason carried by an error value.
#[derive(Clone, Copy, Debug, PartialEq, Eq, Structural)]
pub enum ScErrorCode {
    ArithDomain,
    IndexBounds,
    InvalidInput,
    MissingValue,
    ExistingValue,
    ExceededLimit,
    InvalidAction,
    InternalError,
    UnexpectedType,
    UnexpectedSize,
}

/// An error value: where it arose, and why.
#[derive(Clone, Copy, Debug, PartialEq, Eq, Structural)]
pub enum ScError {
    Contract(u32),
    WasmVm(ScErrorCode),
    Context(ScErrorCode),
    Storage(ScErrorCode),
    Object(ScErrorCode),
    Crypto(ScErrorCode),
    Events(ScErrorCode),
    Budget(ScErrorCode),
    Value(ScErrorCode),
    Auth(ScErrorCode),
}

/// An unsigned 128-bit integer in two 64-bit words.
#[derive(Clone, Copy, Debug, PartialEq, Eq, Structural)]
pub struct UInt128Parts {
    pub hi: u64,
    pub lo: u64,
}

/// A signed 128-bit integer in two 64-bit words, the sign in the high one.
#[derive(Clone, Copy, Debug, PartialEq, Eq, Structural)]
pub struct Int128Parts {
    pub hi: i64,
    pub lo: u64,
}

/// An unsigned 256-bit integer in four 64-bit words.
#[derive(Clone, Copy, Debug, PartialEq, Eq, Structural)]
pub struct UInt256Parts {
    pub hi_hi: u64,
    pub hi_lo: u64,
    pub lo_hi: u64,
    pub lo_lo: u64,
}

/// A signed 256-bit integer in four 64-bit words, the sign in the highest one.
#[derive(Clone, Copy, Debug, PartialEq, Eq, Structural)]
pub struct Int256Parts {
    pub hi_hi: i64,
    pub hi_lo: u64,
    pub lo_hi: u64,
    pub lo_lo: u64,
}

/// A contract value: one tagged shape out of a closed set.
///
/// `Vec` and `Mapping` may be absent altogether, which is not the same value as an
/// empty one.
#[derive(Debug)]
pub enum ScVal {
    Bool(bool),
    Void,
    Error(ScError),
    U32(u32),
    I32(i32),
    U64(u64),
    I64(i64),
    Timepoint(u64),
    Duration(u64),
    U128(UInt128Parts),
    I128(Int128Parts),
    U256(UInt256Parts),
    I256(Int256Parts),
    Bytes(Vec<u8>),
    String(Vec<u8>),
    Symbol(Vec<u8>),
    Vec(Option<Vec<ScVal>>),
    Mapping(Option<Vec<ScMapEntry>>),
    Address(ScAddress),
    LedgerKeyContractInstance,
    LedgerKeyNonce(i64),
    ContractInstance(ContractExecutable, Option<Vec<ScMapEntry>>),
}

/// One key with its value, as a map value lists them.
#[derive(Debug)]
pub struct ScMapEntry {
    pub key: ScVal,
    pub val: ScVal,
}

/// What a contract value is, with every byte string and list as a sequence.
pub enum ScValView {
    Bool(bool),
    Void,
    Error(ScError),
    U32(u32),
    I32(i32),
    U64(u64),
    I64(i64),
    Timepoint(u64),
    Duration(u64),
    U128(UInt128Parts),
    I128(Int128Parts),
    U256(UInt256Parts),
    I256(Int256Parts),
    Bytes(Seq<u8>),
    String(Seq<u8>),
    Symbol(Seq<u8>),
    Vec(Option<Seq<ScValView>>),
    Mapping(Option<Seq<ScMapEntryView>>),
    Address(ScAddress),
    LedgerKeyContractInstance,
    LedgerKeyNonce(i64),
    ContractInstance(ContractExecutable, Option<Seq<ScMapEntryView>>),
}

/// What a map entry is: the views of its key and of its value.
pub struct ScMapEntryView {
    pub key: ScValView,
    pub val: ScValView,
}

/// The view of a value. Lists and maps are taken item by item, in order; see
/// [`lemma_vec_view`], [`lemma_map_view`] and [`lemma_instance_view`] for what that
/// comes to.
pub open spec fn value_view(v: ScVal) -> ScValView
    decreases v, 0nat,
{
    match v {
        ScVal::Bool(b) => ScValView::Bool(b),
        ScVal::Void => ScValView::Void,
        ScVal::Error(e) => ScValView::Error(e),
        ScVal::U32(n) => ScValView::U32(n),
        ScVal::I32(n) => ScValView::I32(n),
        ScVal::U64(n) => ScValView::U64(n),
        ScVal::I64(n) => ScValView::I64(n),
        ScVal::Timepoint(n) => ScValView::Timepoint(n),
        ScVal::Duration(n) => ScValView::Duration(n),
        ScVal::U128(p) => ScValView::U128(p),
        ScVal::I128(p) => ScValView::I128(p),
        ScVal::U256(p) => ScValView::U256(p),
        ScVal::I256(p) => ScValView::I256(p),
        ScVal::Bytes(bytes) => ScValView::Bytes(bytes@),
        ScVal::String(bytes) => ScValView::String(bytes@),
        ScVal::Symbol(bytes) => ScValView::Symbol(bytes@),
        ScVal::Vec(None) => ScValView::Vec(None),
        ScVal::Vec(Some(items)) => ScValView::Vec(Some(values_prefix_view(items, items@.len()))),
        ScVal::Mapping(None) => ScValView::Mapping(None),
        ScVal::Mapping(Some(entries)) => ScValView::Mapping(
            Some(entries_prefix_view(entries, entries@.len())),
        ),
        ScVal::Address(a) => ScValView::Address(a),
        ScVal::LedgerKeyContractInstance => ScValView::LedgerKeyContractInstance,
        ScVal::LedgerKeyNonce(n) => ScValView::LedgerKeyNonce(n),
        ScVal::ContractInstance(executable, None) => ScValView::ContractInstance(executable, None),
        ScVal::ContractInstance(executable, Some(entries)) => ScValView::ContractInstance(
            executable,
            Some(entries_prefix_view(entries, entries@.len())),
        ),
    }
}

/// The views of the first `n` items of a list.
pub open spec fn values_prefix_view(items: Vec<ScVal>, n: nat) -> Seq<ScValView>
    decreases items, n,
{
    if n == 0 || n > items@.len() {
        Seq::empty()
    } else {
        values_prefix_view(items, (n - 1) as nat).push(value_view(items@[n - 1]))
    }
}

/// The views of the first `n` entries of a map.
pub open spec fn entries_prefix_view(entries: Vec<ScMapEntry>, n: nat) -> Seq<ScMapEntryView>
    decreases entries, n,
{
    if n == 0 || n > entries@.len() {
        Seq::empty()
    } else {
        entries_prefix_view(entries, (n - 1) as nat).push(
            ScMapEntryView {
                key: value_view(entries@[n - 1].key),
                val: value_view(entries@[n - 1].val),
            },
        )
    }
}

impl View for ScVal {
    type V = ScValView;

    open spec fn view(&self) -> ScValView {
        value_view(*self)
    }
}

impl View for ScMapEntry {
    type V = ScMapEntryView;

    open spec fn view(&self) -> ScMapEntryView {
        ScMapEntryView { key: self.key@, val: self.val@ }
    }
}

/// The views of a list of values, in the list's order.
pub open spec fn values_view(items: Seq<ScVal>) -> Seq<ScValView> {
    Seq::new(items.len(), |i: int| items[i]@)
}

/// The views of a list of map entries, in the list's order.
pub open spec fn entries_view(entries: Seq<ScMapEntry>) -> Seq<ScMapEntryView> {
    Seq::new(entries.len(), |i: int| entries[i]@)
}

proof fn lemma_values_prefix_view(items: Vec<ScVal>, n: nat)
    requires
        n <= items@.len(),
    ensures
        values_prefix_view(items, n) == values_view(items@.take(n as int)),
    decreases n,
{
    if n > 0 {
        lemma_values_prefix_view(items, (n - 1) as nat);
        assert(items@.take(n as int).take(n - 1) == items@.take(n - 1));
    }
    assert(values_prefix_view(items, n) =~= values_view(items@.take(n as int)));
}

proof fn lemma_entries_prefix_view(entries: Vec<ScMapEntry>, n: nat)
    requires
        n <= entries@.len(),
    ensures
        entries_prefix_view(entries, n) == entries_view(entries@.take(n as int)),
    decreases n,
{
    if n > 0 {
        lemma_entries_prefix_view(entries, (n - 1) as nat);
        assert(entries@.take(n as int).take(n - 1) == entries@.take(n - 1));
    }
    assert(entries_prefix_view(entries, n) =~= entries_view(entries@.take(n as int)));
}

/// The view of a list value is the list of its items' views.
pub proof fn lemma_vec_view(items: Vec<ScVal>)
    ensures
        ScVal::Vec(Some(items))@ == ScValView::Vec(Some(values_view(items@))),
{
    lemma_values_prefix_view(items, items@.len());
    assert(items@.take(items@.len() as int) == items@);
}

/// The view of a map value is the list of its entries' views.
pub proof fn lemma_map_view(entries: Vec<ScMapEntry>)
    ensures
        ScVal::Mapping(Some(entries))@ == ScValView::Mapping(Some(entries_view(entries@))),
{
    lemma_entries_prefix_view(entries, entries@.len());
    assert(entries@.take(entries@.len() as int) == entries@);
}

/// The view of a contract instance holds the list of its storage entries' views.
pub proof fn lemma_instance_view(executable: ContractExecutable, entries: Vec<ScMapEntry>)
    ensures
        ScVal::ContractInstance(executable, Some(entries))@ == ScValView::ContractInstance(
            executable,
            Some(entries_view(entries@)),
        ),
{
    lemma_entries_prefix_view(entries, entries@.len());
    assert(entries@.take(entries@.len() as int) == entries@);
}

/// A copy of a list of values, item by item.
fn clone_values(items: &Vec<ScVal>) -> (r: Vec<ScVal>)
    ensures
        values_view(r@) == values_view(items@),
    decreases items,
{
    let mut out: Vec<ScVal> = Vec::new();
    let mut i: usize = 0;
    while i < items.len()
        invariant
            i <= items.len(),
            out.len() == i,
            forall|k: int| 0 <= k < i ==> out@[k]@ == items@[k]@,
        decreases items.len() - i,
    {
        proof {
            vstd::std_specs::vec::axiom_vec_index_decreases(*items, i as int);
        }
        let item = clone_value(&items[i]);
        out.push(item);
        i += 1;
    }
    assert(values_view(out@) =~= values_view(items@));
    out
}

/// A copy of a list of map entries, entry by entry.
fn clone_entries(entries: &Vec<ScMapEntry>) -> (r: Vec<ScMapEntry>)
    ensures
        entries_view(r@) == entries_view(entries@),
    decreases entries,
{
    let mut out: Vec<ScMapEntry> = Vec::new();
    let mut i: usize = 0;
    while i < entries.len()
        invariant
            i <= entries.len(),
            out.len() == i,
            forall|k: int| 0 <= k < i ==> out@[k]@ == entries@[k]@,
        decreases entries.len() - i,
    {
        proof {
            vstd::std_specs::vec::axiom_vec_index_decreases(*entries, i as int);
        }
        let entry = &entries[i];
        let key = clone_value(&entry.key);
        let val = clone_value(&entry.val);
        out.push(ScMapEntry { key, val });
        i += 1;
    }
    assert(entries_view(out@) =~= entries_view(entries@));
    out
}

/// A copy of a value, whatever its shape and depth.
fn clone_value(v: &ScVal) -> (r: ScVal)
    ensures
        r@ == v@,
    decreases v,
{
    match v {
        ScVal::Bool(b) => ScVal::Bool(*b),
        ScVal::Void => ScVal::Void,
        ScVal::Error(e) => ScVal::Error(*e),
        ScVal::U32(n) => ScVal::U32(*n),
        ScVal::I32(n) => ScVal::I32(*n),
        ScVal::U64(n) => ScVal::U64(*n),
        ScVal::I64(n) => ScVal::I64(*n),
        ScVal::Timepoint(n) => ScVal::Timepoint(*n),
        ScVal::Duration(n) => ScVal::Duration(*n),
        ScVal::U128(p) => ScVal::U128(*p),
        ScVal::I128(p) => ScVal::I128(*p),
        ScVal::U256(p) => ScVal::U256(*p),
        ScVal::I256(p) => ScVal::I256(*p),
        ScVal::Bytes(bytes) => ScVal::Bytes(bytes.clone()),
        ScVal::String(bytes) => ScVal::String(bytes.clone()),
        ScVal::Symbol(bytes) => ScVal::Symbol(bytes.clone()),
        ScVal::Vec(None) => ScVal::Vec(None),
        ScVal::Vec(Some(items)) => {
            proof {
                assert(decreases_to!(*v => v->Vec_0));
                assert(decreases_to!(v->Vec_0 => v->Vec_0->Some_0));
            }
            let copy = clone_values(items);
            proof {
                lemma_vec_view(*items);
                lemma_vec_view(copy);
            }
            ScVal::Vec(Some(copy))
        },
        ScVal::Mapping(None) => ScVal::Mapping(None),
        ScVal::Mapping(Some(entries)) => {
            proof {
                assert(decreases_to!(*v => v->Mapping_0));
                assert(decreases_to!(v->Mapping_0 => v->Mapping_0->Some_0));
            }
            let copy = clone_entries(entries);
            proof {
                lemma_map_view(*entries);
                lemma_map_view(copy);
            }
            ScVal::Mapping(Some(copy))
        },
        ScVal::Address(a) => ScVal::Address(*a),
        ScVal::LedgerKeyContractInstance => ScVal::LedgerKeyContractInstance,
        ScVal::LedgerKeyNonce(n) => ScVal::LedgerKeyNonce(*n),
        ScVal::ContractInstance(executable, None) => ScVal::ContractInstance(*executable, None),
        ScVal::ContractInstance(executable, Some(entries)) => {
            proof {
                assert(decreases_to!(*v => v->ContractInstance_1));
                assert(decreases_to!(v->ContractInstance_1 => v->ContractInstance_1->Some_0));
            }
            let copy = clone_entries(entries);
            proof {
                lemma_instance_view(*executable, *entries);
                lemma_instance_view(*executable, copy);
            }
            ScVal::ContractInstance(*executable, Some(copy))
        },
    }
}

impl Clone for ScVal {
    fn clone(&self) -> (r: ScVal)
        ensures
            r@ == self@,
    {
        clone_value(self)
    }
}

impl Clone for ScMapEntry {
    fn clone(&self) -> (r: ScMapEntry)
        ensures
            r@ == self@,
    {
        ScMapEntry { key: clone_value(&self.key), val: clone_value(&self.val) }
    }
}

/// Whether two lists hold the same values in the same order.
fn same_values(a: &Vec<ScVal>, b: &Vec<ScVal>) -> (r: bool)
    ensures
        r == (values_view(a@) == values_view(b@)),
    decreases a,
{
    if a.len() != b.len() {
        assert(values_view(a@).len() != values_view(b@).len());
        return false;
    }
    let mut i: usize = 0;
    while i < a.len()
        invariant
            i <= a.len(),
            a.len() == b.len(),
            forall|k: int| 0 <= k < i ==> a@[k]@ == b@[k]@,
        decreases a.len() - i,
    {
        proof {
            vstd::std_specs::vec::axiom_vec_index_decreases(*a, i as int);
        }
        if !same_value(&a[i], &b[i]) {
            assert(values_view(a@)[i as int] != values_view(b@)[i as int]);
            return false;
        }
        i += 1;
    }
    assert(values_view(a@) =~= values_view(b@));
    true
}

/// Whether two maps list the same entries in the same order.
fn same_entries(a: &Vec<ScMapEntry>, b: &Vec<ScMapEntry>) -> (r: bool)
    ensures
        r == (entries_view(a@) == entries_view(b@)),
    decreases a,
{
    if a.len() != b.len() {
        assert(entries_view(a@).len() != entries_view(b@).len());
        return false;
    }
    let mut i: usize = 0;
    while i < a.len()
        invariant
            i <= a.len(),
            a.len() == b.len(),
            forall|k: int| 0 <= k < i ==> a@[k]@ == b@[k]@,
        decreases a.len() - i,
    {
        proof {
            vstd::std_specs::vec::axiom_vec_index_decreases(*a, i as int);
        }
        let x = &a[i];
        let y = &b[i];
        if !same_value(&x.key, &y.key) || !same_value(&x.val, &y.val) {
            assert(entries_view(a@)[i as int] != entries_view(b@)[i as int]);
            return false;
        }
        i += 1;
    }
    assert(entries_view(a@) =~= entries_view(b@));
    true
}

/// Whether two values are the same: the same shape, holding the same data.
fn same_value(a: &ScVal, b: &ScVal) -> (r: bool)
    ensures
        r == (a@ == b@),
    decreases a,
{
    match (a, b) {
        (ScVal::Bool(x), ScVal::Bool(y)) => *x == *y,
        (ScVal::Void, ScVal::Void) => true,
        (ScVal::Error(x), ScVal::Error(y)) => *x == *y,
        (ScVal::U32(x), ScVal::U32(y)) => *x == *y,
        (ScVal::I32(x), ScVal::I32(y)) => *x == *y,
        (ScVal::U64(x), ScVal::U64(y)) => *x == *y,
        (ScVal::I64(x), ScVal::I64(y)) => *x == *y,
        (ScVal::Timepoint(x), ScVal::Timepoint(y)) => *x == *y,
        (ScVal::Duration(x), ScVal::Duration(y)) => *x == *y,
        (ScVal::U128(x), ScVal::U128(y)) => *x == *y,
        (ScVal::I128(x), ScVal::I128(y)) => *x == *y,
        (ScVal::U256(x), ScVal::U256(y)) => *x == *y,
        (ScVal::I256(x), ScVal::I256(y)) => *x == *y,
        (ScVal::Bytes(x), ScVal::Bytes(y)) => same_bytes(x, y),
        (ScVal::String(x), ScVal::String(y)) => same_bytes(x, y),
        (ScVal::Symbol(x), ScVal::Symbol(y)) => same_bytes(x, y),
        (ScVal::Vec(None), ScVal::Vec(None)) => true,
        (ScVal::Vec(Some(x)), ScVal::Vec(Some(y))) => {
            proof {
                assert(decreases_to!(*a => a->Vec_0));
                assert(decreases_to!(a->Vec_0 => a->Vec_0->Some_0));
                lemma_vec_view(*x);
                lemma_vec_view(*y);
            }
            same_values(x, y)
        },
        (ScVal::Mapping(None), ScVal::Mapping(None)) => true,
        (ScVal::Mapping(Some(x)), ScVal::Mapping(Some(y))) => {
            proof {
                assert(decreases_to!(*a => a->Mapping_0));
                assert(decreases_to!(a->Mapping_0 => a->Mapping_0->Some_0));
                lemma_map_view(*x);
                lemma_map_view(*y);
            }
            same_entries(x, y)
        },
        (ScVal::Address(x), ScVal::Address(y)) => *x == *y,
        (ScVal::LedgerKeyContractInstance, ScVal::LedgerKeyContractInstance) => true,
        (ScVal::LedgerKeyNonce(x), ScVal::LedgerKeyNonce(y)) => *x == *y,
        (ScVal::ContractInstance(e, None), ScVal::ContractInstance(f, None)) => *e == *f,
        (ScVal::ContractInstance(e, Some(x)), ScVal::ContractInstance(f, Some(y))) => {
            proof {
                assert(decreases_to!(*a => a->ContractInstance_1));
                assert(decreases_to!(a->ContractInstance_1 => a->ContractInstance_1->Some_0));
                lemma_instance_view(*e, *x);
                lemma_instance_view(*f, *y);
            }
            *e == *f && same_entries(x, y)
        },
        _ => false,
    }
}

impl PartialEq for ScVal {
    fn eq(&self, other: &ScVal) -> (r: bool) {
        same_value(self, other)
    }
}

impl Eq for ScVal {

}

impl PartialEqSpecImpl for ScVal {
    open spec fn obeys_eq_spec() -> bool {
        true
    }

    open spec fn eq_spec(&self, other: &ScVal) -> bool {
        self@ == other@
    }
}

impl PartialEq for ScMapEntry {
    fn eq(&self, other: &ScMapEntry) -> (r: bool) {
        same_value(&self.key, &other.key) && same_value(&self.val, &other.val)
    }
}

impl Eq for ScMapEntry {

}

impl PartialEqSpecImpl for ScMapEntry {
    open spec fn obeys_eq_spec() -> bool {
        true
    }

    open spec fn eq_spec(&self, other: &ScMapEntry) -> bool {
        self@ == other@
    }
}

impl ScValView {
    /// Whether the value can be put on the wire: no symbol in it is longer than
    /// 32 bytes, and no byte string, list or map in it has more than `u32::MAX`
    /// items.
    pub open spec fn fits_wire(self) -> bool
        decreases self,
    {
        match self {
            ScValView::Bytes(bytes) => bytes.len() <= u32::MAX,
            ScValView::String(bytes) => bytes.len() <= u32::MAX,
            ScValView::Symbol(bytes) => bytes.len() <= 32,
            ScValView::Vec(Some(items)) => {
                &&& items.len() <= u32::MAX
                &&& forall|i: int| 0 <= i < items.len() ==> (#[trigger] items[i]).fits_wire()
            },
            ScValView::Mapping(Some(entries)) => {
                &&& entries.len() <= u32::MAX
                &&& forall|i: int|
                    0 <= i < entries.len() ==> (#[trigger] entries[i]).key.fits_wire()
                        && entries[i].val.fits_wire()
            },
            ScValView::ContractInstance(_, Some(entries)) => {
                &&& entries.len() <= u32::MAX
                &&& forall|i: int|
                    0 <= i < entries.len() ==> (#[trigger] entries[i]).key.fits_wire()
                        && entries[i].val.fits_wire()
            },
            _ => true,
        }
    }
}

} // verus!
