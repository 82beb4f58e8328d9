//! Plain values of the ledger's object model: addresses, object references
//! and the arguments of a call.

use vstd::prelude::*;
use vstd::std_specs::cmp::PartialEqSpecImpl;
use crate::text::chars_of;

verus! {

/// Number of bytes in an address or object identifier.
pub const ADDRESS_LENGTH: usize = 32;

/// A 32-byte account address or object identifier.
#[derive(Clone, Copy, Debug, Eq)]
pub struct Address {
    pub bytes: [u8; 32],
}

/// The value of a hexadecimal digit, in either case.
pub open spec fn hex_value(c: char) -> Option<u8> {
    if c == '0' {
        Some(0u8)
    } else if c == '1' {
        Some(1u8)
    } else if c == '2' {
        Some(2u8)
    } else if c == '3' {
        Some(3u8)
    } else if c == '4' {
        Some(4u8)
    } else if c == '5' {
        Some(5u8)
    } else if c == '6' {
        Some(6u8)
    } else if c == '7' {
        Some(7u8)
    } else if c == '8' {
        Some(8u8)
    } else if c == '9' {
        Some(9u8)
    } else if c == 'a' || c == 'A' {
        Some(10u8)
    } else if c == 'b' || c == 'B' {
        Some(11u8)
    } else if c == 'c' || c == 'C' {
        Some(12u8)
    } else if c == 'd' || c == 'D' {
        Some(13u8)
    } else if c == 'e' || c == 'E' {
        Some(14u8)
    } else if c == 'f' || c == 'F' {
        Some(15u8)
    } else {
        None
    }
}

/// Whether `s` is a hexadecimal literal of an address: `0x`, then at most
/// 64 hexadecimal digits.
pub open spec fn is_hex_literal(s: Seq<char>) -> bool {
    &&& 2 <= s.len() <= 2 + 2 * ADDRESS_LENGTH
    &&& s[0] == '0'
    &&& s[1] == 'x'
    &&& forall|i: int| 2 <= i < s.len() ==> hex_value(#[trigger] s[i]) is Some
}

/// The `k`-th of the 64 half-bytes that the literal `s` stands for: its
/// digits are aligned to the right and zeros fill what is missing in front.
pub open spec fn literal_nibble(s: Seq<char>, k: int) -> int {
    let pad = 2 + 2 * ADDRESS_LENGTH - s.len();
    if k < pad {
        0
    } else {
        hex_value(s[k - pad + 2]).unwrap() as int
    }
}

/// The 32 bytes that the literal `s` stands for.
pub open spec fn literal_bytes(s: Seq<char>) -> Seq<u8> {
    Seq::new(
        ADDRESS_LENGTH as nat,
        |i: int| (16 * literal_nibble(s, 2 * i) + literal_nibble(s, 2 * i + 1)) as u8,
    )
}

fn hex_digit(c: char) -> (res: Option<u8>)
    ensures
        res == hex_value(c),
{
    if c == '0' {
        Some(0u8)
    } else if c == '1' {
        Some(1u8)
    } else if c == '2' {
        Some(2u8)
    } else if c == '3' {
        Some(3u8)
    } else if c == '4' {
        Some(4u8)
    } else if c == '5' {
        Some(5u8)
    } else if c == '6' {
        Some(6u8)
    } else if c == '7' {
        Some(7u8)
    } else if c == '8' {
        Some(8u8)
    } else if c == '9' {
        Some(9u8)
    } else if c == 'a' || c == 'A' {
        Some(10u8)
    } else if c == 'b' || c == 'B' {
        Some(11u8)
    } else if c == 'c' || c == 'C' {
        Some(12u8)
    } else if c == 'd' || c == 'D' {
        Some(13u8)
    } else if c == 'e' || c == 'E' {
        Some(14u8)
    } else if c == 'f' || c == 'F' {
        Some(15u8)
    } else {
        None
    }
}

/// The `k`-th half-byte of a literal that is known to be well formed.
fn nibble(chars: &Vec<char>, k: usize) -> (res: u8)
    requires
        is_hex_literal(chars@),
        k < 2 * ADDRESS_LENGTH,
    ensures
        res as int == literal_nibble(chars@, k as int),
        res < 16,
{
    let pad: usize = 2 + 2 * ADDRESS_LENGTH - chars.len();
    if k < pad {
        0u8
    } else {
        let c = chars[k - pad + 2];
        match hex_digit(c) {
            Some(v) => v,
            None => 0u8,
        }
    }
}

impl View for Address {
    type V = Seq<u8>;

    open spec fn view(&self) -> Seq<u8> {
        self.bytes@
    }
}

/// The address with the given 32 bytes.
pub open spec fn address_of(bytes: Seq<u8>) -> Address {
    choose|a: Address| a@ == bytes
}

/// The bytes of the address that stands for a small number: zeros, and the
/// number in the last byte.
pub open spec fn small_address_bytes(last: u8) -> Seq<u8> {
    Seq::new(32, |i: int| if i == 31 { last } else { 0u8 })
}

impl Address {
    /// An address is the address of its bytes.
    pub proof fn lemma_address_of_bytes(a: Address)
        ensures
            address_of(a@) == a,
    {
        Self::lemma_bytes_determine_address(a, address_of(a@));
    }

    /// The address that stands for a small number, as the well-known
    /// objects of the ledger have it.
    pub fn small(last: u8) -> (res: Address)
        ensures
            res == address_of(small_address_bytes(last)),
            res@ == small_address_bytes(last),
    {
        let mut bytes: [u8; 32] = [0u8; 32];
        bytes.set(31, last);
        assert(bytes@ =~= small_address_bytes(last));
        let res = Address { bytes };
        proof {
            Self::lemma_address_of_bytes(res);
        }
        res
    }

    /// Two addresses with the same bytes are the same address.
    pub proof fn lemma_bytes_determine_address(a: Address, b: Address)
        requires
            a@ == b@,
        ensures
            a == b,
    {
        vstd::array::axiom_array_ext_equal(a.bytes, b.bytes);
        assert(a.bytes@ =~= b.bytes@);
        assert(a.bytes =~= b.bytes);
    }

    /// Reads an address from a buffer.  A buffer of exactly 32 bytes is taken
    /// as it stands; one of any other length is no address.
    pub fn from_bytes(bytes: &[u8]) -> (res: Option<Address>)
        ensures
            res is Some <==> bytes@.len() == ADDRESS_LENGTH,
            res matches Some(a) ==> a@ == bytes@,
    {
        if bytes.len() != ADDRESS_LENGTH {
            return None;
        }
        let mut out: [u8; 32] = [0u8; 32];
        let mut i: usize = 0;
        while i < ADDRESS_LENGTH
            invariant
                i <= ADDRESS_LENGTH,
                bytes@.len() == ADDRESS_LENGTH,
                forall|j: int| 0 <= j < i ==> out@[j] == bytes@[j],
            decreases ADDRESS_LENGTH - i,
        {
            out.set(i, bytes[i]);
            i = i + 1;
        }
        assert(out@ =~= bytes@);
        Some(Address { bytes: out })
    }

    /// Reads an address from a hexadecimal literal: `0x` and at most 64
    /// hexadecimal digits, upper or lower case.  A shorter literal stands
    /// for the address with zeros in front.
    pub fn from_hex_literal(literal: &str) -> (res: Option<Address>)
        ensures
            res is Some <==> is_hex_literal(literal@),
            res matches Some(a) ==> a@ == literal_bytes(literal@),
    {
        let chars = chars_of(literal);
        if chars.len() < 2 || chars.len() > 2 + 2 * ADDRESS_LENGTH {
            return None;
        }
        if chars[0] != '0' || chars[1] != 'x' {
            return None;
        }
        let mut p: usize = 2;
        while p < chars.len()
            invariant
                chars@ == literal@,
                2 <= p <= chars@.len(),
                forall|i: int| 2 <= i < p ==> hex_value(#[trigger] chars@[i]) is Some,
            decreases chars@.len() - p,
        {
            if hex_digit(chars[p]).is_none() {
                assert(hex_value(chars@[p as int]) is None);
                return None;
            }
            p = p + 1;
        }
        let mut out: [u8; 32] = [0u8; 32];
        let mut i: usize = 0;
        while i < ADDRESS_LENGTH
            invariant
                i <= ADDRESS_LENGTH,
                is_hex_literal(chars@),
                forall|j: int| 0 <= j < i ==> out@[j] == literal_bytes(chars@)[j],
            decreases ADDRESS_LENGTH - i,
        {
            let high = nibble(&chars, 2 * i);
            let low = nibble(&chars, 2 * i + 1);
            out.set(i, 16 * high + low);
            i = i + 1;
        }
        assert(out@ =~= literal_bytes(chars@));
        Some(Address { bytes: out })
    }

    /// The 32 bytes of the address, in order.
    pub fn to_vec(&self) -> (res: Vec<u8>)
        ensures
            res@ == self@,
    {
        let mut out: Vec<u8> = Vec::new();
        let mut i: usize = 0;
        while i < ADDRESS_LENGTH
            invariant
                i <= ADDRESS_LENGTH,
                out@.len() == i,
                forall|j: int| 0 <= j < i ==> out@[j] == self.bytes@[j],
            decreases ADDRESS_LENGTH - i,
        {
            out.push(self.bytes[i]);
            i = i + 1;
        }
        assert(out@ =~= self@);
        out
    }
}

impl PartialEq for Address {
    fn eq(&self, other: &Address) -> (res: bool) {
        let mut i: usize = 0;
        while i < ADDRESS_LENGTH
            invariant
                i <= ADDRESS_LENGTH,
                forall|j: int| 0 <= j < i ==> self.bytes@[j] == other.bytes@[j],
            decreases ADDRESS_LENGTH - i,
        {
            if self.bytes[i] != other.bytes[i] {
                return false;
            }
            i = i + 1;
        }
        assert(self.bytes@ =~= other.bytes@);
        true
    }
}

impl PartialEqSpecImpl for Address {
    open spec fn obeys_eq_spec() -> bool {
        true
    }

    open spec fn eq_spec(&self, other: &Address) -> bool {
        self@ == other@
    }
}

/// A reference to one version of an object: its identifier, the version
/// counter and the fingerprint of its contents at that version.
#[derive(Clone, Copy, Debug, PartialEq, Eq)]
pub struct ObjectReference {
    pub id: Address,
    pub version: u64,
    pub digest: [u8; 32],
}

/// How an object is handed to a call.
#[derive(Clone, Copy, Debug, PartialEq, Eq)]
pub enum ObjectArgument {
    /// An owned or frozen object, named by exact version and fingerprint.
    ImmOrOwned(ObjectReference),
    /// A shared object, with the version under which it is named: the one
    /// at which it became shared or, where a fresher reference is at hand,
    /// its current one.
    Shared { id: Address, initial_shared_version: u64, mutable: bool },
}

/// One argument of a contract call.
#[derive(Clone, Debug, PartialEq, Eq)]
pub enum CallArgument {
    /// A value in its canonical binary encoding.
    Pure(Vec<u8>),
    /// An object, with the kind of reference it is passed by.
    Object(ObjectArgument),
}

/// Mathematical model of a [`CallArgument`].
pub ghost enum CallArgumentView {
    Pure(Seq<u8>),
    Object(ObjectArgument),
}

impl View for CallArgument {
    type V = CallArgumentView;

    open spec fn view(&self) -> CallArgumentView {
        match self {
            CallArgument::Pure(bytes) => CallArgumentView::Pure(bytes@),
            CallArgument::Object(object) => CallArgumentView::Object(*object),
        }
    }
}

/// The models of a list of arguments, in order.
pub open spec fn arguments_view(arguments: Seq<CallArgument>) -> Seq<CallArgumentView> {
    Seq::new(arguments.len(), |i: int| arguments[i]@)
}

impl CallArgument {
    /// A copy with the same model.
    pub fn duplicate(&self) -> (res: CallArgument)
        ensures
            res@ == self@,
    {
        match self {
            CallArgument::Pure(bytes) => CallArgument::Pure(bytes.clone()),
            CallArgument::Object(object) => CallArgument::Object(*object),
        }
    }
}

/// Copies a list of arguments, keeping order and models.
pub fn duplicate_arguments(arguments: &Vec<CallArgument>) -> (res: Vec<CallArgument>)
    ensures
        arguments_view(res@) == arguments_view(arguments@),
{
    let mut out: Vec<CallArgument> = Vec::new();
    let mut i: usize = 0;
    while i < arguments.len()
        invariant
            i <= arguments@.len(),
            out@.len() == i,
            forall|j: int| 0 <= j < i ==> out@[j]@ == arguments@[j]@,
        decreases arguments@.len() - i,
    {
        out.push(arguments[i].duplicate());
        i = i + 1;
    }
    assert(arguments_view(out@) =~= arguments_view(arguments@));
    out
}

/// A call of one function of a published contract module.
#[derive(Clone, Debug, PartialEq, Eq)]
pub struct MoveCall {
    pub package: Address,
    pub module: String,
    pub function: String,
    pub arguments: Vec<CallArgument>,
}

/// Mathematical model of a [`MoveCall`].
pub ghost struct MoveCallView {
    pub package: Address,
    pub module: Seq<char>,
    pub function: Seq<char>,
    pub arguments: Seq<CallArgumentView>,
}

impl View for MoveCall {
    type V = MoveCallView;

    open spec fn view(&self) -> MoveCallView {
        MoveCallView {
            package: self.package,
            module: self.module@,
            function: self.function@,
            arguments: arguments_view(self.arguments@),
        }
    }
}

impl MoveCall {
    /// A copy with the same model.
    pub fn duplicate(&self) -> (res: MoveCall)
        ensures
            res@ == self@,
    {
        MoveCall {
            package: self.package,
            module: self.module.clone(),
            function: self.function.clone(),
            arguments: duplicate_arguments(&self.arguments),
        }
    }
}

/// One queued unit of work of a transaction.
#[derive(Clone, Debug, PartialEq, Eq)]
pub enum PendingOperation {
    /// A contract call.
    Call(MoveCall),
    /// A transfer of native currency out of the funding object.
    TransferSui { recipient: Address, amount: u64 },
    /// A transfer of an owned object.
    TransferObject { recipient: Address, object: ObjectReference },
}

/// Mathematical model of a [`PendingOperation`].
pub ghost enum PendingOperationView {
    Call(MoveCallView),
    TransferSui { recipient: Address, amount: u64 },
    TransferObject { recipient: Address, object: ObjectReference },
}

impl View for PendingOperation {
    type V = PendingOperationView;

    open spec fn view(&self) -> PendingOperationView {
        match self {
            PendingOperation::Call(call) => PendingOperationView::Call(call@),
            PendingOperation::TransferSui { recipient, amount } => PendingOperationView::TransferSui {
                recipient: *recipient,
                amount: *amount,
            },
            PendingOperation::TransferObject { recipient, object } => {
                PendingOperationView::TransferObject { recipient: *recipient, object: *object }
            },
        }
    }
}

/// The models of a list of operations, in order.
pub open spec fn operations_view(operations: Seq<PendingOperation>) -> Seq<PendingOperationView> {
    Seq::new(operations.len(), |i: int| operations[i]@)
}

impl PendingOperation {
    /// A copy with the same model.
    pub fn duplicate(&self) -> (res: PendingOperation)
        ensures
            res@ == self@,
    {
        match self {
            PendingOperation::Call(call) => PendingOperation::Call(call.duplicate()),
            PendingOperation::TransferSui { recipient, amount } => PendingOperation::TransferSui {
                recipient: *recipient,
                amount: *amount,
            },
            PendingOperation::TransferObject { recipient, object } => {
                PendingOperation::TransferObject { recipient: *recipient, object: *object }
            },
        }
    }
}

/// Copies a list of operations, keeping order and models.
pub fn duplicate_operations(operations: &Vec<PendingOperation>) -> (res: Vec<PendingOperation>)
    ensures
        operations_view(res@) == operations_view(operations@),
{
    let mut out: Vec<PendingOperation> = Vec::new();
    let mut i: usize = 0;
    while i < operations.len()
        invariant
            i <= operations@.len(),
            out@.len() == i,
            forall|j: int| 0 <= j < i ==> out@[j]@ == operations@[j]@,
        decreases operations@.len() - i,
    {
        out.push(operations[i].duplicate());
        i = i + 1;
    }
    assert(operations_view(out@) =~= operations_view(operations@));
    out
}

/// A transaction ready to be signed or simulated.
#[derive(Clone, Debug, PartialEq, Eq)]
pub struct TransactionPayload {
    pub sender: Address,
    /// The object that pays; a simulation that moves no funds names none.
    pub gas_payment: Option<ObjectReference>,
    pub operations: Vec<PendingOperation>,
    pub gas_price: u64,
    pub gas_budget: u64,
}

impl TransactionPayload {
    /// A copy with the same model.
    pub fn duplicate(&self) -> (res: TransactionPayload)
        ensures
            res@ == self@,
    {
        TransactionPayload {
            sender: self.sender,
            gas_payment: self.gas_payment,
            operations: duplicate_operations(&self.operations),
            gas_price: self.gas_price,
            gas_budget: self.gas_budget,
        }
    }
}

/// Mathematical model of a [`TransactionPayload`].
pub ghost struct TransactionPayloadView {
    pub sender: Address,
    pub gas_payment: Option<ObjectReference>,
    pub operations: Seq<PendingOperationView>,
    pub gas_price: u64,
    pub gas_budget: u64,
}

impl View for TransactionPayload {
    type V = TransactionPayloadView;

    open spec fn view(&self) -> TransactionPayloadView {
        TransactionPayloadView {
            sender: self.sender,
            gas_payment: self.gas_payment,
            operations: operations_view(self.operations@),
            gas_price: self.gas_price,
            gas_budget: self.gas_budget,
        }
    }
}

} // verus!
