//! Records of the content store that node construction reads and writes.
use vstd::prelude::*;

use crate::expr::Expr;

verus! {

/// A content hash, as the raw bytes that the store hands out.
#[derive(Debug, PartialEq, Eq)]
pub struct ContentHash {
    pub bytes: Vec<u8>,
}

impl View for ContentHash {
    type V = Seq<u8>;

    open spec fn view(&self) -> Seq<u8> {
        self.bytes@
    }
}

/// Copies a byte vector.
pub fn copy_bytes(b: &Vec<u8>) -> (r: Vec<u8>)
    ensures
        r@ == b@,
{
    let r = b.clone();
    assert(r@ =~= b@);
    r
}

/// Whether two byte vectors hold the same bytes.
pub fn bytes_equal(a: &Vec<u8>, b: &Vec<u8>) -> (r: bool)
    ensures
        r == (a@ == b@),
{
    if a.len() != b.len() {
        return false;
    }
    let mut i: usize = 0;
    while i < a.len()
        invariant
            a.len() == b.len(),
            0 <= i <= a.len(),
            forall|j: int| 0 <= j < i ==> a@[j] == b@[j],
        decreases a.len() - i,
    {
        if a[i] != b[i] {
            return false;
        }
        i = i + 1;
    }
    assert(a@ =~= b@);
    true
}

impl ContentHash {
    pub fn copy(&self) -> (r: ContentHash)
        ensures
            r@ == self@,
    {
        ContentHash { bytes: copy_bytes(&self.bytes) }
    }
}

/// A generalized type, in the canonical encoding of its normalized form: two
/// schemes are the same exactly when their encodings are.
#[derive(Debug, PartialEq, Eq)]
pub struct Scheme {
    pub encoded: Vec<u8>,
}

impl View for Scheme {
    type V = Seq<u8>;

    open spec fn view(&self) -> Seq<u8> {
        self.encoded@
    }
}

impl Scheme {
    pub fn copy(&self) -> (r: Scheme)
        ensures
            r@ == self@,
    {
        Scheme { encoded: copy_bytes(&self.encoded) }
    }

    /// Whether the two schemes are the same.
    pub fn same_as(&self, other: &Scheme) -> (r: bool)
        ensures
            r == (self@ == other@),
    {
        bytes_equal(&self.encoded, &other.encoded)
    }
}

/// A value in its canonical serialized form: two values are the same exactly
/// when their encodings are.
#[derive(Debug, PartialEq, Eq)]
pub struct FlatValue {
    pub encoded: Vec<u8>,
}

impl View for FlatValue {
    type V = Seq<u8>;

    open spec fn view(&self) -> Seq<u8> {
        self.encoded@
    }
}

impl FlatValue {
    pub fn copy(&self) -> (r: FlatValue)
        ensures
            r@ == self@,
    {
        FlatValue { encoded: copy_bytes(&self.encoded) }
    }

    /// Whether the two values are the same.
    pub fn same_as(&self, other: &FlatValue) -> (r: bool)
        ensures
            r == (self@ == other@),
    {
        bytes_equal(&self.encoded, &other.encoded)
    }
}

/// What an operand refers to.
#[derive(Debug, PartialEq, Eq)]
pub enum SensemakerOperand {
    /// A published computation node.
    SensemakerOperand(ContentHash),
    /// A value of another kind; no builder accepts these yet.
    OtherOperand(ContentHash),
}

pub enum OperandView {
    Node(Seq<u8>),
    Other(Seq<u8>),
}

impl View for SensemakerOperand {
    type V = OperandView;

    open spec fn view(&self) -> OperandView {
        match self {
            SensemakerOperand::SensemakerOperand(h) => OperandView::Node(h@),
            SensemakerOperand::OtherOperand(h) => OperandView::Other(h@),
        }
    }
}

impl SensemakerOperand {
    pub fn copy(&self) -> (r: SensemakerOperand)
        ensures
            r@ == self@,
    {
        match self {
            SensemakerOperand::SensemakerOperand(h) => SensemakerOperand::SensemakerOperand(h.copy()),
            SensemakerOperand::OtherOperand(h) => SensemakerOperand::OtherOperand(h.copy()),
        }
    }
}

/// The views of a sequence of operands.
pub open spec fn operand_views(ops: Seq<SensemakerOperand>) -> Seq<OperandView> {
    ops.map_values(|o: SensemakerOperand| o@)
}

/// Copies a list of operands.
pub fn copy_operands(ops: &Vec<SensemakerOperand>) -> (r: Vec<SensemakerOperand>)
    ensures
        operand_views(r@) == operand_views(ops@),
{
    let mut r: Vec<SensemakerOperand> = Vec::new();
    let mut i: usize = 0;
    while i < ops.len()
        invariant
            0 <= i <= ops.len(),
            r.len() == i,
            forall|j: int| 0 <= j < i ==> r@[j]@ == ops@[j]@,
        decreases ops.len() - i,
    {
        r.push(ops[i].copy());
        i = i + 1;
    }
    assert(operand_views(r@) =~= operand_views(ops@));
    r
}

/// A computation node: an operator applied to operands, with the type and
/// value of that application and the gas left after evaluating it.
#[derive(Debug, PartialEq, Eq)]
pub struct SensemakerEntry {
    pub operator: Expr,
    pub operands: Vec<SensemakerOperand>,
    pub output_scheme: Scheme,
    pub output_flat_value: FlatValue,
    pub start_gas: u64,
}

pub struct EntryView {
    pub operator: Expr,
    pub operands: Seq<OperandView>,
    pub output_scheme: Seq<u8>,
    pub output_flat_value: Seq<u8>,
    pub start_gas: u64,
}

impl View for SensemakerEntry {
    type V = EntryView;

    open spec fn view(&self) -> EntryView {
        EntryView {
            operator: self.operator,
            operands: operand_views(self.operands@),
            output_scheme: self.output_scheme@,
            output_flat_value: self.output_flat_value@,
            start_gas: self.start_gas,
        }
    }
}

impl SensemakerEntry {
    pub fn copy(&self) -> (r: SensemakerEntry)
        ensures
            r@ == self@,
    {
        SensemakerEntry {
            operator: self.operator.copy(),
            operands: copy_operands(&self.operands),
            output_scheme: self.output_scheme.copy(),
            output_flat_value: self.output_flat_value.copy(),
            start_gas: self.start_gas,
        }
    }
}

/// An operator and the operands to apply it to: what a caller asks to have built.
#[derive(Debug, PartialEq, Eq)]
pub struct CreateSensemakerEntryInput {
    pub expr: Expr,
    pub args: Vec<SensemakerOperand>,
}

} // verus!
