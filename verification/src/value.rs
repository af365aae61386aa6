//! The values that go into and come out of a libSQL database.

use vstd::prelude::*;

verus! {

/// A value of a libSQL column or statement parameter.
///
/// A `Real` is held by the bit pattern of its IEEE 754 double.
#[derive(Debug, PartialEq, Eq)]
pub enum LibsqlValue {
    Null,
    Integer(i64),
    Real(u64),
    Text(String),
    Blob(Vec<u8>),
}

/// What a [`LibsqlValue`] stands for.
#[verifier::ext_equal]
pub enum SqlView {
    Null,
    Integer(i64),
    Real(u64),
    Text(Seq<char>),
    Blob(Seq<u8>),
}

impl View for LibsqlValue {
    type V = SqlView;

    open spec fn view(&self) -> SqlView {
        match self {
            LibsqlValue::Null => SqlView::Null,
            LibsqlValue::Integer(i) => SqlView::Integer(*i),
            LibsqlValue::Real(bits) => SqlView::Real(*bits),
            LibsqlValue::Text(text) => SqlView::Text(text@),
            LibsqlValue::Blob(bytes) => SqlView::Blob(bytes@),
        }
    }
}

/// The views of `values`, in their order.
pub open spec fn sql_views(values: Seq<LibsqlValue>) -> Seq<SqlView> {
    values.map_values(|v: LibsqlValue| v@)
}

impl Clone for LibsqlValue {
    fn clone(&self) -> (copy: Self)
        ensures
            copy@ == self@,
    {
        match self {
            LibsqlValue::Null => LibsqlValue::Null,
            LibsqlValue::Integer(i) => LibsqlValue::Integer(*i),
            LibsqlValue::Real(bits) => LibsqlValue::Real(*bits),
            LibsqlValue::Text(text) => LibsqlValue::Text(text.clone()),
            LibsqlValue::Blob(bytes) => {
                let copy = bytes.clone();
                assert(copy@ =~= bytes@);
                LibsqlValue::Blob(copy)
            },
        }
    }
}

/// Whether the double with this bit pattern is neither infinite nor a NaN: its
/// eleven exponent bits are not all set.
pub open spec fn is_finite(bits: u64) -> bool {
    (bits / 0x10_0000_0000_0000) % 0x800 != 0x7ff
}

/// The double with this bit pattern in decimal, as Rust displays it.
pub uninterp spec fn real_text(bits: u64) -> Seq<char>;

/// `to_string` through the `Display` of `zerocopy`'s `F64`, which displays the double
/// that its bytes hold: the text depends on the bit pattern alone, and is named [`real_text`].
#[verifier::external_body]
pub(crate) fn real_to_text(bits: u64) -> (text: String)
    ensures
        text@ == real_text(bits),
{
    zerocopy::little_endian::F64::from_bytes(bits.to_le_bytes()).to_string()
}

} // verus!
