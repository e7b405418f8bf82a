//! The sale record, the one value that travels through the relay.

use vstd::prelude::*;

verus! {

/// One sale, as the caller reported it.
///
/// The relay reads none of the fields: it carries them. The price is held as
/// the bit pattern of its IEEE 754 double, so that the value that leaves is
/// the value that came in, bit for bit. Neither the sign of the price nor that
/// of the quantity is checked.
#[derive(Clone, Debug, PartialEq, Eq)]
pub struct SaleRecord {
    pub category: String,
    pub product_id: String,
    pub price_bits: u64,
    pub quantity_sold: i32,
}

/// The mathematical content of a [`SaleRecord`].
pub struct SaleRecordView {
    pub category: Seq<char>,
    pub product_id: Seq<char>,
    pub price_bits: u64,
    pub quantity_sold: i32,
}

impl View for SaleRecord {
    type V = SaleRecordView;

    open spec fn view(&self) -> SaleRecordView {
        SaleRecordView {
            category: self.category@,
            product_id: self.product_id@,
            price_bits: self.price_bits,
            quantity_sold: self.quantity_sold,
        }
    }
}

} // verus!
