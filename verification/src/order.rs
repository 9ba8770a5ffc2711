//! Purchase orders: a named product, a positive quantity, and a positive
//! unit price in cents.

use vstd::prelude::*;

verus! {

use vstd::utf8::encode_utf8;

/// An order for a quantity of one product at a fixed unit price (in
/// cents). The product name is never empty and its UTF-8 encoding fits
/// in 300 bytes; quantity and unit price are strictly positive.
pub struct Order {
    product_name: String,
    quantity: u32,
    unit_price: u32,
}

impl Order {
    /// The characters of the product name.
    pub closed spec fn name_spec(self) -> Seq<char> {
        self.product_name@
    }

    /// The number of units ordered.
    pub closed spec fn quantity_spec(self) -> u32 {
        self.quantity
    }

    /// The price of one unit, in cents.
    pub closed spec fn unit_price_spec(self) -> u32 {
        self.unit_price
    }

    /// A product name is acceptable when it is non-empty and its UTF-8
    /// encoding is at most 300 bytes long.
    pub open spec fn acceptable_name(name: Seq<char>) -> bool {
        0 < name.len() && encode_utf8(name).len() <= 300
    }

    /// Every constructed order keeps these bounds on its fields.
    pub open spec fn wf(self) -> bool {
        &&& Self::acceptable_name(self.name_spec())
        &&& self.quantity_spec() > 0
        &&& self.unit_price_spec() > 0
    }

    pub fn new(product_name: String, quantity: u32, unit_price: u32) -> (order: Order)
        requires
            Self::acceptable_name(product_name@),
            quantity > 0,
            unit_price > 0,
        ensures
            order.wf(),
            order.name_spec() == product_name@,
            order.quantity_spec() == quantity,
            order.unit_price_spec() == unit_price,
    {
        Order { product_name, quantity, unit_price }
    }

    pub fn set_product_name(&mut self, product_name: String)
        requires
            Self::acceptable_name(product_name@),
        ensures
            final(self).name_spec() == product_name@,
            final(self).quantity_spec() == old(self).quantity_spec(),
            final(self).unit_price_spec() == old(self).unit_price_spec(),
    {
        self.product_name = product_name;
    }

    pub fn set_quantity(&mut self, quantity: u32)
        requires
            quantity > 0,
        ensures
            final(self).quantity_spec() == quantity,
            final(self).name_spec() == old(self).name_spec(),
            final(self).unit_price_spec() == old(self).unit_price_spec(),
    {
        self.quantity = quantity;
    }

    pub fn set_unit_price(&mut self, unit_price: u32)
        requires
            unit_price > 0,
        ensures
            final(self).unit_price_spec() == unit_price,
            final(self).name_spec() == old(self).name_spec(),
            final(self).quantity_spec() == old(self).quantity_spec(),
    {
        self.unit_price = unit_price;
    }

    pub fn product_name(&self) -> (name: &String)
        ensures
            name@ == self.name_spec(),
    {
        &self.product_name
    }

    pub fn quantity(&self) -> (quantity: u32)
        ensures
            quantity == self.quantity_spec(),
    {
        self.quantity
    }

    pub fn unit_price(&self) -> (unit_price: u32)
        ensures
            unit_price == self.unit_price_spec(),
    {
        self.unit_price
    }

    /// The total price of the order: unit price times quantity.
    pub fn total(&self) -> (total: u32)
        requires
            self.unit_price_spec() * self.quantity_spec() <= u32::MAX,
        ensures
            total == self.unit_price_spec() * self.quantity_spec(),
    {
        self.unit_price * self.quantity
    }
}

} // verus!
