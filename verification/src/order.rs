use vstd::prelude::*;
use vstd::utf8::encode_utf8;

verus! {

/// A product name is acceptable when it is non-empty and at most 300 bytes
/// long in its UTF-8 encoding.
pub open spec fn valid_product_name(name: Seq<char>) -> bool {
    0 < encode_utf8(name).len() <= 300
}

/// An order line: a validated product name, a strictly positive quantity and
/// a strictly positive unit price in cents. The constructor and the setters
/// refuse any value that would break these rules, so every order that can be
/// obtained is well formed.
#[derive(Debug)]
pub struct Order {
    product_name: String,
    quantity: u32,
    unit_price: u32,
}

impl Order {
    pub closed spec fn spec_product_name(&self) -> Seq<char> {
        self.product_name@
    }

    pub closed spec fn spec_quantity(&self) -> u32 {
        self.quantity
    }

    pub closed spec fn spec_unit_price(&self) -> u32 {
        self.unit_price
    }

    pub open spec fn wf(&self) -> bool {
        &&& valid_product_name(self.spec_product_name())
        &&& self.spec_quantity() > 0
        &&& self.spec_unit_price() > 0
    }

    /// Builds an order, or refuses with `None` exactly when the product name
    /// is empty or longer than 300 bytes, the quantity is zero, or the unit
    /// price is zero.
    pub fn new(product_name: String, quantity: u32, unit_price: u32) -> (r: Option<Order>)
        ensures
            r is Some <==> (valid_product_name(product_name@) && quantity > 0 && unit_price > 0),
            r matches Some(order) ==> {
                &&& order.spec_product_name() == product_name@
                &&& order.spec_quantity() == quantity
                &&& order.spec_unit_price() == unit_price
                &&& order.wf()
            },
    {
        let name_len = product_name.as_str().as_bytes().len();
        if name_len == 0 || name_len > 300 || quantity == 0 || unit_price == 0 {
            return None;
        }
        Some(Order { product_name, quantity, unit_price })
    }

    pub fn product_name(&self) -> (name: &str)
        ensures
            name@ == self.spec_product_name(),
    {
        self.product_name.as_str()
    }

    /// Replaces the product name if the new one is acceptable; reports
    /// whether it did. A refused name leaves the order untouched.
    pub fn set_product_name(&mut self, product_name: String) -> (ok: bool)
        ensures
            ok <==> valid_product_name(product_name@),
            ok ==> final(self).spec_product_name() == product_name@,
            !ok ==> *final(self) == *old(self),
            final(self).spec_quantity() == old(self).spec_quantity(),
            final(self).spec_unit_price() == old(self).spec_unit_price(),
            old(self).wf() ==> final(self).wf(),
    {
        let name_len = product_name.as_str().as_bytes().len();
        if name_len == 0 || name_len > 300 {
            return false;
        }
        self.product_name = product_name;
        true
    }

    pub fn quantity(&self) -> (q: u32)
        ensures
            q == self.spec_quantity(),
    {
        self.quantity
    }

    /// Replaces the quantity if the new one is strictly positive; reports
    /// whether it did. A refused quantity leaves the order untouched.
    pub fn set_quantity(&mut self, quantity: u32) -> (ok: bool)
        ensures
            ok <==> quantity > 0,
            ok ==> final(self).spec_quantity() == quantity,
            !ok ==> *final(self) == *old(self),
            final(self).spec_product_name() == old(self).spec_product_name(),
            final(self).spec_unit_price() == old(self).spec_unit_price(),
            old(self).wf() ==> final(self).wf(),
    {
        if quantity == 0 {
            return false;
        }
        self.quantity = quantity;
        true
    }

    pub fn unit_price(&self) -> (p: u32)
        ensures
            p == self.spec_unit_price(),
    {
        self.unit_price
    }

    /// Replaces the unit price if the new one is strictly positive; reports
    /// whether it did. A refused price leaves the order untouched.
    pub fn set_unit_price(&mut self, unit_price: u32) -> (ok: bool)
        ensures
            ok <==> unit_price > 0,
            ok ==> final(self).spec_unit_price() == unit_price,
            !ok ==> *final(self) == *old(self),
            final(self).spec_product_name() == old(self).spec_product_name(),
            final(self).spec_quantity() == old(self).spec_quantity(),
            old(self).wf() ==> final(self).wf(),
    {
        if unit_price == 0 {
            return false;
        }
        self.unit_price = unit_price;
        true
    }

    /// The total price of the order in cents: quantity times unit price. The
    /// caller keeps the product inside the 32-bit range.
    pub fn total(&self) -> (t: u32)
        requires
            self.spec_quantity() * self.spec_unit_price() <= u32::MAX,
        ensures
            t == self.spec_quantity() * self.spec_unit_price(),
    {
        self.quantity * self.unit_price
    }
}

} // verus!
