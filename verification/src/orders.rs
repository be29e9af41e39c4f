use vstd::prelude::*;

use crate::error::{ErrorKind, RequestError};
use crate::ids::{
    hyphenated_text, id_simple_text, id_text, lemma_hex_digits_len, new_time_ordered_id, simple_text,
};
use crate::time::{compact_timestamp, format_compact, utc_now};
use crate::text::{lowercase, trimmed};
use crate::validation::{
    email_shape, law_contact_texts_meaning, law_required_text_meaning, phone_shape,
    email_outcome, err_view, normalized_email, optional_outcome, optional_text_result_is,
    phone_number, phone_outcome, positive_i32, positive_message, required_outcome,
    trimmed_optional, trimmed_required,
};
use crate::auth::opt_view;

verus! {

/// The status of an order that is still a cart.
pub fn draft_status() -> (r: &'static str)
    ensures
        r@ == "draft"@,
{
    "draft"
}

/// The status an order takes at checkout.
pub fn awaiting_payment_status() -> (r: &'static str)
    ensures
        r@ == "awaiting_payment"@,
{
    "awaiting_payment"
}

/// A text field result: the wrapped text is the outcome's text.
pub open spec fn wrapped_is<T>(r: Result<T, RequestError>, text: spec_fn(T) -> Seq<char>, o: Result<Seq<char>, (ErrorKind, Seq<char>)>) -> bool {
    match o {
        Ok(t) => r matches Ok(v) && text(v) == t,
        Err(ev) => r matches Err(e) && err_view(e) == ev,
    }
}

/// The name of the person an order is for.
#[derive(Debug)]
pub struct ContactFullName(pub String);

impl ContactFullName {
    pub fn try_from(value: String) -> (r: Result<ContactFullName, RequestError>)
        ensures
            wrapped_is(r, |v: ContactFullName| v.0@, required_outcome(value@, "contact_name"@, 3, 255)),
    {
        Ok(ContactFullName(trimmed_required(value.as_str(), "contact_name", 3, 255)?))
    }
}

/// The contact phone of an order.
#[derive(Debug)]
pub struct PhoneNumber(pub String);

impl PhoneNumber {
    pub fn try_from(value: String) -> (r: Result<PhoneNumber, RequestError>)
        ensures
            wrapped_is(r, |v: PhoneNumber| v.0@, phone_outcome(value@, "contact_phone"@)),
    {
        Ok(PhoneNumber(phone_number(value.as_str(), "contact_phone")?))
    }
}

/// The contact e-mail of an order.
#[derive(Debug)]
pub struct EmailAddress(pub String);

impl EmailAddress {
    pub fn try_from(value: String) -> (r: Result<EmailAddress, RequestError>)
        ensures
            wrapped_is(r, |v: EmailAddress| v.0@, email_outcome(value@, "contact_email"@)),
    {
        Ok(EmailAddress(normalized_email(value.as_str(), "contact_email")?))
    }
}

/// The delivery address of an order.
#[derive(Debug)]
pub struct PostalAddress(pub String);

impl PostalAddress {
    pub fn try_from(value: String) -> (r: Result<PostalAddress, RequestError>)
        ensures
            wrapped_is(r, |v: PostalAddress| v.0@, required_outcome(value@, "delivery_address"@, 5, 500)),
    {
        Ok(PostalAddress(trimmed_required(value.as_str(), "delivery_address", 5, 500)?))
    }
}

/// The status code an employee moves an order to.
#[derive(Debug)]
pub struct OrderStatusCode(pub String);

impl OrderStatusCode {
    pub fn try_from(value: String) -> (r: Result<OrderStatusCode, RequestError>)
        ensures
            wrapped_is(r, |v: OrderStatusCode| v.0@, required_outcome(value@, "status_code"@, 3, 64)),
    {
        Ok(OrderStatusCode(trimmed_required(value.as_str(), "status_code", 3, 64)?))
    }
}

/// The number an order receives at checkout.
#[derive(Debug)]
pub struct OrderNumber(pub String);

/// "ORD-`timestamp`-`first eight digits of the id`".
pub open spec fn order_number_text(timestamp: Seq<char>, id_hex: Seq<char>) -> Seq<char> {
    "ORD-"@ + timestamp + "-"@ + id_hex.take(8)
}

impl OrderNumber {
    /// Builds an order number from a timestamp text and the hex digits of an id.
    pub fn compose(timestamp: &str, id_hex: &str) -> (r: OrderNumber)
        requires
            id_hex@.len() >= 8,
        ensures
            r.0@ == order_number_text(timestamp@, id_hex@),
    {
        let mut s = String::from_str("ORD-");
        s.append(timestamp);
        s.append("-");
        let head = id_hex.substring_char(0, 8);
        proof {
            assert(id_hex@.subrange(0, 8) =~= id_hex@.take(8));
        }
        s.append(head);
        OrderNumber(s)
    }

    /// Numbers an order from the clock (`%Y%m%d%H%M%S` in UTC) and the first
    /// eight hex digits of a fresh time-ordered id.
    pub fn generate() -> (r: OrderNumber)
        ensures
            exists|secs: i64, id: u128| r.0@ == order_number_text(compact_timestamp(secs), simple_text(id)),
    {
        let now = utc_now();
        let stamp = format_compact(now.secs);
        let id = new_time_ordered_id();
        let hex = id_simple_text(id);
        proof {
            lemma_hex_digits_len(id as nat, 32);
        }
        let r = OrderNumber::compose(stamp.as_str(), hex.as_str());
        proof {
            assert(r.0@ == order_number_text(compact_timestamp(now.secs), simple_text(id)));
        }
        r
    }
}

/// The placeholder number of a draft order: "DRAFT-" and an id in its
/// hyphenated form.
pub open spec fn draft_number_text(id: u128) -> Seq<char> {
    "DRAFT-"@ + hyphenated_text(id)
}

/// The placeholder number of the draft order that gets the given id.
pub fn draft_number_for(id: u128) -> (r: String)
    ensures
        r@ == draft_number_text(id),
{
    let mut s = String::from_str("DRAFT-");
    let t = id_text(id);
    s.append(t.as_str());
    s
}

/// A placeholder number for a new draft order, from a fresh time-ordered id.
pub fn draft_order_number() -> (r: String)
    ensures
        exists|id: u128| r@ == draft_number_text(id),
{
    let id = new_time_ordered_id();
    draft_number_for(id)
}

/// A service to put into the cart.
#[derive(Debug)]
pub struct AddServiceToCartRequest {
    pub service_id: u128,
    pub quantity: i32,
}

impl AddServiceToCartRequest {
    /// Accepts the request when the quantity is positive.
    pub fn validate(self) -> (r: Result<AddServiceToCartRequest, RequestError>)
        ensures
            self.quantity > 0 ==> (r matches Ok(v) && v.service_id == self.service_id && v.quantity == self.quantity),
            self.quantity <= 0 ==> (r matches Err(e) && e.is(ErrorKind::UnprocessableEntity, positive_message("quantity"@))),
    {
        positive_i32(self.quantity, "quantity")?;
        Ok(self)
    }
}

/// A product to put into the cart.
#[derive(Debug)]
pub struct AddProductToCartRequest {
    pub product_id: u128,
    pub quantity: i32,
}

impl AddProductToCartRequest {
    /// Accepts the request when the quantity is positive.
    pub fn validate(self) -> (r: Result<AddProductToCartRequest, RequestError>)
        ensures
            self.quantity > 0 ==> (r matches Ok(v) && v.product_id == self.product_id && v.quantity == self.quantity),
            self.quantity <= 0 ==> (r matches Err(e) && e.is(ErrorKind::UnprocessableEntity, positive_message("quantity"@))),
    {
        positive_i32(self.quantity, "quantity")?;
        Ok(self)
    }
}

/// The contact and delivery data given at checkout.
#[derive(Debug)]
pub struct CheckoutOrderRequest {
    pub contact_name: String,
    pub contact_phone: String,
    pub contact_email: String,
    pub delivery_address: String,
}

#[derive(Debug)]
pub struct CheckoutOrderRequestValid {
    pub contact_name: ContactFullName,
    pub contact_phone: PhoneNumber,
    pub contact_email: EmailAddress,
    pub delivery_address: PostalAddress,
}

/// The checked checkout fields (name, phone, e-mail, address), or the first
/// error in that order.
pub open spec fn checkout_outcome(name: Seq<char>, phone: Seq<char>, email: Seq<char>, address: Seq<char>) -> Result<
    (Seq<char>, Seq<char>, Seq<char>, Seq<char>),
    (ErrorKind, Seq<char>),
> {
    match required_outcome(name, "contact_name"@, 3, 255) {
        Err(ev) => Err(ev),
        Ok(n) => match phone_outcome(phone, "contact_phone"@) {
            Err(ev) => Err(ev),
            Ok(p) => match email_outcome(email, "contact_email"@) {
                Err(ev) => Err(ev),
                Ok(e) => match required_outcome(address, "delivery_address"@, 5, 500) {
                    Err(ev) => Err(ev),
                    Ok(a) => Ok((n, p, e, a)),
                },
            },
        },
    }
}

impl CheckoutOrderRequestValid {
    pub fn try_from(value: CheckoutOrderRequest) -> (r: Result<CheckoutOrderRequestValid, RequestError>)
        ensures
            match checkout_outcome(value.contact_name@, value.contact_phone@, value.contact_email@, value.delivery_address@) {
                Ok((n, p, e, a)) => r matches Ok(v) && v.contact_name.0@ == n && v.contact_phone.0@ == p
                    && v.contact_email.0@ == e && v.delivery_address.0@ == a,
                Err(ev) => r matches Err(err) && err_view(err) == ev,
            },
    {
        let contact_name = ContactFullName::try_from(value.contact_name)?;
        let contact_phone = PhoneNumber::try_from(value.contact_phone)?;
        let contact_email = EmailAddress::try_from(value.contact_email)?;
        let delivery_address = PostalAddress::try_from(value.delivery_address)?;
        Ok(CheckoutOrderRequestValid { contact_name, contact_phone, contact_email, delivery_address })
    }
}

/// An employee's move of an order to another status.
#[derive(Debug)]
pub struct EmployeeOrderStatusUpdateRequest {
    pub status_code: String,
    pub comment: Option<String>,
}

#[derive(Debug)]
pub struct EmployeeOrderStatusUpdateRequestValid {
    pub status_code: OrderStatusCode,
    pub comment: Option<String>,
}

impl EmployeeOrderStatusUpdateRequestValid {
    pub fn try_from(value: EmployeeOrderStatusUpdateRequest) -> (r: Result<EmployeeOrderStatusUpdateRequestValid, RequestError>)
        ensures
            match required_outcome(value.status_code@, "status_code"@, 3, 64) {
                Err(ev) => r matches Err(e) && err_view(e) == ev,
                Ok(code) => match optional_outcome(opt_view(value.comment), "comment"@, 2000) {
                    Err(ev) => r matches Err(e) && err_view(e) == ev,
                    Ok(c) => r matches Ok(v) && v.status_code.0@ == code && opt_view(v.comment) == c,
                },
            },
    {
        let status_code = OrderStatusCode::try_from(value.status_code)?;
        let comment = trimmed_optional(value.comment, "comment", 2000)?;
        Ok(EmployeeOrderStatusUpdateRequestValid { status_code, comment })
    }
}

/// The user's draft order, which must exist.
pub fn require_draft(found: Option<u128>) -> (r: Result<u128, RequestError>)
    ensures
        match found {
            Some(id) => r == Ok::<u128, RequestError>(id),
            None => r matches Err(e) && e.is(ErrorKind::NotFound, "draft order not found"@),
        },
{
    match found {
        Some(id) => Ok(id),
        None => Err(RequestError::not_found("draft order not found")),
    }
}

/// An order may be read only by the user who owns it.
pub fn ensure_order_owner(owner: u128, user: u128) -> (r: Result<(), RequestError>)
    ensures
        owner == user ==> r is Ok,
        owner != user ==> (r matches Err(e) && e.is(ErrorKind::Forbidden, "order does not belong to the current user"@)),
{
    if owner != user {
        return Err(RequestError::forbidden("order does not belong to the current user"));
    }
    Ok(())
}

/// Checkout needs a cart worth something: a total that is not positive
/// means the cart is empty.
pub fn checkout_gate(total_is_positive: bool) -> (r: Result<(), RequestError>)
    ensures
        total_is_positive ==> r is Ok,
        !total_is_positive ==> (r matches Err(e) && e.is(
            ErrorKind::UnprocessableEntity,
            "draft order must contain at least one item"@,
        )),
{
    if !total_is_positive {
        return Err(RequestError::unprocessable_entity("draft order must contain at least one item"));
    }
    Ok(())
}

/// Checkout accepts a request exactly when each field is acceptable on its
/// own (a name of 3 to 255 characters, a phone number, an e-mail address and
/// an address of 5 to 500 characters, all trimmed), and then keeps each
/// field's own trimmed text (the e-mail lowercased) in its own place.
pub proof fn law_checkout_keeps_given_fields(name: Seq<char>, phone: Seq<char>, email: Seq<char>, address: Seq<char>)
    ensures
        checkout_outcome(name, phone, email, address) is Ok <==> (3 <= trimmed(name).len() <= 255
            && phone_shape(trimmed(phone)) && email_shape(lowercase(trimmed(email))) && 5
            <= trimmed(address).len() <= 500),
        checkout_outcome(name, phone, email, address) matches Ok(t) ==> t == (
            trimmed(name),
            trimmed(phone),
            lowercase(trimmed(email)),
            trimmed(address),
        ),
{
    law_required_text_meaning(name, "contact_name"@, 3, 255);
    law_required_text_meaning(address, "delivery_address"@, 5, 500);
    law_contact_texts_meaning(phone, "contact_phone"@);
    law_contact_texts_meaning(email, "contact_email"@);
}

/// An order number is `ORD-`, the timestamp, `-` and the first eight digits
/// of the id, in that order.
pub proof fn law_order_number_shape(timestamp: Seq<char>, id_hex: Seq<char>)
    requires
        id_hex.len() >= 8,
    ensures
        order_number_text(timestamp, id_hex).len() == timestamp.len() + 13,
        order_number_text(timestamp, id_hex).take(4) == "ORD-"@,
        order_number_text(timestamp, id_hex).subrange(4, 4 + timestamp.len() as int) == timestamp,
        order_number_text(timestamp, id_hex)[4 + timestamp.len() as int] == '-',
        order_number_text(timestamp, id_hex).skip(5 + timestamp.len() as int) == id_hex.take(8),
{
    reveal_strlit("ORD-");
    reveal_strlit("-");
    let t = order_number_text(timestamp, id_hex);
    assert(t.take(4) =~= "ORD-"@);
    assert(t.subrange(4, 4 + timestamp.len() as int) =~= timestamp);
    assert(t.skip(5 + timestamp.len() as int) =~= id_hex.take(8));
}

} // verus!
