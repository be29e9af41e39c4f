use vstd::prelude::*;

use crate::auth::opt_view;
use crate::error::{ErrorKind, RequestError};
use crate::text::trimmed;
use crate::validation::{
    law_optional_text_meaning, law_required_text_meaning,
    check_view, err_view, optional_outcome, positive_i32, positive_message, required_outcome,
    trimmed_optional, trimmed_required,
};

verus! {

/// A new service or product category.
#[derive(Debug)]
pub struct CategoryCreateRequest {
    pub name: String,
    pub description: Option<String>,
}

#[derive(Debug)]
pub struct CategoryCreateRequestValid {
    pub name: String,
    pub description: Option<String>,
}

impl CategoryCreateRequestValid {
    /// Name of 2 to 128 characters, optional description of at most 2000.
    pub fn try_from(value: CategoryCreateRequest) -> (r: Result<CategoryCreateRequestValid, RequestError>)
        ensures
            match required_outcome(value.name@, "name"@, 2, 128) {
                Err(ev) => r matches Err(e) && err_view(e) == ev,
                Ok(n) => match optional_outcome(opt_view(value.description), "description"@, 2000) {
                    Err(ev) => r matches Err(e) && err_view(e) == ev,
                    Ok(d) => r matches Ok(v) && v.name@ == n && opt_view(v.description) == d,
                },
            },
    {
        let name = trimmed_required(value.name.as_str(), "name", 2, 128)?;
        let description = trimmed_optional(value.description, "description", 2000)?;
        Ok(CategoryCreateRequestValid { name, description })
    }
}

/// Changes to a category; absent fields stay as they are.
#[derive(Debug)]
pub struct CategoryUpdateRequest {
    pub name: Option<String>,
    pub description: Option<String>,
}

#[derive(Debug)]
pub struct CategoryUpdateRequestValid {
    pub name: Option<String>,
    pub description: Option<String>,
}

/// The checked optional name of an update: absent stays absent.
pub open spec fn optional_required_outcome(value: Option<Seq<char>>, field: Seq<char>, min: nat, max: nat) -> Result<
    Option<Seq<char>>,
    (ErrorKind, Seq<char>),
> {
    match value {
        None => Ok(None),
        Some(v) => match required_outcome(v, field, min, max) {
            Err(ev) => Err(ev),
            Ok(t) => Ok(Some(t)),
        },
    }
}

impl CategoryUpdateRequestValid {
    /// A given name must have 2 to 128 characters; a description at most 2000.
    pub fn try_from(value: CategoryUpdateRequest) -> (r: Result<CategoryUpdateRequestValid, RequestError>)
        ensures
            match optional_required_outcome(opt_view(value.name), "name"@, 2, 128) {
                Err(ev) => r matches Err(e) && err_view(e) == ev,
                Ok(n) => match optional_outcome(opt_view(value.description), "description"@, 2000) {
                    Err(ev) => r matches Err(e) && err_view(e) == ev,
                    Ok(d) => r matches Ok(v) && opt_view(v.name) == n && opt_view(v.description) == d,
                },
            },
    {
        let name = match value.name {
            Some(name) => Some(trimmed_required(name.as_str(), "name", 2, 128)?),
            None => None,
        };
        let description = trimmed_optional(value.description, "description", 2000)?;
        Ok(CategoryUpdateRequestValid { name, description })
    }
}

/// Checks an optional text that, when given, is required to have `min` to
/// `max` characters.
pub fn optional_trimmed_required(value: Option<String>, field: &str, min: usize, max: usize) -> (r: Result<
    Option<String>,
    RequestError,
>)
    ensures
        match optional_required_outcome(opt_view(value), field@, min as nat, max as nat) {
            Err(ev) => r matches Err(e) && err_view(e) == ev,
            Ok(t) => r matches Ok(v) && opt_view(v) == t,
        },
{
    match value {
        Some(v) => Ok(Some(trimmed_required(v.as_str(), field, min, max)?)),
        None => Ok(None),
    }
}

/// An error as contracts compare it, or the checked value.
pub open spec fn outcome_is<T, V>(r: Result<T, RequestError>, o: Result<V, (ErrorKind, Seq<char>)>, view: spec_fn(T) -> V) -> bool {
    match o {
        Ok(v) => r matches Ok(t) && view(t) == v,
        Err(ev) => r matches Err(e) && err_view(e) == ev,
    }
}

/// A duration that is given must be positive.
pub open spec fn optional_positive_outcome(value: Option<i32>, field: Seq<char>) -> Result<Option<i32>, (ErrorKind, Seq<char>)> {
    match value {
        None => Ok(None),
        Some(v) => if v > 0 {
            Ok(Some(v))
        } else {
            Err((ErrorKind::UnprocessableEntity, positive_message(field)))
        },
    }
}

/// The checked fields of a new service, its price aside.
#[derive(Debug)]
pub struct ServiceCreateFields {
    pub name: String,
    pub description: Option<String>,
    pub duration_minutes: i32,
}

pub open spec fn service_create_view(f: ServiceCreateFields) -> (Seq<char>, Option<Seq<char>>, i32) {
    (f.name@, opt_view(f.description), f.duration_minutes)
}

/// A new service is checked field by field: a name of 2 to 255 characters,
/// a description of at most 4000, the price (checked by the caller), and a
/// positive duration. The first failing check answers.
pub open spec fn service_create_outcome(
    name: Seq<char>,
    description: Option<Seq<char>>,
    price: Result<(), (ErrorKind, Seq<char>)>,
    duration_minutes: i32,
) -> Result<(Seq<char>, Option<Seq<char>>, i32), (ErrorKind, Seq<char>)> {
    match required_outcome(name, "name"@, 2, 255) {
        Err(ev) => Err(ev),
        Ok(n) => match optional_outcome(description, "description"@, 4000) {
            Err(ev) => Err(ev),
            Ok(d) => match price {
                Err(ev) => Err(ev),
                Ok(()) => if duration_minutes > 0 {
                    Ok((n, d, duration_minutes))
                } else {
                    Err((ErrorKind::UnprocessableEntity, positive_message("duration_minutes"@)))
                },
            },
        },
    }
}

/// Checks the fields of a new service; `price_check` is the outcome of the
/// caller's check of the base price.
pub fn check_service_create(
    name: &str,
    description: Option<String>,
    price_check: Result<(), RequestError>,
    duration_minutes: i32,
) -> (r: Result<ServiceCreateFields, RequestError>)
    ensures
        outcome_is(
            r,
            service_create_outcome(name@, opt_view(description), check_view(price_check), duration_minutes),
            |f: ServiceCreateFields| service_create_view(f),
        ),
{
    let name = trimmed_required(name, "name", 2, 255)?;
    let description = trimmed_optional(description, "description", 4000)?;
    price_check?;
    let duration_minutes = positive_i32(duration_minutes, "duration_minutes")?;
    Ok(ServiceCreateFields { name, description, duration_minutes })
}

/// The checked changes to a service, its price aside.
#[derive(Debug)]
pub struct ServiceUpdateFields {
    pub name: Option<String>,
    pub description: Option<String>,
    pub duration_minutes: Option<i32>,
}

pub open spec fn service_update_view(f: ServiceUpdateFields) -> (Option<Seq<char>>, Option<Seq<char>>, Option<i32>) {
    (opt_view(f.name), opt_view(f.description), f.duration_minutes)
}

/// Changes to a service are checked like a new service, each only when given.
pub open spec fn service_update_outcome(
    name: Option<Seq<char>>,
    description: Option<Seq<char>>,
    price: Result<(), (ErrorKind, Seq<char>)>,
    duration_minutes: Option<i32>,
) -> Result<(Option<Seq<char>>, Option<Seq<char>>, Option<i32>), (ErrorKind, Seq<char>)> {
    match optional_required_outcome(name, "name"@, 2, 255) {
        Err(ev) => Err(ev),
        Ok(n) => match optional_outcome(description, "description"@, 4000) {
            Err(ev) => Err(ev),
            Ok(d) => match price {
                Err(ev) => Err(ev),
                Ok(()) => match optional_positive_outcome(duration_minutes, "duration_minutes"@) {
                    Err(ev) => Err(ev),
                    Ok(m) => Ok((n, d, m)),
                },
            },
        },
    }
}

/// Checks the changes to a service; `price_check` is the outcome of the
/// caller's check of a given base price (`Ok` when none is given).
pub fn check_service_update(
    name: Option<String>,
    description: Option<String>,
    price_check: Result<(), RequestError>,
    duration_minutes: Option<i32>,
) -> (r: Result<ServiceUpdateFields, RequestError>)
    ensures
        outcome_is(
            r,
            service_update_outcome(opt_view(name), opt_view(description), check_view(price_check), duration_minutes),
            |f: ServiceUpdateFields| service_update_view(f),
        ),
{
    let name = optional_trimmed_required(name, "name", 2, 255)?;
    let description = trimmed_optional(description, "description", 4000)?;
    price_check?;
    let duration_minutes = match duration_minutes {
        Some(m) => Some(positive_i32(m, "duration_minutes")?),
        None => None,
    };
    Ok(ServiceUpdateFields { name, description, duration_minutes })
}

/// The checked fields of a new product, its price aside.
#[derive(Debug)]
pub struct ProductCreateFields {
    pub sku: String,
    pub name: String,
    pub description: Option<String>,
    pub stock_qty: i32,
}

pub open spec fn product_create_view(f: ProductCreateFields) -> (Seq<char>, Seq<char>, Option<Seq<char>>, i32) {
    (f.sku@, f.name@, opt_view(f.description), f.stock_qty)
}

/// A stock below zero counts as zero.
pub open spec fn clamped(stock_qty: i32) -> i32 {
    if stock_qty < 0 { 0 } else { stock_qty }
}

/// A new product is checked field by field: an SKU of 2 to 64 characters, a
/// name of 2 to 255, a description of at most 4000, the price (checked by the
/// caller); a negative stock becomes zero. The first failing check answers.
pub open spec fn product_create_outcome(
    sku: Seq<char>,
    name: Seq<char>,
    description: Option<Seq<char>>,
    price: Result<(), (ErrorKind, Seq<char>)>,
    stock_qty: i32,
) -> Result<(Seq<char>, Seq<char>, Option<Seq<char>>, i32), (ErrorKind, Seq<char>)> {
    match required_outcome(sku, "sku"@, 2, 64) {
        Err(ev) => Err(ev),
        Ok(k) => match required_outcome(name, "name"@, 2, 255) {
            Err(ev) => Err(ev),
            Ok(n) => match optional_outcome(description, "description"@, 4000) {
                Err(ev) => Err(ev),
                Ok(d) => match price {
                    Err(ev) => Err(ev),
                    Ok(()) => Ok((k, n, d, clamped(stock_qty))),
                },
            },
        },
    }
}

/// Checks the fields of a new product; `price_check` is the outcome of the
/// caller's check of the unit price.
pub fn check_product_create(
    sku: &str,
    name: &str,
    description: Option<String>,
    price_check: Result<(), RequestError>,
    stock_qty: i32,
) -> (r: Result<ProductCreateFields, RequestError>)
    ensures
        outcome_is(
            r,
            product_create_outcome(sku@, name@, opt_view(description), check_view(price_check), stock_qty),
            |f: ProductCreateFields| product_create_view(f),
        ),
{
    let sku = trimmed_required(sku, "sku", 2, 64)?;
    let name = trimmed_required(name, "name", 2, 255)?;
    let description = trimmed_optional(description, "description", 4000)?;
    price_check?;
    Ok(ProductCreateFields { sku, name, description, stock_qty: clamp_stock(stock_qty) })
}

/// The checked changes to a product, its price aside.
#[derive(Debug)]
pub struct ProductUpdateFields {
    pub sku: Option<String>,
    pub name: Option<String>,
    pub description: Option<String>,
    pub stock_qty: Option<i32>,
}

pub open spec fn product_update_view(f: ProductUpdateFields) -> (Option<Seq<char>>, Option<Seq<char>>, Option<Seq<char>>, Option<i32>) {
    (opt_view(f.sku), opt_view(f.name), opt_view(f.description), f.stock_qty)
}

/// Changes to a product are checked like a new product, each only when given.
pub open spec fn product_update_outcome(
    sku: Option<Seq<char>>,
    name: Option<Seq<char>>,
    description: Option<Seq<char>>,
    price: Result<(), (ErrorKind, Seq<char>)>,
    stock_qty: Option<i32>,
) -> Result<(Option<Seq<char>>, Option<Seq<char>>, Option<Seq<char>>, Option<i32>), (ErrorKind, Seq<char>)> {
    match optional_required_outcome(sku, "sku"@, 2, 64) {
        Err(ev) => Err(ev),
        Ok(k) => match optional_required_outcome(name, "name"@, 2, 255) {
            Err(ev) => Err(ev),
            Ok(n) => match optional_outcome(description, "description"@, 4000) {
                Err(ev) => Err(ev),
                Ok(d) => match price {
                    Err(ev) => Err(ev),
                    Ok(()) => Ok((k, n, d, match stock_qty {
                        Some(q) => Some(clamped(q)),
                        None => None,
                    })),
                },
            },
        },
    }
}

/// Checks the changes to a product; `price_check` is the outcome of the
/// caller's check of a given unit price (`Ok` when none is given).
pub fn check_product_update(
    sku: Option<String>,
    name: Option<String>,
    description: Option<String>,
    price_check: Result<(), RequestError>,
    stock_qty: Option<i32>,
) -> (r: Result<ProductUpdateFields, RequestError>)
    ensures
        outcome_is(
            r,
            product_update_outcome(opt_view(sku), opt_view(name), opt_view(description), check_view(price_check), stock_qty),
            |f: ProductUpdateFields| product_update_view(f),
        ),
{
    let sku = optional_trimmed_required(sku, "sku", 2, 64)?;
    let name = optional_trimmed_required(name, "name", 2, 255)?;
    let description = trimmed_optional(description, "description", 4000)?;
    price_check?;
    let stock_qty = match stock_qty {
        Some(q) => Some(clamp_stock(q)),
        None => None,
    };
    Ok(ProductUpdateFields { sku, name, description, stock_qty })
}

/// A stock quantity below zero is taken as zero.
pub fn clamp_stock(stock_qty: i32) -> (r: i32)
    ensures
        r == (if stock_qty < 0 { 0 } else { stock_qty }),
{
    if stock_qty < 0 {
        0
    } else {
        stock_qty
    }
}

/// A category as stored.
#[derive(Debug)]
pub struct CategoryRow {
    pub id: u128,
    pub name: String,
    pub description: Option<String>,
}

/// A service category as the client sees it.
#[derive(Debug)]
pub struct ServiceCategoryResponse {
    pub id: u128,
    pub name: String,
    pub description: Option<String>,
}

/// A product category as the client sees it.
#[derive(Debug)]
pub struct ProductCategoryResponse {
    pub id: u128,
    pub name: String,
    pub description: Option<String>,
}

impl ServiceCategoryResponse {
    pub fn from_row(value: CategoryRow) -> (r: ServiceCategoryResponse)
        ensures
            r.id == value.id,
            r.name@ == value.name@,
            opt_view(r.description) == opt_view(value.description),
    {
        ServiceCategoryResponse { id: value.id, name: value.name, description: value.description }
    }
}

impl ProductCategoryResponse {
    pub fn from_row(value: CategoryRow) -> (r: ProductCategoryResponse)
        ensures
            r.id == value.id,
            r.name@ == value.name@,
            opt_view(r.description) == opt_view(value.description),
    {
        ProductCategoryResponse { id: value.id, name: value.name, description: value.description }
    }
}

/// A given text, trimmed.
pub open spec fn trimmed_given(value: Option<Seq<char>>) -> Option<Seq<char>> {
    match value {
        None => None,
        Some(v) => Some(trimmed(v)),
    }
}

/// A description as it is kept: trimmed, and absent when blank.
pub open spec fn kept_description(value: Option<Seq<char>>) -> Option<Seq<char>> {
    match value {
        None => None,
        Some(v) => if trimmed(v).len() == 0 {
            None
        } else {
            Some(trimmed(v))
        },
    }
}

/// A given text is absent or has a trimmed length between the bounds.
pub open spec fn given_within(value: Option<Seq<char>>, min: nat, max: nat) -> bool {
    match value {
        None => true,
        Some(v) => min <= trimmed(v).len() <= max,
    }
}

/// A new service is accepted exactly when its name has 2 to 255 characters,
/// its description at most 4000, its price passed and its duration is
/// positive; it then carries the trimmed name, the kept description and the
/// duration as given.
pub proof fn law_service_create_keeps_fields(
    name: Seq<char>,
    description: Option<Seq<char>>,
    price: Result<(), (ErrorKind, Seq<char>)>,
    duration_minutes: i32,
)
    ensures
        service_create_outcome(name, description, price, duration_minutes) is Ok <==> (2 <= trimmed(name).len()
            <= 255 && given_within(description, 0, 4000) && price is Ok && duration_minutes > 0),
        service_create_outcome(name, description, price, duration_minutes) matches Ok(t) ==> t == (
            trimmed(name),
            kept_description(description),
            duration_minutes,
        ),
{
    law_required_text_meaning(name, "name"@, 2, 255);
    law_optional_text_meaning(description, "description"@, 4000);
}

/// Changes to a service are accepted exactly when each given field is
/// acceptable; the change then carries each given field's checked value and
/// nothing for the others.
pub proof fn law_service_update_keeps_fields(
    name: Option<Seq<char>>,
    description: Option<Seq<char>>,
    price: Result<(), (ErrorKind, Seq<char>)>,
    duration_minutes: Option<i32>,
)
    ensures
        service_update_outcome(name, description, price, duration_minutes) is Ok <==> (given_within(name, 2, 255)
            && given_within(description, 0, 4000) && price is Ok && (match duration_minutes {
            None => true,
            Some(m) => m > 0,
        })),
        service_update_outcome(name, description, price, duration_minutes) matches Ok(t) ==> t == (
            trimmed_given(name),
            kept_description(description),
            duration_minutes,
        ),
{
    match name {
        Some(n) => law_required_text_meaning(n, "name"@, 2, 255),
        None => {},
    }
    law_optional_text_meaning(description, "description"@, 4000);
}

/// A new product is accepted exactly when its SKU has 2 to 64 characters,
/// its name 2 to 255, its description at most 4000 and its price passed; it
/// then carries the trimmed SKU and name, the kept description and the
/// stock as given, a negative stock as zero.
pub proof fn law_product_create_keeps_fields(
    sku: Seq<char>,
    name: Seq<char>,
    description: Option<Seq<char>>,
    price: Result<(), (ErrorKind, Seq<char>)>,
    stock_qty: i32,
)
    ensures
        product_create_outcome(sku, name, description, price, stock_qty) is Ok <==> (2 <= trimmed(sku).len()
            <= 64 && 2 <= trimmed(name).len() <= 255 && given_within(description, 0, 4000) && price is Ok),
        product_create_outcome(sku, name, description, price, stock_qty) matches Ok(t) ==> {
            &&& t.0 == trimmed(sku)
            &&& t.1 == trimmed(name)
            &&& t.2 == kept_description(description)
            &&& (stock_qty >= 0 ==> t.3 == stock_qty)
            &&& (stock_qty < 0 ==> t.3 == 0)
        },
{
    law_required_text_meaning(sku, "sku"@, 2, 64);
    law_required_text_meaning(name, "name"@, 2, 255);
    law_optional_text_meaning(description, "description"@, 4000);
}

/// Changes to a product are accepted exactly when each given field is
/// acceptable; the change then carries each given field's checked value,
/// a given stock as given (a negative one as zero), and nothing for the
/// fields not given.
pub proof fn law_product_update_keeps_fields(
    sku: Option<Seq<char>>,
    name: Option<Seq<char>>,
    description: Option<Seq<char>>,
    price: Result<(), (ErrorKind, Seq<char>)>,
    stock_qty: Option<i32>,
)
    ensures
        product_update_outcome(sku, name, description, price, stock_qty) is Ok <==> (given_within(sku, 2, 64)
            && given_within(name, 2, 255) && given_within(description, 0, 4000) && price is Ok),
        product_update_outcome(sku, name, description, price, stock_qty) matches Ok(t) ==> {
            &&& t.0 == trimmed_given(sku)
            &&& t.1 == trimmed_given(name)
            &&& t.2 == kept_description(description)
            &&& t.3 == match stock_qty {
                None => None,
                Some(q) => if q >= 0 {
                    Some(q)
                } else {
                    Some(0i32)
                },
            }
        },
{
    match sku {
        Some(k) => law_required_text_meaning(k, "sku"@, 2, 64),
        None => {},
    }
    match name {
        Some(n) => law_required_text_meaning(n, "name"@, 2, 255),
        None => {},
    }
    law_optional_text_meaning(description, "description"@, 4000);
}

} // verus!
