use vstd::prelude::*;

use crate::auth::opt_view;
use crate::error::{ErrorKind, RequestError};
use crate::text::same_text;
use crate::validation::{err_view, optional_outcome, trimmed_optional};

verus! {

/// The request to pay an order from the wallet.
#[derive(Debug)]
pub struct CreatePaymentRequest {
    pub comment: Option<String>,
}

impl CreatePaymentRequest {
    /// Trims the comment; a blank one is dropped, one over 2000 characters refused.
    pub fn validate(self) -> (r: Result<CreatePaymentRequest, RequestError>)
        ensures
            match optional_outcome(opt_view(self.comment), "comment"@, 2000) {
                Ok(c) => r matches Ok(v) && opt_view(v.comment) == c,
                Err(ev) => r matches Err(e) && err_view(e) == ev,
            },
    {
        Ok(CreatePaymentRequest { comment: trimmed_optional(self.comment, "comment", 2000)? })
    }
}

/// Whether an order in the given status may be paid: orders awaiting
/// payment or new ones may; paid or processed ones, and all others, may not.
pub open spec fn status_check_outcome(status: Seq<char>) -> Result<(), (ErrorKind, Seq<char>)> {
    if status == "awaiting_payment"@ || status == "new"@ {
        Ok(())
    } else if status == "confirmed"@ || status == "in_progress"@ || status == "completed"@ {
        Err((ErrorKind::Conflict, "order is already paid or being processed"@))
    } else {
        Err((ErrorKind::Conflict, "order is not ready for payment"@))
    }
}

/// Checks that an order in the given status may be paid.
pub fn payment_status_check(status: &str) -> (r: Result<(), RequestError>)
    ensures
        match status_check_outcome(status@) {
            Ok(()) => r is Ok,
            Err(ev) => r matches Err(e) && err_view(e) == ev,
        },
{
    if same_text(status, "awaiting_payment") || same_text(status, "new") {
        Ok(())
    } else if same_text(status, "confirmed") || same_text(status, "in_progress") || same_text(status, "completed") {
        Err(RequestError::conflict("order is already paid or being processed"))
    } else {
        Err(RequestError::conflict("order is not ready for payment"))
    }
}

/// The comment recorded with a payment refused for lack of funds.
pub open spec fn failure_comment(comment: Option<Seq<char>>) -> Seq<char> {
    match comment {
        Some(c) => c + ". Payment rejected: insufficient wallet balance"@,
        None => "Payment rejected: insufficient wallet balance"@,
    }
}

/// Writes the comment recorded with a payment refused for lack of funds.
pub fn failure_comment_text(comment: &Option<String>) -> (r: String)
    ensures
        r@ == failure_comment(opt_view(*comment)),
{
    match comment {
        Some(c) => {
            let mut m = c.clone();
            m.append(". Payment rejected: insufficient wallet balance");
            m
        },
        None => String::from_str("Payment rejected: insufficient wallet balance"),
    }
}

/// What to do with a payment request once the order is known.
#[derive(Debug)]
pub enum PaymentDecision {
    /// Refuse the request; nothing is recorded.
    Refuse(RequestError),
    /// Record a failed payment with this comment, then answer that the wallet
    /// balance is insufficient.
    RecordFailure(String),
    /// Debit the wallet, record the payment and confirm the order.
    Pay,
}

/// Decides a payment: a total that is not positive is refused first, then an
/// order in a status that cannot be paid, then a wallet that does not cover
/// the total leads to a recorded failure; otherwise the order is paid.
pub fn decide_payment(
    total_is_positive: bool,
    status: &str,
    balance_covers_total: bool,
    comment: &Option<String>,
) -> (r: PaymentDecision)
    ensures
        !total_is_positive ==> (r matches PaymentDecision::Refuse(e) && e.is(
            ErrorKind::UnprocessableEntity,
            "order total amount must be greater than zero"@,
        )),
        total_is_positive ==> match status_check_outcome(status@) {
            Err(ev) => r matches PaymentDecision::Refuse(e) && err_view(e) == ev,
            Ok(()) => if balance_covers_total {
                r is Pay
            } else {
                r matches PaymentDecision::RecordFailure(c) && c@ == failure_comment(opt_view(*comment))
            },
        },
{
    if !total_is_positive {
        return PaymentDecision::Refuse(
            RequestError::unprocessable_entity("order total amount must be greater than zero"),
        );
    }
    match payment_status_check(status) {
        Err(e) => return PaymentDecision::Refuse(e),
        Ok(()) => {},
    }
    if !balance_covers_total {
        return PaymentDecision::RecordFailure(failure_comment_text(comment));
    }
    PaymentDecision::Pay
}

/// The answer to a payment whose failure was recorded.
pub fn insufficient_balance_error() -> (e: RequestError)
    ensures
        e.is(ErrorKind::Conflict, "insufficient wallet balance"@),
{
    RequestError::conflict("insufficient wallet balance")
}

/// A status change must have reached the order: no changed row means that
/// no such order exists.
pub fn require_updated(rows_affected: u64) -> (r: Result<(), RequestError>)
    ensures
        rows_affected > 0 ==> r is Ok,
        rows_affected == 0 ==> (r matches Err(e) && e.is(ErrorKind::NotFound, "order not found"@)),
{
    if rows_affected == 0 {
        return Err(RequestError::not_found("order not found"));
    }
    Ok(())
}

/// A paid order, or one being processed, is never paid again.
pub proof fn law_no_double_payment(status: Seq<char>)
    requires
        status == "confirmed"@ || status == "in_progress"@ || status == "completed"@,
    ensures
        status_check_outcome(status) == Err::<(), (ErrorKind, Seq<char>)>(
            (ErrorKind::Conflict, "order is already paid or being processed"@),
        ),
{
    reveal_strlit("confirmed");
    reveal_strlit("in_progress");
    reveal_strlit("completed");
    reveal_strlit("awaiting_payment");
    reveal_strlit("new");
    assert(status.len() != "awaiting_payment"@.len() && status.len() != "new"@.len());
}

/// The status an order reaches once paid is one that refuses further payment.
pub proof fn law_paid_order_refuses_payment()
    ensures
        status_check_outcome("confirmed"@) == Err::<(), (ErrorKind, Seq<char>)>(
            (ErrorKind::Conflict, "order is already paid or being processed"@),
        ),
{
    law_no_double_payment("confirmed"@);
}

/// An order that checkout left awaiting payment may be paid.
pub proof fn law_checked_out_order_is_payable()
    ensures
        status_check_outcome("awaiting_payment"@) == Ok::<(), (ErrorKind, Seq<char>)>(()),
{
}

/// A cart that has not been checked out cannot be paid.
pub proof fn law_draft_order_is_not_payable()
    ensures
        status_check_outcome("draft"@) == Err::<(), (ErrorKind, Seq<char>)>(
            (ErrorKind::Conflict, "order is not ready for payment"@),
        ),
{
    reveal_strlit("draft");
    reveal_strlit("awaiting_payment");
    reveal_strlit("new");
    reveal_strlit("confirmed");
    reveal_strlit("in_progress");
    reveal_strlit("completed");
    let d = "draft"@;
    assert(d.len() != "awaiting_payment"@.len() && d.len() != "new"@.len());
    assert(d.len() != "confirmed"@.len() && d.len() != "in_progress"@.len() && d.len() != "completed"@.len());
}

/// Exactly the orders awaiting payment and new orders may be paid; paid or
/// processed orders are refused as such, and every other status as not
/// ready.
pub proof fn law_payable_statuses(status: Seq<char>)
    ensures
        status_check_outcome(status) is Ok <==> (status == "awaiting_payment"@ || status == "new"@),
        !(status == "awaiting_payment"@ || status == "new"@) && !(status == "confirmed"@ || status
            == "in_progress"@ || status == "completed"@) ==> status_check_outcome(status) == Err::<
            (),
            (ErrorKind, Seq<char>),
        >((ErrorKind::Conflict, "order is not ready for payment"@)),
{
}

/// The comment of a refused payment keeps the payer's comment in front and
/// always ends with the reason.
pub proof fn law_failure_comment_keeps_comment(comment: Option<Seq<char>>)
    ensures
        failure_comment(comment).len() >= "Payment rejected: insufficient wallet balance"@.len(),
        failure_comment(comment).skip(failure_comment(comment).len() - "Payment rejected: insufficient wallet balance"@.len())
            == "Payment rejected: insufficient wallet balance"@,
        comment matches Some(c) ==> failure_comment(comment).take(c.len() as int) == c,
{
    let tail = "Payment rejected: insufficient wallet balance"@;
    let f = failure_comment(comment);
    match comment {
        Some(c) => {
            reveal_strlit(". Payment rejected: insufficient wallet balance");
            reveal_strlit("Payment rejected: insufficient wallet balance");
            let full = ". Payment rejected: insufficient wallet balance"@;
            assert(full.skip(2) =~= tail);
            assert(f.skip(f.len() - tail.len()) =~= tail);
            assert(f.take(c.len() as int) =~= c);
        },
        None => {
            assert(f.skip(0) =~= f);
        },
    }
}

} // verus!
