use vstd::prelude::*;

verus! {

/// A change that other services are told about.
#[derive(Debug)]
pub enum DomainEvent {
    OrderCreated { order_id: u128, order_number: String },
    OrderStatusChanged { order_id: u128, status_code: String },
    PaymentCreated { order_id: u128, payment_id: u128 },
    PaymentUpdated { order_id: u128, payment_id: u128, status: String },
    AppointmentConfirmed { order_id: u128, appointment_id: u128 },
    UserRoleChanged { user_id: u128, role: String },
}

/// The name of the stream that events are appended to.
pub fn domain_events_stream() -> (r: &'static str)
    ensures
        r@ == "domain:events"@,
{
    "domain:events"
}

impl DomainEvent {
    pub open spec fn name(&self) -> Seq<char> {
        match self {
            DomainEvent::OrderCreated { .. } => "order.created"@,
            DomainEvent::OrderStatusChanged { .. } => "order.status_changed"@,
            DomainEvent::PaymentCreated { .. } => "payment.created"@,
            DomainEvent::PaymentUpdated { .. } => "payment.updated"@,
            DomainEvent::AppointmentConfirmed { .. } => "appointment.confirmed"@,
            DomainEvent::UserRoleChanged { .. } => "user.role_changed"@,
        }
    }

    /// The position of the event's kind among the kinds above.
    pub open spec fn kind_index(&self) -> int {
        match self {
            DomainEvent::OrderCreated { .. } => 0,
            DomainEvent::OrderStatusChanged { .. } => 1,
            DomainEvent::PaymentCreated { .. } => 2,
            DomainEvent::PaymentUpdated { .. } => 3,
            DomainEvent::AppointmentConfirmed { .. } => 4,
            DomainEvent::UserRoleChanged { .. } => 5,
        }
    }

    pub fn event_name(&self) -> (r: &'static str)
        ensures
            r@ == self.name(),
    {
        match self {
            DomainEvent::OrderCreated { .. } => "order.created",
            DomainEvent::OrderStatusChanged { .. } => "order.status_changed",
            DomainEvent::PaymentCreated { .. } => "payment.created",
            DomainEvent::PaymentUpdated { .. } => "payment.updated",
            DomainEvent::AppointmentConfirmed { .. } => "appointment.confirmed",
            DomainEvent::UserRoleChanged { .. } => "user.role_changed",
        }
    }
}

/// Events of different kinds carry different names, so a consumer can tell
/// them apart by name alone.
pub proof fn law_event_names_distinct(a: DomainEvent, b: DomainEvent)
    ensures
        a.name() == b.name() ==> a.kind_index() == b.kind_index(),
{
    reveal_strlit("order.created");
    reveal_strlit("order.status_changed");
    reveal_strlit("payment.created");
    reveal_strlit("payment.updated");
    reveal_strlit("appointment.confirmed");
    reveal_strlit("user.role_changed");
    if a.name() == b.name() && a.kind_index() != b.kind_index() {
        let x = a.name();
        let y = b.name();
        assert(x.len() == y.len());
        assert(x[0] == y[0]);
        assert(x[6] == y[6]);
        assert(x[9] == y[9]);
    }
}

} // verus!
