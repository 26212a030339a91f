use vstd::prelude::*;

verus! {

/// The arguments of the `stripe_create_customer` tool (create a new Stripe customer).
#[derive(Debug)]
pub struct StripeCreateCustomerRequest {
    pub email: Option<String>,
    pub name: Option<String>,
    pub phone: Option<String>,
}

/// The arguments of the `stripe_create_payment_intent` tool (create a Stripe payment intent to charge a customer).
#[derive(Debug)]
pub struct StripeCreatePaymentIntentRequest {
    pub amount: i64,
    pub currency: String,
    pub payment_method_id: String,
    pub customer_id: Option<String>,
    /// Defaults to `true` when not given.
    pub capture: bool,
}

/// The arguments of the `stripe_capture_payment` tool (capture a previously authorized Stripe payment).
#[derive(Debug)]
pub struct StripeCapturePaymentRequest {
    pub payment_intent_id: String,
    pub amount: Option<i64>,
}

/// The arguments of the `stripe_refund` tool (create a refund for a Stripe payment).
#[derive(Debug)]
pub struct StripeRefundRequest {
    pub payment_intent_id: String,
    pub amount: Option<i64>,
    pub reason: Option<String>,
}

/// The arguments of the `stripe_get_payment_intent` tool (get details of a Stripe payment intent).
#[derive(Debug)]
pub struct StripeGetPaymentIntentRequest {
    pub payment_intent_id: String,
}

/// The arguments of the `paypal_create_order` tool (create a PayPal order for payment).
#[derive(Debug)]
pub struct PayPalCreateOrderRequest {
    pub amount: String,
    pub currency: String,
    pub description: Option<String>,
}

/// The arguments of the `paypal_capture_order` tool (capture an approved PayPal order).
#[derive(Debug)]
pub struct PayPalCaptureOrderRequest {
    pub order_id: String,
}

/// The arguments of the `paypal_refund` tool (refund a PayPal capture).
#[derive(Debug)]
pub struct PayPalRefundRequest {
    pub capture_id: String,
    pub amount: Option<String>,
}

/// The arguments of the `square_create_payment` tool (create a Square payment).
#[derive(Debug)]
pub struct SquareCreatePaymentRequest {
    pub amount: i64,
    pub currency: String,
    pub source_id: String,
    pub customer_id: Option<String>,
}

/// The value of a flag that is on unless given.
pub fn default_true() -> (r: bool)
    ensures
        r,
{
    true
}

} // verus!
