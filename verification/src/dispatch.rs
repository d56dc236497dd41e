//! The generic method dispatcher: routes a schema-described method to
//! the view path or the call-and-poll path, with no per-method code.

use vstd::prelude::*;
use crate::schema::MethodKind;

verus! {

/// The route chosen for a method. Only the first two reach the
/// network; an unrecognized kind is rejected before any request is
/// made.
#[derive(PartialEq, Eq, Structural, Debug, Clone, Copy)]
pub enum Directive {
    /// Read-only path: invoke the view endpoint.
    InvokeView,
    /// State-changing path: build, sign and submit a transaction, then
    /// optionally poll for confirmation.
    SubmitCall,
    /// The schema declared neither `view` nor `call`: report the
    /// unrecognized kind without contacting the network.
    RejectUnknown,
}

/// Routes a method by its declared kind, exhaustively: views to the
/// view path, calls to the call path, and every unknown kind to
/// rejection, so no network request can arise from an unrecognized
/// kind.
pub fn dispatch(kind: &MethodKind) -> (r: Directive)
    ensures
        kind is View <==> r is InvokeView,
        kind is Call <==> r is SubmitCall,
        kind is Unknown <==> r is RejectUnknown,
{
    match kind {
        MethodKind::View => Directive::InvokeView,
        MethodKind::Call => Directive::SubmitCall,
        MethodKind::Unknown(_) => Directive::RejectUnknown,
    }
}

} // verus!
