//! What holds of a response once it has passed the error stage and then the
//! identifier stage, which is the order in which the two let a response out.

use vstd::prelude::*;
use crate::context::{law_set_keeps_others, lookup, same_name, Response};
use crate::json_error::{
    client_envelope, envelope_json, is_client_failure, is_server_failure, server_envelope,
    server_message, ErrorContext,
};
use crate::requestid::{echoes, Assignment};

verus! {

/// The two headers that the stages set have different names.
proof fn lemma_header_names_differ()
    ensures
        !same_name("X-Request-Id"@, "X-Correlation-Id"@),
{
    reveal_strlit("X-Request-Id");
    reveal_strlit("X-Correlation-Id");
}

/// A response that is neither a client error nor a server error leaves the
/// two stages with the body, the status and the attached values it came
/// with, and with no other `X-Correlation-Id` header than it came with.
pub proof fn law_success_passes_through(
    handled: Response,
    normalized: Response,
    sent: Response,
    how: Assignment,
)
    requires
        !handled.status.server_error(),
        !handled.status.client_error(),
        normalized == handled,
        echoes(normalized, sent, how),
    ensures
        sent.body == handled.body,
        sent.body_size == handled.body_size,
        sent.status == handled.status,
        sent.correlation_id == handled.correlation_id,
        lookup(sent.headers.entries@, "X-Correlation-Id"@) == lookup(
            handled.headers.entries@,
            "X-Correlation-Id"@,
        ),
{
    lemma_header_names_differ();
    if how.assigned() is Some {
        law_set_keeps_others(
            normalized.headers.entries@,
            sent.headers.entries@,
            "X-Request-Id"@,
            how.assigned()->0@,
            "X-Correlation-Id"@,
        );
    }
}

/// A client error leaves the two stages with the envelope that shows the
/// handler's error exactly and names no correlation identifier, and with no
/// other `X-Correlation-Id` header than it came with.
pub proof fn law_client_error_is_sent(
    handled: Response,
    normalized: Response,
    sent: Response,
    ctx: ErrorContext,
    how: Assignment,
)
    requires
        is_client_failure(handled, normalized, ctx),
        echoes(normalized, sent, how),
    ensures
        sent.body@ == envelope_json(client_envelope(handled.status, ctx, handled.error)),
        handled.error is Some ==> client_envelope(handled.status, ctx, handled.error).message
            == handled.error->0.message@,
        client_envelope(handled.status, ctx, handled.error).correlation_id is None,
        sent.correlation_id == handled.correlation_id,
        lookup(sent.headers.entries@, "X-Correlation-Id"@) == lookup(
            handled.headers.entries@,
            "X-Correlation-Id"@,
        ),
{
    lemma_header_names_differ();
    if how.assigned() is Some {
        law_set_keeps_others(
            normalized.headers.entries@,
            sent.headers.entries@,
            "X-Request-Id"@,
            how.assigned()->0@,
            "X-Correlation-Id"@,
        );
    }
}

/// A server error leaves the two stages with the envelope that shows the
/// correlation identifier and nothing of the handler's error, and with that
/// same identifier in the header `X-Correlation-Id`.
pub proof fn law_server_error_is_sent(
    handled: Response,
    normalized: Response,
    sent: Response,
    ctx: ErrorContext,
    correlation: Seq<char>,
    how: Assignment,
)
    requires
        is_server_failure(handled, normalized, ctx, correlation),
        echoes(normalized, sent, how),
    ensures
        sent.body@ == envelope_json(server_envelope(handled.status, ctx, correlation)),
        server_envelope(handled.status, ctx, correlation).message == server_message(correlation),
        server_envelope(handled.status, ctx, correlation).correlation_id == Some(correlation),
        lookup(sent.headers.entries@, "X-Correlation-Id"@) == Some(correlation),
        sent.correlation_id is Some,
        sent.correlation_id->0@ == correlation,
{
    lemma_header_names_differ();
    if how.assigned() is Some {
        law_set_keeps_others(
            normalized.headers.entries@,
            sent.headers.entries@,
            "X-Request-Id"@,
            how.assigned()->0@,
            "X-Correlation-Id"@,
        );
    }
}

} // verus!
