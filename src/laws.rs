//! Properties of the translation as a whole.

use vstd::prelude::*;
use crate::failure::{Failure, TransportFailure};
use crate::status::{
    is_reply_code, leading_code, status_line_of, status_line_reads_back, INTERNAL_SERVER_ERROR,
};
use crate::translate::{diagnostic_of, internal_error_text, is_client_safe, reply_message, reply_status};

verus! {

/// Every failure has a reply: its status is one whose text can be written, and
/// its message is one of the fixed texts that may be shown to a client.
pub proof fn translation_is_total(f: Failure)
    ensures
        is_reply_code(reply_status(f)),
        is_client_safe(reply_message(f)),
{
    if let Failure::Domain(e) = f {
        if reply_message(f) == e.spec_message() {
            assert(exists|k: crate::failure::Error| reply_message(f) == k.spec_message());
        }
    }
}

/// The detail of an unclassified failure never reaches the reply: any two such
/// failures get the same generic internal error reply, and the detail goes only
/// to the server's diagnostics.
pub proof fn unclassified_detail_stays_on_server(d1: String, d2: String)
    ensures
        reply_status(Failure::Transport(TransportFailure::Unclassified(d1)))
            == INTERNAL_SERVER_ERROR,
        reply_message(Failure::Transport(TransportFailure::Unclassified(d1)))
            == internal_error_text(),
        reply_status(Failure::Transport(TransportFailure::Unclassified(d1))) == reply_status(
            Failure::Transport(TransportFailure::Unclassified(d2)),
        ),
        reply_message(Failure::Transport(TransportFailure::Unclassified(d1))) == reply_message(
            Failure::Transport(TransportFailure::Unclassified(d2)),
        ),
        diagnostic_of(Failure::Transport(TransportFailure::Unclassified(d1))) == Some(d1@),
{
}

/// Only an unclassified failure leaves anything in the server's diagnostics.
pub proof fn diagnostics_only_for_unclassified(f: Failure)
    ensures
        diagnostic_of(f).is_some() <==> (f is Transport && f->Transport_0 is Unclassified),
{
}

/// The textual status of every reply starts with the digits of its numeric
/// status code, followed by a space.
pub proof fn status_text_matches_code(f: Failure)
    ensures
        status_line_of(reply_status(f)).len() > 4,
        leading_code(status_line_of(reply_status(f))) == reply_status(f) as int,
        status_line_of(reply_status(f))[3] == ' ',
{
    translation_is_total(f);
    status_line_reads_back(reply_status(f));
}

/// Translating equal failures gives equal replies, text for text.
pub proof fn translation_is_deterministic(f1: Failure, f2: Failure)
    requires
        f1 == f2,
    ensures
        reply_status(f1) == reply_status(f2),
        reply_message(f1) == reply_message(f2),
        status_line_of(reply_status(f1)) == status_line_of(reply_status(f2)),
{
}

} // verus!
