//! How the keys of the store are kept apart.

use crate::auth::session_key;
use crate::ids::Uuid;
use crate::otp::{otp_key, OtpPurpose};
use crate::rate_limit::rate_key;
use crate::ws::socket::presence_key;
use crate::ws::ticket::ticket_key;
use vstd::prelude::*;

verus! {

/// Codes, counted requests, tickets, sessions and presence never share a key, whatever phone
/// numbers, users or tickets they are for.
pub proof fn key_spaces_are_disjoint(
    purpose: OtpPurpose,
    subject: Seq<char>,
    counted: Seq<char>,
    ticket: Seq<char>,
    session_id: Uuid,
    user_id: Uuid,
)
    ensures
        ({
            let otp = otp_key(purpose, subject);
            let rate = rate_key(counted);
            let ws = ticket_key(ticket);
            let session = session_key(session_id);
            let presence = presence_key(user_id);
            &&& otp != rate && otp != ws && otp != session && otp != presence
            &&& rate != ws && rate != session && rate != presence
            &&& ws != session && ws != presence
            &&& session != presence
        }),
{
    reveal_strlit("otp:register:");
    reveal_strlit("otp:login:");
    reveal_strlit("otp:recover:");
    reveal_strlit("otp:2fa:setup:");
    reveal_strlit("otp:2fa:login:");
    reveal_strlit("rate:");
    reveal_strlit("ws:ticket:");
    reveal_strlit("session:");
    reveal_strlit("presence:");
    assert(otp_key(purpose, subject)[0] == 'o');
    assert(rate_key(counted)[0] == 'r');
    assert(ticket_key(ticket)[0] == 'w');
    assert(session_key(session_id)[0] == 's');
    assert(presence_key(user_id)[0] == 'p');
}

} // verus!
