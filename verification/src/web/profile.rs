//! The profile page's data: a user's live sessions, rendered for display.

use vstd::prelude::*;
use vstd::arithmetic::div_mod::lemma_fundamental_div_mod;
use vstd::string::*;
use vstd::utf8::encode_utf8;
use crate::ids::id_text;
use crate::ids::uuid_text;
use crate::models::session::Session;
use crate::models::user::User;
use crate::store::Db;
use crate::store::selects_live_sessions;
use crate::text::dec_rep;
use crate::text::u64_to_string;

verus! {

/// One session as the profile page displays it.
pub struct SessionDisplay {
    pub id: String,
    pub ip_address: String,
    pub user_agent: String,
    pub created_at: String,
    pub expires_at: String,
    pub is_current: bool,
}

/// The user-agent text as displayed: shortened to its first 47
/// characters with an ellipsis when longer than 50 bytes.
pub open spec fn truncated_ua(ua: Seq<char>) -> Seq<char> {
    if encode_utf8(ua).len() > 50 {
        (if ua.len() >= 47 {
            ua.take(47)
        } else {
            ua
        }) + "..."@
    } else {
        ua
    }
}

/// Shortens a user-agent string for display.
pub fn truncate_user_agent(user_agent: &str) -> (r: String)
    ensures
        r@ == truncated_ua(user_agent@),
{
    if user_agent.as_bytes().len() > 50 {
        let n = user_agent.unicode_len();
        let limit = if n < 47 {
            n
        } else {
            47
        };
        let prefix = user_agent.substring_char(0, limit);
        let mut out = prefix.to_owned();
        out.append("...");
        proof {
            if user_agent@.len() >= 47 {
                assert(user_agent@.take(47) =~= user_agent@.subrange(0, 47));
            } else {
                assert(user_agent@ =~= user_agent@.subrange(0, user_agent@.len() as int));
            }
        }
        out
    } else {
        user_agent.to_owned()
    }
}

/// The human-readable rendering of a stored timestamp relative to `now`:
/// an age in days, hours or minutes, `Just now` within the last minute,
/// a `Future:` marker for timestamps ahead of the clock, and a rejection
/// of non-positive timestamps.
pub open spec fn timestamp_text(timestamp_micros: i64, now_micros: i64) -> Seq<char> {
    if timestamp_micros <= 0 {
        "Invalid timestamp"@
    } else {
        let ts_secs = timestamp_micros as int / 1_000_000;
        if now_micros < ts_secs * 1_000_000 {
            "Future: "@ + dec_rep(ts_secs as nat)
        } else {
            let total_secs = (now_micros - ts_secs * 1_000_000) / 1_000_000;
            let days = total_secs / 86400;
            let hours = (total_secs % 86400) / 3600;
            let minutes = (total_secs % 3600) / 60;
            if days > 0 {
                dec_rep(days as nat) + " days ago"@
            } else if hours > 0 {
                dec_rep(hours as nat) + " hours ago"@
            } else if minutes > 0 {
                dec_rep(minutes as nat) + " minutes ago"@
            } else {
                "Just now"@
            }
        }
    }
}

/// Renders a stored timestamp relative to `now`.
pub fn format_timestamp(timestamp_micros: i64, now_micros: i64) -> (r: String)
    requires
        0 <= now_micros,
    ensures
        r@ == timestamp_text(timestamp_micros, now_micros),
{
    if timestamp_micros <= 0 {
        return "Invalid timestamp".to_owned();
    }
    let ts_u = timestamp_micros as u64;
    let now_u = now_micros as u64;
    let ts_secs: u64 = ts_u / 1_000_000;
    proof {
        lemma_fundamental_div_mod(ts_u as int, 1_000_000);
    }
    if now_u < ts_secs * 1_000_000 {
        let mut out = "Future: ".to_owned();
        out.append(u64_to_string(ts_secs).as_str());
        return out;
    }
    let total_secs: u64 = (now_u - ts_secs * 1_000_000) / 1_000_000;
    let days = total_secs / 86400;
    let hours = (total_secs % 86400) / 3600;
    let minutes = (total_secs % 3600) / 60;
    if days > 0 {
        let mut out = u64_to_string(days);
        out.append(" days ago");
        out
    } else if hours > 0 {
        let mut out = u64_to_string(hours);
        out.append(" hours ago");
        out
    } else if minutes > 0 {
        let mut out = u64_to_string(minutes);
        out.append(" minutes ago");
        out
    } else {
        "Just now".to_owned()
    }
}

/// `d` is the display row for session `s` at time `now`.
pub open spec fn is_display_of(s: Session, now: i64, d: SessionDisplay) -> bool {
    &&& d.id@ == uuid_text(s.id)
    &&& d.ip_address@ == s.ip_address@
    &&& d.user_agent@ == truncated_ua(s.user_agent@)
    &&& d.created_at@ == timestamp_text(s.created_at, now)
    &&& d.expires_at@ == timestamp_text(s.expires_at, now)
    &&& d.is_current == false
}

/// The profile page's listing: one display row for each of the user's
/// live sessions, in the store's listing order.
pub fn profile(db: &Db, user: &User, now: i64) -> (r: Vec<SessionDisplay>)
    requires
        db.wf(),
        0 <= now,
    ensures
        ({
            let live = db@.sessions.filter(selects_live_sessions(user.id, now));
            &&& r@.len() == live.len()
            &&& forall|i: int| 0 <= i < live.len() ==> is_display_of(live[i], now, #[trigger] r@[i])
        }),
{
    let sessions = match Session::get_by_user_id(db, user.id, now) {
        Ok(sessions) => sessions,
        Err(_) => Vec::new(),
    };
    let mut out: Vec<SessionDisplay> = Vec::new();
    let n = sessions.len();
    let mut i: usize = 0;
    while i < n
        invariant
            i <= n,
            n == sessions@.len(),
            out@.len() == i,
            sessions@ == db@.sessions.filter(selects_live_sessions(user.id, now)),
            0 <= now,
            forall|j: int| 0 <= j < i ==> is_display_of(sessions@[j], now, #[trigger] out@[j]),
        decreases n - i,
    {
        let s = &sessions[i];
        out.push(
            SessionDisplay {
                id: id_text(s.id),
                ip_address: s.ip_address.clone(),
                user_agent: truncate_user_agent(s.user_agent.as_str()),
                created_at: format_timestamp(s.created_at, now),
                expires_at: format_timestamp(s.expires_at, now),
                is_current: false,
            },
        );
        i = i + 1;
    }
    out
}

} // verus!
