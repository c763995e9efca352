use vstd::prelude::*;
use crate::answering::ForumChannel;
use crate::answering::ThreadSnapshot;
use crate::close_reason::CloseReason;
use crate::error::WinstonError;
use crate::tags::get_tag_id;
use crate::tags::resolve_spec;

verus! {

/// The closure notice to post into the thread: it mentions the owner,
/// states the reason (label, display string and accent color come from the
/// reason itself), names the closer, and carries a reopen affordance only
/// when reopening is allowed.
#[derive(Clone, Copy, Debug, PartialEq, Eq, Structural)]
pub struct ClosureNotice {
    pub owner_id: u64,
    pub reason: CloseReason,
    pub allow_reopen: bool,
}

/// What the close command asks the caller to do.
#[derive(Clone, Copy, Debug, PartialEq, Eq, Structural)]
pub enum CloseOutcome {
    /// The parent forum lacks the close-reason tag: inform the user of the
    /// misconfiguration and leave the thread open — no tag mutation, no
    /// lock change.
    TagMissing,
    /// Close the thread: post the notice, remove the support-role members,
    /// then set the tag set to exactly `[tag]` and the locked flag to
    /// `locked`. Tagging and locking are absolute-set operations, so
    /// re-closing an already closed thread is safe.
    Close { tag: u64, locked: bool, notice: ClosureNotice },
}

/// The decision of the close command: structural preconditions first (a
/// guild thread with a guild parent and an owner), then the close-reason
/// tag, then the closure itself, locked exactly when reopening is not
/// allowed.
pub open spec fn spec_close_ticket(
    channel: Option<ThreadSnapshot>,
    parent: Option<ForumChannel>,
    reason: CloseReason,
    allow_reopen: bool,
) -> Result<CloseOutcome, WinstonError> {
    match channel {
        None => Err(WinstonError::NotAGuildChannel),
        Some(t) => {
            if t.parent_id is None {
                Err(WinstonError::NotAGuildChannel)
            } else {
                match parent {
                    None => Err(WinstonError::NotAGuildChannel),
                    Some(p) => match t.owner_id {
                        None => Err(WinstonError::NotAThreadChannel),
                        Some(owner_id) => match resolve_spec(
                            p.available_tags@,
                            reason.spec_tag_name(),
                        ) {
                            None => Ok(CloseOutcome::TagMissing),
                            Some(tag) => Ok(
                                CloseOutcome::Close {
                                    tag,
                                    locked: !allow_reopen,
                                    notice: ClosureNotice { owner_id, reason, allow_reopen },
                                },
                            ),
                        },
                    },
                }
            }
        },
    }
}

/// The terminal transition, privileged to the support role by an external
/// check. `channel` is the invoking thread as the caller resolved it
/// (`None` when it is no guild channel), `parent` its parent channel. On
/// `Close` the caller posts the notice, removes the members named by
/// [`crate::support_member_ids`], and applies the tag and lock; each
/// step's failure aborts the following ones, except member removal, which
/// is best-effort.
pub fn close_ticket(
    channel: &Option<ThreadSnapshot>,
    parent: &Option<ForumChannel>,
    reason: CloseReason,
    allow_reopen: bool,
) -> (r: Result<CloseOutcome, WinstonError>)
    ensures
        r == spec_close_ticket(*channel, *parent, reason, allow_reopen),
{
    let t = match channel {
        None => {
            return Err(WinstonError::NotAGuildChannel);
        },
        Some(t) => t,
    };
    if t.parent_id.is_none() {
        return Err(WinstonError::NotAGuildChannel);
    }
    let p = match parent {
        None => {
            return Err(WinstonError::NotAGuildChannel);
        },
        Some(p) => p,
    };
    let owner_id = match t.owner_id {
        None => {
            return Err(WinstonError::NotAThreadChannel);
        },
        Some(o) => o,
    };
    match get_tag_id(&p.available_tags, reason.get_tag_name()) {
        None => Ok(CloseOutcome::TagMissing),
        Some(tag) => Ok(
            CloseOutcome::Close {
                tag,
                locked: !allow_reopen,
                notice: ClosureNotice { owner_id, reason, allow_reopen },
            },
        ),
    }
}

/// Closing with reopening forbidden locks the thread; closing with
/// reopening allowed leaves it unlocked. This holds for every close reason
/// and whatever the thread and forum look like.
pub proof fn lemma_close_locks_iff_no_reopen(
    channel: Option<ThreadSnapshot>,
    parent: Option<ForumChannel>,
    reason: CloseReason,
    allow_reopen: bool,
)
    ensures
        spec_close_ticket(channel, parent, reason, allow_reopen) matches Ok(
            CloseOutcome::Close { locked, .. },
        ) ==> locked == !allow_reopen,
{
}

} // verus!
