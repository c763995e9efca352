use vstd::prelude::*;
use crate::tags::ids_contain;

verus! {

/// A guild member's data as far as classification needs it: the roles the
/// member holds.
#[derive(Clone, Debug, PartialEq, Eq)]
pub struct MemberRecord {
    pub roles: Vec<u64>,
}

/// The association between a thread and one user. The guild-member record is
/// present when the platform had it cached; otherwise it must be fetched
/// from the guild named by `guild_id`.
#[derive(Clone, Debug, PartialEq, Eq)]
pub struct ThreadMember {
    pub user_id: u64,
    pub guild_id: Option<u64>,
    pub member: Option<MemberRecord>,
}

/// How a thread member's guild record is to be obtained: from the cached
/// record, by fetching from a guild, or not at all.
#[derive(Clone, Copy, Debug, PartialEq, Eq, Structural)]
pub enum MemberLookup {
    /// A cached record is present; no fetch is needed.
    Cached,
    /// Fetch the member from the guild with this identifier.
    FetchFromGuild(u64),
    /// No cached record and no guild identifier: the member cannot be
    /// resolved and is classified as not-support.
    Unresolvable,
}

/// Which of the two lookup paths applies to `tm`: the cached record when one
/// is present, else a fetch from the member's guild, else nothing.
pub fn lookup_plan(tm: &ThreadMember) -> (r: MemberLookup)
    ensures
        tm.member is Some ==> r == MemberLookup::Cached,
        tm.member is None ==> r == (match tm.guild_id {
            Some(g) => MemberLookup::FetchFromGuild(g),
            None => MemberLookup::Unresolvable,
        }),
{
    if tm.member.is_some() {
        MemberLookup::Cached
    } else {
        match tm.guild_id {
            Some(g) => MemberLookup::FetchFromGuild(g),
            None => MemberLookup::Unresolvable,
        }
    }
}

/// The role-membership classification of one thread member. `fetched` is
/// whatever a fetch from the guild produced, `None` when no fetch was
/// possible or it failed: classification never errors, an unresolvable
/// member counts as not-support.
pub open spec fn spec_is_support(
    tm: ThreadMember,
    fetched: Option<MemberRecord>,
    support_role_id: u64,
) -> bool {
    match tm.member {
        Some(m) => m.roles@.contains(support_role_id),
        None => match fetched {
            Some(m) => m.roles@.contains(support_role_id),
            None => false,
        },
    }
}

/// The role membership oracle. A cached record decides directly; otherwise
/// the caller-supplied fetch result decides; a member that could not be
/// resolved is not support.
pub fn is_support(tm: &ThreadMember, fetched: &Option<MemberRecord>, support_role_id: u64) -> (r:
    bool)
    ensures
        r == spec_is_support(*tm, *fetched, support_role_id),
{
    match &tm.member {
        Some(m) => ids_contain(&m.roles, support_role_id),
        None => match fetched {
            Some(m) => ids_contain(&m.roles, support_role_id),
            None => false,
        },
    }
}

/// The user identifiers of the members classified as support, in the order
/// the members were given, each paired with its own fetch result.
pub open spec fn spec_support_member_ids(
    members: Seq<ThreadMember>,
    fetched: Seq<Option<MemberRecord>>,
    support_role_id: u64,
) -> Seq<u64>
    decreases members.len(),
{
    if members.len() == 0 {
        Seq::empty()
    } else {
        let rest = spec_support_member_ids(
            members.drop_first(),
            fetched.drop_first(),
            support_role_id,
        );
        if spec_is_support(members[0], fetched[0], support_role_id) {
            seq![members[0].user_id] + rest
        } else {
            rest
        }
    }
}

/// Which thread members are to be removed at closure: exactly those the
/// oracle classifies as support. `fetched[i]` is the fetch result for
/// `members[i]`, `None` where no fetch was possible or it failed.
pub fn support_member_ids(
    members: &Vec<ThreadMember>,
    fetched: &Vec<Option<MemberRecord>>,
    support_role_id: u64,
) -> (r: Vec<u64>)
    requires
        members@.len() == fetched@.len(),
    ensures
        r@ == spec_support_member_ids(members@, fetched@, support_role_id),
{
    let n = members.len();
    let mut out: Vec<u64> = Vec::new();
    let mut i: usize = 0;
    proof {
        assert(members@.skip(0) =~= members@);
        assert(fetched@.skip(0) =~= fetched@);
    }
    while i < n
        invariant
            n == members@.len(),
            n == fetched@.len(),
            0 <= i <= n,
            spec_support_member_ids(members@, fetched@, support_role_id) == out@
                + spec_support_member_ids(
                members@.skip(i as int),
                fetched@.skip(i as int),
                support_role_id,
            ),
        decreases n - i,
    {
        proof {
            assert(members@.skip(i as int).drop_first() =~= members@.skip(i as int + 1));
            assert(fetched@.skip(i as int).drop_first() =~= fetched@.skip(i as int + 1));
            assert(members@.skip(i as int)[0] == members@[i as int]);
            assert(fetched@.skip(i as int)[0] == fetched@[i as int]);
        }
        let ghost out_before = out@;
        let ghost rest = spec_support_member_ids(
            members@.skip(i as int + 1),
            fetched@.skip(i as int + 1),
            support_role_id,
        );
        if is_support(&members[i], &fetched[i], support_role_id) {
            out.push(members[i].user_id);
            proof {
                assert(out@ + rest =~= out_before + (seq![members@[i as int].user_id] + rest));
            }
        }
        i += 1;
    }
    proof {
        assert(members@.skip(n as int) =~= Seq::<ThreadMember>::empty());
        assert(out@ + Seq::<u64>::empty() =~= out@);
    }
    out
}

} // verus!
