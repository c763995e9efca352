use support_tickets::{
    eq_ignore_case, get_tag_id, ids_contain, is_support, lookup_plan, support_member_ids,
    CloseReason, ForumTag, MemberLookup, MemberRecord, ThreadMember, WinstonError,
};

const SUPPORT_ROLE: u64 = 300;

fn tag(id: u64, name: &str) -> ForumTag {
    ForumTag { id, name: name.to_string() }
}

#[test]
fn resolution_is_case_insensitive() {
    let tags = vec![tag(1, "Support"), tag(2, "PENDING"), tag(3, "answered")];
    for label in ["support", "SUPPORT", "Support", "sUpPoRt"] {
        assert_eq!(get_tag_id(&tags, label), Some(1));
    }
    assert_eq!(get_tag_id(&tags, "pending"), Some(2));
    assert_eq!(get_tag_id(&tags, "Answered"), Some(3));
    assert_eq!(get_tag_id(&tags, "resolved"), None);
}

#[test]
fn resolution_returns_first_match() {
    let tags = vec![tag(5, "dup"), tag(6, "DUP")];
    assert_eq!(get_tag_id(&tags, "Dup"), Some(5));
}

#[test]
fn eq_ignore_case_folds_ascii_only() {
    assert!(eq_ignore_case("Resolved", "rESOLVED"));
    assert!(eq_ignore_case("", ""));
    assert!(!eq_ignore_case("pending", "pendin"));
    assert!(!eq_ignore_case("pending", "answered"));
    assert!(eq_ignore_case("tickets 🎫", "TICKETS 🎫"));
    assert!(!eq_ignore_case("ß", "SS"));
}

#[test]
fn close_reason_tag_names() {
    assert_eq!(CloseReason::Resolved.get_tag_name(), "Resolved");
    assert_eq!(CloseReason::Declined.get_tag_name(), "Declined");
    assert_eq!(CloseReason::UnReproducible.get_tag_name(), "Unreproducible");
    assert_eq!(CloseReason::Duplicate.get_tag_name(), "Duplicate");
}

#[test]
fn close_reason_colors() {
    assert_eq!(CloseReason::Resolved.get_color(), 0x53ff52);
    assert_eq!(CloseReason::Declined.get_color(), 0xff5252);
    assert_eq!(CloseReason::UnReproducible.get_color(), 0xFFA500);
    assert_eq!(CloseReason::Duplicate.get_color(), 0x1F85DE);
}

#[test]
fn close_reason_display_labels() {
    assert_eq!(CloseReason::Resolved.display_label(), "✅ Resolved");
    assert_eq!(CloseReason::Declined.display_label(), "⛔ Declined");
    assert_eq!(CloseReason::UnReproducible.display_label(), "❌ Unreproducible");
    assert_eq!(CloseReason::Duplicate.display_label(), "👥 Duplicate");
}

#[test]
fn close_tags_are_recognised_by_name() {
    assert!(CloseReason::is_close_tag(&tag(1, "Resolved")));
    assert!(CloseReason::is_close_tag(&tag(2, "DECLINED")));
    assert!(CloseReason::is_close_tag(&tag(3, "unreproducible")));
    assert!(CloseReason::is_close_tag(&tag(4, "Duplicate")));
    assert!(!CloseReason::is_close_tag(&tag(5, "Support")));
    assert!(!CloseReason::is_close_tag(&tag(6, "Pending")));
}

fn cached_member(user_id: u64, roles: Vec<u64>) -> ThreadMember {
    ThreadMember { user_id, guild_id: Some(100), member: Some(MemberRecord { roles }) }
}

fn uncached_member(user_id: u64) -> ThreadMember {
    ThreadMember { user_id, guild_id: Some(100), member: None }
}

#[test]
fn lookup_plan_picks_the_cached_path_when_possible() {
    assert_eq!(lookup_plan(&cached_member(1, vec![])), MemberLookup::Cached);
    assert_eq!(lookup_plan(&uncached_member(2)), MemberLookup::FetchFromGuild(100));
    let orphan = ThreadMember { user_id: 3, guild_id: None, member: None };
    assert_eq!(lookup_plan(&orphan), MemberLookup::Unresolvable);
}

#[test]
fn support_classification_prefers_cached_record() {
    let m = cached_member(1, vec![7, SUPPORT_ROLE]);
    assert!(is_support(&m, &None, SUPPORT_ROLE));
    let m = cached_member(1, vec![7]);
    // a cached record decides even when a fetched one is also offered
    assert!(!is_support(&m, &Some(MemberRecord { roles: vec![SUPPORT_ROLE] }), SUPPORT_ROLE));
}

#[test]
fn support_classification_falls_back_to_fetched_record() {
    let m = uncached_member(2);
    assert!(is_support(&m, &Some(MemberRecord { roles: vec![SUPPORT_ROLE] }), SUPPORT_ROLE));
    assert!(!is_support(&m, &Some(MemberRecord { roles: vec![9] }), SUPPORT_ROLE));
}

#[test]
fn support_classification_fails_closed() {
    // no cached record and no fetch result: not support
    assert!(!is_support(&uncached_member(2), &None, SUPPORT_ROLE));
    let orphan = ThreadMember { user_id: 3, guild_id: None, member: None };
    assert!(!is_support(&orphan, &None, SUPPORT_ROLE));
}

#[test]
fn support_members_are_selected_for_removal_in_order() {
    let members = vec![
        cached_member(10, vec![SUPPORT_ROLE]),
        cached_member(11, vec![]),
        uncached_member(12),
        uncached_member(13),
        ThreadMember { user_id: 14, guild_id: None, member: None },
    ];
    let fetched = vec![
        None,
        None,
        Some(MemberRecord { roles: vec![SUPPORT_ROLE, 8] }),
        None,
        None,
    ];
    let removed = support_member_ids(&members, &fetched, SUPPORT_ROLE);
    assert_eq!(removed, vec![10, 12]);
}

#[test]
fn no_members_are_removed_when_none_is_support() {
    let members = vec![cached_member(10, vec![1, 2]), uncached_member(11)];
    let fetched = vec![None, Some(MemberRecord { roles: vec![3] })];
    assert_eq!(support_member_ids(&members, &fetched, SUPPORT_ROLE), Vec::<u64>::new());
}

#[test]
fn ids_contain_finds_an_applied_tag() {
    assert!(ids_contain(&vec![1, 2, 3], 2));
    assert!(!ids_contain(&vec![1, 2, 3], 4));
    assert!(!ids_contain(&vec![], 1));
}

#[test]
fn error_messages_name_the_failure() {
    assert_eq!(WinstonError::NotAGuildChannel.message(), "not a guild channel");
    assert_eq!(WinstonError::NotAThreadChannel.message(), "not a thread channel");
    assert_eq!(
        WinstonError::TagNotFound("support".to_string()).message(),
        "tag not found: support"
    );
}
