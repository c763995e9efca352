use vstd::prelude::*;
use crate::tags::ForumTag;
use crate::tags::eq_ignore_case;
use crate::tags::labels_eq_ci;
use crate::tags::lower_seq;

verus! {

/// Why a ticket was closed. Each reason carries a close-tag label, a display
/// string with its emoji, and a 24-bit RGB accent color for the closure
/// notice.
#[derive(Clone, Copy, Debug, PartialEq, Eq, Structural)]
pub enum CloseReason {
    Resolved,
    Declined,
    UnReproducible,
    Duplicate,
}

impl CloseReason {
    /// The label of the forum tag that marks a thread closed for this
    /// reason.
    pub open spec fn spec_tag_name(self) -> Seq<char> {
        match self {
            CloseReason::Resolved => "Resolved"@,
            CloseReason::Declined => "Declined"@,
            CloseReason::UnReproducible => "Unreproducible"@,
            CloseReason::Duplicate => "Duplicate"@,
        }
    }

    pub fn get_tag_name(&self) -> (r: &str)
        ensures
            r@ == self.spec_tag_name(),
    {
        match self {
            CloseReason::Resolved => "Resolved",
            CloseReason::Declined => "Declined",
            CloseReason::UnReproducible => "Unreproducible",
            CloseReason::Duplicate => "Duplicate",
        }
    }

    /// The accent color of the closure notice for this reason.
    pub open spec fn spec_color(self) -> u32 {
        match self {
            CloseReason::Resolved => 0x53ff52,
            CloseReason::Declined => 0xff5252,
            CloseReason::UnReproducible => 0xFFA500,
            CloseReason::Duplicate => 0x1F85DE,
        }
    }

    pub fn get_color(&self) -> (r: u32)
        ensures
            r == self.spec_color(),
    {
        match self {
            CloseReason::Resolved => 0x53ff52,
            CloseReason::Declined => 0xff5252,
            CloseReason::UnReproducible => 0xFFA500,
            CloseReason::Duplicate => 0x1F85DE,
        }
    }

    /// The display string, emoji included, shown for this reason in the
    /// closure notice.
    pub open spec fn spec_display(self) -> Seq<char> {
        match self {
            CloseReason::Resolved => "✅ Resolved"@,
            CloseReason::Declined => "⛔ Declined"@,
            CloseReason::UnReproducible => "❌ Unreproducible"@,
            CloseReason::Duplicate => "👥 Duplicate"@,
        }
    }

    pub fn display_label(&self) -> (r: &str)
        ensures
            r@ == self.spec_display(),
    {
        match self {
            CloseReason::Resolved => "✅ Resolved",
            CloseReason::Declined => "⛔ Declined",
            CloseReason::UnReproducible => "❌ Unreproducible",
            CloseReason::Duplicate => "👥 Duplicate",
        }
    }

    /// Whether `tag` is one of the close-reason tags, judged by its display
    /// name up to ASCII case.
    pub open spec fn spec_is_close_tag(tag: ForumTag) -> bool {
        ||| labels_eq_ci(tag.name@, "resolved"@)
        ||| labels_eq_ci(tag.name@, "declined"@)
        ||| labels_eq_ci(tag.name@, "unreproducible"@)
        ||| labels_eq_ci(tag.name@, "duplicate"@)
    }

    pub fn is_close_tag(tag: &ForumTag) -> (r: bool)
        ensures
            r == Self::spec_is_close_tag(*tag),
    {
        let name = tag.name.as_str();
        eq_ignore_case(name, "resolved") || eq_ignore_case(name, "declined")
            || eq_ignore_case(name, "unreproducible") || eq_ignore_case(name, "duplicate")
    }
}

/// `is_close_tag` recognises exactly the tags whose name matches the tag
/// label of some close reason, up to ASCII case.
pub proof fn lemma_close_tag_names(tag: ForumTag)
    ensures
        CloseReason::spec_is_close_tag(tag) <==> exists|r: CloseReason|
            labels_eq_ci(tag.name@, r.spec_tag_name()),
{
    reveal_strlit("resolved");
    reveal_strlit("Resolved");
    reveal_strlit("declined");
    reveal_strlit("Declined");
    reveal_strlit("unreproducible");
    reveal_strlit("Unreproducible");
    reveal_strlit("duplicate");
    reveal_strlit("Duplicate");
    assert(lower_seq("Resolved"@) =~= lower_seq("resolved"@));
    assert(lower_seq("Declined"@) =~= lower_seq("declined"@));
    assert(lower_seq("Unreproducible"@) =~= lower_seq("unreproducible"@));
    assert(lower_seq("Duplicate"@) =~= lower_seq("duplicate"@));
    if CloseReason::spec_is_close_tag(tag) {
        if labels_eq_ci(tag.name@, "resolved"@) {
            assert(labels_eq_ci(tag.name@, CloseReason::Resolved.spec_tag_name()));
        } else if labels_eq_ci(tag.name@, "declined"@) {
            assert(labels_eq_ci(tag.name@, CloseReason::Declined.spec_tag_name()));
        } else if labels_eq_ci(tag.name@, "unreproducible"@) {
            assert(labels_eq_ci(tag.name@, CloseReason::UnReproducible.spec_tag_name()));
        } else {
            assert(labels_eq_ci(tag.name@, CloseReason::Duplicate.spec_tag_name()));
        }
    }
    if exists|r: CloseReason| labels_eq_ci(tag.name@, r.spec_tag_name()) {
        let r = choose|r: CloseReason| labels_eq_ci(tag.name@, r.spec_tag_name());
        match r {
            CloseReason::Resolved => assert(labels_eq_ci(tag.name@, "resolved"@)),
            CloseReason::Declined => assert(labels_eq_ci(tag.name@, "declined"@)),
            CloseReason::UnReproducible => assert(labels_eq_ci(tag.name@, "unreproducible"@)),
            CloseReason::Duplicate => assert(labels_eq_ci(tag.name@, "duplicate"@)),
        }
    }
}

} // verus!
