use vstd::prelude::*;
use vstd::string::*;

verus! {

/// One tag configured on the forum channel: an identifier plus a
/// human-readable display name. Tags are owned by the forum; the library
/// only looks them up, never creates or deletes them.
#[derive(Clone, Debug, PartialEq, Eq)]
pub struct ForumTag {
    pub id: u64,
    pub name: String,
}

/// The code point of `c` with an ASCII uppercase letter folded to its
/// lowercase counterpart; every other character is left as it is.
pub open spec fn lower_code(c: char) -> int {
    if 65 <= c as int && c as int <= 90 {
        c as int + 32
    } else {
        c as int
    }
}

/// A label, character by character, with ASCII case folded away.
pub open spec fn lower_seq(s: Seq<char>) -> Seq<int> {
    s.map_values(|c: char| lower_code(c))
}

/// Two labels are equal up to ASCII case.
pub open spec fn labels_eq_ci(a: Seq<char>, b: Seq<char>) -> bool {
    lower_seq(a) == lower_seq(b)
}

/// Case-insensitive string comparison, the library's notion of label
/// matching.
pub fn eq_ignore_case(a: &str, b: &str) -> (r: bool)
    ensures
        r == labels_eq_ci(a@, b@),
{
    let a_len = a.unicode_len();
    let b_len = b.unicode_len();
    if a_len != b_len {
        proof {
            assert(lower_seq(a@).len() != lower_seq(b@).len());
        }
        return false;
    }
    let mut i: usize = 0;
    while i < a_len
        invariant
            a_len == a@.len(),
            a_len == b@.len(),
            0 <= i <= a_len,
            forall|j: int| 0 <= j < i ==> lower_code(a@[j]) == lower_code(b@[j]),
        decreases a_len - i,
    {
        let ca = a.get_char(i);
        let cb = b.get_char(i);
        let ua = ca as u32;
        let ub = cb as u32;
        let la: u32 = if 65 <= ua && ua <= 90 {
            ua + 32
        } else {
            ua
        };
        let lb: u32 = if 65 <= ub && ub <= 90 {
            ub + 32
        } else {
            ub
        };
        if la != lb {
            proof {
                assert(lower_seq(a@)[i as int] != lower_seq(b@)[i as int]);
            }
            return false;
        }
        i += 1;
    }
    proof {
        assert(lower_seq(a@) =~= lower_seq(b@));
    }
    true
}

/// Whether a list of identifiers (applied tags, a member's roles) names
/// `id`.
pub fn ids_contain(ids: &Vec<u64>, id: u64) -> (r: bool)
    ensures
        r == ids@.contains(id),
{
    let n = ids.len();
    let mut i: usize = 0;
    while i < n
        invariant
            n == ids@.len(),
            0 <= i <= n,
            forall|j: int| 0 <= j < i ==> ids@[j] != id,
        decreases n - i,
    {
        if ids[i] == id {
            return true;
        }
        i += 1;
    }
    false
}

/// The identifier of the first tag whose name matches `label` up to ASCII
/// case, if any.
pub open spec fn resolve_spec(tags: Seq<ForumTag>, label: Seq<char>) -> Option<u64>
    decreases tags.len(),
{
    if tags.len() == 0 {
        None
    } else if labels_eq_ci(tags[0].name@, label) {
        Some(tags[0].id)
    } else {
        resolve_spec(tags.drop_first(), label)
    }
}

/// Tag resolution: look `label` up among the forum's available tags,
/// matching display names case-insensitively, and return the first match.
/// Absence is not an error here; callers treat it as a recoverable
/// condition.
pub fn get_tag_id(tags: &Vec<ForumTag>, label: &str) -> (r: Option<u64>)
    ensures
        r == resolve_spec(tags@, label@),
{
    let n = tags.len();
    let mut i: usize = 0;
    proof {
        assert(tags@.skip(0) =~= tags@);
    }
    while i < n
        invariant
            n == tags@.len(),
            0 <= i <= n,
            resolve_spec(tags@, label@) == resolve_spec(tags@.skip(i as int), label@),
        decreases n - i,
    {
        let tag = &tags[i];
        if eq_ignore_case(tag.name.as_str(), label) {
            proof {
                assert(tags@.skip(i as int)[0] == tags@[i as int]);
            }
            return Some(tag.id);
        }
        proof {
            assert(tags@.skip(i as int).drop_first() =~= tags@.skip(i as int + 1));
            assert(tags@.skip(i as int)[0] == tags@[i as int]);
        }
        i += 1;
    }
    proof {
        assert(tags@.skip(n as int) =~= Seq::<ForumTag>::empty());
    }
    None
}

/// Resolution is sound: a resolved identifier is the identifier of a tag
/// whose name matches the label.
pub proof fn lemma_resolve_finds_match(tags: Seq<ForumTag>, label: Seq<char>)
    requires
        resolve_spec(tags, label) is Some,
    ensures
        exists|k: int|
            0 <= k < tags.len() && labels_eq_ci(tags[k].name@, label) && resolve_spec(tags, label)
                == Some(tags[k].id),
    decreases tags.len(),
{
    if labels_eq_ci(tags[0].name@, label) {
        assert(resolve_spec(tags, label) == Some(tags[0].id));
    } else {
        lemma_resolve_finds_match(tags.drop_first(), label);
        let k = choose|k: int|
            0 <= k < tags.drop_first().len() && labels_eq_ci(tags.drop_first()[k].name@, label)
                && resolve_spec(tags.drop_first(), label) == Some(tags.drop_first()[k].id);
        assert(tags.drop_first()[k] == tags[k + 1]);
    }
}

/// Resolution is complete: when some tag's name matches the label, a tag is
/// found.
pub proof fn lemma_resolve_complete(tags: Seq<ForumTag>, label: Seq<char>)
    requires
        exists|k: int| 0 <= k < tags.len() && labels_eq_ci(tags[k].name@, label),
    ensures
        resolve_spec(tags, label) is Some,
    decreases tags.len(),
{
    if !labels_eq_ci(tags[0].name@, label) {
        let k = choose|k: int| 0 <= k < tags.len() && labels_eq_ci(tags[k].name@, label);
        assert(tags.drop_first()[k - 1] == tags[k]);
        lemma_resolve_complete(tags.drop_first(), label);
    }
}

/// On a forum whose tags carry distinct identifiers, labels that are not
/// equal up to case never resolve to the same tag. In particular the
/// `support`, `answered` and `pending` tags of one forum are three distinct
/// tags.
pub proof fn lemma_distinct_labels_distinct_tags(
    tags: Seq<ForumTag>,
    l1: Seq<char>,
    l2: Seq<char>,
)
    requires
        forall|i: int, j: int| 0 <= i < j < tags.len() ==> tags[i].id != tags[j].id,
        !labels_eq_ci(l1, l2),
        resolve_spec(tags, l1) is Some,
        resolve_spec(tags, l2) is Some,
    ensures
        resolve_spec(tags, l1) != resolve_spec(tags, l2),
{
    lemma_resolve_finds_match(tags, l1);
    lemma_resolve_finds_match(tags, l2);
    let k1 = choose|k: int|
        0 <= k < tags.len() && labels_eq_ci(tags[k].name@, l1) && resolve_spec(tags, l1) == Some(
            tags[k].id,
        );
    let k2 = choose|k: int|
        0 <= k < tags.len() && labels_eq_ci(tags[k].name@, l2) && resolve_spec(tags, l2) == Some(
            tags[k].id,
        );
    assert(k1 != k2);
}

/// Labels that differ only in ASCII case resolve to the same tag
/// identifier, whatever tags the forum carries.
pub proof fn lemma_resolve_case_insensitive(tags: Seq<ForumTag>, l1: Seq<char>, l2: Seq<char>)
    requires
        labels_eq_ci(l1, l2),
    ensures
        resolve_spec(tags, l1) == resolve_spec(tags, l2),
    decreases tags.len(),
{
    if tags.len() > 0 {
        assert(labels_eq_ci(tags[0].name@, l1) == labels_eq_ci(tags[0].name@, l2));
        lemma_resolve_case_insensitive(tags.drop_first(), l1, l2);
    }
}

} // verus!
