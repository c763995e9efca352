use vstd::prelude::*;
use crate::config::Config;
use crate::error::WinstonError;
use crate::tags::ForumTag;
use crate::tags::get_tag_id;
use crate::tags::ids_contain;
use crate::tags::resolve_spec;

verus! {

/// A thread as the decision logic sees it: plain identifiers and the
/// currently applied tag set. The caller takes this snapshot from the
/// platform before asking for a decision.
#[derive(Clone, Debug, PartialEq, Eq)]
pub struct ThreadSnapshot {
    pub id: u64,
    pub parent_id: Option<u64>,
    pub owner_id: Option<u64>,
    pub applied_tags: Vec<u64>,
    pub last_message_id: Option<u64>,
}

/// The parent forum channel: its identifier and the tags it offers.
#[derive(Clone, Debug, PartialEq, Eq)]
pub struct ForumChannel {
    pub id: u64,
    pub available_tags: Vec<ForumTag>,
}

/// The welcome message that accompanies a fresh ticket: whom it greets,
/// which role it alerts, and which message it replies to (standalone when
/// `reply_to` is absent or that message cannot be fetched).
#[derive(Clone, Copy, Debug, PartialEq, Eq, Structural)]
pub struct WelcomeNotice {
    pub owner_id: u64,
    pub mention_role_id: u64,
    pub reply_to: Option<u64>,
}

/// What a thread-creation event asks the caller to do.
#[derive(Clone, Debug, PartialEq, Eq)]
pub enum ThreadCreateAction {
    /// The thread is not a fresh ticket in the configured forum: leave it
    /// alone.
    Skip,
    /// The forum lacks a tag the transition needs; carries the label. No
    /// partial mutation: nothing is applied and no message is sent.
    MissingTag(String),
    /// Apply exactly these tags, then send the welcome notice if there is
    /// one (a thread without an owner gets no notice).
    Apply { tags: Vec<u64>, notice: Option<WelcomeNotice> },
}

/// Specification-level image of [`ThreadCreateAction`].
pub enum ThreadCreateDecision {
    Skip,
    MissingTag(Seq<char>),
    Apply { tags: Seq<u64>, notice: Option<WelcomeNotice> },
}

impl View for ThreadCreateAction {
    type V = ThreadCreateDecision;

    open spec fn view(&self) -> ThreadCreateDecision {
        match self {
            ThreadCreateAction::Skip => ThreadCreateDecision::Skip,
            ThreadCreateAction::MissingTag(l) => ThreadCreateDecision::MissingTag(l@),
            ThreadCreateAction::Apply { tags, notice } => ThreadCreateDecision::Apply {
                tags: tags@,
                notice: *notice,
            },
        }
    }
}

/// What a message event asks the caller to do next.
#[derive(Clone, Debug, PartialEq, Eq)]
pub enum MessagePlan {
    /// Not a qualifying message: no classification, no mutation.
    Skip,
    /// The forum lacks a tag the transition needs; carries the label.
    /// Nothing is mutated.
    MissingTag(String),
    /// Classify the author through the role membership oracle, then apply
    /// the tags given by [`classification_tags`] on these three identifiers.
    Classify { support_tag: u64, answered_tag: u64, pending_tag: u64 },
}

/// Specification-level image of [`MessagePlan`].
pub enum MessageDecision {
    Skip,
    MissingTag(Seq<char>),
    Classify { support_tag: u64, answered_tag: u64, pending_tag: u64 },
}

impl View for MessagePlan {
    type V = MessageDecision;

    open spec fn view(&self) -> MessageDecision {
        match self {
            MessagePlan::Skip => MessageDecision::Skip,
            MessagePlan::MissingTag(l) => MessageDecision::MissingTag(l@),
            MessagePlan::Classify { support_tag, answered_tag, pending_tag } => {
                MessageDecision::Classify {
                    support_tag: *support_tag,
                    answered_tag: *answered_tag,
                    pending_tag: *pending_tag,
                }
            },
        }
    }
}

/// The outcome of the explicit answered/pending command.
#[derive(Clone, Copy, Debug, PartialEq, Eq, Structural)]
pub enum AnswerOutcome {
    /// The thread does not carry the support tag: inform the invoker and
    /// mutate nothing.
    Rejected,
    /// Set the thread's tag set to exactly `[support_tag, target_tag]`.
    Apply { support_tag: u64, target_tag: u64 },
}

/// Specification-level outcome of the answered/pending command, errors
/// included.
pub enum AnswerDecision {
    NotGuild,
    MissingTag(Seq<char>),
    Rejected,
    Apply { support_tag: u64, target_tag: u64 },
}

/// The decision of a thread-creation event: only a thread with no tags yet,
/// whose parent is the configured forum, becomes a ticket; it receives the
/// `support` and `pending` tags and its owner is welcomed. A thread that
/// already carries tags was processed before (it is being reopened, not
/// created) and is left untouched.
pub open spec fn spec_thread_create(
    cfg: Config,
    thread: ThreadSnapshot,
    parent: Option<ForumChannel>,
) -> ThreadCreateDecision {
    if thread.applied_tags@.len() != 0 {
        ThreadCreateDecision::Skip
    } else if thread.parent_id is None {
        ThreadCreateDecision::Skip
    } else {
        match parent {
            None => ThreadCreateDecision::Skip,
            Some(p) => {
                if p.id != cfg.forum_channel_id {
                    ThreadCreateDecision::Skip
                } else {
                    match resolve_spec(p.available_tags@, "support"@) {
                        None => ThreadCreateDecision::MissingTag("support"@),
                        Some(support_tag) => match resolve_spec(p.available_tags@, "pending"@) {
                            None => ThreadCreateDecision::MissingTag("pending"@),
                            Some(pending_tag) => ThreadCreateDecision::Apply {
                                tags: seq![support_tag, pending_tag],
                                notice: match thread.owner_id {
                                    None => None,
                                    Some(owner_id) => Some(
                                        WelcomeNotice {
                                            owner_id,
                                            mention_role_id: cfg.support_role_id,
                                            reply_to: thread.last_message_id,
                                        },
                                    ),
                                },
                            },
                        },
                    }
                }
            },
        }
    }
}

/// The decision of a message event: a non-bot message in a support-tagged
/// thread of the configured forum re-classifies the thread as answered or
/// pending by the author's role.
pub open spec fn spec_message(
    cfg: Config,
    author_is_bot: bool,
    thread: Option<ThreadSnapshot>,
    parent: Option<ForumChannel>,
) -> MessageDecision {
    if author_is_bot {
        MessageDecision::Skip
    } else {
        match thread {
            None => MessageDecision::Skip,
            Some(t) => {
                if t.parent_id is None {
                    MessageDecision::Skip
                } else {
                    match parent {
                        None => MessageDecision::Skip,
                        Some(p) => {
                            if p.id != cfg.forum_channel_id {
                                MessageDecision::Skip
                            } else {
                                match resolve_spec(p.available_tags@, "support"@) {
                                    None => MessageDecision::MissingTag("support"@),
                                    Some(support_tag) => {
                                        if !t.applied_tags@.contains(support_tag) {
                                            MessageDecision::Skip
                                        } else {
                                            match resolve_spec(p.available_tags@, "answered"@) {
                                                None => MessageDecision::MissingTag("answered"@),
                                                Some(answered_tag) => match resolve_spec(
                                                    p.available_tags@,
                                                    "pending"@,
                                                ) {
                                                    None => MessageDecision::MissingTag(
                                                        "pending"@,
                                                    ),
                                                    Some(pending_tag) => MessageDecision::Classify {
                                                        support_tag,
                                                        answered_tag,
                                                        pending_tag,
                                                    },
                                                },
                                            }
                                        }
                                    },
                                }
                            }
                        },
                    }
                }
            },
        }
    }
}

/// The decision of the explicit answered/pending command. Only a thread
/// already carrying the support tag may be marked; a missing forum tag is a
/// hard error, a thread that is no ticket a rejection without mutation.
pub open spec fn spec_support_answering(
    channel: Option<ThreadSnapshot>,
    parent: Option<ForumChannel>,
    answered: bool,
) -> AnswerDecision {
    match channel {
        None => AnswerDecision::NotGuild,
        Some(t) => {
            if t.parent_id is None {
                AnswerDecision::NotGuild
            } else {
                match parent {
                    None => AnswerDecision::NotGuild,
                    Some(p) => match resolve_spec(p.available_tags@, "support"@) {
                        None => AnswerDecision::MissingTag("support"@),
                        Some(support_tag) => {
                            if !t.applied_tags@.contains(support_tag) {
                                AnswerDecision::Rejected
                            } else {
                                match resolve_spec(
                                    p.available_tags@,
                                    if answered {
                                        "answered"@
                                    } else {
                                        "pending"@
                                    },
                                ) {
                                    None => AnswerDecision::MissingTag(
                                        if answered {
                                            "answered"@
                                        } else {
                                            "pending"@
                                        },
                                    ),
                                    Some(target_tag) => AnswerDecision::Apply {
                                        support_tag,
                                        target_tag,
                                    },
                                }
                            }
                        },
                    },
                }
            }
        },
    }
}

/// The thread tag state machine, driven by thread-creation and message
/// events. It decides tag mutations; the caller executes them.
pub struct SupportAnsweringHandler {
    pub config: Config,
}

impl SupportAnsweringHandler {
    pub fn new(config: Config) -> (h: SupportAnsweringHandler)
        ensures
            h.config == config,
    {
        SupportAnsweringHandler { config }
    }

    /// Decide a thread-creation event. `parent` is the thread's parent
    /// channel as the caller resolved it: `None` when the thread names no
    /// parent the caller could fetch, or the parent is no guild channel.
    pub fn thread_create(&self, thread: &ThreadSnapshot, parent: &Option<ForumChannel>) -> (r:
        ThreadCreateAction)
        ensures
            r@ == spec_thread_create(self.config, *thread, *parent),
    {
        if thread.applied_tags.len() != 0 {
            return ThreadCreateAction::Skip;
        }
        if thread.parent_id.is_none() {
            return ThreadCreateAction::Skip;
        }
        let p = match parent {
            None => {
                return ThreadCreateAction::Skip;
            },
            Some(p) => p,
        };
        if p.id != self.config.forum_channel_id {
            return ThreadCreateAction::Skip;
        }
        let support_tag = match get_tag_id(&p.available_tags, "support") {
            None => {
                return ThreadCreateAction::MissingTag("support".to_owned());
            },
            Some(t) => t,
        };
        let pending_tag = match get_tag_id(&p.available_tags, "pending") {
            None => {
                return ThreadCreateAction::MissingTag("pending".to_owned());
            },
            Some(t) => t,
        };
        let mut tags: Vec<u64> = Vec::new();
        tags.push(support_tag);
        tags.push(pending_tag);
        proof {
            assert(tags@ =~= seq![support_tag, pending_tag]);
        }
        let notice = match thread.owner_id {
            None => None,
            Some(owner_id) => Some(
                WelcomeNotice {
                    owner_id,
                    mention_role_id: self.config.support_role_id,
                    reply_to: thread.last_message_id,
                },
            ),
        };
        ThreadCreateAction::Apply { tags, notice }
    }

    /// Decide a message event. `thread` is the message's channel as the
    /// caller resolved it (`None` when it could not be fetched or is no
    /// guild thread); `parent` as in [`Self::thread_create`]. A `Classify`
    /// plan asks the caller to consult the role membership oracle and then
    /// apply [`classification_tags`].
    pub fn message(
        &self,
        author_is_bot: bool,
        thread: &Option<ThreadSnapshot>,
        parent: &Option<ForumChannel>,
    ) -> (r: MessagePlan)
        ensures
            r@ == spec_message(self.config, author_is_bot, *thread, *parent),
    {
        if author_is_bot {
            return MessagePlan::Skip;
        }
        let t = match thread {
            None => {
                return MessagePlan::Skip;
            },
            Some(t) => t,
        };
        if t.parent_id.is_none() {
            return MessagePlan::Skip;
        }
        let p = match parent {
            None => {
                return MessagePlan::Skip;
            },
            Some(p) => p,
        };
        if p.id != self.config.forum_channel_id {
            return MessagePlan::Skip;
        }
        let support_tag = match get_tag_id(&p.available_tags, "support") {
            None => {
                return MessagePlan::MissingTag("support".to_owned());
            },
            Some(t) => t,
        };
        if !ids_contain(&t.applied_tags, support_tag) {
            return MessagePlan::Skip;
        }
        let answered_tag = match get_tag_id(&p.available_tags, "answered") {
            None => {
                return MessagePlan::MissingTag("answered".to_owned());
            },
            Some(t) => t,
        };
        let pending_tag = match get_tag_id(&p.available_tags, "pending") {
            None => {
                return MessagePlan::MissingTag("pending".to_owned());
            },
            Some(t) => t,
        };
        MessagePlan::Classify { support_tag, answered_tag, pending_tag }
    }
}

/// The tag set a classification assigns: always the support tag plus
/// exactly one status tag, `answered` for a support author, `pending`
/// otherwise.
pub open spec fn spec_classification_tags(
    support_tag: u64,
    answered_tag: u64,
    pending_tag: u64,
    author_is_support: bool,
) -> Seq<u64> {
    if author_is_support {
        seq![support_tag, answered_tag]
    } else {
        seq![support_tag, pending_tag]
    }
}

/// The tags to apply once a message author is classified. Applying them is
/// an absolute replacement of the thread's tag set, so repeated messages
/// from the same role class are idempotent in effect.
pub fn classification_tags(
    support_tag: u64,
    answered_tag: u64,
    pending_tag: u64,
    author_is_support: bool,
) -> (r: Vec<u64>)
    ensures
        r@ == spec_classification_tags(support_tag, answered_tag, pending_tag, author_is_support),
{
    let mut tags: Vec<u64> = Vec::new();
    tags.push(support_tag);
    if author_is_support {
        tags.push(answered_tag);
        proof {
            assert(tags@ =~= seq![support_tag, answered_tag]);
        }
    } else {
        tags.push(pending_tag);
        proof {
            assert(tags@ =~= seq![support_tag, pending_tag]);
        }
    }
    tags
}

/// A thread-creation event for a thread that already carries tags is an
/// idempotent skip: no tags are mutated and no welcome message is sent,
/// whatever the thread, parent and configuration are.
pub proof fn lemma_thread_create_ignores_tagged(
    cfg: Config,
    thread: ThreadSnapshot,
    parent: Option<ForumChannel>,
)
    requires
        thread.applied_tags@.len() != 0,
    ensures
        spec_thread_create(cfg, thread, parent) is Skip,
{
}

/// How many of `tags` are status tags, that is, the answered or the pending
/// tag.
pub open spec fn status_tag_count(tags: Seq<u64>, answered_tag: u64, pending_tag: u64) -> nat
    decreases tags.len(),
{
    if tags.len() == 0 {
        0
    } else {
        (if tags[0] == answered_tag || tags[0] == pending_tag {
            1 as nat
        } else {
            0 as nat
        }) + status_tag_count(tags.drop_first(), answered_tag, pending_tag)
    }
}

/// Classification updates keep the status-tag invariant: applying the tag
/// set for one classification and then the tag set for another (each an
/// absolute replacement, as on an answered message followed by a pending
/// one), the thread's tag set after each step carries exactly one status
/// tag — never more than one and never none. The support tag is a distinct
/// tag from both status tags.
pub proof fn lemma_one_status_tag(
    support_tag: u64,
    answered_tag: u64,
    pending_tag: u64,
    first_author_support: bool,
    second_author_support: bool,
)
    requires
        support_tag != answered_tag,
        support_tag != pending_tag,
    ensures
        status_tag_count(
            spec_classification_tags(support_tag, answered_tag, pending_tag, first_author_support),
            answered_tag,
            pending_tag,
        ) == 1,
        status_tag_count(
            spec_classification_tags(
                support_tag,
                answered_tag,
                pending_tag,
                second_author_support,
            ),
            answered_tag,
            pending_tag,
        ) == 1,
{
    lemma_classification_status_count(support_tag, answered_tag, pending_tag, first_author_support);
    lemma_classification_status_count(
        support_tag,
        answered_tag,
        pending_tag,
        second_author_support,
    );
}

proof fn lemma_classification_status_count(
    support_tag: u64,
    answered_tag: u64,
    pending_tag: u64,
    author_is_support: bool,
)
    requires
        support_tag != answered_tag,
        support_tag != pending_tag,
    ensures
        status_tag_count(
            spec_classification_tags(support_tag, answered_tag, pending_tag, author_is_support),
            answered_tag,
            pending_tag,
        ) == 1,
{
    let tags = spec_classification_tags(support_tag, answered_tag, pending_tag, author_is_support);
    let target = if author_is_support {
        answered_tag
    } else {
        pending_tag
    };
    assert(tags =~= seq![support_tag, target]);
    assert(tags.drop_first() =~= seq![target]);
    assert(seq![target].drop_first() =~= Seq::<u64>::empty());
    assert(status_tag_count(Seq::<u64>::empty(), answered_tag, pending_tag) == 0);
    assert(seq![target][0] == target);
    assert(status_tag_count(seq![target], answered_tag, pending_tag) == 1);
}

/// The answered/pending command on a thread that does not carry the support
/// tag is rejected: the invoker is informed and the thread's tag set stays
/// unchanged, whether marking answered or pending.
pub proof fn lemma_answering_rejects_non_ticket(
    channel: Option<ThreadSnapshot>,
    parent: Option<ForumChannel>,
    answered: bool,
)
    requires
        ({
            &&& channel matches Some(t)
            &&& t.parent_id is Some
            &&& parent matches Some(p)
            &&& resolve_spec(p.available_tags@, "support"@) matches Some(support_tag)
            &&& !t.applied_tags@.contains(support_tag)
        }),
    ensures
        spec_support_answering(channel, parent, answered) is Rejected,
{
}

/// The explicit answered/pending command, privileged to the support role by
/// an external check. `channel` is the invoking thread as the caller
/// resolved it, `parent` its forum. On `Rejected` the caller informs the
/// invoker and mutates nothing; on `Apply` it sets the thread's tags to
/// exactly the two returned.
pub fn support_answering(
    channel: &Option<ThreadSnapshot>,
    parent: &Option<ForumChannel>,
    answered: bool,
) -> (r: Result<AnswerOutcome, WinstonError>)
    ensures
        spec_support_answering(*channel, *parent, answered) is NotGuild ==> (r matches Err(e)
            && e is NotAGuildChannel),
        spec_support_answering(*channel, *parent, answered) matches AnswerDecision::MissingTag(l)
            ==> (r matches Err(WinstonError::TagNotFound(lbl)) && lbl@ == l),
        spec_support_answering(*channel, *parent, answered) is Rejected ==> r == Ok::<
            AnswerOutcome,
            WinstonError,
        >(AnswerOutcome::Rejected),
        spec_support_answering(*channel, *parent, answered) matches AnswerDecision::Apply {
            support_tag,
            target_tag,
        } ==> r == Ok::<AnswerOutcome, WinstonError>(
            AnswerOutcome::Apply { support_tag, target_tag },
        ),
{
    let t = match channel {
        None => {
            return Err(WinstonError::NotAGuildChannel);
        },
        Some(t) => t,
    };
    if t.parent_id.is_none() {
        return Err(WinstonError::NotAGuildChannel);
    }
    let p = match parent {
        None => {
            return Err(WinstonError::NotAGuildChannel);
        },
        Some(p) => p,
    };
    let support_tag = match get_tag_id(&p.available_tags, "support") {
        None => {
            return Err(WinstonError::TagNotFound("support".to_owned()));
        },
        Some(t) => t,
    };
    if !ids_contain(&t.applied_tags, support_tag) {
        return Ok(AnswerOutcome::Rejected);
    }
    let target_label = if answered {
        "answered"
    } else {
        "pending"
    };
    let target_tag = match get_tag_id(&p.available_tags, target_label) {
        None => {
            return Err(WinstonError::TagNotFound(target_label.to_owned()));
        },
        Some(t) => t,
    };
    Ok(AnswerOutcome::Apply { support_tag, target_tag })
}

} // verus!
