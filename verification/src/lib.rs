//! Lifecycle management for support-ticket threads in a forum channel.
//!
//! Threads inside one configured forum are tagged by status (`support`,
//! `pending`, `answered`, and one close-reason tag once closed). The library
//! holds the decision logic: which tags a thread should carry in response to
//! thread creation, incoming messages, and explicit answer/close commands,
//! and which side effects accompany each transition. All network effects
//! (fetching channels, sending messages, editing tags) are performed by the
//! caller, which hands the library plain snapshots of the relevant state and
//! executes the returned decisions.

mod answering;
mod close_reason;
mod closer;
mod config;
mod error;
mod membership;
mod tags;

pub use answering::AnswerOutcome;
pub use answering::ForumChannel;
pub use answering::MessagePlan;
pub use answering::SupportAnsweringHandler;
pub use answering::ThreadCreateAction;
pub use answering::ThreadSnapshot;
pub use answering::WelcomeNotice;
pub use answering::classification_tags;
pub use answering::support_answering;
pub use close_reason::CloseReason;
pub use closer::CloseOutcome;
pub use closer::ClosureNotice;
pub use closer::close_ticket;
pub use config::Config;
pub use error::WinstonError;
pub use membership::MemberLookup;
pub use membership::MemberRecord;
pub use membership::ThreadMember;
pub use membership::is_support;
pub use membership::lookup_plan;
pub use membership::support_member_ids;
pub use tags::ids_contain;
pub use tags::ForumTag;
pub use tags::eq_ignore_case;
pub use tags::get_tag_id;
