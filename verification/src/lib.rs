//! A watch-and-publish pipeline: filesystem change events are coalesced by a
//! debouncer into publish triggers; an orchestrator state machine snapshots
//! the watched directory through an external content store, deduplicates
//! against the last published content identifier, and publishes changed
//! snapshots to a naming service.
//!
//! The library holds the verified core: parsing the store's output, the
//! debouncer, the publish record, and the orchestrator's transition logic.
//! Process invocation, filesystem watching, and the command line live in the
//! surrounding binary, which drives this library with plain values.

mod debounce;
mod fault;
mod ident;
mod orchestrator;
mod record;
mod store;

pub use debounce::DebounceState;
pub use debounce::Debouncer;
pub use debounce::after_changes;
pub use debounce::lemma_after_changes;
pub use debounce::lemma_debounce_coalescing;
pub use debounce::on_change_spec;
pub use debounce::poll_spec;
pub use fault::Fault;
pub use ident::ContentIdentifier;
pub use ident::bytes_equal;
pub use orchestrator::Action;
pub use orchestrator::ActionModel;
pub use orchestrator::Event;
pub use orchestrator::EventModel;
pub use orchestrator::Orchestrator;
pub use orchestrator::OrchestratorModel;
pub use orchestrator::Phase;
pub use orchestrator::event_allowed;
pub use orchestrator::in_flight;
pub use orchestrator::init_model;
pub use orchestrator::lemma_failure_isolation;
pub use orchestrator::lemma_idempotent_skip;
pub use orchestrator::lemma_no_redundant_publish;
pub use orchestrator::lemma_pending_consumed;
pub use orchestrator::lemma_publish_outcome;
pub use orchestrator::lemma_serialized;
pub use orchestrator::lemma_step_preserves_wf;
pub use orchestrator::lemma_trigger_queued;
pub use orchestrator::step_spec;
pub use orchestrator::wf_model;
pub use record::PublishRecord;
pub use store::parse_store_output;
pub use store::tokens;
pub use store::is_space;
pub use store::scan;
