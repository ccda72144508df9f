//! A verified model of a stack-based scripting-engine binding.
//!
//! The foreign interpreter itself — lexer, evaluator, garbage collector — is
//! an external collaborator reached over a C-style calling convention.  What
//! this crate pins down is the binding layer around it: the operand-stack
//! protocol every operation goes through, the translation of sentinel-coded
//! failures into structured results, the protected-call discipline, the
//! checks a host string must pass before it may cross the boundary, and the
//! side-table through which host closures become script-callable functions.
//!
//! Each of those pieces is stated as a contract and proved.  The parts only
//! the foreign evaluator can decide — what a source string compiles to, what
//! a call returns — enter as explicit outcome values, so that everything the
//! binding itself does with them is verified for every possible outcome.

mod encoding;
mod errors;
mod flags;
mod laws;
mod registry;
mod state;
mod value;

pub use encoding::c_string_bytes;
pub use encoding::has_interior_nul;
pub use encoding::nul_message;
pub use encoding::str_has_nul;
pub use errors::error_name;
pub use errors::rendered;
pub use errors::render_error;
pub use errors::ErrorKind;
pub use errors::Fault;
pub use flags::hidden_slot_attrs;
pub use flags::hidden_slot_bits;
pub use flags::PropertyAttributes;
pub use flags::RegExpFlags;
pub use flags::StateFlags;
pub use laws::lemma_copy_reads_back;
pub use laws::lemma_number_round_trip;
pub use laws::lemma_pushes_then_pop_restore_depth;
pub use laws::lemma_registered_closure_persists;
pub use laws::lemma_rot_three_thrice_restores;
pub use laws::lemma_rot_two_twice_restores;
pub use laws::lemma_single_shot_composes;
pub use registry::Registry;
pub use state::env_unchanged;
pub use state::evaluator_message;
pub use state::index_ok;
pub use state::max_depth;
pub use state::resolve;
pub use state::rot_model;
pub use state::stack_error_value;
pub use state::CallOutcome;
pub use state::CompileOutcome;
pub use state::EvalOutcome;
pub use state::FuncSlot;
pub use state::State;
pub use value::str_to_number;
pub use value::string_to_number;
pub use value::to_boolean;
pub use value::to_number_bits;
pub use value::try_render;
pub use value::Value;
pub use value::ValueSpec;
pub use value::NAN_BITS;
pub use value::ONE_BITS;
