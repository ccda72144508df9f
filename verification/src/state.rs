//! The interpreter handle and its operand-stack protocol.
//!
//! A [`State`] stands for one instance of the foreign interpreter: the
//! operand stack every operation reads and writes, the mode flags the
//! instance was created with, the hidden-slot table of bridged native
//! functions, and whether the handle is still usable.  The operations mirror
//! the host-facing surface of the binding:
//!
//! * Every value-producing operation appends exactly one value at the new
//!   top; every consuming operation removes a caller-given count from the
//!   top.  Non-negative indices count from the bottom of the stack,
//!   negative ones from the top, `-1` being the most recent value.
//! * A mutating stack operation given an out-of-range index or count
//!   surfaces the engine's stack error.  That error reaches no protected
//!   boundary when raised from host code, so it is a [`Fault`] and the
//!   handle refuses further work: once the foreign call stack has unwound
//!   past every protected frame it is not safe to resume.
//! * Reading operations address the stack the way the engine itself does:
//!   an out-of-range slot reads as the undefined value.
//! * What only the foreign evaluator can decide — the result of compiling a
//!   source string, the result of a protected call — is passed in as an
//!   explicit outcome value, and the bookkeeping around it is verified for
//!   every possible outcome.

use vstd::prelude::*;
use crate::encoding::has_interior_nul;
use crate::encoding::nul_error;
use crate::encoding::nul_message;
use crate::encoding::str_has_nul;
use crate::errors::lemma_rendered_nonempty;
use crate::errors::render_error;
use crate::errors::rendered;
use crate::errors::ErrorKind;
use crate::errors::Fault;
use crate::flags::hidden_slot_attrs;
use crate::flags::hidden_slot_bits;
use crate::flags::PropertyAttributes;
use crate::flags::RegExpFlags;
use crate::flags::StateFlags;
use crate::registry::Registry;
use crate::value::to_boolean;
use crate::value::to_number_bits;
use crate::value::try_render;
use crate::value::Value;
use crate::value::ValueSpec;
use vstd::string::StringExecFns;
use vstd::string::StringSliceAdditionalSpecFns;

verus! {

/// The deepest the modelled operand stack can grow: the engine reports the
/// stack top as a 32-bit count.
pub open spec fn max_depth() -> int {
    0x7fff_ffff
}

/// What the hidden slot of one bridged native function records: the
/// script-visible name, the declared arity, and the attributes the slot was
/// installed with.
#[derive(Debug)]
pub struct FuncSlot {
    /// The name the function was registered under.
    pub name: String,
    /// The declared number of parameters.
    pub length: i32,
    /// The attributes protecting the hidden slot.
    pub attrs: PropertyAttributes,
}

/// What the foreign compiler reported for one source string.
#[derive(Debug)]
pub enum CompileOutcome {
    /// The source compiled; a callable was produced.
    Compiled,
    /// The source was rejected with the given error.
    Rejected(ErrorKind, String),
}

/// What the foreign evaluator reported for one protected call.
#[derive(Debug)]
pub enum CallOutcome {
    /// The call completed and returned the given value.
    Returned(Value),
    /// The call threw the given error, caught at the protected boundary.
    Threw(ErrorKind, String),
}

/// What one single-shot evaluation of a source string reported.
#[derive(Debug)]
pub enum EvalOutcome {
    /// The source was rejected by the compiler.
    Rejected(ErrorKind, String),
    /// The compiled code ran and completed with the given value.
    Completed(Value),
    /// The compiled code ran and threw the given error.
    Threw(ErrorKind, String),
}

/// The stack slot a signed index names, counting from the bottom when the
/// index is non-negative and from the top when it is negative.
pub open spec fn resolve(depth: int, idx: int) -> int {
    if idx < 0 {
        depth + idx
    } else {
        idx
    }
}

/// Whether a signed index names a slot of a stack of the given depth.
pub open spec fn index_ok(depth: int, idx: int) -> bool {
    0 <= resolve(depth, idx) < depth
}

/// The stack after rotating its top `n` values by one step: the old top
/// moves to the bottom of the window and the rest shift up.
pub open spec fn rot_model(s: Seq<ValueSpec>, n: int) -> Seq<ValueSpec> {
    if n <= 0 {
        s
    } else {
        s.take(s.len() - n) + seq![s.last()] + s.subrange(s.len() - n, s.len() - 1)
    }
}

/// The error value the engine reports for a stack misuse.
pub open spec fn stack_error_value() -> ValueSpec {
    ValueSpec::Error(ErrorKind::Generic, "stack error!"@)
}

/// One instance of the foreign interpreter: its operand stack, mode flags,
/// hidden-slot table, and whether the handle is still usable.
pub struct State {
    flags: StateFlags,
    stack: Vec<Value>,
    funcs: Registry<FuncSlot>,
    alive: bool,
}

/// Whether an operation leaves the mode flags and the hidden-slot table as
/// it found them.
pub open spec fn env_unchanged(pre: State, post: State) -> bool {
    &&& post.flags_spec() == pre.flags_spec()
    &&& post.funcs_model() == pre.funcs_model()
    &&& post.func_keys_issued() == pre.func_keys_issued()
}

impl State {
    /// The operand stack, bottom first.
    pub closed spec fn stack_model(&self) -> Seq<ValueSpec> {
        self.stack@.map_values(|v: Value| v@)
    }

    /// How many values the operand stack holds.
    pub open spec fn depth_spec(&self) -> int {
        self.stack_model().len() as int
    }

    /// Whether the handle is still usable: no fault has escaped on it.
    pub closed spec fn live(&self) -> bool {
        self.alive
    }

    /// The mode flags the instance was created with.
    pub closed spec fn flags_spec(&self) -> StateFlags {
        self.flags
    }

    /// The hidden-slot table: each live key and the slot it names.
    pub closed spec fn funcs_model(&self) -> Map<u64, FuncSlot> {
        self.funcs.entries()
    }

    /// How many hidden-slot keys were ever issued on this handle.
    pub closed spec fn func_keys_issued(&self) -> int {
        self.funcs.keys_issued()
    }

    /// Whether the operand stack is within the depth the protocol can
    /// report.
    pub open spec fn wf(&self) -> bool {
        self.depth_spec() <= max_depth()
    }

    /// The value a signed index reads: the slot it names, or the undefined
    /// value where it names none.
    pub open spec fn read(&self, idx: int) -> ValueSpec {
        if index_ok(self.depth_spec(), idx) {
            self.stack_model()[resolve(self.depth_spec(), idx)]
        } else {
            ValueSpec::Undefined
        }
    }

    /// A fresh interpreter instance: empty stack, no bridged functions, the
    /// given mode flags.
    pub fn new(flags: StateFlags) -> (s: State)
        ensures
            s.stack_model() == Seq::<ValueSpec>::empty(),
            s.live(),
            s.wf(),
            s.flags_spec() == flags,
            s.funcs_model() == Map::<u64, FuncSlot>::empty(),
            s.func_keys_issued() == 0,
    {
        let s = State { flags, stack: Vec::new(), funcs: Registry::new(), alive: true };
        proof {
            assert(s.stack_model() =~= Seq::<ValueSpec>::empty());
        }
        s
    }

    /// The mode flags the instance was created with.
    pub fn flags(&self) -> (r: StateFlags)
        ensures
            r == self.flags_spec(),
    {
        self.flags
    }

    /// Trigger a garbage-collection pass on the foreign heap.  The argument
    /// only selects whether collection statistics are emitted; collection
    /// itself has no effect the binding can observe — in particular, the
    /// hidden-slot table loses entries only through an explicit
    /// finalization notice, never through the pass itself.
    pub fn gc(&mut self, report: bool)
        requires
            old(self).live(),
        ensures
            *final(self) == *old(self),
    {
        let _ = report;
    }

    /// The index of the stack top: the number of values on the stack.
    pub fn gettop(&self) -> (r: i32)
        requires
            self.wf(),
        ensures
            r == self.depth_spec(),
    {
        self.stack.len() as i32
    }

    /// Remove the top `n` values.  A count that is negative or exceeds the
    /// depth is the engine's stack error: the handle faults and is spent.
    pub fn pop(&mut self, n: i32) -> (r: Result<(), Fault>)
        requires
            old(self).live(),
            old(self).wf(),
        ensures
            env_unchanged(*old(self), *final(self)),
            final(self).wf(),
            match r {
                Ok(()) => {
                    &&& 0 <= n <= old(self).depth_spec()
                    &&& final(self).stack_model() == old(self).stack_model().take(
                        old(self).depth_spec() - n,
                    )
                    &&& final(self).live()
                },
                Err(f) => {
                    &&& !(0 <= n <= old(self).depth_spec())
                    &&& f.value@ == stack_error_value()
                    &&& final(self).stack_model() == old(self).stack_model()
                    &&& !final(self).live()
                },
            },
    {
        if n < 0 || n as usize > self.stack.len() {
            self.alive = false;
            return Err(stack_error_fault());
        }
        let new_len = self.stack.len() - n as usize;
        self.stack.truncate(new_len);
        proof {
            assert(self.stack_model() =~= old(self).stack_model().take(
                old(self).depth_spec() - n,
            ));
        }
        Ok(())
    }

    /// Rotate the top `n` values cyclically: the old top moves to the
    /// bottom of the window, the rest shift up by one.  A count that is
    /// negative or exceeds the depth is the engine's stack error.
    pub fn rot(&mut self, n: i32) -> (r: Result<(), Fault>)
        requires
            old(self).live(),
            old(self).wf(),
        ensures
            env_unchanged(*old(self), *final(self)),
            final(self).wf(),
            match r {
                Ok(()) => {
                    &&& 0 <= n <= old(self).depth_spec()
                    &&& final(self).stack_model() == rot_model(old(self).stack_model(), n as int)
                    &&& final(self).live()
                },
                Err(f) => {
                    &&& !(0 <= n <= old(self).depth_spec())
                    &&& f.value@ == stack_error_value()
                    &&& final(self).stack_model() == old(self).stack_model()
                    &&& !final(self).live()
                },
            },
    {
        if n < 0 || n as usize > self.stack.len() {
            self.alive = false;
            return Err(stack_error_fault());
        }
        if n == 0 {
            return Ok(());
        }
        let pos = self.stack.len() - n as usize;
        let top = match self.stack.pop() {
            Some(v) => v,
            None => {
                proof {
                    assert(false);
                }
                Value::Undefined
            },
        };
        self.stack.insert(pos, top);
        proof {
            assert(self.stack_model() =~= rot_model(old(self).stack_model(), n as int));
        }
        Ok(())
    }

    /// Push a copy of the value the index names.  An index that names no
    /// slot is the engine's stack error.
    pub fn copy(&mut self, idx: i32) -> (r: Result<(), Fault>)
        requires
            old(self).live(),
            old(self).wf(),
            old(self).depth_spec() < max_depth(),
        ensures
            env_unchanged(*old(self), *final(self)),
            final(self).wf(),
            match r {
                Ok(()) => {
                    &&& index_ok(old(self).depth_spec(), idx as int)
                    &&& final(self).stack_model() == old(self).stack_model().push(
                        old(self).stack_model()[resolve(old(self).depth_spec(), idx as int)],
                    )
                    &&& final(self).live()
                },
                Err(f) => {
                    &&& !index_ok(old(self).depth_spec(), idx as int)
                    &&& f.value@ == stack_error_value()
                    &&& final(self).stack_model() == old(self).stack_model()
                    &&& !final(self).live()
                },
            },
    {
        match resolve_index(self.stack.len(), idx) {
            Some(k) => {
                let v = self.stack[k].dup();
                self.stack.push(v);
                proof {
                    assert(self.stack_model() =~= old(self).stack_model().push(
                        old(self).stack_model()[resolve(old(self).depth_spec(), idx as int)],
                    ));
                }
                Ok(())
            },
            None => {
                self.alive = false;
                Err(stack_error_fault())
            },
        }
    }

    /// Remove the value the index names, closing the gap.  An index that
    /// names no slot is the engine's stack error.
    pub fn remove(&mut self, idx: i32) -> (r: Result<(), Fault>)
        requires
            old(self).live(),
            old(self).wf(),
        ensures
            env_unchanged(*old(self), *final(self)),
            final(self).wf(),
            match r {
                Ok(()) => {
                    &&& index_ok(old(self).depth_spec(), idx as int)
                    &&& final(self).stack_model() == old(self).stack_model().remove(
                        resolve(old(self).depth_spec(), idx as int),
                    )
                    &&& final(self).live()
                },
                Err(f) => {
                    &&& !index_ok(old(self).depth_spec(), idx as int)
                    &&& f.value@ == stack_error_value()
                    &&& final(self).stack_model() == old(self).stack_model()
                    &&& !final(self).live()
                },
            },
    {
        match resolve_index(self.stack.len(), idx) {
            Some(k) => {
                let _ = self.stack.remove(k);
                proof {
                    assert(self.stack_model() =~= old(self).stack_model().remove(
                        resolve(old(self).depth_spec(), idx as int),
                    ));
                }
                Ok(())
            },
            None => {
                self.alive = false;
                Err(stack_error_fault())
            },
        }
    }
    /// Push the undefined primitive.
    pub fn pushundefined(&mut self)
        requires
            old(self).live(),
            old(self).wf(),
            old(self).depth_spec() < max_depth(),
        ensures
            env_unchanged(*old(self), *final(self)),
            final(self).wf(),
            final(self).live(),
            final(self).stack_model() == old(self).stack_model().push(ValueSpec::Undefined),
    {
        self.push_value(Value::Undefined);
    }

    /// Push the null primitive.
    pub fn pushnull(&mut self)
        requires
            old(self).live(),
            old(self).wf(),
            old(self).depth_spec() < max_depth(),
        ensures
            env_unchanged(*old(self), *final(self)),
            final(self).wf(),
            final(self).live(),
            final(self).stack_model() == old(self).stack_model().push(ValueSpec::Null),
    {
        self.push_value(Value::Null);
    }

    /// Push a boolean primitive.
    pub fn pushboolean(&mut self, value: bool)
        requires
            old(self).live(),
            old(self).wf(),
            old(self).depth_spec() < max_depth(),
        ensures
            env_unchanged(*old(self), *final(self)),
            final(self).wf(),
            final(self).live(),
            final(self).stack_model() == old(self).stack_model().push(ValueSpec::Boolean(value)),
    {
        self.push_value(Value::Boolean(value));
    }

    /// Push a number primitive, given by its IEEE-754 bit pattern.
    pub fn pushnumber(&mut self, bits: u64)
        requires
            old(self).live(),
            old(self).wf(),
            old(self).depth_spec() < max_depth(),
        ensures
            env_unchanged(*old(self), *final(self)),
            final(self).wf(),
            final(self).live(),
            final(self).stack_model() == old(self).stack_model().push(ValueSpec::Number(bits)),
    {
        self.push_value(Value::Number(bits));
    }

    /// Push a string primitive.  A string with an interior zero byte cannot
    /// cross the boundary: it is rejected before anything else happens.
    pub fn pushstring(&mut self, value: &str) -> (r: Result<(), String>)
        requires
            old(self).live(),
            old(self).wf(),
            old(self).depth_spec() < max_depth(),
        ensures
            env_unchanged(*old(self), *final(self)),
            final(self).wf(),
            final(self).live(),
            match r {
                Ok(()) => {
                    &&& !has_interior_nul(value.spec_bytes())
                    &&& final(self).stack_model() == old(self).stack_model().push(
                        ValueSpec::Str(value@),
                    )
                },
                Err(m) => {
                    &&& has_interior_nul(value.spec_bytes())
                    &&& m@ == nul_message()
                    &&& final(self).stack_model() == old(self).stack_model()
                },
            },
    {
        if str_has_nul(value) {
            return Err(nul_error());
        }
        self.push_value(Value::Str(value.to_owned()));
        Ok(())
    }

    /// Push a new plain object.
    pub fn newobject(&mut self)
        requires
            old(self).live(),
            old(self).wf(),
            old(self).depth_spec() < max_depth(),
        ensures
            env_unchanged(*old(self), *final(self)),
            final(self).wf(),
            final(self).live(),
            final(self).stack_model() == old(self).stack_model().push(ValueSpec::Object),
    {
        self.push_value(Value::Object);
    }

    /// Push a new array object.
    pub fn newarray(&mut self)
        requires
            old(self).live(),
            old(self).wf(),
            old(self).depth_spec() < max_depth(),
        ensures
            env_unchanged(*old(self), *final(self)),
            final(self).wf(),
            final(self).live(),
            final(self).stack_model() == old(self).stack_model().push(ValueSpec::Array),
    {
        self.push_value(Value::Array);
    }

    /// Push a new boolean wrapper object.
    pub fn newboolean(&mut self, value: bool)
        requires
            old(self).live(),
            old(self).wf(),
            old(self).depth_spec() < max_depth(),
        ensures
            env_unchanged(*old(self), *final(self)),
            final(self).wf(),
            final(self).live(),
            final(self).stack_model() == old(self).stack_model().push(
                ValueSpec::BooleanObj(value),
            ),
    {
        self.push_value(Value::BooleanObj(value));
    }

    /// Push a new number wrapper object, given by its IEEE-754 bit pattern.
    pub fn newnumber(&mut self, bits: u64)
        requires
            old(self).live(),
            old(self).wf(),
            old(self).depth_spec() < max_depth(),
        ensures
            env_unchanged(*old(self), *final(self)),
            final(self).wf(),
            final(self).live(),
            final(self).stack_model() == old(self).stack_model().push(ValueSpec::NumberObj(bits)),
    {
        self.push_value(Value::NumberObj(bits));
    }

    /// Push a new string wrapper object.  A string with an interior zero
    /// byte is rejected before anything else happens.
    pub fn newstring(&mut self, value: &str) -> (r: Result<(), String>)
        requires
            old(self).live(),
            old(self).wf(),
            old(self).depth_spec() < max_depth(),
        ensures
            env_unchanged(*old(self), *final(self)),
            final(self).wf(),
            final(self).live(),
            match r {
                Ok(()) => {
                    &&& !has_interior_nul(value.spec_bytes())
                    &&& final(self).stack_model() == old(self).stack_model().push(
                        ValueSpec::StrObj(value@),
                    )
                },
                Err(m) => {
                    &&& has_interior_nul(value.spec_bytes())
                    &&& m@ == nul_message()
                    &&& final(self).stack_model() == old(self).stack_model()
                },
            },
    {
        if str_has_nul(value) {
            return Err(nul_error());
        }
        self.push_value(Value::StrObj(value.to_owned()));
        Ok(())
    }

    /// Push a new regular-expression object built from the pattern and the
    /// given options.  A pattern with an interior zero byte is rejected
    /// before anything else happens.
    pub fn newregexp(&mut self, pattern: &str, flags: RegExpFlags) -> (r: Result<(), String>)
        requires
            old(self).live(),
            old(self).wf(),
            old(self).depth_spec() < max_depth(),
        ensures
            env_unchanged(*old(self), *final(self)),
            final(self).wf(),
            final(self).live(),
            match r {
                Ok(()) => {
                    &&& !has_interior_nul(pattern.spec_bytes())
                    &&& final(self).stack_model() == old(self).stack_model().push(
                        ValueSpec::RegExp,
                    )
                },
                Err(m) => {
                    &&& has_interior_nul(pattern.spec_bytes())
                    &&& m@ == nul_message()
                    &&& final(self).stack_model() == old(self).stack_model()
                },
            },
    {
        let _ = flags;
        if str_has_nul(pattern) {
            return Err(nul_error());
        }
        self.push_value(Value::RegExp);
        Ok(())
    }

    /// Push the object standing for the global environment record.
    pub fn pushglobal(&mut self)
        requires
            old(self).live(),
            old(self).wf(),
            old(self).depth_spec() < max_depth(),
        ensures
            env_unchanged(*old(self), *final(self)),
            final(self).wf(),
            final(self).live(),
            final(self).stack_model() == old(self).stack_model().push(ValueSpec::Object),
    {
        self.push_value(Value::Object);
    }

    /// Push one value; shared by every value-producing operation.
    fn push_value(&mut self, v: Value)
        requires
            old(self).live(),
            old(self).wf(),
            old(self).depth_spec() < max_depth(),
        ensures
            env_unchanged(*old(self), *final(self)),
            final(self).wf(),
            final(self).live(),
            final(self).stack_model() == old(self).stack_model().push(v@),
    {
        self.stack.push(v);
        proof {
            assert(self.stack_model() =~= old(self).stack_model().push(v@));
        }
    }

    /// The value a signed index reads, or nothing where the index names no
    /// slot.
    fn slot(&self, idx: i32) -> (r: Option<&Value>)
        requires
            self.wf(),
        ensures
            match r {
                Some(v) => index_ok(self.depth_spec(), idx as int) && v@ == self.read(idx as int),
                None => !index_ok(self.depth_spec(), idx as int) && self.read(idx as int)
                    == ValueSpec::Undefined,
            },
    {
        match resolve_index(self.stack.len(), idx) {
            Some(k) => Some(&self.stack[k]),
            None => None,
        }
    }

    /// Whether the slot the index reads holds anything but undefined.
    pub fn isdefined(&self, idx: i32) -> (r: bool)
        requires
            self.wf(),
        ensures
            r == self.read(idx as int).is_defined(),
    {
        match self.slot(idx) {
            Some(v) => !(matches!(v, Value::Undefined)),
            None => false,
        }
    }

    /// Whether the slot the index reads holds undefined; an index naming no
    /// slot reads as undefined.
    pub fn isundefined(&self, idx: i32) -> (r: bool)
        requires
            self.wf(),
        ensures
            r == self.read(idx as int).is_undefined(),
    {
        match self.slot(idx) {
            Some(v) => matches!(v, Value::Undefined),
            None => true,
        }
    }

    /// Whether the slot the index reads holds null.
    pub fn isnull(&self, idx: i32) -> (r: bool)
        requires
            self.wf(),
        ensures
            r == self.read(idx as int).is_null(),
    {
        match self.slot(idx) {
            Some(v) => matches!(v, Value::Null),
            None => false,
        }
    }

    /// Whether the slot the index reads holds a boolean primitive.
    pub fn isboolean(&self, idx: i32) -> (r: bool)
        requires
            self.wf(),
        ensures
            r == self.read(idx as int).is_boolean(),
    {
        match self.slot(idx) {
            Some(v) => matches!(v, Value::Boolean(_)),
            None => false,
        }
    }

    /// Whether the slot the index reads holds a number primitive.
    pub fn isnumber(&self, idx: i32) -> (r: bool)
        requires
            self.wf(),
        ensures
            r == self.read(idx as int).is_number(),
    {
        match self.slot(idx) {
            Some(v) => matches!(v, Value::Number(_)),
            None => false,
        }
    }

    /// Whether the slot the index reads holds a string primitive.
    pub fn isstring(&self, idx: i32) -> (r: bool)
        requires
            self.wf(),
        ensures
            r == self.read(idx as int).is_string(),
    {
        match self.slot(idx) {
            Some(v) => matches!(v, Value::Str(_)),
            None => false,
        }
    }

    /// Whether the slot the index reads holds a primitive value; an index
    /// naming no slot reads as undefined, which is primitive.
    pub fn isprimitive(&self, idx: i32) -> (r: bool)
        requires
            self.wf(),
        ensures
            r == self.read(idx as int).is_primitive(),
    {
        match self.slot(idx) {
            Some(v) => matches!(
                v,
                Value::Undefined | Value::Null | Value::Boolean(_) | Value::Number(_)
                    | Value::Str(_)
            ),
            None => true,
        }
    }

    /// Whether the slot the index reads holds an object of any class.
    pub fn isobject(&self, idx: i32) -> (r: bool)
        requires
            self.wf(),
        ensures
            r == self.read(idx as int).is_object(),
    {
        match self.slot(idx) {
            Some(v) => !(matches!(
                v,
                Value::Undefined | Value::Null | Value::Boolean(_) | Value::Number(_)
                    | Value::Str(_)
            )),
            None => false,
        }
    }

    /// The boolean coercion of the value the index reads.
    pub fn toboolean(&self, idx: i32) -> (r: Result<bool, String>)
        requires
            self.wf(),
        ensures
            r == Ok::<bool, String>(to_boolean(self.read(idx as int))),
    {
        match self.slot(idx) {
            Some(v) => Ok(v.truthiness()),
            None => Ok(false),
        }
    }

    /// The number coercion of the value the index reads, as an IEEE-754 bit
    /// pattern, where the value's tag and payload decide it; the failure
    /// text where the coercion would run through the evaluator.
    pub fn tonumber(&self, idx: i32) -> (r: Result<u64, String>)
        requires
            self.wf(),
        ensures
            match to_number_bits(self.read(idx as int)) {
                Some(b) => r == Ok::<u64, String>(b),
                None => r matches Err(m) && m@ == evaluator_message(),
            },
    {
        match self.slot(idx) {
            Some(v) => match v.number_bits() {
                Some(b) => Ok(b),
                None => Err(evaluator_error()),
            },
            None => Ok(crate::value::NAN_BITS),
        }
    }

    /// The string conversion of the value the index reads, where the
    /// value's tag and payload decide it; the failure text where the
    /// conversion would run through the evaluator.
    pub fn tostring(&self, idx: i32) -> (r: Result<String, String>)
        requires
            self.wf(),
        ensures
            match try_render(self.read(idx as int)) {
                Some(t) => r matches Ok(s) && s@ == t,
                None => r matches Err(m) && m@ == evaluator_message(),
            },
    {
        match self.slot(idx) {
            Some(v) => match v.render() {
                Some(s) => Ok(s),
                None => Err(evaluator_error()),
            },
            None => Ok(String::from_str("undefined")),
        }
    }
    /// Push a new error object of the given kind; shared by the seven
    /// constructors.  A message with an interior zero byte is rejected
    /// before anything else happens.
    fn push_error(&mut self, kind: ErrorKind, message: &str) -> (r: Result<(), String>)
        requires
            old(self).live(),
            old(self).wf(),
            old(self).depth_spec() < max_depth(),
        ensures
            env_unchanged(*old(self), *final(self)),
            final(self).wf(),
            final(self).live(),
            match r {
                Ok(()) => {
                    &&& !has_interior_nul(message.spec_bytes())
                    &&& final(self).stack_model() == old(self).stack_model().push(
                        ValueSpec::Error(kind, message@),
                    )
                },
                Err(m) => {
                    &&& has_interior_nul(message.spec_bytes())
                    &&& m@ == nul_message()
                    &&& final(self).stack_model() == old(self).stack_model()
                },
            },
    {
        if str_has_nul(message) {
            return Err(nul_error());
        }
        self.push_value(Value::Error(kind, message.to_owned()));
        Ok(())
    }

    /// Push a new plain error object.
    pub fn newerror(&mut self, message: &str) -> (r: Result<(), String>)
        requires
            old(self).live(),
            old(self).wf(),
            old(self).depth_spec() < max_depth(),
        ensures
            env_unchanged(*old(self), *final(self)),
            final(self).wf(),
            final(self).live(),
            match r {
                Ok(()) => !has_interior_nul(message.spec_bytes()) && final(self).stack_model()
                    == old(self).stack_model().push(ValueSpec::Error(ErrorKind::Generic, message@)),
                Err(m) => has_interior_nul(message.spec_bytes()) && m@ == nul_message() && final(self).stack_model() == old(self).stack_model(),
            },
    {
        self.push_error(ErrorKind::Generic, message)
    }

    /// Push a new evaluation-error object.
    pub fn newevalerror(&mut self, message: &str) -> (r: Result<(), String>)
        requires
            old(self).live(),
            old(self).wf(),
            old(self).depth_spec() < max_depth(),
        ensures
            env_unchanged(*old(self), *final(self)),
            final(self).wf(),
            final(self).live(),
            match r {
                Ok(()) => !has_interior_nul(message.spec_bytes()) && final(self).stack_model()
                    == old(self).stack_model().push(ValueSpec::Error(ErrorKind::Eval, message@)),
                Err(m) => has_interior_nul(message.spec_bytes()) && m@ == nul_message() && final(self).stack_model() == old(self).stack_model(),
            },
    {
        self.push_error(ErrorKind::Eval, message)
    }

    /// Push a new range-error object.
    pub fn newrangeerror(&mut self, message: &str) -> (r: Result<(), String>)
        requires
            old(self).live(),
            old(self).wf(),
            old(self).depth_spec() < max_depth(),
        ensures
            env_unchanged(*old(self), *final(self)),
            final(self).wf(),
            final(self).live(),
            match r {
                Ok(()) => !has_interior_nul(message.spec_bytes()) && final(self).stack_model()
                    == old(self).stack_model().push(ValueSpec::Error(ErrorKind::Range, message@)),
                Err(m) => has_interior_nul(message.spec_bytes()) && m@ == nul_message() && final(self).stack_model() == old(self).stack_model(),
            },
    {
        self.push_error(ErrorKind::Range, message)
    }

    /// Push a new reference-error object.
    pub fn newreferenceerror(&mut self, message: &str) -> (r: Result<(), String>)
        requires
            old(self).live(),
            old(self).wf(),
            old(self).depth_spec() < max_depth(),
        ensures
            env_unchanged(*old(self), *final(self)),
            final(self).wf(),
            final(self).live(),
            match r {
                Ok(()) => !has_interior_nul(message.spec_bytes()) && final(self).stack_model()
                    == old(self).stack_model().push(
                    ValueSpec::Error(ErrorKind::Reference, message@),
                ),
                Err(m) => has_interior_nul(message.spec_bytes()) && m@ == nul_message() && final(self).stack_model() == old(self).stack_model(),
            },
    {
        self.push_error(ErrorKind::Reference, message)
    }

    /// Push a new syntax-error object.
    pub fn newsyntaxerror(&mut self, message: &str) -> (r: Result<(), String>)
        requires
            old(self).live(),
            old(self).wf(),
            old(self).depth_spec() < max_depth(),
        ensures
            env_unchanged(*old(self), *final(self)),
            final(self).wf(),
            final(self).live(),
            match r {
                Ok(()) => !has_interior_nul(message.spec_bytes()) && final(self).stack_model()
                    == old(self).stack_model().push(ValueSpec::Error(ErrorKind::Syntax, message@)),
                Err(m) => has_interior_nul(message.spec_bytes()) && m@ == nul_message() && final(self).stack_model() == old(self).stack_model(),
            },
    {
        self.push_error(ErrorKind::Syntax, message)
    }

    /// Push a new type-error object.
    pub fn newtypeerror(&mut self, message: &str) -> (r: Result<(), String>)
        requires
            old(self).live(),
            old(self).wf(),
            old(self).depth_spec() < max_depth(),
        ensures
            env_unchanged(*old(self), *final(self)),
            final(self).wf(),
            final(self).live(),
            match r {
                Ok(()) => !has_interior_nul(message.spec_bytes()) && final(self).stack_model()
                    == old(self).stack_model().push(ValueSpec::Error(ErrorKind::Type, message@)),
                Err(m) => has_interior_nul(message.spec_bytes()) && m@ == nul_message() && final(self).stack_model() == old(self).stack_model(),
            },
    {
        self.push_error(ErrorKind::Type, message)
    }

    /// Push a new URI-error object.
    pub fn newurierror(&mut self, message: &str) -> (r: Result<(), String>)
        requires
            old(self).live(),
            old(self).wf(),
            old(self).depth_spec() < max_depth(),
        ensures
            env_unchanged(*old(self), *final(self)),
            final(self).wf(),
            final(self).live(),
            match r {
                Ok(()) => !has_interior_nul(message.spec_bytes()) && final(self).stack_model()
                    == old(self).stack_model().push(ValueSpec::Error(ErrorKind::Uri, message@)),
                Err(m) => has_interior_nul(message.spec_bytes()) && m@ == nul_message() && final(self).stack_model() == old(self).stack_model(),
            },
    {
        self.push_error(ErrorKind::Uri, message)
    }

    /// Throw the value on top of the stack.  Host code stands outside every
    /// protected boundary, so the thrown value reaches none: the throw is a
    /// fault carrying that value — the undefined value when the stack is
    /// empty — and the handle is spent.
    pub fn throw(&mut self) -> (f: Fault)
        requires
            old(self).live(),
            old(self).wf(),
        ensures
            env_unchanged(*old(self), *final(self)),
            final(self).wf(),
            !final(self).live(),
            ({
                if old(self).depth_spec() > 0 {
                    f.value@ == old(self).stack_model().last() && final(self).stack_model() == old(
                        self,
                    ).stack_model().drop_last()
                } else {
                    f.value@ == ValueSpec::Undefined && final(self).stack_model() == old(
                        self,
                    ).stack_model()
                }
            }),
    {
        self.alive = false;
        match self.stack.pop() {
            Some(v) => {
                proof {
                    assert(self.stack_model() =~= old(self).stack_model().drop_last());
                }
                Fault { value: v }
            },
            None => Fault { value: Value::Undefined },
        }
    }

    /// Construct an error of the given kind and throw it; shared by the
    /// seven conveniences.  The stack is left as it was: the error is
    /// pushed and at once thrown.  A message with an interior zero byte is
    /// rejected before anything else happens, and the handle stays usable.
    fn raise(&mut self, kind: ErrorKind, message: &str) -> (r: Result<Fault, String>)
        requires
            old(self).live(),
            old(self).wf(),
        ensures
            env_unchanged(*old(self), *final(self)),
            final(self).wf(),
            final(self).stack_model() == old(self).stack_model(),
            match r {
                Ok(f) => {
                    &&& !has_interior_nul(message.spec_bytes())
                    &&& f.value@ == ValueSpec::Error(kind, message@)
                    &&& !final(self).live()
                },
                Err(m) => {
                    &&& has_interior_nul(message.spec_bytes())
                    &&& m@ == nul_message()
                    &&& final(self).live()
                },
            },
    {
        if str_has_nul(message) {
            return Err(nul_error());
        }
        self.alive = false;
        Ok(Fault { value: Value::Error(kind, message.to_owned()) })
    }

    /// Construct a plain error and throw it.
    pub fn error(&mut self, message: &str) -> (r: Result<Fault, String>)
        requires
            old(self).live(),
            old(self).wf(),
        ensures
            env_unchanged(*old(self), *final(self)),
            final(self).wf(),
            final(self).stack_model() == old(self).stack_model(),
            match r {
                Ok(f) => !has_interior_nul(message.spec_bytes()) && f.value@ == ValueSpec::Error(
                    ErrorKind::Generic,
                    message@,
                ) && !final(self).live(),
                Err(m) => has_interior_nul(message.spec_bytes()) && m@ == nul_message() && final(self).live(),
            },
    {
        self.raise(ErrorKind::Generic, message)
    }

    /// Construct an evaluation error and throw it.
    pub fn evalerror(&mut self, message: &str) -> (r: Result<Fault, String>)
        requires
            old(self).live(),
            old(self).wf(),
        ensures
            env_unchanged(*old(self), *final(self)),
            final(self).wf(),
            final(self).stack_model() == old(self).stack_model(),
            match r {
                Ok(f) => !has_interior_nul(message.spec_bytes()) && f.value@ == ValueSpec::Error(
                    ErrorKind::Eval,
                    message@,
                ) && !final(self).live(),
                Err(m) => has_interior_nul(message.spec_bytes()) && m@ == nul_message() && final(self).live(),
            },
    {
        self.raise(ErrorKind::Eval, message)
    }

    /// Construct a range error and throw it.
    pub fn rangeerror(&mut self, message: &str) -> (r: Result<Fault, String>)
        requires
            old(self).live(),
            old(self).wf(),
        ensures
            env_unchanged(*old(self), *final(self)),
            final(self).wf(),
            final(self).stack_model() == old(self).stack_model(),
            match r {
                Ok(f) => !has_interior_nul(message.spec_bytes()) && f.value@ == ValueSpec::Error(
                    ErrorKind::Range,
                    message@,
                ) && !final(self).live(),
                Err(m) => has_interior_nul(message.spec_bytes()) && m@ == nul_message() && final(self).live(),
            },
    {
        self.raise(ErrorKind::Range, message)
    }

    /// Construct a reference error and throw it.
    pub fn referenceerror(&mut self, message: &str) -> (r: Result<Fault, String>)
        requires
            old(self).live(),
            old(self).wf(),
        ensures
            env_unchanged(*old(self), *final(self)),
            final(self).wf(),
            final(self).stack_model() == old(self).stack_model(),
            match r {
                Ok(f) => !has_interior_nul(message.spec_bytes()) && f.value@ == ValueSpec::Error(
                    ErrorKind::Reference,
                    message@,
                ) && !final(self).live(),
                Err(m) => has_interior_nul(message.spec_bytes()) && m@ == nul_message() && final(self).live(),
            },
    {
        self.raise(ErrorKind::Reference, message)
    }

    /// Construct a syntax error and throw it.
    pub fn syntaxerror(&mut self, message: &str) -> (r: Result<Fault, String>)
        requires
            old(self).live(),
            old(self).wf(),
        ensures
            env_unchanged(*old(self), *final(self)),
            final(self).wf(),
            final(self).stack_model() == old(self).stack_model(),
            match r {
                Ok(f) => !has_interior_nul(message.spec_bytes()) && f.value@ == ValueSpec::Error(
                    ErrorKind::Syntax,
                    message@,
                ) && !final(self).live(),
                Err(m) => has_interior_nul(message.spec_bytes()) && m@ == nul_message() && final(self).live(),
            },
    {
        self.raise(ErrorKind::Syntax, message)
    }

    /// Construct a type error and throw it.
    pub fn typeerror(&mut self, message: &str) -> (r: Result<Fault, String>)
        requires
            old(self).live(),
            old(self).wf(),
        ensures
            env_unchanged(*old(self), *final(self)),
            final(self).wf(),
            final(self).stack_model() == old(self).stack_model(),
            match r {
                Ok(f) => !has_interior_nul(message.spec_bytes()) && f.value@ == ValueSpec::Error(
                    ErrorKind::Type,
                    message@,
                ) && !final(self).live(),
                Err(m) => has_interior_nul(message.spec_bytes()) && m@ == nul_message() && final(self).live(),
            },
    {
        self.raise(ErrorKind::Type, message)
    }

    /// Construct a URI error and throw it.
    pub fn urierror(&mut self, message: &str) -> (r: Result<Fault, String>)
        requires
            old(self).live(),
            old(self).wf(),
        ensures
            env_unchanged(*old(self), *final(self)),
            final(self).wf(),
            final(self).stack_model() == old(self).stack_model(),
            match r {
                Ok(f) => !has_interior_nul(message.spec_bytes()) && f.value@ == ValueSpec::Error(
                    ErrorKind::Uri,
                    message@,
                ) && !final(self).live(),
                Err(m) => has_interior_nul(message.spec_bytes()) && m@ == nul_message() && final(self).live(),
            },
    {
        self.raise(ErrorKind::Uri, message)
    }

    /// Compile a source string into a callable, pushing the callable — or,
    /// where the compiler rejected the source, the error value, which the
    /// caller removes by the operation's normal stack accounting.  The
    /// compiler's verdict enters as `outcome`.  A failure always carries a
    /// non-empty message, and what a rejection pushes is never callable.  A
    /// filename or source with an interior zero byte is rejected before the
    /// boundary, with the stack untouched.
    pub fn loadstring(&mut self, filename: &str, source: &str, outcome: CompileOutcome) -> (r:
        Result<(), String>)
        requires
            old(self).live(),
            old(self).wf(),
            old(self).depth_spec() < max_depth(),
        ensures
            env_unchanged(*old(self), *final(self)),
            final(self).wf(),
            final(self).live(),
            ({
                if has_interior_nul(filename.spec_bytes()) || has_interior_nul(
                    source.spec_bytes(),
                ) {
                    &&& r matches Err(m) && m@ == nul_message()
                    &&& final(self).stack_model() == old(self).stack_model()
                } else {
                    match outcome {
                        CompileOutcome::Compiled => {
                            &&& r is Ok
                            &&& final(self).stack_model() == old(self).stack_model().push(
                                ValueSpec::Script,
                            )
                        },
                        CompileOutcome::Rejected(kind, msg) => {
                            &&& r matches Err(m) && m@ == rendered(kind, msg@) && m@.len() > 0
                            &&& final(self).stack_model() == old(self).stack_model().push(
                                ValueSpec::Error(kind, msg@),
                            )
                            &&& !final(self).read(-1).is_callable()
                        },
                    }
                }
            }),
    {
        if str_has_nul(filename) || str_has_nul(source) {
            return Err(nul_error());
        }
        match outcome {
            CompileOutcome::Compiled => {
                self.push_value(Value::Script);
                Ok(())
            },
            CompileOutcome::Rejected(kind, msg) => {
                let text = render_error(kind, msg.as_str());
                proof {
                    lemma_rendered_nonempty(kind, msg@);
                }
                self.push_value(Value::Error(kind, msg));
                Err(text)
            },
        }
    }

    /// Call a callable under a protected boundary.  The caller has pushed
    /// the callable, a `this` value and `n` arguments, in that order; the
    /// call removes all of them and pushes exactly one value — the result,
    /// or on failure the error, with the verdict reported out of band as
    /// the returned result.  The evaluator's verdict enters as `outcome`.
    /// A thrown error is recovered here, at the protected boundary: it
    /// never faults the handle.
    pub fn call(&mut self, n: i32, outcome: CallOutcome) -> (r: Result<(), String>)
        requires
            old(self).live(),
            old(self).wf(),
            n >= 0,
            old(self).depth_spec() >= n + 2,
        ensures
            env_unchanged(*old(self), *final(self)),
            final(self).wf(),
            final(self).live(),
            final(self).depth_spec() == old(self).depth_spec() - n - 1,
            match outcome {
                CallOutcome::Returned(v) => {
                    &&& r is Ok
                    &&& final(self).stack_model() == old(self).stack_model().take(
                        old(self).depth_spec() - n - 2,
                    ).push(v@)
                },
                CallOutcome::Threw(kind, msg) => {
                    &&& r matches Err(m) && m@ == rendered(kind, msg@) && m@.len() > 0
                    &&& final(self).stack_model() == old(self).stack_model().take(
                        old(self).depth_spec() - n - 2,
                    ).push(ValueSpec::Error(kind, msg@))
                },
            },
    {
        let base = self.stack.len() - (n as usize) - 2;
        self.stack.truncate(base);
        match outcome {
            CallOutcome::Returned(v) => {
                self.stack.push(v);
                proof {
                    assert(self.stack_model() =~= old(self).stack_model().take(
                        old(self).depth_spec() - n - 2,
                    ).push(self.stack@.last()@));
                }
                Ok(())
            },
            CallOutcome::Threw(kind, msg) => {
                let text = render_error(kind, msg.as_str());
                proof {
                    lemma_rendered_nonempty(kind, msg@);
                }
                self.stack.push(Value::Error(kind, msg));
                proof {
                    assert(self.stack_model() =~= old(self).stack_model().take(
                        old(self).depth_spec() - n - 2,
                    ).push(self.stack@.last()@));
                }
                Err(text)
            },
        }
    }

    /// Call a callable as a constructor under a protected boundary.  As
    /// [`State::call`], except no `this` value is pushed — the engine
    /// supplies one — so the callable and `n` arguments are removed.
    pub fn construct(&mut self, n: i32, outcome: CallOutcome) -> (r: Result<(), String>)
        requires
            old(self).live(),
            old(self).wf(),
            n >= 0,
            old(self).depth_spec() >= n + 1,
        ensures
            env_unchanged(*old(self), *final(self)),
            final(self).wf(),
            final(self).live(),
            final(self).depth_spec() == old(self).depth_spec() - n,
            match outcome {
                CallOutcome::Returned(v) => {
                    &&& r is Ok
                    &&& final(self).stack_model() == old(self).stack_model().take(
                        old(self).depth_spec() - n - 1,
                    ).push(v@)
                },
                CallOutcome::Threw(kind, msg) => {
                    &&& r matches Err(m) && m@ == rendered(kind, msg@) && m@.len() > 0
                    &&& final(self).stack_model() == old(self).stack_model().take(
                        old(self).depth_spec() - n - 1,
                    ).push(ValueSpec::Error(kind, msg@))
                },
            },
    {
        let base = self.stack.len() - (n as usize) - 1;
        self.stack.truncate(base);
        match outcome {
            CallOutcome::Returned(v) => {
                self.stack.push(v);
                proof {
                    assert(self.stack_model() =~= old(self).stack_model().take(
                        old(self).depth_spec() - n - 1,
                    ).push(self.stack@.last()@));
                }
                Ok(())
            },
            CallOutcome::Threw(kind, msg) => {
                let text = render_error(kind, msg.as_str());
                proof {
                    lemma_rendered_nonempty(kind, msg@);
                }
                self.stack.push(Value::Error(kind, msg));
                proof {
                    assert(self.stack_model() =~= old(self).stack_model().take(
                        old(self).depth_spec() - n - 1,
                    ).push(self.stack@.last()@));
                }
                Err(text)
            },
        }
    }

    /// Compile a source string and run it at once with zero arguments and
    /// an undefined `this` — the single-shot evaluation path.  On success
    /// the result is removed again and the stack is as it was; on any
    /// failure the error value stays on top and the rendered message is
    /// returned.  The verdict of the compile-and-run enters as `outcome`.
    pub fn dostring(&mut self, source: &str, outcome: EvalOutcome) -> (r: Result<(), String>)
        requires
            old(self).live(),
            old(self).wf(),
            old(self).depth_spec() + 2 <= max_depth(),
        ensures
            env_unchanged(*old(self), *final(self)),
            final(self).wf(),
            final(self).live(),
            ({
                if has_interior_nul(source.spec_bytes()) {
                    &&& r matches Err(m) && m@ == nul_message()
                    &&& final(self).stack_model() == old(self).stack_model()
                } else {
                    match outcome {
                        EvalOutcome::Completed(_) => {
                            &&& r is Ok
                            &&& final(self).stack_model() == old(self).stack_model()
                        },
                        EvalOutcome::Rejected(kind, msg) => {
                            &&& r matches Err(m) && m@ == rendered(kind, msg@) && m@.len() > 0
                            &&& final(self).stack_model() == old(self).stack_model().push(
                                ValueSpec::Error(kind, msg@),
                            )
                        },
                        EvalOutcome::Threw(kind, msg) => {
                            &&& r matches Err(m) && m@ == rendered(kind, msg@) && m@.len() > 0
                            &&& final(self).stack_model() == old(self).stack_model().push(
                                ValueSpec::Error(kind, msg@),
                            )
                        },
                    }
                }
            }),
    {
        if str_has_nul(source) {
            return Err(nul_error());
        }
        match outcome {
            EvalOutcome::Rejected(kind, msg) => {
                let text = render_error(kind, msg.as_str());
                proof {
                    lemma_rendered_nonempty(kind, msg@);
                }
                self.push_value(Value::Error(kind, msg));
                Err(text)
            },
            EvalOutcome::Completed(result) => {
                self.push_value(Value::Script);
                self.push_value(Value::Undefined);
                match self.call(0, CallOutcome::Returned(result)) {
                    Ok(()) => {},
                    Err(_) => {
                        proof {
                            assert(false);
                        }
                    },
                }
                match self.pop(1) {
                    Ok(()) => {},
                    Err(_) => {
                        proof {
                            assert(false);
                        }
                    },
                }
                proof {
                    assert(self.stack_model() =~= old(self).stack_model());
                }
                Ok(())
            },
            EvalOutcome::Threw(kind, msg) => {
                self.push_value(Value::Script);
                self.push_value(Value::Undefined);
                let r = self.call(0, CallOutcome::Threw(kind, msg));
                proof {
                    assert(self.stack_model() =~= old(self).stack_model().push(
                        self.stack_model().last(),
                    ));
                }
                r
            },
        }
    }

    /// Register a host closure's slot and push the bridged native function
    /// value.  The key handed back was never issued on this handle before;
    /// the slot it names records the script-visible name, the declared
    /// arity, and the attribute word that makes the hidden slot read-only,
    /// non-enumerable and non-configurable.  The closure itself is owned by
    /// the caller's side table under the same key; what the engine retains
    /// is only this key.  A name with an interior zero byte is rejected
    /// before the boundary.
    pub fn newfunction(&mut self, name: &str, length: i32) -> (r: Result<u64, String>)
        requires
            old(self).live(),
            old(self).wf(),
            old(self).depth_spec() < max_depth(),
            old(self).func_keys_issued() < u64::MAX,
        ensures
            final(self).wf(),
            final(self).live(),
            final(self).flags_spec() == old(self).flags_spec(),
            match r {
                Ok(key) => {
                    &&& !has_interior_nul(name.spec_bytes())
                    &&& key == old(self).func_keys_issued()
                    &&& !old(self).funcs_model().dom().contains(key)
                    &&& exists|slot: FuncSlot|
                        {
                            &&& final(self).funcs_model() == old(self).funcs_model().insert(
                                key,
                                slot,
                            )
                            &&& slot.name@ == name@
                            &&& slot.length == length
                            &&& slot.attrs.bits == hidden_slot_bits()
                        }
                    &&& final(self).func_keys_issued() == old(self).func_keys_issued() + 1
                    &&& final(self).stack_model() == old(self).stack_model().push(
                        ValueSpec::Function(key),
                    )
                },
                Err(m) => {
                    &&& has_interior_nul(name.spec_bytes())
                    &&& m@ == nul_message()
                    &&& final(self).stack_model() == old(self).stack_model()
                    &&& final(self).funcs_model() == old(self).funcs_model()
                    &&& final(self).func_keys_issued() == old(self).func_keys_issued()
                },
            },
    {
        if str_has_nul(name) {
            return Err(nul_error());
        }
        let slot = FuncSlot { name: name.to_owned(), length, attrs: hidden_slot_attrs() };
        let ghost witness = slot;
        let key = self.funcs.insert(slot);
        self.push_value(Value::Function(key));
        proof {
            assert(self.funcs_model() == old(self).funcs_model().insert(key, witness));
            assert(witness.name@ == name@ && witness.length == length && witness.attrs.bits
                == hidden_slot_bits());
        }
        Ok(key)
    }

    /// The slot a hidden-slot key names, as the trampoline reads it when
    /// the engine calls back through a bridged function.
    pub fn function_slot(&self, key: u64) -> (r: Option<&FuncSlot>)
        ensures
            match r {
                Some(slot) => self.funcs_model().dom().contains(key) && *slot
                    == self.funcs_model().index(key),
                None => !self.funcs_model().dom().contains(key),
            },
    {
        self.funcs.get(key)
    }

    /// Take the finalization notice for a hidden-slot key: the foreign
    /// garbage collector reclaimed the function object holding it, and the
    /// slot is dropped.  Nothing else ends a slot's life.
    pub fn finalize_function(&mut self, key: u64) -> (present: bool)
        requires
            old(self).live(),
        ensures
            present == old(self).funcs_model().dom().contains(key),
            final(self).funcs_model() == old(self).funcs_model().remove(key),
            final(self).func_keys_issued() == old(self).func_keys_issued(),
            final(self).flags_spec() == old(self).flags_spec(),
            final(self).stack_model() == old(self).stack_model(),
            final(self).live(),
            final(self).wf() == old(self).wf(),
    {
        self.funcs.finalize(key)
    }
}

/// The failure text for a conversion only the evaluator can perform.
pub open spec fn evaluator_message() -> Seq<char> {
    "conversion is decided by the evaluator"@
}

/// The failure reported for a conversion only the evaluator can perform.
fn evaluator_error() -> (r: String)
    ensures
        r@ == evaluator_message(),
{
    String::from_str("conversion is decided by the evaluator")
}

/// The engine's stack-misuse failure, as a fault value.
fn stack_error_fault() -> (f: Fault)
    ensures
        f.value@ == stack_error_value(),
{
    Fault { value: Value::Error(ErrorKind::Generic, String::from_str("stack error!")) }
}

/// Turn a signed index into the slot it names on a stack of the given
/// depth, or nothing where it names none.
fn resolve_index(depth: usize, idx: i32) -> (r: Option<usize>)
    requires
        depth <= max_depth(),
    ensures
        match r {
            Some(k) => index_ok(depth as int, idx as int) && k == resolve(depth as int, idx as int),
            None => !index_ok(depth as int, idx as int),
        },
{
    let resolved: i64 = if idx < 0 {
        depth as i64 + idx as i64
    } else {
        idx as i64
    };
    if 0 <= resolved && resolved < depth as i64 {
        Some(resolved as usize)
    } else {
        None
    }
}

} // verus!
