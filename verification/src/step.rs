//! The instructions, one function each, and the step that runs one.

use vstd::prelude::*;
use crate::bytecode::Bytecode;
use crate::error::{Fault, RuntimeError};
use crate::eval::{advanced, Operand};
use crate::frame::CallFrame;
use crate::host::{HostRequest, Outcome, Pending, PendingView};
use crate::interner::Symbol;
use crate::method::MethodKind;
use crate::natives::PrimitiveResult;
use crate::number::{number_compare, number_is_zero, number_negate, ArithOp, CompareOp};
use crate::text::{concat2, concat3};
use crate::value::Value;
use crate::vm::VM;

verus! {

impl VM {
    /// True when nothing differs between the two states.
    pub open spec fn unchanged(&self, post: VM) -> bool {
        &&& post.frames@ == self.frames@
        &&& post.stack@ == self.stack@
        &&& post.heap@ == self.heap@
        &&& post.interner@ == self.interner@
        &&& post.modules@ == self.modules@
        &&& post.classes@ == self.classes@
        &&& post.universe == self.universe
        &&& post.selectors == self.selectors
        &&& post.core_module == self.core_module
        &&& post.pending@ == self.pending@
    }

    /// What one step of the evaluator does.
    ///
    /// A step fails while the evaluator waits for the host. With no
    /// frame active it ends the run with the top of the stack, or `Nil`.
    /// It fails where the code of the innermost frame has ended. In
    /// every other state it fetches the next instruction, moves the
    /// frame on, and runs the instruction.
    #[verifier::opaque]
    pub open spec fn step_post(&self, post: VM, out: Outcome) -> bool {
        if self.pending@ != PendingView::Idle {
            self.unchanged(post) && post.failed_with(out, Fault::Message("Waiting for the host"@))
        } else if self.frames@.len() == 0 {
            &&& out == Outcome::Finished(
                if self.stack@.len() > 0 {
                    self.stack@.last()
                } else {
                    Value::Nil
                },
            )
            &&& post.frames@ == self.frames@
            &&& self.calm(post)
            &&& post.stack@ == if self.stack@.len() > 0 {
                self.stack@.drop_last()
            } else {
                self.stack@
            }
        } else if self.top().ip >= self.code().len() {
            self.unchanged(post) && post.failed_with(
                out,
                Fault::Message("Instruction pointer out of bounds"@),
            )
        } else {
            self.instruction_post(post, self.code()[self.top().ip as int], out)
        }
    }

    proof fn lemma_follows(&self, pre: VM)
        requires
            self.follows(pre),
        ensures
            self.frames@.len() == pre.frames@.len(),
            self.top().closure == pre.top().closure,
            self.top().stack_offset == pre.top().stack_offset,
            self.top().closure < self.heap@.closures.len(),
            self.constants() == pre.constants(),
            self.module_of_top() == pre.module_of_top(),
            self.module_of_top() < self.heap@.modules.len(),
            forall|idx: u16| self.operand(idx) == pre.operand(idx),
    {
        assert(self.frames@.last() == advanced(pre.frames@)[pre.frames@.len() - 1]);
        assert(self.frames@[self.frames@.len() - 1].closure < self.heap.closures@.len());
        assert(self.heap.closures@[self.top().closure as int].module < self.heap.modules@.len());
    }

    fn constant_at(&self, idx: u16) -> (v: Option<Value>)
        requires
            self.wf(),
            self.frames@.len() > 0,
        ensures
            v == if idx < self.constants().len() {
                Some(self.constants()[idx as int])
            } else {
                None::<Value>
            },
    {
        let frame = self.frames[self.frames.len() - 1];
        let constants = &self.heap.closure(frame.closure).callable.chunk.constants;
        if (idx as usize) < constants.len() {
            Some(constants[idx as usize].clone())
        } else {
            None
        }
    }

    fn operand_at(&self, idx: u16) -> (o: Operand)
        requires
            self.wf(),
            self.frames@.len() > 0,
        ensures
            o == self.operand(idx),
    {
        match self.constant_at(idx) {
            Some(Value::Symbol(s)) => Operand::Name(s),
            Some(_) => Operand::Other,
            None => Operand::Missing,
        }
    }

    fn running_module(&self) -> (m: usize)
        requires
            self.wf(),
            self.frames@.len() > 0,
        ensures
            m == self.module_of_top(),
            m < self.heap@.modules.len(),
    {
        let frame = self.frames[self.frames.len() - 1];
        self.heap.closure(frame.closure).module
    }

    fn op_constant(&mut self, Ghost(pre): Ghost<VM>, idx: u16) -> (out: Outcome)
        requires
            old(self).follows(pre),
        ensures
            final(self).wf(),
            pre.constant_post(*final(self), idx, out),
    {
        proof {
            self.lemma_follows(pre);
        }
        match self.constant_at(idx) {
            Some(v) => {
                self.stack.push(v);
                Outcome::Running
            },
            None => self.fail_message("Constant index out of bounds"),
        }
    }

    fn op_literal(&mut self, Ghost(pre): Ghost<VM>, v: Value) -> (out: Outcome)
        requires
            old(self).follows(pre),
        ensures
            final(self).wf(),
            pre.literal_post(*final(self), v, out),
    {
        self.stack.push(v);
        Outcome::Running
    }

    fn op_pop(&mut self, Ghost(pre): Ghost<VM>) -> (out: Outcome)
        requires
            old(self).follows(pre),
        ensures
            final(self).wf(),
            pre.pop_post(*final(self), out),
    {
        let _ = self.stack.pop();
        Outcome::Running
    }

    fn op_define_global(&mut self, Ghost(pre): Ghost<VM>, idx: u16) -> (out: Outcome)
        requires
            old(self).follows(pre),
        ensures
            final(self).wf(),
            pre.define_global_post(*final(self), idx, out),
    {
        proof {
            self.lemma_follows(pre);
        }
        match self.operand_at(idx) {
            Operand::Missing => self.fail_message("Constant index out of bounds"),
            Operand::Other => Outcome::Running,
            Operand::Name(name) => {
                let n = self.stack.len();
                if n == 0 {
                    return self.fail_message("Stack underflow");
                }
                let m = self.running_module();
                let value = self.stack[n - 1].clone();
                match self.heap.define_global(m, name, value) {
                    Ok(_) => {
                        let _ = self.stack.pop();
                        Outcome::Running
                    },
                    Err(_) => self.fail_message("Too many globals in module"),
                }
            },
        }
    }

    fn op_get_global(&mut self, Ghost(pre): Ghost<VM>, idx: u16) -> (out: Outcome)
        requires
            old(self).follows(pre),
        ensures
            final(self).wf(),
            pre.get_global_post(*final(self), idx, out),
    {
        proof {
            self.lemma_follows(pre);
        }
        match self.operand_at(idx) {
            Operand::Missing => self.fail_message("Constant index out of bounds"),
            Operand::Other => Outcome::Running,
            Operand::Name(name) => {
                let m = self.running_module();
                let local = self.heap.module(m).get(name);
                let found = match local {
                    Some(v) => Some(v),
                    None => self.heap.module(self.core_module).get(name),
                };
                match found {
                    Some(v) => {
                        self.stack.push(v);
                        Outcome::Running
                    },
                    None => {
                        let text = self.symbol_string(name);
                        self.fail(RuntimeError::UndefinedVar(text))
                    },
                }
            },
        }
    }

    fn op_set_global(&mut self, Ghost(pre): Ghost<VM>, idx: u16) -> (out: Outcome)
        requires
            old(self).follows(pre),
        ensures
            final(self).wf(),
            pre.set_global_post(*final(self), idx, out),
    {
        proof {
            self.lemma_follows(pre);
        }
        match self.operand_at(idx) {
            Operand::Missing => self.fail_message("Constant index out of bounds"),
            Operand::Other => Outcome::Running,
            Operand::Name(name) => {
                let m = self.running_module();
                match self.heap.module(m).slot_of(name) {
                    None => {
                        let text = self.symbol_string(name);
                        self.fail(RuntimeError::UndefinedVar(text))
                    },
                    Some(slot) => {
                        let n = self.stack.len();
                        if n == 0 {
                            return self.fail_message("Stack underflow");
                        }
                        let value = self.stack[n - 1].clone();
                        proof {
                            assert(self.heap.modules@[m as int].wf());
                        }
                        match self.heap.set_global(m, slot, value) {
                            Ok(_) => Outcome::Running,
                            Err(_) => self.fail_message("Global slot out of bounds"),
                        }
                    },
                }
            },
        }
    }

    fn op_get_local(&mut self, Ghost(pre): Ghost<VM>, slot: u16) -> (out: Outcome)
        requires
            old(self).follows(pre),
        ensures
            final(self).wf(),
            pre.get_local_post(*final(self), slot, out),
    {
        proof {
            self.lemma_follows(pre);
        }
        let offset = self.frames[self.frames.len() - 1].stack_offset;
        let n = self.stack.len();
        if offset < n && (slot as usize) < n - offset {
            let value = self.stack[offset + slot as usize].clone();
            self.stack.push(value);
            Outcome::Running
        } else {
            self.fail_message("Local variable slot out of bounds")
        }
    }

    fn op_set_local(&mut self, Ghost(pre): Ghost<VM>, slot: u16) -> (out: Outcome)
        requires
            old(self).follows(pre),
        ensures
            final(self).wf(),
            pre.set_local_post(*final(self), slot, out),
    {
        proof {
            self.lemma_follows(pre);
        }
        let offset = self.frames[self.frames.len() - 1].stack_offset;
        let n = self.stack.len();
        if offset < n && (slot as usize) < n - offset {
            let value = self.stack[n - 1].clone();
            self.stack[offset + slot as usize] = value;
            Outcome::Running
        } else {
            self.fail_message("Local variable slot out of bounds")
        }
    }

    fn op_get_self(&mut self, Ghost(pre): Ghost<VM>) -> (out: Outcome)
        requires
            old(self).follows(pre),
        ensures
            final(self).wf(),
            pre.get_self_post(*final(self), out),
    {
        proof {
            self.lemma_follows(pre);
        }
        let offset = self.frames[self.frames.len() - 1].stack_offset;
        if offset < self.stack.len() {
            let value = self.stack[offset].clone();
            self.stack.push(value);
            Outcome::Running
        } else {
            self.fail_message("Stack underflow")
        }
    }

    fn op_get_field(&mut self, Ghost(pre): Ghost<VM>, idx: u16) -> (out: Outcome)
        requires
            old(self).follows(pre),
        ensures
            final(self).wf(),
            pre.get_field_post(*final(self), idx, out),
    {
        proof {
            self.lemma_follows(pre);
        }
        match self.operand_at(idx) {
            Operand::Missing => self.fail_message("Constant index out of bounds"),
            Operand::Other => Outcome::Running,
            Operand::Name(name) => {
                let n = self.stack.len();
                if n == 0 {
                    return self.fail_message("Stack underflow");
                }
                match &self.stack[n - 1] {
                    Value::Instance(i) => {
                        let i = *i;
                        if i < self.heap.instances.len() {
                            let value = self.heap.get_field(i, name);
                            let _ = self.stack.pop();
                            self.stack.push(value);
                            Outcome::Running
                        } else {
                            self.fail_message("Dangling reference")
                        }
                    },
                    _ => self.fail_message("Only instances can have fields."),
                }
            },
        }
    }

    fn store(&mut self, Ghost(pre): Ghost<VM>, name: Symbol, i: usize) -> (out: Outcome)
        requires
            old(self).follows(pre),
            pre.stack@.len() >= 2,
        ensures
            final(self).wf(),
            pre.store_post(*final(self), name, i, out),
    {
        if i >= self.heap.instances.len() {
            return self.fail_message("Dangling reference");
        }
        let n = self.stack.len();
        let value = self.stack[n - 1].clone();
        self.heap.set_field(i, name, value.clone());
        self.stack.truncate(n - 2);
        self.stack.push(value);
        Outcome::Running
    }

    fn op_set_field(&mut self, Ghost(pre): Ghost<VM>, idx: u16) -> (out: Outcome)
        requires
            old(self).follows(pre),
        ensures
            final(self).wf(),
            pre.set_field_post(*final(self), idx, out),
    {
        proof {
            self.lemma_follows(pre);
        }
        match self.operand_at(idx) {
            Operand::Missing => self.fail_message("Constant index out of bounds"),
            Operand::Other => Outcome::Running,
            Operand::Name(name) => {
                let n = self.stack.len();
                if n < 2 {
                    return self.fail_message("Stack underflow");
                }
                match &self.stack[n - 2] {
                    Value::Instance(i) => {
                        let i = *i;
                        self.store(Ghost(pre), name, i)
                    },
                    _ => self.fail_message("Only instances can have fields."),
                }
            },
        }
    }

    fn call_native(
        &mut self,
        Ghost(pre): Ghost<VM>,
        f: crate::method::PrimitiveFn,
        index: usize,
    ) -> (out: Outcome)
        requires
            old(self).follows(pre),
            index < pre.stack@.len(),
            pre.heap@.holds(pre.stack@[index as int]),
        ensures
            final(self).wf(),
            pre.native_post(
                *final(self),
                index as int,
                crate::natives::native_spec(
                    pre.heap@,
                    pre.interner@,
                    f,
                    pre.stack@[index as int],
                    pre.stack@.subrange(index + 1, pre.stack@.len() as int),
                ),
                out,
            ),
    {
        let n = self.stack.len();
        let receiver = self.stack[index].clone();
        let mut args: Vec<Value> = Vec::new();
        let mut i = index + 1;
        while i < n
            invariant
                index + 1 <= i <= n,
                n == self.stack@.len(),
                args@ == self.stack@.subrange(index + 1, i as int),
            decreases n - i,
        {
            args.push(self.stack[i].clone());
            proof {
                assert(self.stack@.subrange(index + 1, i + 1) =~= self.stack@.subrange(
                    index + 1,
                    i as int,
                ).push(self.stack@[i as int]));
            }
            i += 1;
        }
        let result = self.call_primitive(f, &receiver, &args);
        match result {
            Ok(PrimitiveResult::Value(v)) => {
                self.stack.truncate(index);
                self.stack.push(v);
                proof {
                    assert(final(self).stack@.take(index as int) =~= pre.stack@.take(index as int));
                }
                Outcome::Running
            },
            Ok(PrimitiveResult::Ask(request, pending)) => {
                self.stack.truncate(index);
                self.pending = pending;
                Outcome::Waiting(request)
            },
            Err(e) => self.fail(e),
        }
    }

    fn send(&mut self, Ghost(pre): Ghost<VM>, arity: usize, selector: Symbol) -> (out: Outcome)
        requires
            old(self).follows(pre),
            arity < pre.stack@.len(),
        ensures
            final(self).wf(),
            pre.send_post(*final(self), arity as int, selector, out),
    {
        let n = self.stack.len();
        let index = n - 1 - arity;
        let receiver = self.stack[index].clone();
        if !self.heap.contains(&receiver) {
            return self.fail_message("Dangling reference");
        }
        let class = receiver.class(self);
        match self.heap.lookup_method(class, selector) {
            None => {
                let selector_text = self.symbol_string(selector);
                let mut text = concat3(
                    "No method with selector '",
                    selector_text.as_str(),
                    "' found for class '",
                );
                text.append(self.heap.class(class).name.as_str());
                text.append("'.");
                self.fail(RuntimeError::Message(text))
            },
            Some(m) => {
                let method = *self.heap.method(m);
                match method.kind {
                    MethodKind::Primitive(f) => self.call_native(Ghost(pre), f, index),
                    MethodKind::Closure(c) => {
                        proof {
                            assert(self.heap.methods@[m as int].kind matches MethodKind::Closure(k)
                                ==> k < self.heap.closures@.len());
                        }
                        let module = self.heap.closure(c).module;
                        let frame = CallFrame::new(c, receiver.to_context(module), 0, index);
                        self.frames.push(frame);
                        Outcome::Running
                    },
                }
            },
        }
    }

    fn op_get_property(&mut self, Ghost(pre): Ghost<VM>, idx: u16) -> (out: Outcome)
        requires
            old(self).follows(pre),
        ensures
            final(self).wf(),
            pre.get_property_post(*final(self), idx, out),
    {
        proof {
            self.lemma_follows(pre);
        }
        match self.operand_at(idx) {
            Operand::Missing => self.fail_message("Constant index out of bounds"),
            Operand::Other => Outcome::Running,
            Operand::Name(name) => {
                let n = self.stack.len();
                if n == 0 {
                    return self.fail_message("Stack underflow");
                }
                if let Value::Instance(i) = &self.stack[n - 1] {
                    let i = *i;
                    if i < self.heap.instances.len() && self.heap.instance(i).has_field(name) {
                        let value = self.heap.get_field(i, name);
                        let _ = self.stack.pop();
                        self.stack.push(value);
                        return Outcome::Running;
                    }
                }
                self.send(Ghost(pre), 0, name)
            },
        }
    }

    fn op_set_property(&mut self, Ghost(pre): Ghost<VM>, idx: u16) -> (out: Outcome)
        requires
            old(self).follows(pre),
        ensures
            final(self).wf(),
            pre.set_property_post(*final(self), idx, out),
    {
        proof {
            self.lemma_follows(pre);
        }
        match self.operand_at(idx) {
            Operand::Missing => self.fail_message("Constant index out of bounds"),
            Operand::Other => Outcome::Running,
            Operand::Name(name) => {
                let n = self.stack.len();
                if n < 2 {
                    return self.fail_message("Stack underflow");
                }
                if let Value::Instance(i) = &self.stack[n - 2] {
                    let i = *i;
                    return self.store(Ghost(pre), name, i);
                }
                let base = self.symbol_string(name);
                let setter = concat2(base.as_str(), "=(_)");
                match self.interner.find(setter.as_str()) {
                    Some(selector) => self.send(Ghost(pre), 1, selector),
                    None => {
                        let text = concat3("Setter method '", setter.as_str(), "' not found.");
                        self.fail(RuntimeError::Message(text))
                    },
                }
            },
        }
    }

    fn op_class(&mut self, Ghost(pre): Ghost<VM>, idx: u16) -> (out: Outcome)
        requires
            old(self).follows(pre),
        ensures
            final(self).wf(),
            pre.class_post(*final(self), idx, out),
    {
        proof {
            self.lemma_follows(pre);
        }
        match self.operand_at(idx) {
            Operand::Missing => self.fail_message("Constant index out of bounds"),
            Operand::Other => Outcome::Running,
            Operand::Name(name) => {
                let n = self.stack.len();
                if n == 0 {
                    return self.fail_message("Stack underflow");
                }
                match &self.stack[n - 1] {
                    Value::Class(c) => {
                        let c = *c;
                        if c >= self.heap.classes.len() {
                            return self.fail_message("Dangling reference");
                        }
                        let text = self.symbol_string(name);
                        match self.try_create_class(text.as_str(), c) {
                            Some(id) => {
                                let _ = self.stack.pop();
                                self.stack.push(Value::Class(id));
                                Outcome::Running
                            },
                            None => self.fail_message("Too many symbols"),
                        }
                    },
                    _ => self.fail_message("Superclass must be a class."),
                }
            },
        }
    }

    fn op_method(&mut self, Ghost(pre): Ghost<VM>, idx: u16, is_static: bool) -> (out: Outcome)
        requires
            old(self).follows(pre),
        ensures
            final(self).wf(),
            pre.method_post(*final(self), idx, is_static, out),
    {
        proof {
            self.lemma_follows(pre);
        }
        match self.operand_at(idx) {
            Operand::Missing => self.fail_message("Constant index out of bounds"),
            Operand::Other => Outcome::Running,
            Operand::Name(selector) => {
                let n = self.stack.len();
                if n < 2 {
                    return self.fail_message("Stack underflow");
                }
                match (&self.stack[n - 1], &self.stack[n - 2]) {
                    (Value::Method(m), Value::Class(c)) => {
                        let m = *m;
                        let c = *c;
                        if m < self.heap.methods.len() && c < self.heap.classes.len() {
                            let target = if is_static {
                                self.heap.class(c).class()
                            } else {
                                c
                            };
                            self.heap.add_method(target, selector, m);
                            let _ = self.stack.pop();
                            Outcome::Running
                        } else {
                            self.fail_message("Dangling reference")
                        }
                    },
                    _ => self.fail_message("Invalid types for method definition."),
                }
            },
        }
    }

    fn op_invoke(&mut self, Ghost(pre): Ghost<VM>, arity: u8, idx: u16) -> (out: Outcome)
        requires
            old(self).follows(pre),
        ensures
            final(self).wf(),
            pre.invoke_post(*final(self), arity, idx, out),
    {
        proof {
            self.lemma_follows(pre);
        }
        match self.operand_at(idx) {
            Operand::Missing => self.fail_message("Constant index out of bounds"),
            Operand::Other => self.fail_message("Selector must be a symbol"),
            Operand::Name(selector) => {
                if self.stack.len() <= arity as usize {
                    return self.fail_message("Stack underflow");
                }
                self.send(Ghost(pre), arity as usize, selector)
            },
        }
    }

    fn op_return(&mut self, Ghost(pre): Ghost<VM>) -> (out: Outcome)
        requires
            old(self).follows(pre),
        ensures
            final(self).wf(),
            pre.return_post(*final(self), out),
    {
        proof {
            self.lemma_follows(pre);
        }
        let n = self.stack.len();
        let rest = if n > 0 {
            n - 1
        } else {
            0
        };
        let offset = self.frames[self.frames.len() - 1].stack_offset;
        if offset > rest {
            return self.fail_message("Stack underflow");
        }
        let value = match self.stack.pop() {
            Some(v) => v,
            None => Value::Nil,
        };
        let _ = self.frames.pop();
        self.stack.truncate(offset);
        proof {
            assert(self.frames@ =~= pre.frames@.drop_last());
        }
        if self.frames.len() == 0 {
            Outcome::Finished(value)
        } else {
            self.stack.push(value);
            Outcome::Running
        }
    }

    fn arith_symbol(&self, op: ArithOp) -> (s: Symbol)
        ensures
            s == crate::eval::arith_selector(*self, op),
    {
        match op {
            ArithOp::Add => self.selectors.add,
            ArithOp::Subtract => self.selectors.sub,
            ArithOp::Multiply => self.selectors.mul,
            ArithOp::Divide => self.selectors.div,
            ArithOp::Modulo => self.selectors.modulo,
        }
    }

    fn compare_symbol(&self, op: CompareOp) -> (s: Symbol)
        ensures
            s == crate::eval::compare_selector(*self, op),
    {
        match op {
            CompareOp::Less => self.selectors.lt,
            CompareOp::LessEqual => self.selectors.le,
            CompareOp::Greater => self.selectors.gt,
            CompareOp::GreaterEqual => self.selectors.ge,
        }
    }

    fn op_arith(&mut self, Ghost(pre): Ghost<VM>, op: ArithOp) -> (out: Outcome)
        requires
            old(self).follows(pre),
        ensures
            final(self).wf(),
            pre.arith_post(*final(self), op, out),
    {
        let n = self.stack.len();
        if n < 2 {
            return self.fail_message("Stack underflow");
        }
        if let (Value::Number(a), Value::Number(b)) = (&self.stack[n - 2], &self.stack[n - 1]) {
            let a = *a;
            let b = *b;
            let divides = match op {
                ArithOp::Divide => true,
                ArithOp::Modulo => true,
                _ => false,
            };
            if divides && number_is_zero(b) {
                return self.fail(RuntimeError::ZeroDivision);
            }
            self.stack.truncate(n - 2);
            self.pending = Pending::Number;
            return Outcome::Waiting(HostRequest::Arithmetic { op, lhs: a, rhs: b });
        }
        let selector = self.arith_symbol(op);
        self.send(Ghost(pre), 1, selector)
    }

    fn op_compare(&mut self, Ghost(pre): Ghost<VM>, op: CompareOp) -> (out: Outcome)
        requires
            old(self).follows(pre),
        ensures
            final(self).wf(),
            pre.compare_post(*final(self), op, out),
    {
        let n = self.stack.len();
        if n < 2 {
            return self.fail_message("Stack underflow");
        }
        if let (Value::Number(a), Value::Number(b)) = (&self.stack[n - 2], &self.stack[n - 1]) {
            let truth = number_compare(op, *a, *b);
            self.stack.truncate(n - 2);
            self.stack.push(Value::Bool(truth));
            return Outcome::Running;
        }
        let selector = self.compare_symbol(op);
        self.send(Ghost(pre), 1, selector)
    }

    fn op_equal(&mut self, Ghost(pre): Ghost<VM>, negate: bool) -> (out: Outcome)
        requires
            old(self).follows(pre),
        ensures
            final(self).wf(),
            pre.equal_post(*final(self), negate, out),
    {
        let n = self.stack.len();
        if n < 2 {
            return self.fail_message("Stack underflow");
        }
        let equal = self.stack[n - 2] == self.stack[n - 1];
        self.stack.truncate(n - 2);
        self.stack.push(Value::Bool(equal != negate));
        Outcome::Running
    }

    fn op_logic(&mut self, Ghost(pre): Ghost<VM>, is_and: bool) -> (out: Outcome)
        requires
            old(self).follows(pre),
        ensures
            final(self).wf(),
            pre.logic_post(*final(self), is_and, out),
    {
        let n = self.stack.len();
        if n < 2 {
            return self.fail_message("Stack underflow");
        }
        if let (Value::Bool(a), Value::Bool(b)) = (&self.stack[n - 2], &self.stack[n - 1]) {
            let truth = if is_and {
                *a && *b
            } else {
                *a || *b
            };
            self.stack.truncate(n - 2);
            self.stack.push(Value::Bool(truth));
            return Outcome::Running;
        }
        if is_and {
            self.fail_message("Unsupported operand types for logical AND")
        } else {
            self.fail_message("Unsupported operand types for logical OR")
        }
    }

    fn op_negate(&mut self, Ghost(pre): Ghost<VM>) -> (out: Outcome)
        requires
            old(self).follows(pre),
        ensures
            final(self).wf(),
            pre.negate_post(*final(self), out),
    {
        let n = self.stack.len();
        if n == 0 {
            return self.fail_message("Stack underflow");
        }
        if let Value::Number(bits) = &self.stack[n - 1] {
            let result = number_negate(*bits);
            let _ = self.stack.pop();
            self.stack.push(Value::Number(result));
            return Outcome::Running;
        }
        self.fail_message("Unsupported operand type for negation")
    }

    fn op_not(&mut self, Ghost(pre): Ghost<VM>) -> (out: Outcome)
        requires
            old(self).follows(pre),
        ensures
            final(self).wf(),
            pre.not_post(*final(self), out),
    {
        let n = self.stack.len();
        if n == 0 {
            return self.fail_message("Stack underflow");
        }
        if let Value::Bool(b) = &self.stack[n - 1] {
            let result = !*b;
            let _ = self.stack.pop();
            self.stack.push(Value::Bool(result));
            return Outcome::Running;
        }
        self.fail_message("Unsupported operand type for logical NOT")
    }

    fn dispatch(&mut self, Ghost(pre): Ghost<VM>, instruction: Bytecode) -> (out: Outcome)
        requires
            old(self).follows(pre),
        ensures
            final(self).wf(),
            pre.instruction_post(*final(self), instruction, out),
    {
        reveal(VM::instruction_post);
        match instruction {
            Bytecode::Constant(idx) => self.op_constant(Ghost(pre), idx),
            Bytecode::Nil => self.op_literal(Ghost(pre), Value::Nil),
            Bytecode::True => self.op_literal(Ghost(pre), Value::Bool(true)),
            Bytecode::False => self.op_literal(Ghost(pre), Value::Bool(false)),
            Bytecode::Pop => self.op_pop(Ghost(pre)),
            Bytecode::DefineGlobal(idx) => self.op_define_global(Ghost(pre), idx),
            Bytecode::GetGlobal(idx) => self.op_get_global(Ghost(pre), idx),
            Bytecode::SetGlobal(idx) => self.op_set_global(Ghost(pre), idx),
            Bytecode::GetLocal(slot) => self.op_get_local(Ghost(pre), slot),
            Bytecode::SetLocal(slot) => self.op_set_local(Ghost(pre), slot),
            Bytecode::GetSelf => self.op_get_self(Ghost(pre)),
            Bytecode::GetField(idx) => self.op_get_field(Ghost(pre), idx),
            Bytecode::SetField(idx) => self.op_set_field(Ghost(pre), idx),
            Bytecode::GetProperty(idx) => self.op_get_property(Ghost(pre), idx),
            Bytecode::SetProperty(idx) => self.op_set_property(Ghost(pre), idx),
            Bytecode::Invoke(arity, idx) => self.op_invoke(Ghost(pre), arity, idx),
            Bytecode::Class(idx) => self.op_class(Ghost(pre), idx),
            Bytecode::Method(idx, is_static) => self.op_method(Ghost(pre), idx, is_static),
            Bytecode::Return => self.op_return(Ghost(pre)),
            Bytecode::Add => self.op_arith(Ghost(pre), ArithOp::Add),
            Bytecode::Subtract => self.op_arith(Ghost(pre), ArithOp::Subtract),
            Bytecode::Multiply => self.op_arith(Ghost(pre), ArithOp::Multiply),
            Bytecode::Divide => self.op_arith(Ghost(pre), ArithOp::Divide),
            Bytecode::Modulo => self.op_arith(Ghost(pre), ArithOp::Modulo),
            Bytecode::Equal => self.op_equal(Ghost(pre), false),
            Bytecode::NotEqual => self.op_equal(Ghost(pre), true),
            Bytecode::Less => self.op_compare(Ghost(pre), CompareOp::Less),
            Bytecode::LessEqual => self.op_compare(Ghost(pre), CompareOp::LessEqual),
            Bytecode::Greater => self.op_compare(Ghost(pre), CompareOp::Greater),
            Bytecode::GreaterEqual => self.op_compare(Ghost(pre), CompareOp::GreaterEqual),
            Bytecode::And => self.op_logic(Ghost(pre), true),
            Bytecode::Or => self.op_logic(Ghost(pre), false),
            Bytecode::Negate => self.op_negate(Ghost(pre)),
            Bytecode::Not => self.op_not(Ghost(pre)),
        }
    }

    /// Runs one instruction.
    pub fn step(&mut self) -> (out: Outcome)
        requires
            old(self).wf(),
        ensures
            final(self).wf(),
            old(self).step_post(*final(self), out),
    {
        let ghost pre = *self;
        reveal(VM::step_post);
        if !matches!(self.pending, Pending::Idle) {
            return self.fail_message("Waiting for the host");
        }
        let depth = self.frames.len();
        if depth == 0 {
            let value = match self.stack.pop() {
                Some(v) => v,
                None => Value::Nil,
            };
            return Outcome::Finished(value);
        }
        let frame = self.frames[depth - 1];
        let code = &self.heap.closure(frame.closure).callable.chunk.code;
        if frame.ip >= code.len() {
            return self.fail_message("Instruction pointer out of bounds");
        }
        let instruction = code[frame.ip];
        self.frames[depth - 1] = CallFrame { ip: frame.ip + 1, ..frame };
        proof {
            assert(self.frames@ =~= advanced(pre.frames@));
        }
        self.dispatch(Ghost(pre), instruction)
    }
}

} // verus!
