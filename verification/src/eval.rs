//! What each instruction does.
//!
//! For every instruction there is a predicate here that relates the
//! runtime before the instruction was fetched to the runtime after it
//! ran. The functions that run the instructions, one for each, stand in
//! `step`, and each meets the predicate of its instruction.

use vstd::prelude::*;
use crate::bytecode::Bytecode;
use crate::error::Fault;
use crate::frame::{CallContext, CallFrame};
use crate::heap::{field_set, lookup_spec, method_attached, module_rebound};
use crate::host::{Outcome, PendingView, RequestView};
use crate::interner::{
    index_of, is_interned, symbol_after_intern, table_after_intern, Symbol, MAX_SYMBOLS,
};
use crate::method::MethodKind;
use crate::natives::{dangling, native_spec, with_new_instance, Expect};
use crate::number::{compare_spec, is_zero, negated, ArithOp, CompareOp};
use crate::registry::room_for_class;
use crate::universe::class_of;
use crate::value::{value_eq, Value};
use crate::vm::{symbol_text, VM};

verus! {

/// What the operand of an instruction that names something refers to.
#[derive(Debug, Clone, Copy, PartialEq, Eq, Structural)]
pub enum Operand {
    /// The constant pool has no such index.
    Missing,
    /// The constant is no symbol.
    Other,
    /// The constant is this symbol.
    Name(Symbol),
}

/// The frames after the innermost one moved on to its next instruction.
pub open spec fn advanced(frames: Seq<CallFrame>) -> Seq<CallFrame> {
    frames.update(
        frames.len() - 1,
        CallFrame { ip: (frames.last().ip + 1) as usize, ..frames.last() },
    )
}

/// The text of the failure of a send that found no method.
pub open spec fn method_not_found(selector: Seq<char>, class_name: Seq<char>) -> Seq<char> {
    "No method with selector '"@ + selector + "' found for class '"@ + class_name + "'."@
}

/// On what a call to a value runs.
pub open spec fn context_of(receiver: Value, module: usize) -> CallContext {
    match receiver {
        Value::Instance(i) => CallContext::Instance { instance: i },
        Value::Class(k) => CallContext::Class { class: k },
        _ => CallContext::Module { module },
    }
}

/// The selector that the evaluator sends for an arithmetic instruction.
pub open spec fn arith_selector(vm: VM, op: ArithOp) -> Symbol {
    match op {
        ArithOp::Add => vm.selectors.add,
        ArithOp::Subtract => vm.selectors.sub,
        ArithOp::Multiply => vm.selectors.mul,
        ArithOp::Divide => vm.selectors.div,
        ArithOp::Modulo => vm.selectors.modulo,
    }
}

/// The selector that the evaluator sends for a comparison instruction.
pub open spec fn compare_selector(vm: VM, op: CompareOp) -> Symbol {
    match op {
        CompareOp::Less => vm.selectors.lt,
        CompareOp::LessEqual => vm.selectors.le,
        CompareOp::Greater => vm.selectors.gt,
        CompareOp::GreaterEqual => vm.selectors.ge,
    }
}

impl VM {
    /// The innermost frame.
    pub open spec fn top(&self) -> CallFrame {
        self.frames@.last()
    }

    /// The instructions of the code that the innermost frame runs.
    pub open spec fn code(&self) -> Seq<Bytecode> {
        self.heap@.closures[self.top().closure as int].callable.chunk.code@
    }

    /// The constants of the code that the innermost frame runs.
    pub open spec fn constants(&self) -> Seq<Value> {
        self.heap@.closures[self.top().closure as int].callable.chunk.constants@
    }

    /// The module of the code that the innermost frame runs.
    pub open spec fn module_of_top(&self) -> usize {
        self.heap@.closures[self.top().closure as int].module
    }

    /// True when there is an instruction to run: the evaluator waits for
    /// nothing, a frame is active, and its code has not ended.
    pub open spec fn can_fetch(&self) -> bool {
        &&& self.pending@ == PendingView::Idle
        &&& self.frames@.len() > 0
        &&& self.top().ip < self.code().len()
    }

    /// What the operand `idx` refers to.
    pub open spec fn operand(&self, idx: u16) -> Operand {
        if idx < self.constants().len() {
            match self.constants()[idx as int] {
                Value::Symbol(s) => Operand::Name(s),
                _ => Operand::Other,
            }
        } else {
            Operand::Missing
        }
    }

    /// True when `self` is `pre` after its innermost frame moved on to
    /// its next instruction, and nothing else happened.
    pub open spec fn follows(&self, pre: VM) -> bool {
        &&& pre.wf()
        &&& self.wf()
        &&& pre.can_fetch()
        &&& self.frames@ == advanced(pre.frames@)
        &&& self.stack@ == pre.stack@
        &&& pre.calm(*self)
    }

    /// True when `post` has the heap, the interner and the registry of
    /// `self`, and waits for nothing.
    pub open spec fn calm(&self, post: VM) -> bool {
        &&& post.heap@ == self.heap@
        &&& self.settled(post)
    }

    /// True when `post` has the interner and the registry of `self`, and
    /// waits for nothing.
    pub open spec fn settled(&self, post: VM) -> bool {
        &&& post.interner@ == self.interner@
        &&& post.modules@ == self.modules@
        &&& post.classes@ == self.classes@
        &&& post.universe == self.universe
        &&& post.selectors == self.selectors
        &&& post.core_module == self.core_module
        &&& post.pending@ == PendingView::Idle
    }

    /// The instruction ran, the innermost frame moved on, nothing but the
    /// stack changed, and the stack is `stack`.
    pub open spec fn stepped(&self, post: VM, out: Outcome, stack: Seq<Value>) -> bool {
        &&& out is Running
        &&& post.frames@ == advanced(self.frames@)
        &&& self.calm(post)
        &&& post.stack@ == stack
    }

    /// As `stepped`, but the heap may have changed.
    pub open spec fn stepped_heap(&self, post: VM, out: Outcome, stack: Seq<Value>) -> bool {
        &&& out is Running
        &&& post.frames@ == advanced(self.frames@)
        &&& self.settled(post)
        &&& post.stack@ == stack
    }

    /// The instruction ran and left on the stack, above its first
    /// `depth` values, one string of the given text.
    pub open spec fn stepped_text(&self, post: VM, out: Outcome, depth: int, text: Seq<char>) -> bool {
        &&& out is Running
        &&& post.frames@ == advanced(self.frames@)
        &&& self.calm(post)
        &&& post.stack@.len() == depth + 1
        &&& post.stack@.take(depth) == self.stack@.take(depth)
        &&& post.stack@.last() matches Value::String(s) && s@ == text
    }

    /// The instruction failed with `fault`: the innermost frame had moved
    /// on to its next instruction, and nothing else changed.
    pub open spec fn fails(&self, post: VM, out: Outcome, fault: Fault) -> bool {
        &&& post.failed_with(out, fault)
        &&& post.frames@ == advanced(self.frames@)
        &&& post.stack@ == self.stack@
        &&& self.calm(post)
    }

    /// The failure of an operand that the constant pool does not hold.
    pub open spec fn missing_operand() -> Fault {
        Fault::Message("Constant index out of bounds"@)
    }

    /// The failure of an instruction that found too few values.
    pub open spec fn underflow() -> Fault {
        Fault::Message("Stack underflow"@)
    }

    /// `Constant`: pushes the constant.
    pub open spec fn constant_post(&self, post: VM, idx: u16, out: Outcome) -> bool {
        if idx < self.constants().len() {
            self.stepped(post, out, self.stack@.push(self.constants()[idx as int]))
        } else {
            self.fails(post, out, Self::missing_operand())
        }
    }

    /// `Nil`, `True`, `False`: pushes the literal.
    pub open spec fn literal_post(&self, post: VM, v: Value, out: Outcome) -> bool {
        self.stepped(post, out, self.stack@.push(v))
    }

    /// `Pop`: drops the top of the stack, if there is one.
    pub open spec fn pop_post(&self, post: VM, out: Outcome) -> bool {
        self.stepped(
            post,
            out,
            if self.stack@.len() > 0 {
                self.stack@.drop_last()
            } else {
                self.stack@
            },
        )
    }

    /// `DefineGlobal`: pops a value and defines the name in the module of
    /// the running code.
    pub open spec fn define_global_post(&self, post: VM, idx: u16, out: Outcome) -> bool {
        match self.operand(idx) {
            Operand::Missing => self.fails(post, out, Self::missing_operand()),
            Operand::Other => self.stepped(post, out, self.stack@),
            Operand::Name(name) => {
                let m = self.module_of_top();
                if self.stack@.len() == 0 {
                    self.fails(post, out, Self::underflow())
                } else if self.heap@.modules[m as int]@.can_declare(name) {
                    &&& self.stepped_heap(post, out, self.stack@.drop_last())
                    &&& module_rebound(
                        self.heap@,
                        post.heap@,
                        m,
                        self.heap@.modules[m as int]@.define(name, self.stack@.last()),
                    )
                } else {
                    self.fails(post, out, Fault::Message("Too many globals in module"@))
                }
            },
        }
    }

    /// What a read of a global gives: the binding of the module of the
    /// running code, else that of the core module.
    pub open spec fn global(&self, name: Symbol) -> Option<Value> {
        match self.heap@.modules[self.module_of_top() as int]@.get(name) {
            Some(v) => Some(v),
            None => self.heap@.modules[self.core_module as int]@.get(name),
        }
    }

    /// `GetGlobal`: pushes the value of the name; fails for a name that
    /// neither the module nor the core module binds.
    pub open spec fn get_global_post(&self, post: VM, idx: u16, out: Outcome) -> bool {
        match self.operand(idx) {
            Operand::Missing => self.fails(post, out, Self::missing_operand()),
            Operand::Other => self.stepped(post, out, self.stack@),
            Operand::Name(name) => match self.global(name) {
                Some(v) => self.stepped(post, out, self.stack@.push(v)),
                None => self.fails(
                post,
                    out,
                    Fault::UndefinedVar(symbol_text(self.interner@, name)),
                ),
            },
        }
    }

    /// `SetGlobal`: stores the top of the stack into the slot of a name
    /// that the module binds, and leaves the stack as it is.
    pub open spec fn set_global_post(&self, post: VM, idx: u16, out: Outcome) -> bool {
        match self.operand(idx) {
            Operand::Missing => self.fails(post, out, Self::missing_operand()),
            Operand::Other => self.stepped(post, out, self.stack@),
            Operand::Name(name) => {
                let m = self.module_of_top();
                let bindings = self.heap@.modules[m as int]@;
                if !bindings.slots.contains_key(name) {
                    self.fails(post, out, Fault::UndefinedVar(symbol_text(self.interner@, name)))
                } else if self.stack@.len() == 0 {
                    self.fails(post, out, Self::underflow())
                } else {
                    &&& self.stepped_heap(post, out, self.stack@)
                    &&& module_rebound(
                        self.heap@,
                        post.heap@,
                        m,
                        bindings.set(bindings.slots[name], self.stack@.last()),
                    )
                }
            },
        }
    }

    /// `GetLocal`: pushes the value in a slot of the frame's window.
    pub open spec fn get_local_post(&self, post: VM, slot: u16, out: Outcome) -> bool {
        let index = self.top().stack_offset + slot;
        if index < self.stack@.len() {
            self.stepped(post, out, self.stack@.push(self.stack@[index]))
        } else {
            self.fails(post, out, Fault::Message("Local variable slot out of bounds"@))
        }
    }

    /// `SetLocal`: stores the top of the stack into a slot of the frame's
    /// window.
    pub open spec fn set_local_post(&self, post: VM, slot: u16, out: Outcome) -> bool {
        let index = self.top().stack_offset + slot;
        if index < self.stack@.len() {
            self.stepped(post, out, self.stack@.update(index, self.stack@.last()))
        } else {
            self.fails(post, out, Fault::Message("Local variable slot out of bounds"@))
        }
    }

    /// `GetSelf`: pushes the receiver of the frame.
    pub open spec fn get_self_post(&self, post: VM, out: Outcome) -> bool {
        let index = self.top().stack_offset as int;
        if index < self.stack@.len() {
            self.stepped(post, out, self.stack@.push(self.stack@[index]))
        } else {
            self.fails(post, out, Self::underflow())
        }
    }

    /// `GetField`: replaces the instance on top of the stack by its field.
    pub open spec fn get_field_post(&self, post: VM, idx: u16, out: Outcome) -> bool {
        match self.operand(idx) {
            Operand::Missing => self.fails(post, out, Self::missing_operand()),
            Operand::Other => self.stepped(post, out, self.stack@),
            Operand::Name(name) => if self.stack@.len() == 0 {
                self.fails(post, out, Self::underflow())
            } else {
                match self.stack@.last() {
                    Value::Instance(i) => if i < self.heap@.instances.len() {
                        self.stepped(
                            post,
                            out,
                            self.stack@.drop_last().push(self.heap@.instances[i as int].field(name)),
                        )
                    } else {
                        self.fails(post, out, dangling())
                    },
                    _ => self.fails(post, out, Fault::Message("Only instances can have fields."@)),
                }
            },
        }
    }

    /// `SetField` and `SetProperty` on an instance: pops a value and the
    /// instance, sets the field, and pushes the value.
    pub open spec fn store_post(&self, post: VM, name: Symbol, i: usize, out: Outcome) -> bool {
        let n = self.stack@.len() as int;
        if i < self.heap@.instances.len() {
            &&& self.stepped_heap(post, out, self.stack@.take(n - 2).push(self.stack@[n - 1]))
            &&& field_set(self.heap@, post.heap@, i, name, self.stack@[n - 1])
        } else {
            self.fails(post, out, dangling())
        }
    }

    /// `SetField`: sets a field of the instance below the top of the stack.
    pub open spec fn set_field_post(&self, post: VM, idx: u16, out: Outcome) -> bool {
        match self.operand(idx) {
            Operand::Missing => self.fails(post, out, Self::missing_operand()),
            Operand::Other => self.stepped(post, out, self.stack@),
            Operand::Name(name) => if self.stack@.len() < 2 {
                self.fails(post, out, Self::underflow())
            } else {
                match self.stack@[self.stack@.len() - 2] {
                    Value::Instance(i) => self.store_post(post, name, i, out),
                    _ => self.fails(post, out, Fault::Message("Only instances can have fields."@)),
                }
            },
        }
    }

    /// A native method ran on the window that starts at `index` and was
    /// to give `expect`: the window is gone, and in its place is what the
    /// method gave, or the evaluator waits for the host.
    pub open spec fn native_post(&self, post: VM, index: int, expect: Expect, out: Outcome) -> bool {
        match expect {
            Expect::Fail(fault) => self.fails(post, out, fault),
            Expect::Val(v) => self.stepped(post, out, self.stack@.take(index).push(v)),
            Expect::Str(text) => self.stepped_text(post, out, index, text),
            Expect::Instance(class) => {
                &&& self.stepped_heap(
                    post,
                    out,
                    self.stack@.take(index).push(
                        Value::Instance(self.heap@.instances.len() as usize),
                    ),
                )
                &&& with_new_instance(self.heap@, post.heap@, class)
            },
            Expect::Sym(text) => if is_interned(self.interner@, text) || self.interner@.len()
                < MAX_SYMBOLS {
                &&& out is Running
                &&& post.frames@ == advanced(self.frames@)
                &&& post.heap@ == self.heap@
                &&& post.interner@ == table_after_intern(self.interner@, text)
                &&& post.modules@ == self.modules@
                &&& post.classes@ == self.classes@
                &&& post.pending@ == PendingView::Idle
                &&& post.stack@ == self.stack@.take(index).push(
                    Value::Symbol(Symbol(symbol_after_intern(self.interner@, text) as u32)),
                )
            } else {
                self.fails(post, out, Fault::Message("Too many symbols"@))
            },
            Expect::Ask(request, pending) => {
                &&& out matches Outcome::Waiting(q) && q@ == request
                &&& post.frames@ == advanced(self.frames@)
                &&& post.heap@ == self.heap@
                &&& post.interner@ == self.interner@
                &&& post.modules@ == self.modules@
                &&& post.classes@ == self.classes@
                &&& post.pending@ == pending
                &&& post.stack@ == self.stack@.take(index)
            },
        }
    }

    /// A send of `selector` with `arity` arguments to the receiver that
    /// stands below them on the stack.
    ///
    /// The method is looked up from the class of the receiver. A native
    /// method runs at once on the receiver and the arguments. For a
    /// method in bytecode a frame is pushed whose window starts at the
    /// receiver.
    pub open spec fn send_post(&self, post: VM, arity: int, selector: Symbol, out: Outcome) -> bool {
        let n = self.stack@.len() as int;
        let index = n - 1 - arity;
        let receiver = self.stack@[index];
        if !self.heap@.holds(receiver) {
            self.fails(post, out, dangling())
        } else {
            match lookup_spec(self.heap@.classes, class_of(self.heap@, receiver), selector) {
                None => self.fails(
                post,
                    out,
                    Fault::Message(
                        method_not_found(
                            symbol_text(self.interner@, selector),
                            self.heap@.classes[class_of(self.heap@, receiver) as int].name@,
                        ),
                    ),
                ),
                Some(m) => match self.heap@.methods[m as int].kind {
                    MethodKind::Closure(c) => {
                        &&& out is Running
                        &&& self.calm(post)
                        &&& post.stack@ == self.stack@
                        &&& post.frames@ == advanced(self.frames@).push(
                            CallFrame {
                                closure: c,
                                context: context_of(receiver, self.heap@.closures[c as int].module),
                                ip: 0,
                                stack_offset: index as usize,
                            },
                        )
                    },
                    MethodKind::Primitive(f) => self.native_post(
                        post,
                        index,
                        native_spec(
                            self.heap@,
                            self.interner@,
                            f,
                            receiver,
                            self.stack@.subrange(index + 1, n),
                        ),
                        out,
                    ),
                },
            }
        }
    }

    /// `GetProperty`: a field of the instance on top of the stack, where
    /// it has one of that name; else a send of the name as a getter.
    pub open spec fn get_property_post(&self, post: VM, idx: u16, out: Outcome) -> bool {
        match self.operand(idx) {
            Operand::Missing => self.fails(post, out, Self::missing_operand()),
            Operand::Other => self.stepped(post, out, self.stack@),
            Operand::Name(name) => if self.stack@.len() == 0 {
                self.fails(post, out, Self::underflow())
            } else {
                match self.stack@.last() {
                    Value::Instance(i) => if i < self.heap@.instances.len()
                        && self.heap@.instances[i as int].fields().contains_key(name) {
                        self.stepped(
                            post,
                            out,
                            self.stack@.drop_last().push(self.heap@.instances[i as int].field(name)),
                        )
                    } else {
                        self.send_post(post, 0, name, out)
                    },
                    _ => self.send_post(post, 0, name, out),
                }
            },
        }
    }

    /// The selector of the setter of a property.
    pub open spec fn setter_text(&self, name: Symbol) -> Seq<char> {
        symbol_text(self.interner@, name) + "=(_)"@
    }

    /// `SetProperty`: sets a field of an instance; on any other receiver,
    /// a send of the setter of the name.
    pub open spec fn set_property_post(&self, post: VM, idx: u16, out: Outcome) -> bool {
        match self.operand(idx) {
            Operand::Missing => self.fails(post, out, Self::missing_operand()),
            Operand::Other => self.stepped(post, out, self.stack@),
            Operand::Name(name) => if self.stack@.len() < 2 {
                self.fails(post, out, Self::underflow())
            } else {
                match self.stack@[self.stack@.len() - 2] {
                    Value::Instance(i) => self.store_post(post, name, i, out),
                    _ => if is_interned(self.interner@, self.setter_text(name)) {
                        self.send_post(
                            post,
                            1,
                            Symbol(index_of(self.interner@, self.setter_text(name)) as u32),
                            out,
                        )
                    } else {
                        self.fails(
                post,
                            out,
                            Fault::Message(
                                "Setter method '"@ + self.setter_text(name) + "' not found."@,
                            ),
                        )
                    },
                }
            },
        }
    }

    /// `Class`: pops the superclass, creates the class and its metaclass,
    /// registers both under their names, and pushes the class. Fails
    /// where the interner has no room for the names.
    pub open spec fn class_post(&self, post: VM, idx: u16, out: Outcome) -> bool {
        match self.operand(idx) {
            Operand::Missing => self.fails(post, out, Self::missing_operand()),
            Operand::Other => self.stepped(post, out, self.stack@),
            Operand::Name(name) => if self.stack@.len() == 0 {
                self.fails(post, out, Self::underflow())
            } else {
                match self.stack@.last() {
                    Value::Class(c) => if c >= self.heap@.classes.len() {
                        self.fails(post, out, dangling())
                    } else if room_for_class(self.interner@, symbol_text(self.interner@, name)) {
                        &&& out is Running
                        &&& post.frames@ == advanced(self.frames@)
                        &&& post.pending@ == PendingView::Idle
                        &&& post.stack@ == self.stack@.drop_last().push(
                            Value::Class((self.heap@.classes.len() + 1) as usize),
                        )
                        &&& self.class_added(post, symbol_text(self.interner@, name), c)
                    } else {
                        self.fails(post, out, Fault::Message("Too many symbols"@))
                    },
                    _ => self.fails(post, out, Fault::Message("Superclass must be a class."@)),
                }
            },
        }
    }

    /// `Method`: pops a method and attaches it to the class below it, or
    /// to the metaclass of that class if the method is static.
    pub open spec fn method_post(&self, post: VM, idx: u16, is_static: bool, out: Outcome) -> bool {
        match self.operand(idx) {
            Operand::Missing => self.fails(post, out, Self::missing_operand()),
            Operand::Other => self.stepped(post, out, self.stack@),
            Operand::Name(selector) => if self.stack@.len() < 2 {
                self.fails(post, out, Self::underflow())
            } else {
                match (self.stack@.last(), self.stack@[self.stack@.len() - 2]) {
                    (Value::Method(m), Value::Class(c)) => if m < self.heap@.methods.len() && c
                        < self.heap@.classes.len() {
                        &&& self.stepped_heap(post, out, self.stack@.drop_last())
                        &&& method_attached(
                            self.heap@,
                            post.heap@,
                            if is_static {
                                self.heap@.classes[c as int].class
                            } else {
                                c
                            },
                            selector,
                            m,
                        )
                    } else {
                        self.fails(post, out, dangling())
                    },
                    _ => self.fails(
                post,
                        out,
                        Fault::Message("Invalid types for method definition."@),
                    ),
                }
            },
        }
    }

    /// `Invoke`: a send of the selector with the given number of
    /// arguments.
    pub open spec fn invoke_post(&self, post: VM, arity: u8, idx: u16, out: Outcome) -> bool {
        match self.operand(idx) {
            Operand::Missing => self.fails(post, out, Self::missing_operand()),
            Operand::Other => self.fails(post, out, Fault::Message("Selector must be a symbol"@)),
            Operand::Name(selector) => if self.stack@.len() <= arity {
                self.fails(post, out, Self::underflow())
            } else {
                self.send_post(post, arity as int, selector, out)
            },
        }
    }

    /// `Return`: pops the result, or takes `Nil` from an empty stack, and
    /// ends the innermost frame.
    ///
    /// Where a caller remains, the stack is cut down to where the window
    /// of the ended frame started, and the result is pushed. Where none
    /// remains, the stack is cut down likewise and the result is the
    /// program's.
    pub open spec fn return_post(&self, post: VM, out: Outcome) -> bool {
        let value = if self.stack@.len() > 0 {
            self.stack@.last()
        } else {
            Value::Nil
        };
        let rest = if self.stack@.len() > 0 {
            self.stack@.drop_last()
        } else {
            self.stack@
        };
        let offset = self.top().stack_offset as int;
        if offset > rest.len() {
            self.fails(post, out, Self::underflow())
        } else if self.frames@.len() == 1 {
            &&& out == Outcome::Finished(value)
            &&& post.frames@ == self.frames@.drop_last()
            &&& self.calm(post)
            &&& post.stack@ == rest.take(offset)
        } else {
            &&& out is Running
            &&& post.frames@ == self.frames@.drop_last()
            &&& self.calm(post)
            &&& post.stack@ == rest.take(offset).push(value)
        }
    }

    /// `Add`, `Subtract`, `Multiply`, `Divide`, `Modulo`: on two numbers
    /// the host is asked for the result, but division and remainder by
    /// zero fail; on anything else the operation is sent to the left
    /// operand.
    pub open spec fn arith_post(&self, post: VM, op: ArithOp, out: Outcome) -> bool {
        let n = self.stack@.len() as int;
        if n < 2 {
            self.fails(post, out, Self::underflow())
        } else {
            match (self.stack@[n - 2], self.stack@[n - 1]) {
                (Value::Number(a), Value::Number(b)) => if (op == ArithOp::Divide || op
                    == ArithOp::Modulo) && is_zero(b) {
                    self.fails(post, out, Fault::ZeroDivision)
                } else {
                    self.native_post(
                        post,
                        n - 2,
                        Expect::Ask(
                            RequestView::Arithmetic { op, lhs: a, rhs: b },
                            PendingView::Number,
                        ),
                        out,
                    )
                },
                _ => self.send_post(post, 1, arith_selector(*self, op), out),
            }
        }
    }

    /// `Less`, `LessEqual`, `Greater`, `GreaterEqual`: on two numbers the
    /// truth of the comparison; on anything else the comparison is sent
    /// to the left operand.
    pub open spec fn compare_post(&self, post: VM, op: CompareOp, out: Outcome) -> bool {
        let n = self.stack@.len() as int;
        if n < 2 {
            self.fails(post, out, Self::underflow())
        } else {
            match (self.stack@[n - 2], self.stack@[n - 1]) {
                (Value::Number(a), Value::Number(b)) => self.stepped(
                    post,
                    out,
                    self.stack@.take(n - 2).push(Value::Bool(compare_spec(op, a, b))),
                ),
                _ => self.send_post(post, 1, compare_selector(*self, op), out),
            }
        }
    }

    /// `Equal`, `NotEqual`: whether the two values on top are equal, or
    /// are not.
    pub open spec fn equal_post(&self, post: VM, negate: bool, out: Outcome) -> bool {
        let n = self.stack@.len() as int;
        if n < 2 {
            self.fails(post, out, Self::underflow())
        } else {
            self.stepped(
                post,
                out,
                self.stack@.take(n - 2).push(
                    Value::Bool(value_eq(self.stack@[n - 2], self.stack@[n - 1]) != negate),
                ),
            )
        }
    }

    /// `And`, `Or`: on two booleans.
    pub open spec fn logic_post(&self, post: VM, is_and: bool, out: Outcome) -> bool {
        let n = self.stack@.len() as int;
        if n < 2 {
            self.fails(post, out, Self::underflow())
        } else {
            match (self.stack@[n - 2], self.stack@[n - 1]) {
                (Value::Bool(a), Value::Bool(b)) => self.stepped(
                    post,
                    out,
                    self.stack@.take(n - 2).push(
                        Value::Bool(
                            if is_and {
                                a && b
                            } else {
                                a || b
                            },
                        ),
                    ),
                ),
                _ => self.fails(
                post,
                    out,
                    Fault::Message(
                        if is_and {
                            "Unsupported operand types for logical AND"@
                        } else {
                            "Unsupported operand types for logical OR"@
                        },
                    ),
                ),
            }
        }
    }

    /// `Negate`: the number with the opposite sign.
    pub open spec fn negate_post(&self, post: VM, out: Outcome) -> bool {
        if self.stack@.len() == 0 {
            self.fails(post, out, Self::underflow())
        } else {
            match self.stack@.last() {
                Value::Number(n) => self.stepped(
                    post,
                    out,
                    self.stack@.drop_last().push(Value::Number(negated(n))),
                ),
                _ => self.fails(
                post,
                    out,
                    Fault::Message("Unsupported operand type for negation"@),
                ),
            }
        }
    }

    /// `Not`: the other truth value.
    pub open spec fn not_post(&self, post: VM, out: Outcome) -> bool {
        if self.stack@.len() == 0 {
            self.fails(post, out, Self::underflow())
        } else {
            match self.stack@.last() {
                Value::Bool(b) => self.stepped(
                    post,
                    out,
                    self.stack@.drop_last().push(Value::Bool(!b)),
                ),
                _ => self.fails(
                post,
                    out,
                    Fault::Message("Unsupported operand type for logical NOT"@),
                ),
            }
        }
    }

    /// What an instruction does.
    #[verifier::opaque]
    pub open spec fn instruction_post(&self, post: VM, instruction: Bytecode, out: Outcome) -> bool {
        match instruction {
            Bytecode::Constant(idx) => self.constant_post(post, idx, out),
            Bytecode::Nil => self.literal_post(post, Value::Nil, out),
            Bytecode::True => self.literal_post(post, Value::Bool(true), out),
            Bytecode::False => self.literal_post(post, Value::Bool(false), out),
            Bytecode::Pop => self.pop_post(post, out),
            Bytecode::DefineGlobal(idx) => self.define_global_post(post, idx, out),
            Bytecode::GetGlobal(idx) => self.get_global_post(post, idx, out),
            Bytecode::SetGlobal(idx) => self.set_global_post(post, idx, out),
            Bytecode::GetLocal(slot) => self.get_local_post(post, slot, out),
            Bytecode::SetLocal(slot) => self.set_local_post(post, slot, out),
            Bytecode::GetSelf => self.get_self_post(post, out),
            Bytecode::GetField(idx) => self.get_field_post(post, idx, out),
            Bytecode::SetField(idx) => self.set_field_post(post, idx, out),
            Bytecode::GetProperty(idx) => self.get_property_post(post, idx, out),
            Bytecode::SetProperty(idx) => self.set_property_post(post, idx, out),
            Bytecode::Invoke(arity, idx) => self.invoke_post(post, arity, idx, out),
            Bytecode::Class(idx) => self.class_post(post, idx, out),
            Bytecode::Method(idx, is_static) => self.method_post(post, idx, is_static, out),
            Bytecode::Return => self.return_post(post, out),
            Bytecode::Add => self.arith_post(post, ArithOp::Add, out),
            Bytecode::Subtract => self.arith_post(post, ArithOp::Subtract, out),
            Bytecode::Multiply => self.arith_post(post, ArithOp::Multiply, out),
            Bytecode::Divide => self.arith_post(post, ArithOp::Divide, out),
            Bytecode::Modulo => self.arith_post(post, ArithOp::Modulo, out),
            Bytecode::Equal => self.equal_post(post, false, out),
            Bytecode::NotEqual => self.equal_post(post, true, out),
            Bytecode::Less => self.compare_post(post, CompareOp::Less, out),
            Bytecode::LessEqual => self.compare_post(post, CompareOp::LessEqual, out),
            Bytecode::Greater => self.compare_post(post, CompareOp::Greater, out),
            Bytecode::GreaterEqual => self.compare_post(post, CompareOp::GreaterEqual, out),
            Bytecode::And => self.logic_post(post, true, out),
            Bytecode::Or => self.logic_post(post, false, out),
            Bytecode::Negate => self.negate_post(post, out),
            Bytecode::Not => self.not_post(post, out),
        }
    }
}

} // verus!
