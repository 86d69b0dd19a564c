//! How values print, and the trace that a failure carries.

use vstd::prelude::*;
use crate::error::{ErrorView, Fault, PhError, RuntimeError};
use crate::frame::{CallContext, CallFrame};
use crate::host::Outcome;
use crate::text::{concat2, concat3};
use crate::string::StringObject;
use crate::value::{ClassId, InstanceId, MethodId, Value};
use crate::vm::{display_text, symbol_text, VM};

verus! {

impl VM {
    /// How a value prints in this runtime.
    pub open spec fn display_of(&self, v: Value) -> Seq<char> {
        display_text(self.heap@, self.interner@, v)
    }

    /// Writes a value that is not a number the way it prints.
    pub fn display(&self, v: &Value) -> (s: String)
        requires
            self.wf(),
            self.heap.holds(*v),
            !(*v is Number),
        ensures
            s@ == self.display_of(*v),
    {
        match v {
            Value::Nil => "nil".to_owned(),
            Value::Bool(b) => if *b {
                "true".to_owned()
            } else {
                "false".to_owned()
            },
            Value::Number(_) => String::new(),
            Value::String(s) => s.value(),
            Value::Symbol(s) => self.symbol_string(*s),
            Value::Instance(i) => {
                let class = self.heap.instance(*i).class();
                concat2("Instance of ", self.heap.class(class).name.as_str())
            },
            Value::Class(c) => concat3("<class ", self.heap.class(*c).name.as_str(), ">"),
            Value::Method(m) => {
                let method = self.heap.method(*m);
                let selector = self.symbol_string(method.selector());
                match method.holder {
                    Some(h) => concat3(
                        self.heap.class(h).name.as_str(),
                        "::",
                        selector.as_str(),
                    ),
                    None => concat3("Unknown", "::", selector.as_str()),
                }
            },
            Value::Module(m) => concat3("<module ", self.heap.module(*m).name.as_str(), ">"),
        }
    }

    /// How an instance prints: `Instance of` and the name of its class.
    pub fn instance_to_string(&self, instance: InstanceId) -> (s: StringObject)
        requires
            self.wf(),
            instance < self.heap@.instances.len(),
        ensures
            s@ == self.display_of(Value::Instance(instance)),
    {
        StringObject::from_string(self.display(&Value::Instance(instance)))
    }

    /// How an instance prints for inspection: the name of its class
    /// between `<instance ` and `>`.
    pub fn instance_to_debug_string(&self, instance: InstanceId) -> (s: StringObject)
        requires
            self.wf(),
            instance < self.heap@.instances.len(),
        ensures
            s@ == "<instance "@
                + self.heap@.classes[self.heap@.instances[instance as int].class as int].name@
                + ">"@,
    {
        let class = self.heap.instance(instance).class();
        StringObject::from_string(
            concat3("<instance ", self.heap.class(class).name.as_str(), ">"),
        )
    }

    /// The name of a method: its selector.
    pub fn method_name(&self, method: MethodId) -> (s: StringObject)
        requires
            self.wf(),
            method < self.heap@.methods.len(),
        ensures
            s@ == self.name_of(Value::Method(method)),
    {
        Value::Method(method).name(self)
    }

    /// How a method prints: the name of its holder, `::`, and its
    /// selector; `Unknown` stands for the holder of a method that no class
    /// holds.
    pub fn method_to_phalcom_string(&self, method: MethodId) -> (s: StringObject)
        requires
            self.wf(),
            method < self.heap@.methods.len(),
        ensures
            s@ == self.display_of(Value::Method(method)),
    {
        StringObject::from_string(self.display(&Value::Method(method)))
    }

    /// The name of a method of the given selector in the given class: the
    /// name of the class, `::`, and the selector.
    pub fn make_name(&self, holder: ClassId, selector: &str) -> (s: StringObject)
        requires
            holder < self.heap@.classes.len(),
        ensures
            s@ == self.heap@.classes[holder as int].name@ + "::"@ + selector@,
    {
        StringObject::from_string(concat3(self.heap.class(holder).name.as_str(), "::", selector))
    }

    /// How a frame is named in a trace: a module-level frame by its
    /// module, any other by the class it runs on, the name of its code,
    /// and its module.
    pub open spec fn frame_name(&self, f: CallFrame) -> Seq<char> {
        let closure = self.heap.closures@[f.closure as int];
        let module = self.heap.modules@[closure.module as int].name@;
        let method = symbol_text(self.interner@, closure.callable.name_sym);
        match f.context {
            CallContext::Class { class } => if class < self.heap.classes@.len() {
                self.heap.classes@[self.heap.classes@[class as int].class as int].name@ + "::"@
                    + method + " in "@ + module
            } else {
                module
            },
            CallContext::Instance { instance } => if instance < self.heap.instances@.len() {
                self.heap.classes@[self.heap.instances@[instance as int].class as int].name@
                    + "::"@ + method + " in "@ + module
            } else {
                module
            },
            CallContext::Module { module: _ } => module,
        }
    }

    /// The lines of the frames from the innermost down to frame `k`.
    pub open spec fn trace_from(&self, k: int) -> Seq<char>
        decreases self.frames@.len() - k,
    {
        if 0 <= k < self.frames@.len() {
            self.trace_from(k + 1) + "  at "@ + self.frame_name(self.frames@[k]) + "\n"@
        } else {
            Seq::<char>::empty()
        }
    }

    /// The trace of a failure: the message, then one line for each
    /// active frame, innermost first.
    pub open spec fn trace_text(&self, message: Seq<char>) -> Seq<char> {
        "Error: "@ + message + "\n"@ + self.trace_from(0)
    }

    /// True when `out` reports the failure `fault`, traced in this state.
    pub open spec fn failed_with(&self, out: Outcome, fault: Fault) -> bool {
        out matches Outcome::Failed(e) && e@ == (ErrorView::VMError {
            fault,
            stack_trace: self.trace_text(fault.text()),
        })
    }

    fn frame_label(&self, index: usize) -> (s: String)
        requires
            self.wf(),
            index < self.frames@.len(),
        ensures
            s@ == self.frame_name(self.frames@[index as int]),
    {
        let f = self.frames[index];
        let closure = self.heap.closure(f.closure);
        let module = self.heap.module(closure.module).name.value();
        let method = self.symbol_string(closure.callable.name_sym);
        match f.context {
            CallContext::Class { class } => {
                if class < self.heap.classes.len() {
                    let meta = self.heap.class(class).class();
                    let mut s = concat3(
                        self.heap.class(meta).name.as_str(),
                        "::",
                        method.as_str(),
                    );
                    s.append(" in ");
                    s.append(module.as_str());
                    s
                } else {
                    module
                }
            },
            CallContext::Instance { instance } => {
                if instance < self.heap.instances.len() {
                    let class = self.heap.instance(instance).class();
                    let mut s = concat3(
                        self.heap.class(class).name.as_str(),
                        "::",
                        method.as_str(),
                    );
                    s.append(" in ");
                    s.append(module.as_str());
                    s
                } else {
                    module
                }
            },
            CallContext::Module { module: _ } => module,
        }
    }

    /// Writes the trace of a failure.
    pub fn format_stack_trace(&self, error_message: String) -> (trace: String)
        requires
            self.wf(),
        ensures
            trace@ == self.trace_text(error_message@),
    {
        let mut lines = String::new();
        let mut i = self.frames.len();
        while i > 0
            invariant
                self.wf(),
                i <= self.frames@.len(),
                lines@ == self.trace_from(i as int),
            decreases i,
        {
            i -= 1;
            let label = self.frame_label(i);
            lines.append("  at ");
            lines.append(label.as_str());
            lines.append("\n");
        }
        let mut trace = concat3("Error: ", error_message.as_str(), "\n");
        trace.append(lines.as_str());
        trace
    }

    /// The outcome that reports `error`, traced in this state.
    pub fn fail(&self, error: RuntimeError) -> (out: Outcome)
        requires
            self.wf(),
        ensures
            self.failed_with(out, error@),
    {
        let trace = self.format_stack_trace(error.message());
        Outcome::Failed(PhError::VMError { error, stack_trace: trace })
    }

    /// The outcome that reports a failure described in words.
    pub fn fail_message(&self, text: &str) -> (out: Outcome)
        requires
            self.wf(),
        ensures
            self.failed_with(out, Fault::Message(text@)),
    {
        self.fail(RuntimeError::Message(text.to_owned()))
    }
}

} // verus!
