//! Running a program: steps in a row, and the host's answers.

use vstd::prelude::*;
use crate::error::{Fault, RuntimeError};
use crate::frame::{CallContext, CallFrame};
use crate::host::{HostReply, HostRequest, Outcome, Pending, PendingView, RequestView, TextUse};
use crate::interner::{is_interned, symbol_after_intern, table_after_intern, Symbol, MAX_SYMBOLS};
use crate::natives::PrimitiveResult;
use crate::value::{ClosureId, ModuleId, Value};
use crate::vm::VM;

verus! {

broadcast use vstd::std_specs::hash::group_hash_axioms;

/// A text written `count` times in a row.
pub open spec fn repeated(text: Seq<char>, count: nat) -> Seq<char>
    decreases count,
{
    if count == 0 {
        Seq::<char>::empty()
    } else {
        repeated(text, (count - 1) as nat) + text
    }
}

/// Writes a text `count` times in a row.
pub fn repeat_text(text: &str, count: usize) -> (s: String)
    ensures
        s@ == repeated(text@, count as nat),
{
    let mut out = String::new();
    let mut i: usize = 0;
    while i < count
        invariant
            i <= count,
            out@ == repeated(text@, i as nat),
        decreases count - i,
    {
        out.append(text);
        i += 1;
    }
    out
}

impl VM {
    /// The evaluator took the answer and goes on with the given stack.
    pub open spec fn resumed(&self, post: VM, out: Outcome, stack: Seq<Value>) -> bool {
        &&& out is Running
        &&& post.frames@ == self.frames@
        &&& self.calm(post)
        &&& post.stack@ == stack
    }

    /// The evaluator took the answer and goes on with one more value on
    /// the stack: a string of the given text.
    pub open spec fn resumed_text(&self, post: VM, out: Outcome, text: Seq<char>) -> bool {
        &&& out is Running
        &&& post.frames@ == self.frames@
        &&& self.calm(post)
        &&& post.stack@.len() == self.stack@.len() + 1
        &&& post.stack@.drop_last() == self.stack@
        &&& post.stack@.last() matches Value::String(s) && s@ == text
    }

    /// The answer was refused with `fault`: nothing changed but that the
    /// evaluator waits for nothing any more.
    pub open spec fn refuses(&self, post: VM, out: Outcome, fault: Fault) -> bool {
        &&& post.failed_with(out, fault)
        &&& post.frames@ == self.frames@
        &&& post.stack@ == self.stack@
        &&& self.calm(post)
    }

    /// The failure of an answer that is not of the kind awaited.
    pub open spec fn unexpected_reply() -> Fault {
        Fault::Message("Unexpected reply from the host"@)
    }

    /// What the evaluator does with an answer of the host.
    ///
    /// A number that was awaited is pushed. A text that was awaited
    /// becomes a string or a symbol on the stack, or is handed back to
    /// the host to be printed. After printing, `Nil` is pushed. A count
    /// that was awaited gives the string repeated. A text that was no
    /// number fails the conversion. Any other answer fails, and so does
    /// an answer that nothing awaits. Afterwards the evaluator waits for
    /// nothing, unless it asks for printing.
    pub open spec fn resume_post(&self, post: VM, reply: HostReply, out: Outcome) -> bool {
        match (self.pending@, reply) {
            (PendingView::Idle, _) => self.refuses(post, out,
                Fault::Message("Nothing is awaited"@),
            ),
            (PendingView::Number, HostReply::Number(bits)) => self.resumed(
                post,
                out,
                self.stack@.push(Value::Number(bits)),
            ),
            (PendingView::Parsed, HostReply::Number(bits)) => self.resumed(
                post,
                out,
                self.stack@.push(Value::Number(bits)),
            ),
            (PendingView::Parsed, HostReply::Nothing) => self.refuses(post, out,
                Fault::TypeConversion { expected: "number"@, found: "value"@ },
            ),
            (PendingView::Text(TextUse::MakeString), HostReply::Text(s)) => self.resumed_text(
                post,
                out,
                s@,
            ),
            (PendingView::Text(TextUse::MakeSymbol), HostReply::Text(s)) => if is_interned(
                self.interner@,
                s@,
            ) || self.interner@.len() < MAX_SYMBOLS {
                &&& out is Running
                &&& post.frames@ == self.frames@
                &&& post.heap@ == self.heap@
                &&& post.modules@ == self.modules@
                &&& post.classes@ == self.classes@
                &&& post.pending@ == PendingView::Idle
                &&& post.interner@ == table_after_intern(self.interner@, s@)
                &&& post.stack@ == self.stack@.push(
                    Value::Symbol(Symbol(symbol_after_intern(self.interner@, s@) as u32)),
                )
            } else {
                self.refuses(post, out, Fault::Message("Too many symbols"@))
            },
            (PendingView::Text(TextUse::Print), HostReply::Text(s)) => {
                &&& out matches Outcome::Waiting(q) && q@ == (RequestView::Print { text: s@ })
                &&& post.frames@ == self.frames@
                &&& post.stack@ == self.stack@
                &&& post.heap@ == self.heap@
                &&& post.interner@ == self.interner@
                &&& post.modules@ == self.modules@
                &&& post.classes@ == self.classes@
                &&& post.pending@ == PendingView::Printed
            },
            (PendingView::Printed, HostReply::Nothing) => self.resumed(
                post,
                out,
                self.stack@.push(Value::Nil),
            ),
            (PendingView::Repeat(text), HostReply::Count(count)) => self.resumed_text(
                post,
                out,
                repeated(text, count as nat),
            ),
            _ => self.refuses(post, out, Self::unexpected_reply()),
        }
    }

    /// Hands the host's answer to the evaluator.
    pub fn resume(&mut self, reply: HostReply) -> (out: Outcome)
        requires
            old(self).wf(),
        ensures
            final(self).wf(),
            old(self).resume_post(*final(self), reply, out),
    {
        let mut pending = Pending::Idle;
        std::mem::swap(&mut self.pending, &mut pending);
        match (pending, reply) {
            (Pending::Idle, _) => self.fail_message("Nothing is awaited"),
            (Pending::Number, HostReply::Number(bits)) => {
                self.stack.push(Value::Number(bits));
                Outcome::Running
            },
            (Pending::Parsed, HostReply::Number(bits)) => {
                self.stack.push(Value::Number(bits));
                Outcome::Running
            },
            (Pending::Parsed, HostReply::Nothing) => self.fail(
                RuntimeError::TypeConversion { expected: "number", found: "value" },
            ),
            (Pending::Text(TextUse::MakeString), HostReply::Text(s)) => {
                self.stack.push(Value::string_from(s));
                proof {
                    assert(final(self).stack@.drop_last() =~= old(self).stack@);
                }
                Outcome::Running
            },
            (Pending::Text(TextUse::MakeSymbol), HostReply::Text(s)) => {
                match self.symbol_for(s.as_str()) {
                    Ok(PrimitiveResult::Value(v)) => {
                        self.stack.push(v);
                        Outcome::Running
                    },
                    Ok(PrimitiveResult::Ask(_, _)) => self.fail_message("Too many symbols"),
                    Err(e) => self.fail(e),
                }
            },
            (Pending::Text(TextUse::Print), HostReply::Text(s)) => {
                self.pending = Pending::Printed;
                Outcome::Waiting(HostRequest::Print { text: s })
            },
            (Pending::Printed, HostReply::Nothing) => {
                self.stack.push(Value::Nil);
                Outcome::Running
            },
            (Pending::Repeat(text), HostReply::Count(count)) => {
                let s = repeat_text(text.as_str(), count);
                self.stack.push(Value::string_from(s));
                proof {
                    assert(final(self).stack@.drop_last() =~= old(self).stack@);
                }
                Outcome::Running
            },
            _ => self.fail_message("Unexpected reply from the host"),
        }
    }

    /// True when `steps` steps in a row lead from `self` to `post`, all
    /// but the last one with instructions remaining, and the last one
    /// ends as `out`. No step at all leaves the state as it is.
    pub open spec fn runs_to(&self, post: VM, out: Outcome, steps: nat) -> bool
        decreases steps,
    {
        if steps == 0 {
            self.unchanged(post) && out is Running
        } else {
            exists|mid: VM|
                self.runs_to(mid, Outcome::Running, (steps - 1) as nat) && mid.wf()
                    && #[trigger] mid.step_post(post, out)
        }
    }

    /// A run of steps goes on by one more step.
    pub proof fn lemma_runs_on(&self, mid: VM, post: VM, out: Outcome, steps: nat)
        requires
            self.runs_to(mid, Outcome::Running, steps),
            mid.wf(),
            mid.step_post(post, out),
        ensures
            self.runs_to(post, out, (steps + 1) as nat),
    {
        let k: nat = (steps + 1) as nat;
        assert((k - 1) as nat == steps);
        assert(self.runs_to(mid, Outcome::Running, (k - 1) as nat) && mid.wf() && mid.step_post(
            post,
            out,
        ));
    }

    /// What a run of at most `fuel` steps does: it takes steps until one
    /// does not end with instructions remaining, or until `fuel` steps
    /// were taken.
    pub open spec fn run_post(&self, post: VM, out: Outcome, fuel: nat) -> bool {
        exists|steps: nat| #[trigger]
            self.runs_to(post, out, steps) && steps <= fuel && (out is Running ==> steps == fuel)
    }

    /// Runs the program for at most `fuel` steps. The outcome is
    /// `Running` if and only if that many steps were taken and
    /// instructions remain.
    pub fn run(&mut self, fuel: usize) -> (out: Outcome)
        requires
            old(self).wf(),
        ensures
            final(self).wf(),
            old(self).run_post(*final(self), out, fuel as nat),
    {
        let mut taken: usize = 0;
        let mut out = Outcome::Running;
        while taken < fuel
            invariant
                self.wf(),
                taken <= fuel,
                out is Running,
                old(self).runs_to(*self, Outcome::Running, taken as nat),
            decreases fuel - taken,
        {
            let ghost mid = *self;
            let next = self.step();
            proof {
                old(self).lemma_runs_on(mid, *self, next, taken as nat);
            }
            taken += 1;
            match next {
                Outcome::Running => {},
                other => {
                    return other;
                },
            }
        }
        proof {
            assert(old(self).runs_to(*self, out, taken as nat));
        }
        out
    }

    /// True when `post` is `self` made ready to run `entry` as the top
    /// level of `module`: the module is registered under its name, the
    /// closure belongs to the module, the stack is empty, nothing is
    /// awaited, and the one frame runs the closure from its start.
    pub open spec fn started(&self, post: VM, module: ModuleId, entry: ClosureId) -> bool {
        &&& post.interner@ == self.interner@
        &&& post.universe == self.universe
        &&& post.selectors == self.selectors
        &&& post.core_module == self.core_module
        &&& post.pending@ == PendingView::Idle
        &&& post.stack@.len() == 0
        &&& post.frames@ == seq![
            CallFrame { closure: entry, context: CallContext::Module { module }, ip: 0, stack_offset: 0 },
        ]
        &&& post.modules@ == self.modules@.insert(self.heap@.modules[module as int].name_sym.0, module)
        &&& post.heap@.classes == self.heap@.classes
        &&& post.heap@.instances == self.heap@.instances
        &&& post.heap@.methods == self.heap@.methods
        &&& post.heap@.modules == self.heap@.modules
        &&& post.heap@.closures.len() == self.heap@.closures.len()
        &&& forall|c: int|
            0 <= c < self.heap@.closures.len() && c != entry ==> post.heap@.closures[c]
                == self.heap@.closures[c]
        &&& post.heap@.closures[entry as int].module == module
        &&& post.heap@.closures[entry as int].callable == self.heap@.closures[entry as int].callable
        &&& post.heap@.closures[entry as int].upvalues == self.heap@.closures[entry as int].upvalues
    }

    /// Makes the runtime ready to run `entry` as the top level of
    /// `module`. Returns false, and changes nothing, where the module or
    /// the closure does not exist.
    pub fn start_module(&mut self, module: ModuleId, entry: ClosureId) -> (ok: bool)
        requires
            old(self).wf(),
        ensures
            final(self).wf(),
            ok == (module < old(self).heap@.modules.len() && entry < old(self).heap@.closures.len()),
            ok ==> old(self).started(*final(self), module, entry),
            !ok ==> old(self).unchanged(*final(self)),
    {
        if module >= self.heap.modules.len() || entry >= self.heap.closures.len() {
            return false;
        }
        let name = self.heap.module(module).symbol();
        let _ = self.modules.insert(name.0, module);
        self.heap.closures[entry].module = module;
        self.frames.clear();
        self.stack.clear();
        self.pending = Pending::Idle;
        self.frames.push(CallFrame::new(entry, CallContext::Module { module }, 0, 0));
        proof {
            let a = old(self).heap.classes@;
            let b = final(self).heap.classes@;
            assert(a == b);
            assert(final(self).frames@ =~= seq![
                CallFrame {
                    closure: entry,
                    context: CallContext::Module { module },
                    ip: 0,
                    stack_offset: 0,
                },
            ]);
        }
        true
    }

    /// Runs a module with the given closure as entry point, for at most
    /// `fuel` steps. Fails where the module or the closure does not
    /// exist.
    pub fn run_module(&mut self, module: ModuleId, entry: ClosureId, fuel: usize) -> (out: Outcome)
        requires
            old(self).wf(),
        ensures
            final(self).wf(),
            if module < old(self).heap@.modules.len() && entry < old(self).heap@.closures.len() {
                exists|mid: VM| #[trigger]
                    old(self).started(mid, module, entry) && mid.wf() && mid.run_post(
                        *final(self),
                        out,
                        fuel as nat,
                    )
            } else {
                old(self).unchanged(*final(self)) && final(self).failed_with(
                    out,
                    Fault::Message("No such module or closure"@),
                )
            },
    {
        if !self.start_module(module, entry) {
            return self.fail_message("No such module or closure");
        }
        let ghost mid = *self;
        let out = self.run(fuel);
        proof {
            assert(old(self).started(mid, module, entry) && mid.wf() && mid.run_post(
                *self,
                out,
                fuel as nat,
            ));
        }
        out
    }

    /// True when the next instruction makes a class whose name is empty.
    pub open spec fn makes_unnamed_class(&self) -> bool {
        &&& self.pending@ == PendingView::Idle
        &&& self.frames@.len() > 0
        &&& self.top().ip < self.code().len()
        &&& match self.code()[self.top().ip as int] {
            crate::bytecode::Bytecode::Class(idx) => match self.operand(idx) {
                crate::eval::Operand::Name(name) => crate::vm::symbol_text(
                    self.interner@,
                    name,
                ).len() == 0,
                _ => false,
            },
            _ => false,
        }
    }

    /// Where every class has a name that is not empty, every class has
    /// one after a step, unless the step makes a class whose name is
    /// empty.
    pub proof fn lemma_step_keeps_names(&self, post: VM, out: Outcome)
        requires
            self.wf(),
            self.heap.all_named(),
            self.step_post(post, out),
            !self.makes_unnamed_class(),
        ensures
            post.heap.all_named(),
    {
        reveal(VM::step_post);
        reveal(VM::instruction_post);
        reveal_strlit(".class");
    }

    /// Where every class has a name that is not empty, every class has
    /// one after an answer of the host was taken.
    pub proof fn lemma_resume_keeps_names(&self, post: VM, reply: HostReply, out: Outcome)
        requires
            self.wf(),
            self.heap.all_named(),
            self.resume_post(post, reply, out),
        ensures
            post.heap.all_named(),
    {
    }

    /// What a step does where the next instruction is `Return`: it fails
    /// for want of values, or it ends the innermost frame as
    /// `lemma_return_depth` says.
    pub proof fn lemma_return_step(&self, post: VM, out: Outcome)
        requires
            self.wf(),
            self.can_fetch(),
            self.code()[self.top().ip as int] == crate::bytecode::Bytecode::Return,
            self.step_post(post, out),
        ensures
            self.return_post(post, out),
            out is Running || out is Finished || out is Failed,
            out is Running ==> self.frames@.len() > 1 && post.stack@.len()
                == self.top().stack_offset + 1 && post.frames@.len() == self.frames@.len() - 1,
            out is Finished ==> self.frames@.len() == 1 && post.stack@.len() == 0
                && post.frames@.len() == 0,
    {
        reveal(VM::step_post);
        reveal(VM::instruction_post);
        self.lemma_return_depth(post, out);
    }

    /// After a return that leaves a caller, the stack holds one value
    /// more than below the window of the frame that ended; after the
    /// return of the outermost frame the stack and the frames are empty,
    /// and the value returned is the result of the run.
    pub proof fn lemma_return_depth(&self, post: VM, out: Outcome)
        requires
            self.wf(),
            self.can_fetch(),
            self.return_post(post, out),
        ensures
            out is Running ==> self.frames@.len() > 1 && post.stack@.len()
                == self.top().stack_offset + 1 && post.frames@.len() == self.frames@.len() - 1,
            out is Finished ==> self.frames@.len() == 1 && post.stack@.len() == 0
                && post.frames@.len() == 0 && out == Outcome::Finished(
                if self.stack@.len() > 0 {
                    self.stack@.last()
                } else {
                    Value::Nil
                },
            ),
    {
    }
}

} // verus!
