use vstd::prelude::*;
use crate::error::RuntimeError;
use crate::handle::{Handle, HandleKind, Param};
use crate::symbols::{Backend, Export, SymbolTable};
use crate::text::{contains_nul, has_nul};

verus! {

/// One argument of a native call.
pub enum Arg {
    /// A native word, passed as is.
    Word(usize),
    /// A text, passed as a NUL-terminated C string.
    Text(String),
    /// An array of native words, passed as a pointer to its first element.
    Words(Vec<usize>),
    /// The assembly-collecting callback together with its collection buffer.
    Collector,
}

pub enum ArgV {
    Word(usize),
    Text(Seq<char>),
    Words(Seq<usize>),
    Collector,
}

impl View for Arg {
    type V = ArgV;

    open spec fn view(&self) -> ArgV {
        match self {
            Arg::Word(w) => ArgV::Word(*w),
            Arg::Text(s) => ArgV::Text(s@),
            Arg::Words(v) => ArgV::Words(v@),
            Arg::Collector => ArgV::Collector,
        }
    }
}

pub open spec fn args_view(args: Seq<Arg>) -> Seq<ArgV> {
    args.map_values(|a: Arg| a@)
}

/// A native call to perform: the export, its resolved address, and the
/// arguments in order. How its reply is read is `export.reply_kind()`.
pub struct NativeCall {
    pub export: Export,
    pub func: usize,
    pub args: Vec<Arg>,
}

pub struct CallV {
    pub export: Export,
    pub func: usize,
    pub args: Seq<ArgV>,
}

impl View for NativeCall {
    type V = CallV;

    open spec fn view(&self) -> CallV {
        CallV { export: self.export, func: self.func, args: args_view(self.args@) }
    }
}

/// What a native call handed back.
pub enum NativeReply {
    /// The export returned nothing.
    Unit,
    /// The export returned one native word.
    Word(usize),
    /// The text behind a returned string pointer; `None` when it was null.
    Text(Option<String>),
    /// The returned string was not valid UTF-8.
    NotUtf8,
    /// Every address that the enumeration callback received, in order.
    Collected(Vec<usize>),
}

pub enum ReplyV {
    Unit,
    Word(usize),
    Text(Option<Seq<char>>),
    NotUtf8,
    Collected(Seq<usize>),
}

impl View for NativeReply {
    type V = ReplyV;

    open spec fn view(&self) -> ReplyV {
        match self {
            NativeReply::Unit => ReplyV::Unit,
            NativeReply::Word(w) => ReplyV::Word(*w),
            NativeReply::Text(None) => ReplyV::Text(None),
            NativeReply::Text(Some(s)) => ReplyV::Text(Some(s@)),
            NativeReply::NotUtf8 => ReplyV::NotUtf8,
            NativeReply::Collected(v) => ReplyV::Collected(v@),
        }
    }
}

/// The result of a finished operation.
pub enum Value {
    Unit,
    Handle(Handle),
    /// The result of a managed invocation: `None` when it returned nothing.
    Object(Option<Handle>),
    Text(String),
    Handles(Vec<Handle>),
    Address(usize),
}

pub enum ValueV {
    Unit,
    Handle(Handle),
    Object(Option<Handle>),
    Text(Seq<char>),
    Handles(Seq<Handle>),
    Address(usize),
}

impl View for Value {
    type V = ValueV;

    open spec fn view(&self) -> ValueV {
        match self {
            Value::Unit => ValueV::Unit,
            Value::Handle(h) => ValueV::Handle(*h),
            Value::Object(o) => ValueV::Object(*o),
            Value::Text(s) => ValueV::Text(s@),
            Value::Handles(v) => ValueV::Handles(v@),
            Value::Address(a) => ValueV::Address(*a),
        }
    }
}

/// What an operation waits for after it asked for a native call.
pub enum Pending {
    /// A non-null handle of the given kind.
    Handle { export: Export, kind: HandleKind },
    /// A string.
    Text { export: Export },
    /// Nothing.
    Unit { export: Export },
    /// A word whose value is not used.
    Discard { export: Export },
    /// A non-null native address.
    Address { export: Export },
    /// The result of a managed invocation.
    Invoke,
    /// The addresses of the loaded assemblies.
    Assemblies,
    /// The root domain, then a managed string is made in it from `text`.
    StringNew { func: usize, text: Arg },
    /// The root domain, then the named assembly is opened in it.
    OpenAssembly { func: usize, name: String },
    /// The assembly's image, then the class is looked up in it.
    ClassFromName { func: usize, namespace: String, name: String },
    /// A property accessor method, then it is invoked on the receiver.
    Accessor { export: Export, invoke: usize, receiver: usize, args: Option<Vec<usize>> },
}

pub enum PendingV {
    Handle { export: Export, kind: HandleKind },
    Text { export: Export },
    Unit { export: Export },
    Discard { export: Export },
    Address { export: Export },
    Invoke,
    Assemblies,
    StringNew { func: usize, text: ArgV },
    OpenAssembly { func: usize, name: Seq<char> },
    ClassFromName { func: usize, namespace: Seq<char>, name: Seq<char> },
    Accessor { export: Export, invoke: usize, receiver: usize, args: Option<Seq<usize>> },
}

impl View for Pending {
    type V = PendingV;

    open spec fn view(&self) -> PendingV {
        match self {
            Pending::Handle { export, kind } => PendingV::Handle { export: *export, kind: *kind },
            Pending::Text { export } => PendingV::Text { export: *export },
            Pending::Unit { export } => PendingV::Unit { export: *export },
            Pending::Discard { export } => PendingV::Discard { export: *export },
            Pending::Address { export } => PendingV::Address { export: *export },
            Pending::Invoke => PendingV::Invoke,
            Pending::Assemblies => PendingV::Assemblies,
            Pending::StringNew { func, text } => PendingV::StringNew { func: *func, text: text@ },
            Pending::OpenAssembly { func, name } => PendingV::OpenAssembly { func: *func, name: name@ },
            Pending::ClassFromName { func, namespace, name } => PendingV::ClassFromName {
                func: *func,
                namespace: namespace@,
                name: name@,
            },
            Pending::Accessor { export, invoke, receiver, args } => PendingV::Accessor {
                export: *export,
                invoke: *invoke,
                receiver: *receiver,
                args: match args {
                    Some(v) => Some(v@),
                    None => None,
                },
            },
        }
    }
}

/// One step of an operation: either it is finished, or it needs the reply
/// of a native call to go on (see `resume`).
pub enum Step {
    Done(Result<Value, RuntimeError>),
    Call(NativeCall, Pending),
}

pub enum StepV {
    Done(Result<ValueV, RuntimeError>),
    Call(CallV, PendingV),
}

impl View for Step {
    type V = StepV;

    open spec fn view(&self) -> StepV {
        match self {
            Step::Done(Ok(v)) => StepV::Done(Ok(v@)),
            Step::Done(Err(e)) => StepV::Done(Err(*e)),
            Step::Call(c, p) => StepV::Call(c@, p@),
        }
    }
}

pub open spec fn fail(e: RuntimeError) -> StepV {
    StepV::Done(Err(e))
}

pub open spec fn done(v: ValueV) -> StepV {
    StepV::Done(Ok(v))
}

/// The assemblies that an enumeration reported: the non-null addresses, in
/// the order received.
pub open spec fn assemblies_of(raw: Seq<usize>) -> Seq<Handle>
    decreases raw.len(),
{
    if raw.len() == 0 {
        seq![]
    } else {
        let rest = assemblies_of(raw.drop_last());
        if raw.last() == 0 {
            rest
        } else {
            rest.push(Handle { kind: HandleKind::Assembly, addr: raw.last() })
        }
    }
}

/// The arguments of a managed invocation: method, receiver (null for a
/// static method), argument array (null when absent), exception slot (null).
pub open spec fn invoke_args(method: usize, receiver: usize, args: Option<Seq<usize>>) -> Seq<ArgV> {
    seq![
        ArgV::Word(method),
        ArgV::Word(receiver),
        match args {
            Some(v) => ArgV::Words(v),
            None => ArgV::Word(0),
        },
        ArgV::Word(0),
    ]
}

/// What an operation does with the reply to the native call it waits for.
pub open spec fn spec_resume(p: PendingV, reply: ReplyV) -> StepV {
    match p {
        PendingV::Handle { export, kind } => match reply {
            ReplyV::Word(a) => if a == 0 {
                fail(RuntimeError::UnexpectedNull(export))
            } else {
                done(ValueV::Handle(Handle { kind, addr: a }))
            },
            _ => fail(RuntimeError::UnexpectedReply(export)),
        },
        PendingV::Text { export } => match reply {
            ReplyV::Text(Some(s)) => done(ValueV::Text(s)),
            ReplyV::Text(None) => fail(RuntimeError::UnexpectedNull(export)),
            ReplyV::NotUtf8 => fail(RuntimeError::InvalidText(export)),
            _ => fail(RuntimeError::UnexpectedReply(export)),
        },
        PendingV::Unit { export } => match reply {
            ReplyV::Unit => done(ValueV::Unit),
            _ => fail(RuntimeError::UnexpectedReply(export)),
        },
        PendingV::Discard { export } => match reply {
            ReplyV::Word(_) => done(ValueV::Unit),
            _ => fail(RuntimeError::UnexpectedReply(export)),
        },
        PendingV::Address { export } => match reply {
            ReplyV::Word(a) => if a == 0 {
                fail(RuntimeError::UnexpectedNull(export))
            } else {
                done(ValueV::Address(a))
            },
            _ => fail(RuntimeError::UnexpectedReply(export)),
        },
        PendingV::Invoke => match reply {
            ReplyV::Word(a) => if a == 0 {
                done(ValueV::Object(None))
            } else {
                done(ValueV::Object(Some(Handle { kind: HandleKind::Object, addr: a })))
            },
            _ => fail(RuntimeError::UnexpectedReply(Export::RuntimeInvoke)),
        },
        PendingV::Assemblies => match reply {
            ReplyV::Collected(raw) => done(ValueV::Handles(assemblies_of(raw))),
            _ => fail(RuntimeError::UnexpectedReply(Export::AssemblyForeach)),
        },
        PendingV::StringNew { func, text } => match reply {
            ReplyV::Word(d) => if d == 0 {
                fail(RuntimeError::UnexpectedNull(Export::RootDomain))
            } else {
                StepV::Call(
                    CallV { export: Export::StringNew, func, args: seq![ArgV::Word(d), text] },
                    PendingV::Handle { export: Export::StringNew, kind: HandleKind::String },
                )
            },
            _ => fail(RuntimeError::UnexpectedReply(Export::RootDomain)),
        },
        PendingV::OpenAssembly { func, name } => match reply {
            ReplyV::Word(d) => if d == 0 {
                fail(RuntimeError::UnexpectedNull(Export::RootDomain))
            } else {
                StepV::Call(
                    CallV {
                        export: Export::DomainAssemblyOpen,
                        func,
                        args: seq![ArgV::Word(d), ArgV::Text(name)],
                    },
                    PendingV::Handle { export: Export::DomainAssemblyOpen, kind: HandleKind::Assembly },
                )
            },
            _ => fail(RuntimeError::UnexpectedReply(Export::RootDomain)),
        },
        PendingV::ClassFromName { func, namespace, name } => match reply {
            ReplyV::Word(i) => if i == 0 {
                fail(RuntimeError::UnexpectedNull(Export::AssemblyGetImage))
            } else {
                StepV::Call(
                    CallV {
                        export: Export::ClassFromName,
                        func,
                        args: seq![ArgV::Word(i), ArgV::Text(namespace), ArgV::Text(name)],
                    },
                    PendingV::Handle { export: Export::ClassFromName, kind: HandleKind::Class },
                )
            },
            _ => fail(RuntimeError::UnexpectedReply(Export::AssemblyGetImage)),
        },
        PendingV::Accessor { export, invoke, receiver, args } => match reply {
            ReplyV::Word(m) => if m == 0 {
                fail(RuntimeError::UnexpectedNull(export))
            } else {
                StepV::Call(
                    CallV { export: Export::RuntimeInvoke, func: invoke, args: invoke_args(m, receiver, args) },
                    PendingV::Invoke,
                )
            },
            _ => fail(RuntimeError::UnexpectedReply(export)),
        },
    }
}

/// The handles of the assemblies that an enumeration reported: null
/// addresses are skipped, the order is kept.
pub fn enumerate_assemblies(raw: &Vec<usize>) -> (r: Vec<Handle>)
    ensures
        r@ == assemblies_of(raw@),
{
    let mut out: Vec<Handle> = Vec::new();
    let mut i: usize = 0;
    while i < raw.len()
        invariant
            i <= raw@.len(),
            out@ == assemblies_of(raw@.subrange(0, i as int)),
        decreases raw@.len() - i,
    {
        let a = raw[i];
        proof {
            let next = raw@.subrange(0, i as int + 1);
            assert(next.drop_last() =~= raw@.subrange(0, i as int));
            assert(next.last() == a);
        }
        if a != 0 {
            out.push(Handle { kind: HandleKind::Assembly, addr: a });
        }
        i = i + 1;
    }
    assert(raw@.subrange(0, raw@.len() as int) =~= raw@);
    out
}

fn words_arg(v: Option<Vec<usize>>) -> (r: Arg)
    ensures
        r@ == match v {
            Some(w) => ArgV::Words(w@),
            None => ArgV::Word(0),
        },
{
    match v {
        Some(w) => Arg::Words(w),
        None => Arg::Word(0),
    }
}

fn make_call(export: Export, func: usize, args: Vec<Arg>, p: Pending) -> (s: Step)
    ensures
        s@ == StepV::Call(CallV { export, func, args: args_view(args@) }, p@),
{
    Step::Call(NativeCall { export, func, args }, p)
}

/// Goes on with an operation given the reply to the native call it asked for.
pub fn resume(p: Pending, reply: NativeReply) -> (s: Step)
    ensures
        s@ == spec_resume(p@, reply@),
{
    match p {
        Pending::Handle { export, kind } => match reply {
            NativeReply::Word(a) => if a == 0 {
                Step::Done(Err(RuntimeError::UnexpectedNull(export)))
            } else {
                Step::Done(Ok(Value::Handle(Handle { kind, addr: a })))
            },
            _ => Step::Done(Err(RuntimeError::UnexpectedReply(export))),
        },
        Pending::Text { export } => match reply {
            NativeReply::Text(Some(s)) => Step::Done(Ok(Value::Text(s))),
            NativeReply::Text(None) => Step::Done(Err(RuntimeError::UnexpectedNull(export))),
            NativeReply::NotUtf8 => Step::Done(Err(RuntimeError::InvalidText(export))),
            _ => Step::Done(Err(RuntimeError::UnexpectedReply(export))),
        },
        Pending::Unit { export } => match reply {
            NativeReply::Unit => Step::Done(Ok(Value::Unit)),
            _ => Step::Done(Err(RuntimeError::UnexpectedReply(export))),
        },
        Pending::Discard { export } => match reply {
            NativeReply::Word(_) => Step::Done(Ok(Value::Unit)),
            _ => Step::Done(Err(RuntimeError::UnexpectedReply(export))),
        },
        Pending::Address { export } => match reply {
            NativeReply::Word(a) => if a == 0 {
                Step::Done(Err(RuntimeError::UnexpectedNull(export)))
            } else {
                Step::Done(Ok(Value::Address(a)))
            },
            _ => Step::Done(Err(RuntimeError::UnexpectedReply(export))),
        },
        Pending::Invoke => match reply {
            NativeReply::Word(a) => if a == 0 {
                Step::Done(Ok(Value::Object(None)))
            } else {
                Step::Done(Ok(Value::Object(Some(Handle { kind: HandleKind::Object, addr: a }))))
            },
            _ => Step::Done(Err(RuntimeError::UnexpectedReply(Export::RuntimeInvoke))),
        },
        Pending::Assemblies => match reply {
            NativeReply::Collected(raw) => Step::Done(Ok(Value::Handles(enumerate_assemblies(&raw)))),
            _ => Step::Done(Err(RuntimeError::UnexpectedReply(Export::AssemblyForeach))),
        },
        Pending::StringNew { func, text } => match reply {
            NativeReply::Word(d) => if d == 0 {
                Step::Done(Err(RuntimeError::UnexpectedNull(Export::RootDomain)))
            } else {
                let args = vec![Arg::Word(d), text];
                assert(args_view(args@) =~= seq![ArgV::Word(d), args@[1]@]);
                make_call(
                    Export::StringNew,
                    func,
                    args,
                    Pending::Handle { export: Export::StringNew, kind: HandleKind::String },
                )
            },
            _ => Step::Done(Err(RuntimeError::UnexpectedReply(Export::RootDomain))),
        },
        Pending::OpenAssembly { func, name } => match reply {
            NativeReply::Word(d) => if d == 0 {
                Step::Done(Err(RuntimeError::UnexpectedNull(Export::RootDomain)))
            } else {
                let ghost n = name@;
                let args = vec![Arg::Word(d), Arg::Text(name)];
                assert(args_view(args@) =~= seq![ArgV::Word(d), ArgV::Text(n)]);
                make_call(
                    Export::DomainAssemblyOpen,
                    func,
                    args,
                    Pending::Handle { export: Export::DomainAssemblyOpen, kind: HandleKind::Assembly },
                )
            },
            _ => Step::Done(Err(RuntimeError::UnexpectedReply(Export::RootDomain))),
        },
        Pending::ClassFromName { func, namespace, name } => match reply {
            NativeReply::Word(i) => if i == 0 {
                Step::Done(Err(RuntimeError::UnexpectedNull(Export::AssemblyGetImage)))
            } else {
                let ghost ns = namespace@;
                let ghost n = name@;
                let args = vec![Arg::Word(i), Arg::Text(namespace), Arg::Text(name)];
                assert(args_view(args@) =~= seq![ArgV::Word(i), ArgV::Text(ns), ArgV::Text(n)]);
                make_call(
                    Export::ClassFromName,
                    func,
                    args,
                    Pending::Handle { export: Export::ClassFromName, kind: HandleKind::Class },
                )
            },
            _ => Step::Done(Err(RuntimeError::UnexpectedReply(Export::AssemblyGetImage))),
        },
        Pending::Accessor { export, invoke, receiver, args } => match reply {
            NativeReply::Word(m) => if m == 0 {
                Step::Done(Err(RuntimeError::UnexpectedNull(export)))
            } else {
                let ghost av = match &args {
                    Some(v) => Some(v@),
                    None => None,
                };
                let third = words_arg(args);
                let call_args = vec![Arg::Word(m), Arg::Word(receiver), third, Arg::Word(0)];
                assert(args_view(call_args@) =~= invoke_args(m, receiver, av));
                make_call(Export::RuntimeInvoke, invoke, call_args, Pending::Invoke)
            },
            _ => Step::Done(Err(RuntimeError::UnexpectedReply(export))),
        },
    }
}


/// Which assembly hook of the dynamic-JIT backend to install.
#[derive(Clone, Copy, Debug, PartialEq, Eq, Structural)]
pub enum AssemblyHookType {
    /// Called before an assembly is loaded.
    Preload,
    /// Called when an assembly is loaded.
    Load,
    /// Called when an assembly is searched for.
    Search,
}

pub open spec fn hook_export(kind: AssemblyHookType) -> Export {
    match kind {
        AssemblyHookType::Preload => Export::InstallPreloadHook,
        AssemblyHookType::Load => Export::InstallLoadHook,
        AssemblyHookType::Search => Export::InstallSearchHook,
    }
}

impl AssemblyHookType {
    /// The export that installs this kind of hook.
    pub fn export(&self) -> (e: Export)
        ensures
            e == hook_export(*self),
    {
        match self {
            AssemblyHookType::Preload => Export::InstallPreloadHook,
            AssemblyHookType::Load => Export::InstallLoadHook,
            AssemblyHookType::Search => Export::InstallSearchHook,
        }
    }

    /// The hook's name, as shown in diagnostics.
    pub fn name(&self) -> (r: &'static str)
        ensures
            r@ == match *self {
                AssemblyHookType::Preload => "preload"@,
                AssemblyHookType::Load => "load"@,
                AssemblyHookType::Search => "search"@,
            },
    {
        match self {
            AssemblyHookType::Preload => "preload",
            AssemblyHookType::Load => "load",
            AssemblyHookType::Search => "search",
        }
    }
}

/// The address passed as receiver: null for a static call.
pub open spec fn receiver_addr(receiver: Option<Handle>) -> usize {
    match receiver {
        Some(h) => h.addr,
        None => 0,
    }
}

fn receiver_of(receiver: Option<Handle>) -> (r: usize)
    ensures
        r == receiver_addr(receiver),
{
    match receiver {
        Some(h) => h.addr,
        None => 0,
    }
}

/// The uniform capability interface over either backend.
///
/// Each operation validates its parameters first and never asks for a
/// native call when one is invalid. When a capability is available it
/// answers with the native call to perform; the caller performs it and hands
/// the reply to `resume` until the operation is `Done`.
pub struct ManagedRuntime {
    pub symbols: SymbolTable,
}

impl ManagedRuntime {
    pub open spec fn wf(self) -> bool {
        self.symbols.wf()
    }

    pub open spec fn spec_backend(self) -> Backend {
        self.symbols.spec_backend()
    }

    /// The call to an export, or `CapabilityUnavailable` when the backend
    /// never exported it.
    pub open spec fn spec_call(self, e: Export, args: Seq<ArgV>, p: PendingV) -> StepV {
        match self.symbols.spec_resolve(e) {
            Some(f) => StepV::Call(CallV { export: e, func: f, args }, p),
            None => fail(RuntimeError::CapabilityUnavailable(e)),
        }
    }

    /// A call to `first` whose reply feeds a call to `second`: both must be
    /// available before anything is called.
    pub open spec fn spec_chain(
        self,
        second: Export,
        first: Export,
        args: Seq<ArgV>,
        p: spec_fn(usize) -> PendingV,
    ) -> StepV {
        match self.symbols.spec_resolve(second) {
            Some(g) => self.spec_call(first, args, p(g)),
            None => fail(RuntimeError::CapabilityUnavailable(second)),
        }
    }

    pub fn new(symbols: SymbolTable) -> (r: ManagedRuntime)
        requires
            symbols.wf(),
        ensures
            r.wf(),
            r.symbols == symbols,
    {
        ManagedRuntime { symbols }
    }

    pub fn backend(&self) -> (b: Backend)
        ensures
            b == self.spec_backend(),
    {
        self.symbols.backend()
    }

    fn call(&self, e: Export, args: Vec<Arg>, p: Pending) -> (s: Step)
        requires
            self.wf(),
        ensures
            s@ == self.spec_call(e, args_view(args@), p@),
    {
        match self.symbols.resolve(e) {
            Some(f) => make_call(e, f, args, p),
            None => Step::Done(Err(RuntimeError::CapabilityUnavailable(e))),
        }
    }

    fn call_on(&self, e: Export, target: usize, p: Pending) -> (s: Step)
        requires
            self.wf(),
        ensures
            s@ == self.spec_call(e, seq![ArgV::Word(target)], p@),
    {
        let args = vec![Arg::Word(target)];
        assert(args_view(args@) =~= seq![ArgV::Word(target)]);
        self.call(e, args, p)
    }

    /// Address of the universal invocation export, which the interceptor hooks.
    pub fn invoke_entry(&self) -> (r: Result<usize, RuntimeError>)
        requires
            self.wf(),
        ensures
            r == match self.symbols.spec_resolve(Export::RuntimeInvoke) {
                Some(f) => Ok(f),
                None => Err(RuntimeError::CapabilityUnavailable(Export::RuntimeInvoke)),
            },
    {
        match self.symbols.resolve(Export::RuntimeInvoke) {
            Some(f) => Ok(f),
            None => Err(RuntimeError::CapabilityUnavailable(Export::RuntimeInvoke)),
        }
    }

    /// The root application domain.
    pub fn get_domain(&self) -> (s: Step)
        requires
            self.wf(),
        ensures
            s@ == self.spec_call(
                Export::RootDomain,
                seq![],
                PendingV::Handle { export: Export::RootDomain, kind: HandleKind::Domain },
            ),
    {
        let args: Vec<Arg> = Vec::new();
        assert(args_view(args@) =~= seq![]);
        self.call(Export::RootDomain, args, Pending::Handle { export: Export::RootDomain, kind: HandleKind::Domain })
    }

    /// The managed thread of the calling native thread.
    pub fn get_current_thread(&self) -> (s: Step)
        requires
            self.wf(),
        ensures
            s@ == self.spec_call(
                Export::ThreadCurrent,
                seq![],
                PendingV::Handle { export: Export::ThreadCurrent, kind: HandleKind::Thread },
            ),
    {
        let args: Vec<Arg> = Vec::new();
        assert(args_view(args@) =~= seq![]);
        self.call(
            Export::ThreadCurrent,
            args,
            Pending::Handle { export: Export::ThreadCurrent, kind: HandleKind::Thread },
        )
    }

    /// Marks a thread as the main thread. The ahead-of-time backend has no
    /// such export and attaches the thread instead.
    pub fn set_main_thread(&self, thread: Handle) -> (s: Step)
        requires
            self.wf(),
        ensures
            s@ == (if thread.addr == 0 {
                fail(RuntimeError::NullHandle(Param::Thread))
            } else {
                match self.spec_backend() {
                    Backend::Mono { .. } => self.spec_call(
                        Export::ThreadSetMain,
                        seq![ArgV::Word(thread.addr)],
                        PendingV::Unit { export: Export::ThreadSetMain },
                    ),
                    Backend::Il2Cpp => self.spec_call(
                        Export::ThreadAttach,
                        seq![ArgV::Word(thread.addr)],
                        PendingV::Discard { export: Export::ThreadAttach },
                    ),
                }
            }),
    {
        if thread.is_null() {
            return Step::Done(Err(RuntimeError::NullHandle(Param::Thread)));
        }
        match self.backend() {
            Backend::Mono { .. } => self.call_on(
                Export::ThreadSetMain,
                thread.addr,
                Pending::Unit { export: Export::ThreadSetMain },
            ),
            Backend::Il2Cpp => self.call_on(
                Export::ThreadAttach,
                thread.addr,
                Pending::Discard { export: Export::ThreadAttach },
            ),
        }
    }

    /// Attaches the calling native thread to a domain.
    pub fn attach_to_thread(&self, domain: Handle) -> (s: Step)
        requires
            self.wf(),
        ensures
            s@ == (if domain.addr == 0 {
                fail(RuntimeError::NullHandle(Param::Domain))
            } else {
                self.spec_call(
                    Export::ThreadAttach,
                    seq![ArgV::Word(domain.addr)],
                    PendingV::Handle { export: Export::ThreadAttach, kind: HandleKind::Thread },
                )
            }),
    {
        if domain.is_null() {
            return Step::Done(Err(RuntimeError::NullHandle(Param::Domain)));
        }
        self.call_on(
            Export::ThreadAttach,
            domain.addr,
            Pending::Handle { export: Export::ThreadAttach, kind: HandleKind::Thread },
        )
    }

    /// Registers a native function as the body of a managed internal call.
    pub fn add_internal_call(&self, name: &str, func: usize) -> (s: Step)
        requires
            self.wf(),
        ensures
            s@ == (if name@.len() == 0 {
                fail(RuntimeError::NullHandle(Param::Name))
            } else if func == 0 {
                fail(RuntimeError::NullHandle(Param::Function))
            } else if has_nul(name@) {
                fail(RuntimeError::InteriorNul(Param::Name))
            } else {
                self.spec_call(
                    Export::AddInternalCall,
                    seq![ArgV::Text(name@), ArgV::Word(func)],
                    PendingV::Unit { export: Export::AddInternalCall },
                )
            }),
    {
        if name.is_empty() {
            return Step::Done(Err(RuntimeError::NullHandle(Param::Name)));
        }
        if func == 0 {
            return Step::Done(Err(RuntimeError::NullHandle(Param::Function)));
        }
        if contains_nul(name) {
            return Step::Done(Err(RuntimeError::InteriorNul(Param::Name)));
        }
        let args = vec![Arg::Text(name.to_owned()), Arg::Word(func)];
        assert(args_view(args@) =~= seq![ArgV::Text(name@), ArgV::Word(func)]);
        self.call(Export::AddInternalCall, args, Pending::Unit { export: Export::AddInternalCall })
    }

    /// Installs an assembly hook (dynamic-JIT backend only).
    pub fn install_assembly_hook(&self, kind: AssemblyHookType, func: usize) -> (s: Step)
        requires
            self.wf(),
        ensures
            s@ == (if func == 0 {
                fail(RuntimeError::NullHandle(Param::Function))
            } else {
                self.spec_call(
                    hook_export(kind),
                    seq![ArgV::Word(func), ArgV::Word(0)],
                    PendingV::Unit { export: hook_export(kind) },
                )
            }),
    {
        if func == 0 {
            return Step::Done(Err(RuntimeError::NullHandle(Param::Function)));
        }
        let e = kind.export();
        let args = vec![Arg::Word(func), Arg::Word(0)];
        assert(args_view(args@) =~= seq![ArgV::Word(func), ArgV::Word(0)]);
        self.call(e, args, Pending::Unit { export: e })
    }

    /// Creates the debugger's view of a domain (dynamic-JIT backend only).
    pub fn create_debug_domain(&self, domain: Handle) -> (s: Step)
        requires
            self.wf(),
        ensures
            s@ == (if domain.addr == 0 {
                fail(RuntimeError::NullHandle(Param::Domain))
            } else {
                self.spec_call(
                    Export::DebugDomainCreate,
                    seq![ArgV::Word(domain.addr)],
                    PendingV::Unit { export: Export::DebugDomainCreate },
                )
            }),
    {
        if domain.is_null() {
            return Step::Done(Err(RuntimeError::NullHandle(Param::Domain)));
        }
        self.call_on(Export::DebugDomainCreate, domain.addr, Pending::Unit { export: Export::DebugDomainCreate })
    }

    /// Sets a domain's base directory and configuration file name
    /// (dynamic-JIT backend only).
    pub fn set_domain_config(&self, domain: Handle, dir: &str, name: &str) -> (s: Step)
        requires
            self.wf(),
        ensures
            s@ == (if domain.addr == 0 {
                fail(RuntimeError::NullHandle(Param::Domain))
            } else if has_nul(dir@) {
                fail(RuntimeError::InteriorNul(Param::Directory))
            } else if has_nul(name@) {
                fail(RuntimeError::InteriorNul(Param::Name))
            } else {
                self.spec_call(
                    Export::DomainSetConfig,
                    seq![ArgV::Word(domain.addr), ArgV::Text(dir@), ArgV::Text(name@)],
                    PendingV::Unit { export: Export::DomainSetConfig },
                )
            }),
    {
        if domain.is_null() {
            return Step::Done(Err(RuntimeError::NullHandle(Param::Domain)));
        }
        if contains_nul(dir) {
            return Step::Done(Err(RuntimeError::InteriorNul(Param::Directory)));
        }
        if contains_nul(name) {
            return Step::Done(Err(RuntimeError::InteriorNul(Param::Name)));
        }
        let args = vec![Arg::Word(domain.addr), Arg::Text(dir.to_owned()), Arg::Text(name.to_owned())];
        assert(args_view(args@) =~= seq![ArgV::Word(domain.addr), ArgV::Text(dir@), ArgV::Text(name@)]);
        self.call(Export::DomainSetConfig, args, Pending::Unit { export: Export::DomainSetConfig })
    }

    /// Making a managed string from `text`: the dynamic-JIT backend makes it
    /// in the root domain, which it asks for first.
    pub open spec fn spec_make_string(self, text: ArgV) -> StepV {
        match self.spec_backend() {
            Backend::Mono { .. } => self.spec_chain(
                Export::StringNew,
                Export::RootDomain,
                seq![],
                |f: usize| PendingV::StringNew { func: f, text },
            ),
            Backend::Il2Cpp => self.spec_call(
                Export::StringNew,
                seq![text],
                PendingV::Handle { export: Export::StringNew, kind: HandleKind::String },
            ),
        }
    }

    fn make_string(&self, text: Arg) -> (s: Step)
        requires
            self.wf(),
        ensures
            s@ == self.spec_make_string(text@),
    {
        match self.backend() {
            Backend::Mono { .. } => match self.symbols.resolve(Export::StringNew) {
                Some(f) => {
                    let args: Vec<Arg> = Vec::new();
                    assert(args_view(args@) =~= seq![]);
                    self.call(Export::RootDomain, args, Pending::StringNew { func: f, text })
                },
                None => Step::Done(Err(RuntimeError::CapabilityUnavailable(Export::StringNew))),
            },
            Backend::Il2Cpp => {
                let ghost t = text@;
                let args = vec![text];
                assert(args_view(args@) =~= seq![t]);
                self.call(
                    Export::StringNew,
                    args,
                    Pending::Handle { export: Export::StringNew, kind: HandleKind::String },
                )
            },
        }
    }

    /// A managed string with the given text.
    pub fn new_string(&self, text: &str) -> (s: Step)
        requires
            self.wf(),
        ensures
            s@ == (if text@.len() == 0 {
                fail(RuntimeError::EmptyString)
            } else if has_nul(text@) {
                fail(RuntimeError::InteriorNul(Param::Text))
            } else {
                self.spec_make_string(ArgV::Text(text@))
            }),
    {
        if text.is_empty() {
            return Step::Done(Err(RuntimeError::EmptyString));
        }
        if contains_nul(text) {
            return Step::Done(Err(RuntimeError::InteriorNul(Param::Text)));
        }
        self.make_string(Arg::Text(text.to_owned()))
    }

    /// A managed string from a NUL-terminated native string.
    pub fn string_from_raw(&self, text: usize) -> (s: Step)
        requires
            self.wf(),
        ensures
            s@ == (if text == 0 {
                fail(RuntimeError::NullHandle(Param::Text))
            } else {
                self.spec_make_string(ArgV::Word(text))
            }),
    {
        if text == 0 {
            return Step::Done(Err(RuntimeError::NullHandle(Param::Text)));
        }
        self.make_string(Arg::Word(text))
    }

    /// Invokes a managed method synchronously on the calling thread. The
    /// receiver is absent for a static method; the arguments are a native
    /// word array. A null result means "no exception, no return value" and
    /// finishes as `Object(None)`.
    pub fn invoke_method(&self, method: Handle, receiver: Option<Handle>, args: Option<Vec<usize>>) -> (s: Step)
        requires
            self.wf(),
        ensures
            s@ == (if method.addr == 0 {
                fail(RuntimeError::NullHandle(Param::Method))
            } else {
                self.spec_call(
                    Export::RuntimeInvoke,
                    invoke_args(
                        method.addr,
                        receiver_addr(receiver),
                        match args {
                            Some(v) => Some(v@),
                            None => None,
                        },
                    ),
                    PendingV::Invoke,
                )
            }),
    {
        if method.is_null() {
            return Step::Done(Err(RuntimeError::NullHandle(Param::Method)));
        }
        let ghost av = match &args {
            Some(v) => Some(v@),
            None => None,
        };
        let r = receiver_of(receiver);
        let third = words_arg(args);
        let call_args = vec![Arg::Word(method.addr), Arg::Word(r), third, Arg::Word(0)];
        assert(args_view(call_args@) =~= invoke_args(method.addr, r, av));
        self.call(Export::RuntimeInvoke, call_args, Pending::Invoke)
    }

    /// The name of a method.
    pub fn get_method_name(&self, method: Handle) -> (s: Step)
        requires
            self.wf(),
        ensures
            s@ == (if method.addr == 0 {
                fail(RuntimeError::NullHandle(Param::Method))
            } else {
                self.spec_call(
                    Export::MethodGetName,
                    seq![ArgV::Word(method.addr)],
                    PendingV::Text { export: Export::MethodGetName },
                )
            }),
    {
        if method.is_null() {
            return Step::Done(Err(RuntimeError::NullHandle(Param::Method)));
        }
        self.call_on(Export::MethodGetName, method.addr, Pending::Text { export: Export::MethodGetName })
    }

    /// The first step of an enumeration; it depends on the runtime alone.
    pub open spec fn spec_get_assemblies(self) -> StepV {
        match self.spec_backend() {
            Backend::Mono { .. } => self.spec_call(Export::AssemblyForeach, seq![ArgV::Collector], PendingV::Assemblies),
            Backend::Il2Cpp => done(ValueV::Handles(seq![])),
        }
    }

    /// How an enumeration ends when the runtime reports `report` to the
    /// callback.
    pub open spec fn spec_enumeration(self, report: Seq<usize>) -> StepV {
        match self.spec_get_assemblies() {
            StepV::Call(_, p) => spec_resume(p, ReplyV::Collected(report)),
            s => s,
        }
    }

    /// The loaded assemblies, as an eager, restartable list. The
    /// ahead-of-time backend cannot enumerate them and answers an empty list.
    pub fn get_assemblies(&self) -> (s: Step)
        requires
            self.wf(),
        ensures
            s@ == self.spec_get_assemblies(),
    {
        match self.backend() {
            Backend::Mono { .. } => {
                let args = vec![Arg::Collector];
                assert(args_view(args@) =~= seq![ArgV::Collector]);
                self.call(Export::AssemblyForeach, args, Pending::Assemblies)
            },
            Backend::Il2Cpp => {
                let none: Vec<Handle> = Vec::new();
                Step::Done(Ok(Value::Handles(none)))
            },
        }
    }

    /// The simple name of an assembly.
    pub fn get_assembly_name(&self, assembly: Handle) -> (s: Step)
        requires
            self.wf(),
        ensures
            s@ == (if assembly.addr == 0 {
                fail(RuntimeError::NullHandle(Param::Assembly))
            } else {
                self.spec_call(
                    Export::AssemblyGetName,
                    seq![ArgV::Word(assembly.addr)],
                    PendingV::Text { export: Export::AssemblyGetName },
                )
            }),
    {
        if assembly.is_null() {
            return Step::Done(Err(RuntimeError::NullHandle(Param::Assembly)));
        }
        self.call_on(Export::AssemblyGetName, assembly.addr, Pending::Text { export: Export::AssemblyGetName })
    }

    /// Opens an assembly by name in the root domain.
    pub fn open_assembly(&self, name: &str) -> (s: Step)
        requires
            self.wf(),
        ensures
            s@ == (if has_nul(name@) {
                fail(RuntimeError::InteriorNul(Param::Name))
            } else {
                self.spec_chain(
                    Export::DomainAssemblyOpen,
                    Export::RootDomain,
                    seq![],
                    |f: usize| PendingV::OpenAssembly { func: f, name: name@ },
                )
            }),
    {
        if contains_nul(name) {
            return Step::Done(Err(RuntimeError::InteriorNul(Param::Name)));
        }
        match self.symbols.resolve(Export::DomainAssemblyOpen) {
            Some(f) => {
                let args: Vec<Arg> = Vec::new();
                assert(args_view(args@) =~= seq![]);
                self.call(Export::RootDomain, args, Pending::OpenAssembly { func: f, name: name.to_owned() })
            },
            None => Step::Done(Err(RuntimeError::CapabilityUnavailable(Export::DomainAssemblyOpen))),
        }
    }

    /// The image of an assembly.
    pub fn assembly_get_image(&self, assembly: Handle) -> (s: Step)
        requires
            self.wf(),
        ensures
            s@ == (if assembly.addr == 0 {
                fail(RuntimeError::NullHandle(Param::Assembly))
            } else {
                self.spec_call(
                    Export::AssemblyGetImage,
                    seq![ArgV::Word(assembly.addr)],
                    PendingV::Handle { export: Export::AssemblyGetImage, kind: HandleKind::Image },
                )
            }),
    {
        if assembly.is_null() {
            return Step::Done(Err(RuntimeError::NullHandle(Param::Assembly)));
        }
        self.call_on(
            Export::AssemblyGetImage,
            assembly.addr,
            Pending::Handle { export: Export::AssemblyGetImage, kind: HandleKind::Image },
        )
    }

    /// A class of an assembly, by namespace and name: the assembly's image
    /// is asked for first, then the class is looked up in it.
    pub fn get_class(&self, assembly: Handle, namespace: &str, name: &str) -> (s: Step)
        requires
            self.wf(),
        ensures
            s@ == (if assembly.addr == 0 {
                fail(RuntimeError::NullHandle(Param::Assembly))
            } else if has_nul(namespace@) {
                fail(RuntimeError::InteriorNul(Param::Namespace))
            } else if has_nul(name@) {
                fail(RuntimeError::InteriorNul(Param::Name))
            } else {
                self.spec_chain(
                    Export::ClassFromName,
                    Export::AssemblyGetImage,
                    seq![ArgV::Word(assembly.addr)],
                    |f: usize| PendingV::ClassFromName { func: f, namespace: namespace@, name: name@ },
                )
            }),
    {
        if assembly.is_null() {
            return Step::Done(Err(RuntimeError::NullHandle(Param::Assembly)));
        }
        if contains_nul(namespace) {
            return Step::Done(Err(RuntimeError::InteriorNul(Param::Namespace)));
        }
        if contains_nul(name) {
            return Step::Done(Err(RuntimeError::InteriorNul(Param::Name)));
        }
        match self.symbols.resolve(Export::ClassFromName) {
            Some(f) => self.call_on(
                Export::AssemblyGetImage,
                assembly.addr,
                Pending::ClassFromName { func: f, namespace: namespace.to_owned(), name: name.to_owned() },
            ),
            None => Step::Done(Err(RuntimeError::CapabilityUnavailable(Export::ClassFromName))),
        }
    }

    /// The name of a class.
    pub fn get_class_name(&self, class: Handle) -> (s: Step)
        requires
            self.wf(),
        ensures
            s@ == (if class.addr == 0 {
                fail(RuntimeError::NullHandle(Param::Class))
            } else {
                self.spec_call(
                    Export::ClassGetName,
                    seq![ArgV::Word(class.addr)],
                    PendingV::Text { export: Export::ClassGetName },
                )
            }),
    {
        if class.is_null() {
            return Step::Done(Err(RuntimeError::NullHandle(Param::Class)));
        }
        self.call_on(Export::ClassGetName, class.addr, Pending::Text { export: Export::ClassGetName })
    }

    /// A property of a class, by name.
    pub fn get_property(&self, class: Handle, name: &str) -> (s: Step)
        requires
            self.wf(),
        ensures
            s@ == (if class.addr == 0 {
                fail(RuntimeError::NullHandle(Param::Class))
            } else if has_nul(name@) {
                fail(RuntimeError::InteriorNul(Param::Name))
            } else {
                self.spec_call(
                    Export::ClassGetPropertyFromName,
                    seq![ArgV::Word(class.addr), ArgV::Text(name@)],
                    PendingV::Handle { export: Export::ClassGetPropertyFromName, kind: HandleKind::Property },
                )
            }),
    {
        if class.is_null() {
            return Step::Done(Err(RuntimeError::NullHandle(Param::Class)));
        }
        if contains_nul(name) {
            return Step::Done(Err(RuntimeError::InteriorNul(Param::Name)));
        }
        let args = vec![Arg::Word(class.addr), Arg::Text(name.to_owned())];
        assert(args_view(args@) =~= seq![ArgV::Word(class.addr), ArgV::Text(name@)]);
        self.call(
            Export::ClassGetPropertyFromName,
            args,
            Pending::Handle { export: Export::ClassGetPropertyFromName, kind: HandleKind::Property },
        )
    }

    /// The name of a property.
    pub fn get_property_name(&self, prop: Handle) -> (s: Step)
        requires
            self.wf(),
        ensures
            s@ == (if prop.addr == 0 {
                fail(RuntimeError::NullHandle(Param::Property))
            } else {
                self.spec_call(
                    Export::PropertyGetName,
                    seq![ArgV::Word(prop.addr)],
                    PendingV::Text { export: Export::PropertyGetName },
                )
            }),
    {
        if prop.is_null() {
            return Step::Done(Err(RuntimeError::NullHandle(Param::Property)));
        }
        self.call_on(Export::PropertyGetName, prop.addr, Pending::Text { export: Export::PropertyGetName })
    }

    /// The getter method of a property.
    pub fn get_property_get_method(&self, prop: Handle) -> (s: Step)
        requires
            self.wf(),
        ensures
            s@ == (if prop.addr == 0 {
                fail(RuntimeError::NullHandle(Param::Property))
            } else {
                self.spec_call(
                    Export::PropertyGetGetMethod,
                    seq![ArgV::Word(prop.addr)],
                    PendingV::Handle { export: Export::PropertyGetGetMethod, kind: HandleKind::Method },
                )
            }),
    {
        if prop.is_null() {
            return Step::Done(Err(RuntimeError::NullHandle(Param::Property)));
        }
        self.call_on(
            Export::PropertyGetGetMethod,
            prop.addr,
            Pending::Handle { export: Export::PropertyGetGetMethod, kind: HandleKind::Method },
        )
    }

    /// The setter method of a property.
    pub fn get_property_set_method(&self, prop: Handle) -> (s: Step)
        requires
            self.wf(),
        ensures
            s@ == (if prop.addr == 0 {
                fail(RuntimeError::NullHandle(Param::Property))
            } else {
                self.spec_call(
                    Export::PropertyGetSetMethod,
                    seq![ArgV::Word(prop.addr)],
                    PendingV::Handle { export: Export::PropertyGetSetMethod, kind: HandleKind::Method },
                )
            }),
    {
        if prop.is_null() {
            return Step::Done(Err(RuntimeError::NullHandle(Param::Property)));
        }
        self.call_on(
            Export::PropertyGetSetMethod,
            prop.addr,
            Pending::Handle { export: Export::PropertyGetSetMethod, kind: HandleKind::Method },
        )
    }

    /// A native entry point for a managed method. On the ahead-of-time
    /// backend a method handle already is one.
    pub fn get_unmanaged_thunk(&self, method: Handle) -> (s: Step)
        requires
            self.wf(),
        ensures
            s@ == (if method.addr == 0 {
                fail(RuntimeError::NullHandle(Param::Method))
            } else {
                match self.spec_backend() {
                    Backend::Mono { .. } => self.spec_call(
                        Export::MethodGetUnmanagedThunk,
                        seq![ArgV::Word(method.addr)],
                        PendingV::Address { export: Export::MethodGetUnmanagedThunk },
                    ),
                    Backend::Il2Cpp => done(ValueV::Address(method.addr)),
                }
            }),
    {
        if method.is_null() {
            return Step::Done(Err(RuntimeError::NullHandle(Param::Method)));
        }
        match self.backend() {
            Backend::Mono { .. } => self.call_on(
                Export::MethodGetUnmanagedThunk,
                method.addr,
                Pending::Address { export: Export::MethodGetUnmanagedThunk },
            ),
            Backend::Il2Cpp => Step::Done(Ok(Value::Address(method.addr))),
        }
    }

    /// Reads a property: its getter is resolved, then invoked on the
    /// receiver (absent for a static property) without arguments.
    pub fn get_property_value(&self, prop: Handle, receiver: Option<Handle>) -> (s: Step)
        requires
            self.wf(),
        ensures
            s@ == (if prop.addr == 0 {
                fail(RuntimeError::NullHandle(Param::Property))
            } else {
                self.spec_chain(
                    Export::RuntimeInvoke,
                    Export::PropertyGetGetMethod,
                    seq![ArgV::Word(prop.addr)],
                    |f: usize| PendingV::Accessor {
                        export: Export::PropertyGetGetMethod,
                        invoke: f,
                        receiver: receiver_addr(receiver),
                        args: None,
                    },
                )
            }),
    {
        if prop.is_null() {
            return Step::Done(Err(RuntimeError::NullHandle(Param::Property)));
        }
        match self.symbols.resolve(Export::RuntimeInvoke) {
            Some(f) => self.call_on(
                Export::PropertyGetGetMethod,
                prop.addr,
                Pending::Accessor {
                    export: Export::PropertyGetGetMethod,
                    invoke: f,
                    receiver: receiver_of(receiver),
                    args: None,
                },
            ),
            None => Step::Done(Err(RuntimeError::CapabilityUnavailable(Export::RuntimeInvoke))),
        }
    }

    /// Writes a property: its setter is resolved, then invoked on the
    /// receiver with the one argument `value`.
    pub fn set_property_value(&self, prop: Handle, receiver: Option<Handle>, value: usize) -> (s: Step)
        requires
            self.wf(),
        ensures
            s@ == (if prop.addr == 0 {
                fail(RuntimeError::NullHandle(Param::Property))
            } else {
                self.spec_chain(
                    Export::RuntimeInvoke,
                    Export::PropertyGetSetMethod,
                    seq![ArgV::Word(prop.addr)],
                    |f: usize| PendingV::Accessor {
                        export: Export::PropertyGetSetMethod,
                        invoke: f,
                        receiver: receiver_addr(receiver),
                        args: Some(seq![value]),
                    },
                )
            }),
    {
        if prop.is_null() {
            return Step::Done(Err(RuntimeError::NullHandle(Param::Property)));
        }
        match self.symbols.resolve(Export::RuntimeInvoke) {
            Some(f) => {
                let values = vec![value];
                assert(values@ =~= seq![value]);
                self.call_on(
                    Export::PropertyGetSetMethod,
                    prop.addr,
                    Pending::Accessor {
                        export: Export::PropertyGetSetMethod,
                        invoke: f,
                        receiver: receiver_of(receiver),
                        args: Some(values),
                    },
                )
            },
            None => Step::Done(Err(RuntimeError::CapabilityUnavailable(Export::RuntimeInvoke))),
        }
    }
}

/// Every handle of an enumeration is a non-null assembly handle, and there
/// are no more of them than addresses reported.
pub proof fn lemma_assemblies_of_valid(raw: Seq<usize>)
    ensures
        assemblies_of(raw).len() <= raw.len(),
        forall|j: int|
            0 <= j < assemblies_of(raw).len() ==> (#[trigger] assemblies_of(raw)[j]).addr != 0
                && assemblies_of(raw)[j].kind == HandleKind::Assembly,
    decreases raw.len(),
{
    if raw.len() > 0 {
        lemma_assemblies_of_valid(raw.drop_last());
    }
}

/// Enumeration idempotence: every enumeration on a runtime starts with the
/// same step, and when the runtime state did not change between two of
/// them (so the callback is handed the same addresses) they end with the
/// same list: same count, same assemblies, same order. On the dynamic-JIT
/// backend that list is the non-null reported addresses in order; on the
/// ahead-of-time backend it is empty.
pub proof fn lemma_enumeration_idempotent(rt: ManagedRuntime, first: Seq<usize>, second: Seq<usize>)
    requires
        rt.wf(),
        first == second,
    ensures
        rt.spec_enumeration(first) == rt.spec_enumeration(second),
        rt.spec_enumeration(first) == match rt.spec_backend() {
            Backend::Mono { .. } => match rt.symbols.spec_resolve(Export::AssemblyForeach) {
                Some(_) => done(ValueV::Handles(assemblies_of(first))),
                None => fail(RuntimeError::CapabilityUnavailable(Export::AssemblyForeach)),
            },
            Backend::Il2Cpp => done(ValueV::Handles(seq![])),
        },
{
}

/// Missing-symbol degradation: an export absent from the backend's table
/// resolves to nothing, and every operation that would call it finishes
/// with `CapabilityUnavailable` instead of calling anything.
pub proof fn lemma_missing_symbol_degrades(rt: ManagedRuntime, e: Export, args: Seq<ArgV>, p: PendingV)
    requires
        rt.wf(),
        rt.symbols.spec_resolve(e) is None,
    ensures
        rt.spec_call(e, args, p) == fail(RuntimeError::CapabilityUnavailable(e)),
        forall|first: Export, f: spec_fn(usize) -> PendingV|
            #[trigger] rt.spec_chain(e, first, args, f) == fail(RuntimeError::CapabilityUnavailable(e)),
{
}

} // verus!
