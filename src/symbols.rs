use vstd::prelude::*;

verus! {

/// The two managed-runtime backends.
#[derive(Clone, Copy, Debug, PartialEq, Eq, Structural)]
pub enum Backend {
    /// The dynamic-JIT backend; `is_old` marks the legacy library.
    Mono { is_old: bool },
    /// The ahead-of-time-compiled backend.
    Il2Cpp,
}

impl Backend {
    /// The backend's name, as shown in diagnostics.
    pub fn label(&self) -> (r: &'static str)
        ensures
            r@ == match *self {
                Backend::Il2Cpp => "Il2cpp"@,
                Backend::Mono { is_old: true } => "Mono"@,
                Backend::Mono { is_old: false } => "MonoBleedingEdge"@,
            },
    {
        match self {
            Backend::Il2Cpp => "Il2cpp",
            Backend::Mono { is_old: true } => "Mono",
            Backend::Mono { is_old: false } => "MonoBleedingEdge",
        }
    }
}

/// The native exports that the runtime operations rely on.
#[derive(Clone, Copy, Debug, PartialEq, Eq, Structural)]
pub enum Export {
    RootDomain,
    ThreadCurrent,
    ThreadSetMain,
    ThreadAttach,
    AddInternalCall,
    StringNew,
    RuntimeInvoke,
    MethodGetName,
    DebugDomainCreate,
    DomainSetConfig,
    DomainAssemblyOpen,
    AssemblyGetImage,
    ClassFromName,
    InstallPreloadHook,
    InstallLoadHook,
    InstallSearchHook,
    AssemblyForeach,
    AssemblyGetName,
    ClassGetName,
    ClassGetPropertyFromName,
    PropertyGetName,
    PropertyGetGetMethod,
    PropertyGetSetMethod,
    MethodGetUnmanagedThunk,
}

/// Number of entries in the export table.
pub const EXPORT_COUNT: usize = 24;

/// How the value that a native export hands back is to be read.
#[derive(Clone, Copy, Debug, PartialEq, Eq, Structural)]
pub enum ReplyKind {
    /// The export returns nothing.
    Unit,
    /// The export returns one native word (an address).
    Word,
    /// The export returns a pointer to a NUL-terminated string.
    CText,
    /// The export returns a pointer to an assembly-name record whose first
    /// field points to a NUL-terminated string.
    AssemblyNameRecord,
    /// The export walks the loaded assemblies through a callback; the reply
    /// is every address the callback received, in order.
    Collected,
}

impl Export {
    /// Position of the export in a symbol table.
    pub open spec fn idx(self) -> int {
        match self {
            Export::RootDomain => 0,
            Export::ThreadCurrent => 1,
            Export::ThreadSetMain => 2,
            Export::ThreadAttach => 3,
            Export::AddInternalCall => 4,
            Export::StringNew => 5,
            Export::RuntimeInvoke => 6,
            Export::MethodGetName => 7,
            Export::DebugDomainCreate => 8,
            Export::DomainSetConfig => 9,
            Export::DomainAssemblyOpen => 10,
            Export::AssemblyGetImage => 11,
            Export::ClassFromName => 12,
            Export::InstallPreloadHook => 13,
            Export::InstallLoadHook => 14,
            Export::InstallSearchHook => 15,
            Export::AssemblyForeach => 16,
            Export::AssemblyGetName => 17,
            Export::ClassGetName => 18,
            Export::ClassGetPropertyFromName => 19,
            Export::PropertyGetName => 20,
            Export::PropertyGetGetMethod => 21,
            Export::PropertyGetSetMethod => 22,
            Export::MethodGetUnmanagedThunk => 23,
        }
    }

    pub fn index(&self) -> (r: usize)
        ensures
            r as int == self.idx(),
            r < EXPORT_COUNT,
    {
        match self {
            Export::RootDomain => 0,
            Export::ThreadCurrent => 1,
            Export::ThreadSetMain => 2,
            Export::ThreadAttach => 3,
            Export::AddInternalCall => 4,
            Export::StringNew => 5,
            Export::RuntimeInvoke => 6,
            Export::MethodGetName => 7,
            Export::DebugDomainCreate => 8,
            Export::DomainSetConfig => 9,
            Export::DomainAssemblyOpen => 10,
            Export::AssemblyGetImage => 11,
            Export::ClassFromName => 12,
            Export::InstallPreloadHook => 13,
            Export::InstallLoadHook => 14,
            Export::InstallSearchHook => 15,
            Export::AssemblyForeach => 16,
            Export::AssemblyGetName => 17,
            Export::ClassGetName => 18,
            Export::ClassGetPropertyFromName => 19,
            Export::PropertyGetName => 20,
            Export::PropertyGetGetMethod => 21,
            Export::PropertyGetSetMethod => 22,
            Export::MethodGetUnmanagedThunk => 23,
        }
    }

    pub open spec fn spec_reply_kind(self) -> ReplyKind {
        match self {
            Export::ThreadSetMain | Export::AddInternalCall | Export::DebugDomainCreate
            | Export::DomainSetConfig | Export::InstallPreloadHook | Export::InstallLoadHook
            | Export::InstallSearchHook => ReplyKind::Unit,
            Export::MethodGetName | Export::ClassGetName | Export::PropertyGetName => ReplyKind::CText,
            Export::AssemblyGetName => ReplyKind::AssemblyNameRecord,
            Export::AssemblyForeach => ReplyKind::Collected,
            _ => ReplyKind::Word,
        }
    }

    /// How the reply of this export is read.
    pub fn reply_kind(&self) -> (r: ReplyKind)
        ensures
            r == self.spec_reply_kind(),
    {
        match self {
            Export::ThreadSetMain | Export::AddInternalCall | Export::DebugDomainCreate
            | Export::DomainSetConfig | Export::InstallPreloadHook | Export::InstallLoadHook
            | Export::InstallSearchHook => ReplyKind::Unit,
            Export::MethodGetName | Export::ClassGetName | Export::PropertyGetName => ReplyKind::CText,
            Export::AssemblyGetName => ReplyKind::AssemblyNameRecord,
            Export::AssemblyForeach => ReplyKind::Collected,
            _ => ReplyKind::Word,
        }
    }
}

/// The export at a position of the table: walking positions 0 to
/// `EXPORT_COUNT - 1` visits every export once.
pub fn export_at(i: usize) -> (e: Export)
    requires
        i < EXPORT_COUNT,
    ensures
        e.idx() == i,
{
    if i == 0 {
        Export::RootDomain
    } else if i == 1 {
        Export::ThreadCurrent
    } else if i == 2 {
        Export::ThreadSetMain
    } else if i == 3 {
        Export::ThreadAttach
    } else if i == 4 {
        Export::AddInternalCall
    } else if i == 5 {
        Export::StringNew
    } else if i == 6 {
        Export::RuntimeInvoke
    } else if i == 7 {
        Export::MethodGetName
    } else if i == 8 {
        Export::DebugDomainCreate
    } else if i == 9 {
        Export::DomainSetConfig
    } else if i == 10 {
        Export::DomainAssemblyOpen
    } else if i == 11 {
        Export::AssemblyGetImage
    } else if i == 12 {
        Export::ClassFromName
    } else if i == 13 {
        Export::InstallPreloadHook
    } else if i == 14 {
        Export::InstallLoadHook
    } else if i == 15 {
        Export::InstallSearchHook
    } else if i == 16 {
        Export::AssemblyForeach
    } else if i == 17 {
        Export::AssemblyGetName
    } else if i == 18 {
        Export::ClassGetName
    } else if i == 19 {
        Export::ClassGetPropertyFromName
    } else if i == 20 {
        Export::PropertyGetName
    } else if i == 21 {
        Export::PropertyGetGetMethod
    } else if i == 22 {
        Export::PropertyGetSetMethod
    } else {
        Export::MethodGetUnmanagedThunk
    }
}

/// Whether a backend's native library is expected to offer an export.
pub open spec fn offers(backend: Backend, e: Export) -> bool {
    match backend {
        Backend::Mono { .. } => true,
        Backend::Il2Cpp => match e {
            Export::RootDomain | Export::ThreadCurrent | Export::ThreadAttach
            | Export::AddInternalCall | Export::StringNew | Export::RuntimeInvoke
            | Export::MethodGetName => true,
            _ => false,
        },
    }
}

/// The native name of an export in a backend's library, if it offers one.
pub open spec fn native_name(backend: Backend, e: Export) -> Option<Seq<char>> {
    match backend {
        Backend::Mono { .. } => Some(
            match e {
                Export::RootDomain => "mono_get_root_domain"@,
                Export::ThreadCurrent => "mono_thread_current"@,
                Export::ThreadSetMain => "mono_thread_set_main"@,
                Export::ThreadAttach => "mono_thread_attach"@,
                Export::AddInternalCall => "mono_add_internal_call"@,
                Export::StringNew => "mono_string_new"@,
                Export::RuntimeInvoke => "mono_runtime_invoke"@,
                Export::MethodGetName => "mono_method_get_name"@,
                Export::DebugDomainCreate => "mono_debug_domain_create"@,
                Export::DomainSetConfig => "mono_domain_set_config"@,
                Export::DomainAssemblyOpen => "mono_domain_assembly_open"@,
                Export::AssemblyGetImage => "mono_assembly_get_image"@,
                Export::ClassFromName => "mono_class_from_name"@,
                Export::InstallPreloadHook => "mono_install_assembly_preload_hook"@,
                Export::InstallLoadHook => "mono_install_assembly_load_hook"@,
                Export::InstallSearchHook => "mono_install_assembly_search_hook"@,
                Export::AssemblyForeach => "mono_assembly_foreach"@,
                Export::AssemblyGetName => "mono_assembly_get_name"@,
                Export::ClassGetName => "mono_class_get_name"@,
                Export::ClassGetPropertyFromName => "mono_class_get_property_from_name"@,
                Export::PropertyGetName => "mono_property_get_name"@,
                Export::PropertyGetGetMethod => "mono_property_get_get_method"@,
                Export::PropertyGetSetMethod => "mono_property_get_set_method"@,
                Export::MethodGetUnmanagedThunk => "mono_method_get_unmanaged_thunk"@,
            },
        ),
        Backend::Il2Cpp => match e {
            Export::RootDomain => Some("il2cpp_domain_get"@),
            Export::ThreadCurrent => Some("il2cpp_thread_current"@),
            Export::ThreadAttach => Some("il2cpp_thread_attach"@),
            Export::AddInternalCall => Some("il2cpp_add_internal_call"@),
            Export::StringNew => Some("il2cpp_string_new"@),
            Export::RuntimeInvoke => Some("il2cpp_runtime_invoke"@),
            Export::MethodGetName => Some("il2cpp_method_get_name"@),
            _ => None,
        },
    }
}

/// The name under which a backend's library exports `e`.
pub fn export_name(backend: Backend, e: Export) -> (r: Option<&'static str>)
    ensures
        r.is_some() == offers(backend, e),
        match r {
            Some(n) => native_name(backend, e) == Some(n@),
            None => native_name(backend, e) is None,
        },
{
    match backend {
        Backend::Mono { .. } => Some(
            match e {
                Export::RootDomain => "mono_get_root_domain",
                Export::ThreadCurrent => "mono_thread_current",
                Export::ThreadSetMain => "mono_thread_set_main",
                Export::ThreadAttach => "mono_thread_attach",
                Export::AddInternalCall => "mono_add_internal_call",
                Export::StringNew => "mono_string_new",
                Export::RuntimeInvoke => "mono_runtime_invoke",
                Export::MethodGetName => "mono_method_get_name",
                Export::DebugDomainCreate => "mono_debug_domain_create",
                Export::DomainSetConfig => "mono_domain_set_config",
                Export::DomainAssemblyOpen => "mono_domain_assembly_open",
                Export::AssemblyGetImage => "mono_assembly_get_image",
                Export::ClassFromName => "mono_class_from_name",
                Export::InstallPreloadHook => "mono_install_assembly_preload_hook",
                Export::InstallLoadHook => "mono_install_assembly_load_hook",
                Export::InstallSearchHook => "mono_install_assembly_search_hook",
                Export::AssemblyForeach => "mono_assembly_foreach",
                Export::AssemblyGetName => "mono_assembly_get_name",
                Export::ClassGetName => "mono_class_get_name",
                Export::ClassGetPropertyFromName => "mono_class_get_property_from_name",
                Export::PropertyGetName => "mono_property_get_name",
                Export::PropertyGetGetMethod => "mono_property_get_get_method",
                Export::PropertyGetSetMethod => "mono_property_get_set_method",
                Export::MethodGetUnmanagedThunk => "mono_method_get_unmanaged_thunk",
            },
        ),
        Backend::Il2Cpp => match e {
            Export::RootDomain => Some("il2cpp_domain_get"),
            Export::ThreadCurrent => Some("il2cpp_thread_current"),
            Export::ThreadAttach => Some("il2cpp_thread_attach"),
            Export::AddInternalCall => Some("il2cpp_add_internal_call"),
            Export::StringNew => Some("il2cpp_string_new"),
            Export::RuntimeInvoke => Some("il2cpp_runtime_invoke"),
            Export::MethodGetName => Some("il2cpp_method_get_name"),
            _ => None,
        },
    }
}

/// The outcome of one symbol lookup, normalised: a lookup that failed or
/// that produced a null address means the capability is unavailable.
pub fn get_function_option<E>(lookup: Result<usize, E>) -> (r: Option<usize>)
    ensures
        r == match lookup {
            Ok(a) => if a != 0 { Some(a) } else { None },
            Err(_) => None,
        },
{
    match lookup {
        Ok(a) => if a != 0 { Some(a) } else { None },
        Err(_) => None,
    }
}

/// Lazily filled table from export to resolved native function address.
///
/// Every entry is independently optional: an absent entry means the
/// capability is unavailable, never that loading failed.
pub struct SymbolTable {
    backend: Backend,
    entries: Vec<Option<usize>>,
}

impl SymbolTable {
    pub closed spec fn wf(self) -> bool {
        &&& self.entries@.len() == EXPORT_COUNT
        &&& forall|e: Export| #[trigger] self.entries@[e.idx()] != Some(0usize)
        &&& forall|e: Export| !offers(self.backend, e) ==> (#[trigger] self.entries@[e.idx()]).is_none()
    }

    pub closed spec fn spec_backend(self) -> Backend {
        self.backend
    }

    /// What the table holds for an export.
    pub closed spec fn spec_resolve(self, e: Export) -> Option<usize> {
        self.entries@[e.idx()]
    }

    /// A table in which nothing has been resolved yet.
    pub fn new(backend: Backend) -> (t: SymbolTable)
        ensures
            t.wf(),
            t.spec_backend() == backend,
            forall|e: Export| t.spec_resolve(e).is_none(),
    {
        let mut entries: Vec<Option<usize>> = Vec::new();
        let mut i: usize = 0;
        while i < EXPORT_COUNT
            invariant
                i <= EXPORT_COUNT,
                entries@.len() == i,
                forall|j: int| 0 <= j < i ==> entries@[j].is_none(),
            decreases EXPORT_COUNT - i,
        {
            entries.push(None);
            i = i + 1;
        }
        SymbolTable { backend, entries }
    }

    pub fn backend(&self) -> (b: Backend)
        ensures
            b == self.spec_backend(),
    {
        self.backend
    }

    /// Records the outcome of looking an export up in the backend's
    /// library. Exports that the backend does not offer stay absent, and a
    /// null address counts as absent.
    pub fn record(&mut self, e: Export, lookup: Option<usize>)
        requires
            old(self).wf(),
        ensures
            final(self).wf(),
            final(self).spec_backend() == old(self).spec_backend(),
            final(self).spec_resolve(e) == (if offers(old(self).spec_backend(), e) && lookup != Some(0usize) {
                lookup
            } else {
                old(self).spec_resolve(e)
            }),
            forall|o: Export| o != e ==> final(self).spec_resolve(o) == old(self).spec_resolve(o),
    {
        if export_name(self.backend, e).is_some() && lookup != Some(0usize) {
            let i = e.index();
            self.entries.set(i, lookup);
        }
    }

    /// Exact lookup of an export: `None` means the capability is unavailable.
    pub fn resolve(&self, e: Export) -> (r: Option<usize>)
        requires
            self.wf(),
        ensures
            r == self.spec_resolve(e),
            r != Some(0usize),
            !offers(self.spec_backend(), e) ==> r.is_none(),
    {
        let i = e.index();
        self.entries[i]
    }
}

} // verus!
